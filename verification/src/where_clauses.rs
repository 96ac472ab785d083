//! `where Self: Sized` on a method.

use vstd::prelude::*;
use crate::tokens::str_eq;
use crate::model::{PathModel, Bound, BoundKind, TypeKind, PredKind, Predicate, Sig};

verus! {

/// The identifier that a path consists of, if it is a single plain identifier.
pub open spec fn get_ident(p: PathModel) -> Option<Seq<char>> {
    if !p.leading_colon && p.segments.len() == 1 && p.segments[0].args.len() == 0 {
        Some(p.segments[0].ident@)
    } else {
        None
    }
}

/// Whether a bound is the trait bound `Sized` (or `?Sized`).
pub open spec fn is_sized_bound(b: Bound) -> bool {
    match b.kind {
        BoundKind::Trait(p) => get_ident(p) == Some("Sized"@),
        _ => false,
    }
}

/// Whether one of the bounds is the trait bound `Sized` (or `?Sized`).
pub open spec fn has_sized_bound(bs: Seq<Bound>) -> bool {
    exists|i: int| 0 <= i < bs.len() && is_sized_bound(#[trigger] bs[i])
}

/// Whether a predicate reads `Self: ... Sized ...`.
pub open spec fn is_self_sized(p: Predicate) -> bool {
    match p.kind {
        PredKind::Type { bounded, bounds } => match bounded.kind {
            TypeKind::Path(path) => get_ident(path) == Some("Self"@) && has_sized_bound(bounds@),
            _ => false,
        },
        _ => false,
    }
}

/// Whether the where clause of the signature holds `Self: Sized`.
pub open spec fn spec_has_where_self_sized(sig: Sig) -> bool {
    match sig.generics.where_clause {
        Some(ps) => has_self_sized(ps@),
        None => false,
    }
}

/// Whether one of the predicates reads `Self: ... Sized ...`.
pub open spec fn has_self_sized(ps: Seq<Predicate>) -> bool {
    exists|i: int| 0 <= i < ps.len() && is_self_sized(#[trigger] ps[i])
}

fn path_is_ident(p: &PathModel, s: &str) -> (r: bool)
    ensures
        r == (get_ident(*p) == Some(s@)),
{
    !p.leading_colon && p.segments.len() == 1 && p.segments[0].args.len() == 0 && str_eq(
        &p.segments[0].ident,
        s,
    )
}

fn sized_bound(bs: &Vec<Bound>) -> (r: bool)
    ensures
        r == has_sized_bound(bs@),
{
    let mut i: usize = 0;
    while i < bs.len()
        invariant
            0 <= i <= bs.len(),
            forall|j: int| 0 <= j < i ==> !is_sized_bound(#[trigger] bs@[j]),
        decreases bs.len() - i,
    {
        if let BoundKind::Trait(p) = &bs[i].kind {
            if path_is_ident(p, "Sized") {
                return true;
            }
        }
        i = i + 1;
    }
    false
}

fn pred_is_self_sized(p: &Predicate) -> (r: bool)
    ensures
        r == is_self_sized(*p),
{
    match &p.kind {
        PredKind::Type { bounded, bounds } => match &bounded.kind {
            TypeKind::Path(path) => path_is_ident(path, "Self") && sized_bound(bounds),
            _ => false,
        },
        _ => false,
    }
}

/// Whether the method has `where Self: Sized`.
pub fn has_where_self_sized(sig: &Sig) -> (r: bool)
    ensures
        r == spec_has_where_self_sized(*sig),
{
    match &sig.generics.where_clause {
        Some(ps) => {
            let mut i: usize = 0;
            while i < ps.len()
                invariant
                    0 <= i <= ps.len(),
                    sig.generics.where_clause == Some(*ps),
                    forall|j: int| 0 <= j < i ==> !is_self_sized(#[trigger] ps@[j]),
                decreases ps.len() - i,
            {
                if pred_is_self_sized(&ps[i]) {
                    assert(is_self_sized(ps@[i as int]));
                    assert(has_self_sized(ps@));
                    return true;
                }
                i = i + 1;
            }
            false
        },
        None => false,
    }
}

/// The where clause, created empty if there is none.
pub fn where_clause_or_default(clause: &mut Option<Vec<Predicate>>) -> (r: &mut Vec<Predicate>)
    ensures
        r@ == match *old(clause) {
            Some(ps) => ps@,
            None => Seq::<Predicate>::empty(),
        },
        *final(clause) == Some(*final(r)),
{
    clause.get_or_insert(Vec::new())
}

} // verus!
