//! Which methods are `async` or return `impl Trait`.

use vstd::prelude::*;
use crate::tokens::str_eq;
use crate::model::{PathModel, Bound, BoundKind, TypeKind, Sig};
use crate::print::{BoundView, TyView, SigView, bvs, sig_view};

verus! {

/// Whether one of the bound values names `Future`.
pub open spec fn has_future_view(bs: Seq<BoundView>) -> bool {
    exists|i: int| 0 <= i < bs.len() && #[trigger] bs[i].future
}

/// Whether the signature value is `async`, or returns `impl Future`.
pub open spec fn is_async_v(v: SigView) -> bool {
    v.asyncness || match v.output_kind {
        Some(TyView::Impl(bs)) => has_future_view(bs),
        _ => false,
    }
}

/// Whether the signature value is not `async` and returns `impl Trait`.
pub open spec fn is_rpit_v(v: SigView) -> bool {
    !v.asyncness && match v.output_kind {
        Some(TyView::Impl(_)) => true,
        _ => false,
    }
}

pub proof fn lemma_future_view(bs: Seq<Bound>)
    ensures
        has_future_bound(bs) == has_future_view(bvs(bs)),
{
    if has_future_bound(bs) {
        let i = choose|i: int| 0 <= i < bs.len() && is_future_bound(#[trigger] bs[i]);
        assert(bvs(bs)[i].future);
    }
    if has_future_view(bvs(bs)) {
        let i = choose|i: int| 0 <= i < bvs(bs).len() && #[trigger] bvs(bs)[i].future;
        assert(is_future_bound(bs[i]));
    }
}

/// The properties of a signature agree with those of its value.
pub proof fn lemma_async_view(sig: Sig)
    ensures
        spec_is_async(sig) == is_async_v(sig_view(sig)),
        spec_is_rpit(sig) == is_rpit_v(sig_view(sig)),
{
    match sig.output {
        Some(t) => match t.kind {
            TypeKind::ImplTrait(bs) => lemma_future_view(bs@),
            _ => {},
        },
        None => {},
    }
}

/// Whether a path names `Future`: the bare `Future` (as brought in by a
/// `use`), or `core::future::Future` or `std::future::Future`, with any
/// arguments and with or without a leading `::`.
pub open spec fn is_future_path(p: PathModel) -> bool {
    ||| p.segments.len() == 1 && p.segments[0].ident@ == "Future"@
    ||| {
        &&& p.segments.len() == 3
        &&& (p.segments[0].ident@ == "core"@ || p.segments[0].ident@ == "std"@)
        &&& p.segments[1].ident@ == "future"@
        &&& p.segments[2].ident@ == "Future"@
    }
}

/// Whether a bound is a `Future` trait bound.
pub open spec fn is_future_bound(b: Bound) -> bool {
    match b.kind {
        BoundKind::Trait(p) => is_future_path(p),
        _ => false,
    }
}

/// Whether one of the bounds is a `Future` trait bound.
pub open spec fn has_future_bound(bs: Seq<Bound>) -> bool {
    exists|i: int| 0 <= i < bs.len() && is_future_bound(#[trigger] bs[i])
}

/// Whether the signature is `async`, or returns `impl Future`.
pub open spec fn spec_is_async(sig: Sig) -> bool {
    sig.asyncness || match sig.output {
        Some(t) => match t.kind {
            TypeKind::ImplTrait(bs) => has_future_bound(bs@),
            _ => false,
        },
        None => false,
    }
}

/// Whether the signature is not `async` and returns `impl Trait`.
pub open spec fn spec_is_rpit(sig: Sig) -> bool {
    !sig.asyncness && match sig.output {
        Some(t) => t.kind is ImplTrait,
        None => false,
    }
}

/// Whether a path names `Future`, as `is_future_path` says.
pub fn is_future_path_exec(p: &PathModel) -> (r: bool)
    ensures
        r == is_future_path(*p),
{
    (p.segments.len() == 1 && str_eq(&p.segments[0].ident, "Future")) || (p.segments.len() == 3
        && (str_eq(&p.segments[0].ident, "core") || str_eq(&p.segments[0].ident, "std"))
        && str_eq(&p.segments[1].ident, "future") && str_eq(&p.segments[2].ident, "Future"))
}

/// Whether the bounds of an `impl Trait` name `Future`.
pub fn is_future(bs: &Vec<Bound>) -> (r: bool)
    ensures
        r == has_future_bound(bs@),
{
    let mut i: usize = 0;
    while i < bs.len()
        invariant
            0 <= i <= bs.len(),
            forall|j: int| 0 <= j < i ==> !is_future_bound(#[trigger] bs@[j]),
        decreases bs.len() - i,
    {
        if let BoundKind::Trait(p) = &bs[i].kind {
            if is_future_path_exec(p) {
                return true;
            }
        }
        i = i + 1;
    }
    false
}

/// Whether the method is `async` or returns `impl Future`.
pub fn is_async(sig: &Sig) -> (r: bool)
    ensures
        r == spec_is_async(*sig),
{
    if sig.asyncness {
        return true;
    }
    match &sig.output {
        Some(t) => match &t.kind {
            TypeKind::ImplTrait(bs) => is_future(bs),
            _ => false,
        },
        None => false,
    }
}

/// Whether the method is not `async` and returns `impl Trait`.
pub fn is_rpit(sig: &Sig) -> (r: bool)
    ensures
        r == spec_is_rpit(*sig),
{
    if sig.asyncness {
        return false;
    }
    match &sig.output {
        Some(t) => match &t.kind {
            TypeKind::ImplTrait(_) => true,
            _ => false,
        },
        None => false,
    }
}

/// An `async fn` counts as async and never as returning `impl Trait`.
pub proof fn law_async_is_not_rpit(sig: Sig)
    requires
        sig.asyncness,
    ensures
        spec_is_async(sig),
        !spec_is_rpit(sig),
{
}

} // verus!
