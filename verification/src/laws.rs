//! Properties of the expansion as a whole.

use vstd::prelude::*;
use crate::tokens::SpecTok;
use crate::model::{
    ItemModel, TraitModel, Predicate, Sig, TypeKind, BoundKind, PathModel, ArgModel, PatKind, join,
};
use crate::print::{ArgView, SigView, ParamView};
use crate::sig::{is_async_v, is_rpit_v, spec_is_async, is_future_bound, has_future_bound};
use crate::attrs::{SpecAttrs, Bridge};
use crate::expand::{
    arg_names_v, is_wild_arg, wild_count, rename_arg, fn_sig_v, pin_box_dyn, box_dyn,
    expanded_bounds, ret_parts_v, with_inputs, apits_v, apit_lifetime_v,
};
use crate::traits::{compatible_indices, dyn_compatible, assoc_parts};
use crate::erased::{
    item_sized, erased_trait_toks, erased_item_toks, erased_blanket_impl_toks, blanket_item_toks,
    dynosaur_param, erased_name, supertraits_toks,
};
use crate::bridge::{
    bridge_impl_toks, bridge_one, bridge_impl_generics, bridge_target, bridge_where,
    bridge_item_toks, receiver_errors, self_bounds, trait_preds, own_preds,
};
use crate::traits::{flags_of, trait_receivers};
use crate::forward::{blanket_fn_toks, qself, call_args};
use crate::model::concat;
use crate::print::{
    pvs, sig_view_toks, params_toks, where_toks, where_view, pred_parts, bound_parts, sig_view,
    arg_view,
};
use crate::tokens::{id, pu, vv, group, colon2, Delim};
use crate::expansion::{expansion_toks, chosen_bridge};
use crate::dyn_struct::{dyn_impl_toks, dyn_impl_item_toks};
use crate::traits::spec_struct_trait_params;

verus! {

/// The trait itself comes out unchanged, in front of everything else; and
/// where the attribute names another trait, nothing else comes out.
pub proof fn law_trait_kept(a: SpecAttrs, t: TraitModel, m: Seq<char>)
    ensures
        vv_prefix(t, expansion_toks(a, t, m)),
        a.trait_name != t.ident@ ==> expansion_toks(a, t, m) == crate::tokens::vv(t.toks),
{
    let e = expansion_toks(a, t, m);
    let p = crate::tokens::vv(t.toks);
    assert(e.take(p.len() as int) =~= p);
}

/// Whether the tokens begin with those of the trait.
pub open spec fn vv_prefix(t: TraitModel, e: Seq<SpecTok>) -> bool {
    let p = crate::tokens::vv(t.toks);
    p.len() <= e.len() && e.take(p.len() as int) == p
}

/// `bridge(none)` writes no bridge impl, and an attribute without a
/// `bridge` option writes those of `bridge(blanket)`.
pub proof fn law_bridge_none(s: Seq<char>, t: TraitModel)
    ensures
        bridge_impl_toks(s, t, Bridge::Disabled) == Seq::<SpecTok>::empty(),
        chosen_bridge(None) == Bridge::Blanket,
{
}

proof fn lemma_no_wild_count(args: Seq<ArgView>)
    requires
        forall|i: int| 0 <= i < args.len() ==> !#[trigger] is_wild_arg(args[i]),
    ensures
        wild_count(args) == 0,
    decreases args.len(),
{
    if args.len() > 0 {
        lemma_no_wild_count(args.drop_last());
    }
}

/// Naming the `_` arguments leaves no `_` argument, keeps the number of
/// arguments, and naming them again changes nothing.
pub proof fn law_arg_names(args: Seq<ArgView>)
    ensures
        arg_names_v(args).len() == args.len(),
        forall|i: int| 0 <= i < args.len() ==> !#[trigger] is_wild_arg(arg_names_v(args)[i]),
        arg_names_v(arg_names_v(args)) == arg_names_v(args),
{
    let r = arg_names_v(args);
    assert forall|i: int| 0 <= i < args.len() implies !#[trigger] is_wild_arg(r[i]) by {
        assert(r[i] == rename_arg(args[i], wild_count(args.take(i)) + 1));
    }
    assert forall|j: int| 0 <= j < r.len() implies #[trigger] arg_names_v(r)[j] == r[j] by {
        let p = r.take(j);
        assert forall|i: int| 0 <= i < p.len() implies !#[trigger] is_wild_arg(p[i]) by {
            assert(p[i] == r[i]);
        }
        lemma_no_wild_count(p);
    }
    assert(arg_names_v(r) =~= r);
}

proof fn lemma_collect_args_len(args: Seq<ArgView>, n: nat)
    ensures
        crate::lifetime::collect_args(args, n).0.len() == args.len(),
    decreases args.len(),
{
    if args.len() > 0 {
        let (a, m) = crate::lifetime::collect_arg(args[0], n);
        lemma_collect_args_len(args.drop_first(), m);
    }
}

/// What a method of the erased trait returns: an async method (or one
/// returning `impl Future`) a pinned box of `dyn Future<Output = ..> +
/// 'dynosaur`; one returning another `impl Trait` a box of `dyn Trait +
/// 'dynosaur`; any other method what it returned. The erased method is
/// never `async`, if the method returned a boxed value, and keeps its name
/// and the number of its arguments.
pub proof fn law_erased_returns(tg: Seq<ParamView>, v: SigView)
    ensures
        ({
            let e = fn_sig_v(tg, v);
            &&& e.ident == v.ident
            &&& e.inputs.len() == v.inputs.len()
            &&& is_async_v(v) ==> !e.asyncness && e.output == Some(
                pin_box_dyn(expanded_bounds(ret_parts_v(v), Some("dynosaur"@))),
            )
            &&& is_rpit_v(v) && !is_async_v(v) ==> !e.asyncness && e.output == Some(
                box_dyn(expanded_bounds(ret_parts_v(v), Some("dynosaur"@))),
            )
            &&& !is_async_v(v) && !is_rpit_v(v) ==> e.output == v.output && e.asyncness
                == v.asyncness
        }),
{
    let v1 = with_inputs(v, arg_names_v(v.inputs));
    let v2 = with_inputs(v1, apits_v(v1.inputs, apit_lifetime_v(v)));
    assert(v2.inputs.len() == v.inputs.len());
    if is_async_v(v) || is_rpit_v(v) {
        lemma_collect_args_len(v2.inputs, 0);
    }
}

/// The erased trait keeps exactly the items that are not methods with
/// `where Self: Sized`, in their order.
pub proof fn law_sized_methods_left_out(items: Seq<ItemModel>)
    ensures
        forall|j: int|
            0 <= j < compatible_indices(items).len() ==> !item_sized(
                items[#[trigger] compatible_indices(items)[j]],
            ),
        forall|i: int|
            0 <= i < items.len() && !#[trigger] item_sized(items[i]) ==> compatible_indices(
                items,
            ).contains(i),
        forall|j: int, k: int|
            0 <= j < k < compatible_indices(items).len() ==> #[trigger] compatible_indices(
                items,
            )[j] < #[trigger] compatible_indices(items)[k],
    decreases items.len(),
{
    if items.len() > 0 {
        let rest = items.drop_last();
        law_sized_methods_left_out(rest);
        crate::erased::lemma_compatible_indices(rest);
        let r = compatible_indices(rest);
        let c = compatible_indices(items);
        assert(dyn_compatible(items.last()) == !item_sized(items.last()));
        assert forall|j: int| 0 <= j < c.len() implies !item_sized(items[#[trigger] c[j]]) by {
            if j < r.len() {
                assert(c[j] == r[j]);
                assert(items[r[j]] == rest[r[j]]);
            }
        }
        assert forall|i: int| 0 <= i < items.len() && !#[trigger] item_sized(items[i]) implies c.contains(
            i,
        ) by {
            if i < rest.len() {
                assert(items[i] == rest[i]);
                let w = choose|w: int| 0 <= w < r.len() && r[w] == i;
                assert(c[w] == i);
            } else {
                assert(c[r.len() as int] == i);
            }
        }
        assert forall|j: int, k: int| 0 <= j < k < c.len() implies #[trigger] c[j] < #[trigger] c[k] by {
            if k < r.len() {
                assert(c[j] == r[j] && c[k] == r[k]);
            } else {
                assert(c[j] == r[j]);
            }
        }
    }
}

/// The items that the erased trait keeps.
pub open spec fn compatible_items(items: Seq<ItemModel>) -> Seq<ItemModel> {
    compatible_indices(items).map_values(|k: int| items[k])
}

/// The erased trait declares the same associated types as the trait, in
/// the same order; so the `Dyn` struct's parameters, which name them, are
/// the same whether read from the trait or from the erased trait.
pub proof fn law_erased_assoc_types(items: Seq<ItemModel>, form: nat)
    ensures
        assoc_parts(compatible_items(items), form) == assoc_parts(items, form),
    decreases items.len(),
{
    if items.len() > 0 {
        let rest = items.drop_last();
        law_erased_assoc_types(rest, form);
        crate::erased::lemma_compatible_indices(rest);
        let r = compatible_indices(rest);
        assert(r.map_values(|k: int| items[k]) =~= compatible_items(rest)) by {
            assert forall|j: int| 0 <= j < r.len() implies #[trigger] items[r[j]] == rest[r[j]] by {}
        }
        if dyn_compatible(items.last()) {
            assert(compatible_items(items) =~= compatible_items(rest).push(items.last()));
            assert(compatible_items(items).drop_last() =~= compatible_items(rest));
        } else {
            assert(compatible_items(items) =~= compatible_items(rest));
        }
    } else {
        assert(compatible_items(items) =~= Seq::<ItemModel>::empty());
    }
}

proof fn lemma_all_compatible(items: Seq<ItemModel>)
    requires
        forall|i: int| 0 <= i < items.len() ==> !#[trigger] item_sized(items[i]),
    ensures
        compatible_indices(items) == Seq::new(items.len(), |i: int| i),
    decreases items.len(),
{
    if items.len() > 0 {
        let rest = items.drop_last();
        assert forall|i: int| 0 <= i < rest.len() implies !#[trigger] item_sized(rest[i]) by {
            assert(rest[i] == items[i]);
        }
        lemma_all_compatible(rest);
        assert(dyn_compatible(items.last()) == !item_sized(items.last()));
        assert(!item_sized(items[items.len() - 1]));
        assert(compatible_indices(items) =~= Seq::new(items.len(), |i: int| i));
    } else {
        assert(compatible_indices(items) =~= Seq::new(items.len(), |i: int| i));
    }
}

/// The erased trait is the trait under the name `Erased..`, with the same
/// head, parameters, supertraits and where clause, and with the items that
/// the erased trait keeps (`compatible_items`), each as `erased_item_toks`
/// rewrites it, in their order.
pub proof fn law_erased_trait_items(t: TraitModel)
    ensures
        erased_trait_toks(t) == crate::tokens::vv(t.head) + seq![
            SpecTok::Ident(erased_name(t.ident@)),
        ] + params_toks(t.generics.params@) + all_supertraits(t) + predicates_clause(
            t.generics.where_clause,
        ) + group(
            Delim::Brace,
            crate::tokens::vv(t.inner_attrs) + concat(
                compatible_items(t.items@).map_values(
                    |it: ItemModel| erased_item_toks(pvs(t.generics.params@), it),
                ),
            ),
        ),
{
    let tg = pvs(t.generics.params@);
    assert(compatible_indices(t.items@).map_values(|k: int| erased_item_toks(tg, t.items@[k]))
        =~= compatible_items(t.items@).map_values(|it: ItemModel| erased_item_toks(tg, it)));
    lemma_supertraits(t);
    lemma_predicates_clause(t.generics.where_clause);
}

/// Where no method has `where Self: Sized`, the erased trait's blanket impl
/// holds one item for each item of the trait, in order, each as
/// `blanket_item_toks` writes it.
pub proof fn law_erased_blanket_items(t: TraitModel)
    requires
        forall|i: int| 0 <= i < t.items.len() ==> !#[trigger] item_sized(t.items@[i]),
    ensures
        erased_blanket_impl_toks(t) == seq![id("impl")] + crate::expand::split_generics(
            pvs(t.generics.params@).push(dynosaur_param(t)),
            false,
        ) + seq![SpecTok::Ident(erased_name(t.ident@))] + crate::expand::split_generics(
            pvs(t.generics.params@),
            true,
        ) + seq![id("for"), id("DYNOSAUR")] + where_toks(t.generics.where_clause) + group(
            Delim::Brace,
            concat(t.items@.map_values(|it: ItemModel| blanket_item_toks(t, it))),
        ),
{
    lemma_all_compatible(t.items@);
    assert(!(exists|i: int| 0 <= i < t.items.len() && #[trigger] item_sized(t.items@[i])));
    assert(compatible_indices(t.items@).map_values(|k: int| blanket_item_toks(t, t.items@[k]))
        =~= t.items@.map_values(|it: ItemModel| blanket_item_toks(t, it)));
}

/// The method of the erased trait's blanket impl has the erased signature
/// and calls `<Self as Trait<..>>::method` with the arguments of that
/// signature, the call wrapped in `Box::pin` for an async method and in
/// `Box::new` for one returning another `impl Trait`.
pub proof fn law_blanket_fn_body(tg: Seq<ParamView>, trait_ident: Seq<char>, v: SigView)
    ensures
        ({
            let e = fn_sig_v(tg, v);
            let call = qself(seq![id("Self")], trait_ident, tg) + colon2() + seq![
                SpecTok::Ident(v.ident),
            ] + call_args(crate::expand::invoke_args(e.inputs, true, true));
            blanket_fn_toks(tg, trait_ident, v) == sig_view_toks(e) + group(
                Delim::Brace,
                if is_async_v(v) {
                    crate::expand::box_call("pin"@, call)
                } else if is_rpit_v(v) {
                    crate::expand::box_call("new"@, call)
                } else {
                    call
                },
            )
        }),
{
}

/// Which bridge impls are written: after the errors for unsupported
/// receivers, the impl for `&X` if every receiver is `&self`, the one for
/// `&mut X` if every receiver is `&self` or `&mut self`, the one for
/// `Box<X>` unless a receiver is unsupported, each once and in that order,
/// and nothing else; `X` is `DYNOSAUR` for `bridge(blanket)` and the `Dyn`
/// struct for `bridge(dyn)`.
pub proof fn law_bridge_choice(s: Seq<char>, t: TraitModel, b: Bridge)
    requires
        b != Bridge::Disabled,
    ensures
        ({
            let r = flags_of(trait_receivers(t));
            let items = group(
                Delim::Brace,
                concat(t.items@.map_values(|it: ItemModel| bridge_item_toks(s, t, b, it))),
            );
            let head = seq![id("impl")] + bridge_impl_generics(t, b) + seq![
                SpecTok::Ident(t.ident@),
            ] + crate::expand::split_generics(pvs(t.generics.params@), true) + seq![id("for")];
            let tgt = bridge_target(s, t, b);
            let wb = bridge_where(t, b);
            &&& tgt == if b == Bridge::Blanket {
                seq![id("DYNOSAUR")]
            } else {
                crate::dyn_struct::self_ty_toks(s, t)
            }
            &&& bridge_impl_toks(s, t, b) == receiver_errors(r) + (if !r.mut_ref && !r.owned
                && !r.box_self && !r.other {
                bridge_one(0, head, tgt, wb, items)
            } else {
                seq![]
            }) + (if !r.owned && !r.box_self && !r.other {
                bridge_one(1, head, tgt, wb, items)
            } else {
                seq![]
            }) + (if !r.other {
                bridge_one(2, head, tgt, wb, items)
            } else {
                seq![]
            })
        }),
{
}

/// The tokens of each where-predicate, in order; none without a where clause.
pub open spec fn predicate_list(w: Option<Vec<Predicate>>) -> Seq<Seq<SpecTok>> {
    match w {
        Some(ps) => Seq::new(ps.len() as nat, |i: int| vv(ps@[i].toks)),
        None => seq![],
    }
}

/// `where p1, p2, ..` with every predicate, or nothing if there is none.
pub open spec fn predicates_clause(w: Option<Vec<Predicate>>) -> Seq<SpecTok> {
    if predicate_list(w).len() == 0 {
        seq![]
    } else {
        seq![id("where")] + join(predicate_list(w), pu(','))
    }
}

/// `: B1 + B2 + ..` with every supertrait, or nothing if there is none.
pub open spec fn all_supertraits(t: TraitModel) -> Seq<SpecTok> {
    if t.supertraits.len() == 0 {
        seq![]
    } else {
        seq![pu(':')] + join(
            Seq::new(t.supertraits.len() as nat, |i: int| vv(t.supertraits@[i].toks)),
            pu('+'),
        )
    }
}

proof fn lemma_supertraits(t: TraitModel)
    ensures
        supertraits_toks(t.supertraits@) == all_supertraits(t),
{
    assert(bound_parts(t.supertraits@) =~= Seq::new(
        t.supertraits.len() as nat,
        |i: int| vv(t.supertraits@[i].toks),
    ));
}

proof fn lemma_predicates_clause(w: Option<Vec<Predicate>>)
    ensures
        where_toks(w) == predicates_clause(w),
        trait_preds_of(w) == predicate_list(w),
{
    match w {
        Some(ps) => {
            assert(pred_parts(ps@) =~= predicate_list(w));
        },
        None => {},
    }
}

/// The where-predicates as the bridges read them.
spec fn trait_preds_of(w: Option<Vec<Predicate>>) -> Seq<Seq<SpecTok>> {
    match where_view(w) {
        Some(ps) => ps,
        None => seq![],
    }
}

/// Whether the path is `core::future::Future`, `std::future::Future` or a
/// bare `Future` (with any arguments).
pub open spec fn names_future(p: PathModel) -> bool {
    ||| p.segments.len() == 1 && p.segments@[0].ident@ == "Future"@
    ||| p.segments.len() == 3 && (p.segments@[0].ident@ == "core"@ || p.segments@[0].ident@
        == "std"@) && p.segments@[1].ident@ == "future"@ && p.segments@[2].ident@ == "Future"@
}

/// Whether the method returns `impl ..` whose bound at `k` is a trait bound
/// on a path that `names_future`.
pub open spec fn future_bound_at(sig: Sig, k: int) -> bool {
    match sig.output {
        Some(o) => match o.kind {
            TypeKind::ImplTrait(bs) => 0 <= k < bs.len() && match bs@[k].kind {
                BoundKind::Trait(p) => names_future(p),
                _ => false,
            },
            _ => false,
        },
        None => false,
    }
}

/// A path names `Future` when it is `core::future::Future`,
/// `std::future::Future` or a bare `Future`: so a method returning `impl`
/// of such a path counts as async, and the erased method returns a pinned
/// box of `dyn Future<..> + 'dynosaur`.
pub proof fn law_future_paths(tg: Seq<ParamView>, sig: Sig, k: int)
    requires
        future_bound_at(sig, k),
    ensures
        spec_is_async(sig),
        fn_sig_v(tg, sig_view(sig)).output == Some(
            pin_box_dyn(
                expanded_bounds(ret_parts_v(sig_view(sig)), Some("dynosaur"@)),
            ),
        ),
{
    match sig.output {
        Some(o) => match o.kind {
            TypeKind::ImplTrait(bs) => {
                assert(is_future_bound(bs@[k]));
                assert(has_future_bound(bs@));
            },
            _ => {},
        },
        None => {},
    }
    crate::sig::lemma_async_view(sig);
    law_erased_returns(tg, sig_view(sig));
}

/// Every bridge impl has one where clause: the trait's where-predicates,
/// then `DYNOSAUR: ?Sized` for the blanket bridge, then `Self: B` for every
/// supertrait `B`, in order; nothing if all three lists are empty.
pub proof fn law_bridge_where(t: TraitModel, b: Bridge)
    requires
        b != Bridge::Disabled,
    ensures
        ({
            let sized: Seq<Seq<SpecTok>> = if b == Bridge::Blanket {
                seq![seq![id("DYNOSAUR"), pu(':'), pu('?'), id("Sized")]]
            } else {
                seq![]
            };
            let selfs = Seq::new(
                t.supertraits.len() as nat,
                |i: int| seq![id("Self"), pu(':')] + vv(t.supertraits@[i].toks),
            );
            let ps = predicate_list(t.generics.where_clause) + sized + selfs;
            bridge_where(t, b) == if ps.len() == 0 {
                Seq::<SpecTok>::empty()
            } else {
                seq![id("where")] + join(ps, pu(','))
            }
        }),
{
    lemma_predicates_clause(t.generics.where_clause);
    let selfs = Seq::new(
        t.supertraits.len() as nat,
        |i: int| seq![id("Self"), pu(':')] + vv(t.supertraits@[i].toks),
    );
    assert(self_bounds(t) =~= selfs);
    let sized: Seq<Seq<SpecTok>> = if b == Bridge::Blanket {
        seq![seq![id("DYNOSAUR"), pu(':'), pu('?'), id("Sized")]]
    } else {
        seq![]
    };
    assert(own_preds(t, b) =~= sized + selfs);
    assert(trait_preds(t) + own_preds(t, b) =~= predicate_list(t.generics.where_clause) + sized
        + selfs);
}

/// The `Dyn` struct's impl of the trait carries the trait's where clause:
/// `impl<..> Trait<..> for Name<..> where p1, p2, .. { items }`, with every
/// where-predicate of the trait.
pub proof fn law_dyn_impl_where(s: Seq<char>, t: TraitModel)
    ensures
        ({
            let (sp, swb, _) = spec_struct_trait_params(t);
            dyn_impl_toks(s, t) == seq![id("impl")] + swb + seq![SpecTok::Ident(t.ident@)]
                + crate::expand::split_generics(pvs(t.generics.params@), true) + seq![
                id("for"),
                SpecTok::Ident(s),
            ] + sp + predicates_clause(t.generics.where_clause) + group(
                Delim::Brace,
                concat(t.items@.map_values(|it: ItemModel| dyn_impl_item_toks(it))),
            )
        }),
{
    lemma_predicates_clause(t.generics.where_clause);
}

/// Whether the argument's type is `impl ..` whose bound at `k` is a trait
/// bound on a path that `names_future`.
pub open spec fn future_arg_at(a: ArgModel, k: int) -> bool {
    match a {
        ArgModel::Typed(t) => match t.ty.kind {
            TypeKind::ImplTrait(bs) => 0 <= k < bs.len() && match bs@[k].kind {
                BoundKind::Trait(p) => names_future(p),
                _ => false,
            },
            _ => false,
        },
        _ => false,
    }
}

/// An argument of type `impl Future<..>` (any path that `names_future`)
/// becomes a pinned box `Pin<Box<dyn .. + 'l>>` in the erased signature,
/// and a forwarding call that boxes its arguments passes it as
/// `Box::pin(x)`.
pub proof fn law_future_args(a: ArgModel, k: int, l: Seq<char>)
    requires
        future_arg_at(a, k),
    ensures
        match a {
            ArgModel::Typed(t) => match t.ty.kind {
                TypeKind::ImplTrait(bs) => {
                    &&& crate::expand::apit_arg(arg_view(a), l) matches crate::print::ArgView::Typed { ty, .. }
                        && ty == pin_box_dyn(expanded_bounds(crate::expand::nonlt_parts(bs@), Some(l)))
                    &&& t.pat.kind == PatKind::Ident ==> crate::expand::invoke_arg(arg_view(a), true, true)
                        == seq![crate::expand::box_call("pin"@, vv(t.pat.toks))]
                },
                _ => false,
            },
            _ => false,
        },
{
    match a {
        ArgModel::Typed(t) => match t.ty.kind {
            TypeKind::ImplTrait(bs) => {
                assert(is_future_bound(bs@[k]));
                assert(has_future_bound(bs@));
                crate::sig::lemma_future_view(bs@);
            },
            _ => {},
        },
        _ => {},
    }
}

} // verus!
