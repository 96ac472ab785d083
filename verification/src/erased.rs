//! The erased trait, whose methods return boxed values so that it can stand
//! behind `dyn`, and its blanket impl for every implementation of the trait.

use vstd::prelude::*;
use crate::tokens::{
    Tok, SpecTok, Delim, vv, id, pu, colon2, group, push_ident, push_ident_string, push_punct,
    push_colon2, push_open, push_close, append_toks, copy_toks,
};
use crate::model::{
    Sig, ArgModel,
    PathSegment, PathModel, Bound, BoundKind, ParamModel, GenericsModel, ItemModel, TraitItemKind,
    TraitModel, vvs, concat, append_concat,
};
use crate::print::{
    ParamView, sig_view, sig_view_toks, print_sig, print_params, print_bounds, print_where,
    params_toks, bounds_toks, where_toks, where_view_toks, where_view, pvs, param_view,
    bound_parts,
};
use crate::expand::{
    views_size, view_ty_len, apits_v, arg_names_v, apit_lifetime, expand_arg_names, expand_apits,
    lemma_views_size_prefix,
    fn_sig_v, sig_fits, split_generics, split_generics_toks, expand_fn_sig, error_tok, push_error,
    avs,
};
use crate::forward::{blanket_fn_toks, expand_blanket_impl_fn, qself, push_qself};
use crate::traits::{compatible_indices, dyn_compatible_items, trait_item_erased_name};
use crate::where_clauses::{spec_has_where_self_sized, has_where_self_sized};

verus! {

/// Whether the item, if it is a method, fits the machine's limits (see `sig_fits`).
pub open spec fn item_fits(it: ItemModel) -> bool {
    match it.kind {
        TraitItemKind::Fn(sig) => sig_fits(sig),
        _ => true,
    }
}

/// Whether every method of the trait fits the machine's limits.
pub open spec fn trait_fits(t: TraitModel) -> bool {
    forall|i: int| 0 <= i < t.items.len() ==> #[trigger] item_fits(t.items@[i])
}

/// Whether the method fits the machine's limits, as `sig_fits` says.
pub fn sig_fits_exec(sig: &Sig) -> (r: bool)
    ensures
        r == sig_fits(*sig),
{
    if sig.inputs.len() == usize::MAX {
        return false;
    }
    let mut s = sig.copy();
    assert(avs(s.inputs@) =~= sig_view(s).inputs);
    assert(avs(sig.inputs@) =~= sig_view(*sig).inputs);
    expand_arg_names(&mut s);
    let ghost s1 = s;
    assert(apit_lifetime(s1) == apit_lifetime(*sig));
    expand_apits(&mut s);
    let ghost a = sig_view(s).inputs;
    assert(a == apits_v(arg_names_v(avs(sig.inputs@)), apit_lifetime(*sig)));
    let mut total: usize = 0;
    let mut i: usize = 0;
    while i < s.inputs.len()
        invariant
            i <= s.inputs.len(),
            a == sig_view(s).inputs,
            a == apits_v(arg_names_v(avs(sig.inputs@)), apit_lifetime(*sig)),
            sig.inputs.len() < usize::MAX,
            total == views_size(a.take(i as int)),
            total < usize::MAX,
        decreases s.inputs.len() - i,
    {
        let n = match &s.inputs[i] {
            ArgModel::Receiver(r) => r.ty.toks.len(),
            ArgModel::Typed(t) => t.ty.toks.len(),
        };
        assert(a.take(i + 1).drop_last() =~= a.take(i as int));
        assert(n == view_ty_len(a[i as int]));
        assert(a.take(i + 1).last() == a[i as int]);
        assert(views_size(a.take(i + 1)) == total + n + 1);
        if n >= usize::MAX - 1 - total {
            proof {
                lemma_views_size_prefix(a, i + 1);
            }
            assert(views_size(a) >= usize::MAX);
            return false;
        }
        total = total + n + 1;
        i = i + 1;
    }
    assert(a.take(i as int) =~= a);
    true
}

/// Whether every method of the trait fits the machine's limits, as `trait_fits` says.
pub fn trait_fits_exec(t: &TraitModel) -> (r: bool)
    ensures
        r == trait_fits(*t),
{
    let mut i: usize = 0;
    while i < t.items.len()
        invariant
            i <= t.items.len(),
            forall|j: int| 0 <= j < i ==> #[trigger] item_fits(t.items@[j]),
        decreases t.items.len() - i,
    {
        if let TraitItemKind::Fn(sig) = &t.items[i].kind {
            if !sig_fits_exec(sig) {
                assert(!item_fits(t.items@[i as int]));
                return false;
            }
        }
        i = i + 1;
    }
    true
}

/// The indices of the dyn-compatible items lie among the items.
pub proof fn lemma_compatible_indices(items: Seq<ItemModel>)
    ensures
        forall|j: int|
            0 <= j < compatible_indices(items).len() ==> 0 <= #[trigger] compatible_indices(
                items,
            )[j] < items.len(),
    decreases items.len(),
{
    if items.len() > 0 {
        lemma_compatible_indices(items.drop_last());
        let r = compatible_indices(items.drop_last());
        assert forall|j: int| 0 <= j < compatible_indices(items).len() implies 0
            <= #[trigger] compatible_indices(items)[j] < items.len() by {
            if j < r.len() {
                assert(compatible_indices(items)[j] == r[j]);
            }
        }
    }
}

/// The name of the erased trait: `Erased` and the trait's name.
pub open spec fn erased_name(ident: Seq<char>) -> Seq<char> {
    "Erased"@ + ident
}

/// An item of the erased trait: a method loses its default body and gets
/// the signature that `fn_sig_v` gives it; other items stay as they are.
pub open spec fn erased_item_toks(tg: Seq<ParamView>, it: ItemModel) -> Seq<SpecTok> {
    match it.kind {
        TraitItemKind::Fn(sig) => vv(it.attrs) + sig_view_toks(fn_sig_v(tg, sig_view(sig))) + seq![
            pu(';'),
        ],
        _ => vv(it.toks),
    }
}

/// `: Bounds`, or nothing if there are no supertraits.
pub open spec fn supertraits_toks(bs: Seq<Bound>) -> Seq<SpecTok> {
    if bs.len() == 0 {
        seq![]
    } else {
        seq![pu(':')] + bounds_toks(bs)
    }
}

/// The erased trait: the trait under the name `Erased..`, with its
/// dyn-compatible items, each as `erased_item_toks` writes it.
pub open spec fn erased_trait_toks(t: TraitModel) -> Seq<SpecTok> {
    let tg = pvs(t.generics.params@);
    let items = compatible_indices(t.items@).map_values(
        |k: int| erased_item_toks(tg, t.items@[k]),
    );
    vv(t.head) + seq![SpecTok::Ident(erased_name(t.ident@))] + params_toks(t.generics.params@)
        + supertraits_toks(t.supertraits@) + where_toks(t.generics.where_clause) + group(
        Delim::Brace,
        vv(t.inner_attrs) + concat(items),
    )
}

fn erased_item(tg: &GenericsModel, it: &ItemModel) -> (r: Vec<Tok>)
    requires
        item_fits(*it),
    ensures
        vv(r) == erased_item_toks(pvs(tg.params@), *it),
{
    match &it.kind {
        TraitItemKind::Fn(sig) => {
            let mut s = sig.copy();
            assert(avs(s.inputs@) =~= sig_view(s).inputs);
            assert(avs(sig.inputs@) =~= sig_view(*sig).inputs);
            expand_fn_sig(tg, &mut s);
            let mut out = copy_toks(&it.attrs);
            print_sig(&mut out, &s);
            push_punct(&mut out, ';');
            assert(vv(out) =~= erased_item_toks(pvs(tg.params@), *it));
            out
        },
        _ => copy_toks(&it.toks),
    }
}

/// The erased trait, as `erased_trait_toks` says.
pub fn mk_erased_trait(item_trait: &TraitModel) -> (r: Vec<Tok>)
    requires
        trait_fits(*item_trait),
    ensures
        vv(r) == erased_trait_toks(*item_trait),
{
    let t = item_trait;
    let ghost tg = pvs(t.generics.params@);
    let ghost ci = compatible_indices(t.items@);
    let idx = dyn_compatible_items(&t.items);
    proof {
        lemma_compatible_indices(t.items@);
    }
    let mut parts: Vec<Vec<Tok>> = Vec::new();
    let mut i: usize = 0;
    while i < idx.len()
        invariant
            i <= idx.len(),
            idx@.map_values(|k: usize| k as int) == ci,
            ci == compatible_indices(t.items@),
            forall|j: int| 0 <= j < ci.len() ==> 0 <= #[trigger] ci[j] < t.items.len(),
            trait_fits(*t),
            tg == pvs(t.generics.params@),
            vvs(parts@) == ci.take(i as int).map_values(
                |k: int| erased_item_toks(tg, t.items@[k]),
            ),
        decreases idx.len() - i,
    {
        let k = idx[i];
        assert(ci[i as int] == k as int);
        assert(item_fits(t.items@[k as int]));
        let p = erased_item(&t.generics, &t.items[k]);
        let ghost before = parts@;
        parts.push(p);
        assert(vvs(parts@) =~= vvs(before).push(vv(p)));
        assert(vvs(parts@) =~= ci.take(i + 1).map_values(
            |k: int| erased_item_toks(tg, t.items@[k]),
        ));
        i = i + 1;
    }
    assert(ci.take(i as int) =~= ci);
    let mut out = copy_toks(&t.head);
    let name = trait_item_erased_name(&t.ident);
    push_ident_string(&mut out, &name);
    print_params(&mut out, &t.generics.params);
    if t.supertraits.len() > 0 {
        push_punct(&mut out, ':');
        print_bounds(&mut out, &t.supertraits);
    }
    print_where(&mut out, &t.generics.where_clause);
    push_open(&mut out, Delim::Brace);
    append_toks(&mut out, &t.inner_attrs);
    append_concat(&mut out, &parts);
    push_close(&mut out, Delim::Brace);
    assert(vv(out) =~= erased_trait_toks(*t));
    out
}

/// `type X<impl params> = prefix X<type params> where ..;`: an associated
/// type defined as the one that `prefix` names.
pub open spec fn assoc_type_toks(
    ident: Seq<char>,
    gps: Seq<ParamView>,
    w: Option<Seq<Seq<SpecTok>>>,
    prefix: Seq<SpecTok>,
) -> Seq<SpecTok> {
    seq![id("type"), SpecTok::Ident(ident)] + split_generics(gps, false) + seq![pu('=')] + prefix
        + seq![SpecTok::Ident(ident)] + split_generics(gps, true) + where_view_toks(w) + seq![
        pu(';'),
    ]
}

/// Writes `assoc_type_toks` for an associated type.
pub fn push_assoc_type(out: &mut Vec<Tok>, ident: &String, generics: &GenericsModel, prefix: &Vec<Tok>)
    ensures
        vv(*final(out)) == vv(*old(out)) + assoc_type_toks(
            ident@,
            pvs(generics.params@),
            where_view(generics.where_clause),
            vv(*prefix),
        ),
{
    let ghost start = vv(*out);
    let impl_generics = split_generics_toks(&generics.params, false);
    let ty_generics = split_generics_toks(&generics.params, true);
    push_ident(out, "type");
    push_ident_string(out, ident);
    append_toks(out, &impl_generics);
    push_punct(out, '=');
    append_toks(out, prefix);
    push_ident_string(out, ident);
    append_toks(out, &ty_generics);
    print_where(out, &generics.where_clause);
    push_punct(out, ';');
    assert(vv(*out) =~= start + assoc_type_toks(
        ident@,
        pvs(generics.params@),
        where_view(generics.where_clause),
        vv(*prefix),
    ));
}

/// An item of the erased trait's blanket impl: a method that calls the
/// trait's own, an associated type defined as the trait's, and an error
/// for a const or any other item.
pub open spec fn blanket_item_toks(t: TraitModel, it: ItemModel) -> Seq<SpecTok> {
    let tg = pvs(t.generics.params@);
    match it.kind {
        TraitItemKind::Const => error_tok("consts make the trait not dyn compatible"@),
        TraitItemKind::Fn(sig) => blanket_fn_toks(tg, t.ident@, sig_view(sig)),
        TraitItemKind::Type { ident, generics, .. } => assoc_type_toks(
            ident@,
            pvs(generics.params@),
            where_view(generics.where_clause),
            qself(seq![id("Self")], t.ident@, tg) + colon2(),
        ),
        TraitItemKind::Other => error_tok("unsupported item type"@),
    }
}

/// Whether the item is a method with `where Self: Sized`.
pub open spec fn item_sized(it: ItemModel) -> bool {
    match it.kind {
        TraitItemKind::Fn(sig) => spec_has_where_self_sized(sig),
        _ => false,
    }
}

/// The parameter `DYNOSAUR: Trait<params>` of the blanket impls.
pub open spec fn dynosaur_param(t: TraitModel) -> ParamView {
    ParamView::Type {
        attrs: seq![],
        ident: "DYNOSAUR"@,
        bounds: seq![seq![SpecTok::Ident(t.ident@)] + split_generics(pvs(t.generics.params@), true)],
        default: None,
    }
}

/// The erased trait's blanket impl for every `DYNOSAUR` that implements
/// the trait; only an error where a method has `where Self: Sized`.
pub open spec fn erased_blanket_impl_toks(t: TraitModel) -> Seq<SpecTok> {
    if exists|i: int| 0 <= i < t.items.len() && #[trigger] item_sized(t.items@[i]) {
        error_tok("where Self: Sized is unsupported"@)
    } else {
        let tg = pvs(t.generics.params@);
        let items = compatible_indices(t.items@).map_values(
            |k: int| blanket_item_toks(t, t.items@[k]),
        );
        seq![id("impl")] + split_generics(tg.push(dynosaur_param(t)), false) + seq![
            SpecTok::Ident(erased_name(t.ident@)),
        ] + split_generics(tg, true) + seq![id("for"), id("DYNOSAUR")] + where_toks(
            t.generics.where_clause,
        ) + group(Delim::Brace, concat(items))
    }
}

fn blanket_item(t: &TraitModel, it: &ItemModel) -> (r: Vec<Tok>)
    requires
        item_fits(*it),
    ensures
        vv(r) == blanket_item_toks(*t, *it),
{
    let mut out: Vec<Tok> = Vec::new();
    match &it.kind {
        TraitItemKind::Const => push_error(&mut out, "consts make the trait not dyn compatible"),
        TraitItemKind::Fn(sig) => {
            let mut s = sig.copy();
            assert(avs(s.inputs@) =~= sig_view(s).inputs);
            assert(avs(sig.inputs@) =~= sig_view(*sig).inputs);
            out = expand_blanket_impl_fn(t, &mut s);
        },
        TraitItemKind::Type { ident, generics, .. } => {
            let tgen = split_generics_toks(&t.generics.params, true);
            let mut self_ty: Vec<Tok> = Vec::new();
            push_ident(&mut self_ty, "Self");
            let mut prefix: Vec<Tok> = Vec::new();
            push_qself(&mut prefix, &self_ty, &t.ident, &tgen);
            push_colon2(&mut prefix);
            assert(vv(prefix) =~= qself(seq![id("Self")], t.ident@, pvs(t.generics.params@))
                + colon2());
            push_assoc_type(&mut out, ident, generics, &prefix);
        },
        TraitItemKind::Other => push_error(&mut out, "unsupported item type"),
    }
    assert(vv(out) =~= blanket_item_toks(*t, *it));
    out
}

/// The parameters of the trait followed by `DYNOSAUR: Trait<params>`.
pub fn blanket_params(t: &TraitModel) -> (r: Vec<ParamModel>)
    ensures
        pvs(r@) == pvs(t.generics.params@).push(dynosaur_param(*t)),
{
    let tgen = split_generics_toks(&t.generics.params, true);
    let mut bound_toks: Vec<Tok> = Vec::new();
    push_ident_string(&mut bound_toks, &t.ident);
    append_toks(&mut bound_toks, &tgen);
    let mut segments: Vec<PathSegment> = Vec::new();
    segments.push(PathSegment { ident: t.ident.clone(), args: tgen });
    let mut bounds: Vec<Bound> = Vec::new();
    bounds.push(
        Bound {
            kind: BoundKind::Trait(PathModel { leading_colon: false, segments }),
            toks: bound_toks,
        },
    );
    let attrs: Vec<Tok> = Vec::new();
    assert(vv(attrs) =~= Seq::<SpecTok>::empty());
    let d = ParamModel::Type {
        attrs,
        ident: String::from_str("DYNOSAUR"),
        bounds,
        default: None,
    };
    let g = t.generics.copy();
    let mut ps = g.params;
    let ghost before = ps@;
    ps.push(d);
    assert(bound_parts(bounds@) =~= seq![
        seq![SpecTok::Ident(t.ident@)] + split_generics(pvs(t.generics.params@), true),
    ]);
    assert(param_view(d) == dynosaur_param(*t));
    assert(pvs(ps@) =~= pvs(before).push(param_view(d)));
    ps
}

/// Whether a method of the trait has `where Self: Sized`.
fn has_sized_method(t: &TraitModel) -> (r: bool)
    ensures
        r == exists|i: int| 0 <= i < t.items.len() && #[trigger] item_sized(t.items@[i]),
{
    let mut j: usize = 0;
    while j < t.items.len()
        invariant
            j <= t.items.len(),
            forall|m: int| 0 <= m < j ==> !#[trigger] item_sized(t.items@[m]),
        decreases t.items.len() - j,
    {
        if let TraitItemKind::Fn(sig) = &t.items[j].kind {
            if has_where_self_sized(sig) {
                assert(item_sized(t.items@[j as int]));
                return true;
            }
        }
        j = j + 1;
    }
    false
}

/// The blanket impl of the erased trait, as `erased_blanket_impl_toks` says.
pub fn mk_erased_trait_blanket_impl(item_trait: &TraitModel) -> (r: Vec<Tok>)
    requires
        trait_fits(*item_trait),
    ensures
        vv(r) == erased_blanket_impl_toks(*item_trait),
{
    let t = item_trait;
    if has_sized_method(t) {
        let mut out: Vec<Tok> = Vec::new();
        push_error(&mut out, "where Self: Sized is unsupported");
        assert(vv(out) =~= error_tok("where Self: Sized is unsupported"@));
        return out;
    }
    let ghost ci = compatible_indices(t.items@);
    let idx = dyn_compatible_items(&t.items);
    proof {
        lemma_compatible_indices(t.items@);
    }
    let mut parts: Vec<Vec<Tok>> = Vec::new();
    let mut i: usize = 0;
    while i < idx.len()
        invariant
            i <= idx.len(),
            idx@.map_values(|k: usize| k as int) == ci,
            ci == compatible_indices(t.items@),
            forall|j: int| 0 <= j < ci.len() ==> 0 <= #[trigger] ci[j] < t.items.len(),
            trait_fits(*t),
            vvs(parts@) == ci.take(i as int).map_values(|k: int| blanket_item_toks(*t, t.items@[k])),
        decreases idx.len() - i,
    {
        let k = idx[i];
        assert(ci[i as int] == k as int);
        assert(item_fits(t.items@[k as int]));
        let p = blanket_item(t, &t.items[k]);
        let ghost before = parts@;
        parts.push(p);
        assert(vvs(parts@) =~= vvs(before).push(vv(p)));
        assert(vvs(parts@) =~= ci.take(i + 1).map_values(
            |k: int| blanket_item_toks(*t, t.items@[k]),
        ));
        i = i + 1;
    }
    assert(ci.take(i as int) =~= ci);
    let ps = blanket_params(t);
    let impl_generics = split_generics_toks(&ps, false);
    let trait_generics = split_generics_toks(&t.generics.params, true);
    let name = trait_item_erased_name(&t.ident);
    let mut out: Vec<Tok> = Vec::new();
    push_ident(&mut out, "impl");
    append_toks(&mut out, &impl_generics);
    push_ident_string(&mut out, &name);
    append_toks(&mut out, &trait_generics);
    push_ident(&mut out, "for");
    push_ident(&mut out, "DYNOSAUR");
    print_where(&mut out, &t.generics.where_clause);
    push_open(&mut out, Delim::Brace);
    append_concat(&mut out, &parts);
    push_close(&mut out, Delim::Brace);
    assert(vv(out) =~= erased_blanket_impl_toks(*t));
    out
}

} // verus!
