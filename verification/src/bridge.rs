//! The bridge impls: the trait implemented for `&T`, `&mut T` and `Box<T>`
//! where `T` implements it (`bridge(blanket)`) or is the `Dyn` struct
//! (`bridge(dyn)`).

use vstd::prelude::*;
use crate::tokens::{
    copy_toks, Tok, SpecTok, Delim, vv, id, pu, colon2, group, push_ident, push_ident_string, push_punct,
    push_colon2, push_open, push_close, append_toks,
};
use crate::model::{ItemModel, TraitItemKind, TraitModel, vvs, concat, append_concat, join, append_joined};
use crate::print::{pred_parts, sig_view, pvs, where_view, bound_parts};
use crate::expand::{split_generics, split_generics_toks, error_tok, push_error};
use crate::forward::{InvokeArgsMode, ModeView, dyn_struct_fn_toks, expand_dyn_struct_fn, qself, push_qself};
use crate::erased::{item_fits, trait_fits, assoc_type_toks, push_assoc_type, dynosaur_param, blanket_params};
use crate::dyn_struct::self_ty_toks;
use crate::traits::{
    SelfReceiver, spec_struct_trait_params, struct_trait_params, flags_of, trait_receivers,
    self_receiver,
};
use crate::attrs::Bridge;
use crate::where_clauses::spec_has_where_self_sized;

verus! {

/// What a bridge impl's methods call through: `<DYNOSAUR as Trait<..>>`
/// for the blanket bridge, `<Name<..> as Trait<..>>` for the `dyn` bridge.
pub open spec fn bridge_self(s: Seq<char>, t: TraitModel, b: Bridge) -> Seq<SpecTok> {
    let tg = pvs(t.generics.params@);
    match b {
        Bridge::Blanket => qself(seq![id("DYNOSAUR")], t.ident@, tg),
        Bridge::Dyn => qself(self_ty_toks(s, t), t.ident@, tg),
        Bridge::Disabled => seq![],
    }
}

/// What a bridge impl's associated types are defined through:
/// `<DYNOSAUR as Trait<..>>::` for the blanket bridge, nothing otherwise.
pub open spec fn bridge_type_prefix(t: TraitModel, b: Bridge) -> Seq<SpecTok> {
    match b {
        Bridge::Blanket => qself(seq![id("DYNOSAUR")], t.ident@, pvs(t.generics.params@))
            + colon2(),
        _ => seq![],
    }
}

/// An item of a bridge impl: a method that forwards directly
/// (`dyn_struct_fn_toks` in the direct mode), an associated type, and an
/// error for a const or any other item.
pub open spec fn bridge_item_toks(s: Seq<char>, t: TraitModel, b: Bridge, it: ItemModel) -> Seq<
    SpecTok,
> {
    match it.kind {
        TraitItemKind::Const => error_tok("consts make the trait not dyn compatible"@),
        TraitItemKind::Fn(sig) => dyn_struct_fn_toks(
            sig_view(sig),
            spec_has_where_self_sized(sig),
            ModeView::Direct(bridge_self(s, t, b)),
        ),
        TraitItemKind::Type { ident, generics, .. } => assoc_type_toks(
            ident@,
            pvs(generics.params@),
            where_view(generics.where_clause),
            bridge_type_prefix(t, b),
        ),
        TraitItemKind::Other => error_tok("unsupported item type"@),
    }
}

/// The parameters after `impl`: the trait's and `DYNOSAUR: Trait<..>` for
/// the blanket bridge, the `Dyn` struct's for the `dyn` bridge.
pub open spec fn bridge_impl_generics(t: TraitModel, b: Bridge) -> Seq<SpecTok> {
    match b {
        Bridge::Blanket => split_generics(pvs(t.generics.params@).push(dynosaur_param(t)), false),
        _ => spec_struct_trait_params(t).1,
    }
}

/// The type behind the pointer: `DYNOSAUR`, or the `Dyn` struct.
pub open spec fn bridge_target(s: Seq<char>, t: TraitModel, b: Bridge) -> Seq<SpecTok> {
    match b {
        Bridge::Blanket => seq![id("DYNOSAUR")],
        _ => self_ty_toks(s, t),
    }
}

/// `Self: Supertrait` for each supertrait.
pub open spec fn self_bounds(t: TraitModel) -> Seq<Seq<SpecTok>> {
    bound_parts(t.supertraits@).map_values(|b: Seq<SpecTok>| seq![id("Self"), pu(':')] + b)
}

/// The where-predicates of the trait.
pub open spec fn trait_preds(t: TraitModel) -> Seq<Seq<SpecTok>> {
    match where_view(t.generics.where_clause) {
        Some(ps) => ps,
        None => seq![],
    }
}

/// The predicates that the bridge adds: `DYNOSAUR: ?Sized` for the blanket
/// bridge, then `Self: Supertrait` for each supertrait.
pub open spec fn own_preds(t: TraitModel, b: Bridge) -> Seq<Seq<SpecTok>> {
    match b {
        Bridge::Blanket => seq![seq![id("DYNOSAUR"), pu(':'), pu('?'), id("Sized")]] + self_bounds(t),
        _ => self_bounds(t),
    }
}

/// The one where clause of a bridge impl: the trait's predicates followed
/// by the bridge's own; nothing if there are none.
pub open spec fn bridge_where(t: TraitModel, b: Bridge) -> Seq<SpecTok> {
    let ps = trait_preds(t) + own_preds(t, b);
    if ps.len() == 0 {
        seq![]
    } else {
        seq![id("where")] + join(ps, pu(','))
    }
}

/// The errors for the receivers that no bridge impl supports.
pub open spec fn receiver_errors(r: SelfReceiver) -> Seq<SpecTok> {
    (if r.other {
        error_tok("unsupported self type"@)
    } else {
        seq![]
    }) + (if r.owned {
        error_tok("By value Self is not supported"@)
    } else {
        seq![]
    }) + (if r.box_self {
        error_tok("Box<Self> is not supported"@)
    } else {
        seq![]
    })
}

/// The bridge impls: nothing for `bridge(none)`; otherwise the errors for
/// unsupported receivers, then the impl for `&T` if every receiver is
/// `&self`, for `&mut T` if every receiver is `&self` or `&mut self`, and
/// for `Box<T>` unless a receiver is unsupported. Each impl has one where
/// clause, after the target type, as `bridge_where` says.
pub open spec fn bridge_impl_toks(s: Seq<char>, t: TraitModel, b: Bridge) -> Seq<SpecTok> {
    if b == Bridge::Disabled {
        seq![]
    } else {
        let r = flags_of(trait_receivers(t));
        let items = group(
            Delim::Brace,
            concat(t.items@.map_values(|it: ItemModel| bridge_item_toks(s, t, b, it))),
        );
        let head = seq![id("impl")] + bridge_impl_generics(t, b) + seq![SpecTok::Ident(t.ident@)]
            + split_generics(pvs(t.generics.params@), true) + seq![id("for")];
        let tgt = bridge_target(s, t, b);
        let wb = bridge_where(t, b);
        receiver_errors(r) + (if !r.mut_ref && !r.owned && !r.box_self && !r.other {
            bridge_one(0, head, tgt, wb, items)
        } else {
            seq![]
        }) + (if !r.owned && !r.box_self && !r.other {
            bridge_one(1, head, tgt, wb, items)
        } else {
            seq![]
        }) + (if !r.other {
            bridge_one(2, head, tgt, wb, items)
        } else {
            seq![]
        })
    }
}

/// One bridge impl, for `&T` (kind 0), `&mut T` (kind 1) or `Box<T>`
/// (otherwise), from its pieces.
pub open spec fn bridge_one(
    kind: nat,
    head: Seq<SpecTok>,
    tgt: Seq<SpecTok>,
    wb: Seq<SpecTok>,
    items: Seq<SpecTok>,
) -> Seq<SpecTok> {
    if kind == 0 {
        head + seq![pu('&')] + tgt + wb + items
    } else if kind == 1 {
        head + seq![pu('&'), id("mut")] + tgt + wb + items
    } else {
        head + seq![id("Box"), pu('<')] + tgt + seq![pu('>')] + wb + items
    }
}

/// The pieces of the bridge impls.
struct BridgeParts {
    head: Vec<Tok>,
    target: Vec<Tok>,
    own_where: Vec<Tok>,
    items: Vec<Tok>,
}

fn bridge_item(
    it: &ItemModel,
    self_path: &Vec<Tok>,
    type_prefix: &Vec<Tok>,
    Ghost(s): Ghost<Seq<char>>,
    Ghost(t): Ghost<TraitModel>,
    Ghost(b): Ghost<Bridge>,
) -> (r: Vec<Tok>)
    requires
        item_fits(*it),
        vv(*self_path) == bridge_self(s, t, b),
        vv(*type_prefix) == bridge_type_prefix(t, b),
    ensures
        vv(r) == bridge_item_toks(s, t, b, *it),
{
    let mut out: Vec<Tok> = Vec::new();
    match &it.kind {
        TraitItemKind::Const => push_error(&mut out, "consts make the trait not dyn compatible"),
        TraitItemKind::Fn(sig) => {
            let mode = InvokeArgsMode::DirectUfcs(copy_toks(self_path));
            out = expand_dyn_struct_fn(sig, &mode);
        },
        TraitItemKind::Type { ident, generics, .. } => {
            push_assoc_type(&mut out, ident, generics, type_prefix);
        },
        TraitItemKind::Other => push_error(&mut out, "unsupported item type"),
    }
    assert(vv(out) =~= bridge_item_toks(s, t, b, *it));
    out
}

fn bridge_items(s: &String, t: &TraitModel, b: Bridge, self_path: &Vec<Tok>, type_prefix: &Vec<Tok>) -> (r: Vec<Tok>)
    requires
        trait_fits(*t),
        vv(*self_path) == bridge_self(s@, *t, b),
        vv(*type_prefix) == bridge_type_prefix(*t, b),
    ensures
        vv(r) == group(
            Delim::Brace,
            concat(t.items@.map_values(|it: ItemModel| bridge_item_toks(s@, *t, b, it))),
        ),
{
    let mut parts: Vec<Vec<Tok>> = Vec::new();
    let mut i: usize = 0;
    while i < t.items.len()
        invariant
            i <= t.items.len(),
            trait_fits(*t),
            vv(*self_path) == bridge_self(s@, *t, b),
            vv(*type_prefix) == bridge_type_prefix(*t, b),
            vvs(parts@) == t.items@.take(i as int).map_values(
                |it: ItemModel| bridge_item_toks(s@, *t, b, it),
            ),
        decreases t.items.len() - i,
    {
        assert(item_fits(t.items@[i as int]));
        let p = bridge_item(&t.items[i], self_path, type_prefix, Ghost(s@), Ghost(*t), Ghost(b));
        let ghost before = parts@;
        parts.push(p);
        assert(vvs(parts@) =~= vvs(before).push(vv(p)));
        assert(vvs(parts@) =~= t.items@.take(i + 1).map_values(
            |it: ItemModel| bridge_item_toks(s@, *t, b, it),
        ));
        i = i + 1;
    }
    assert(t.items@.take(i as int) =~= t.items@);
    let mut out: Vec<Tok> = Vec::new();
    push_open(&mut out, Delim::Brace);
    append_concat(&mut out, &parts);
    push_close(&mut out, Delim::Brace);
    assert(vv(out) =~= group(
        Delim::Brace,
        concat(t.items@.map_values(|it: ItemModel| bridge_item_toks(s@, *t, b, it))),
    ));
    out
}

/// Appends `Self: Supertrait` for each supertrait to `parts`.
fn push_self_bounds(parts: &mut Vec<Vec<Tok>>, t: &TraitModel)
    ensures
        vvs(final(parts)@) == vvs(old(parts)@) + self_bounds(*t),
{
    let ghost start = vvs(parts@);
    let mut i: usize = 0;
    while i < t.supertraits.len()
        invariant
            i <= t.supertraits.len(),
            vvs(parts@) == start + self_bounds(*t).take(i as int),
        decreases t.supertraits.len() - i,
    {
        let mut p: Vec<Tok> = Vec::new();
        push_ident(&mut p, "Self");
        push_punct(&mut p, ':');
        append_toks(&mut p, &t.supertraits[i].toks);
        let ghost before = parts@;
        parts.push(p);
        assert(vvs(parts@) =~= vvs(before).push(vv(p)));
        assert(vv(p) =~= self_bounds(*t)[i as int]);
        assert(vvs(parts@) =~= start + self_bounds(*t).take(i + 1));
        i = i + 1;
    }
    assert(self_bounds(*t).take(i as int) =~= self_bounds(*t));
}

fn own_where(t: &TraitModel, b: Bridge) -> (r: Vec<Tok>)
    requires
        b != Bridge::Disabled,
    ensures
        vv(r) == bridge_where(*t, b),
{
    let mut parts: Vec<Vec<Tok>> = Vec::new();
    assert(vvs(parts@) =~= Seq::<Seq<SpecTok>>::empty());
    match &t.generics.where_clause {
        Some(ps) => {
            let mut i: usize = 0;
            while i < ps.len()
                invariant
                    i <= ps.len(),
                    vvs(parts@) == pred_parts(ps@.take(i as int)),
                decreases ps.len() - i,
            {
                let p = copy_toks(&ps[i].toks);
                let ghost before = parts@;
                parts.push(p);
                assert(vvs(parts@) =~= vvs(before).push(vv(p)));
                assert(vvs(parts@) =~= pred_parts(ps@.take(i + 1)));
                i = i + 1;
            }
            assert(ps@.take(i as int) =~= ps@);
        },
        None => {},
    }
    assert(vvs(parts@) =~= trait_preds(*t));
    if b == Bridge::Blanket {
        let mut d: Vec<Tok> = Vec::new();
        push_ident(&mut d, "DYNOSAUR");
        push_punct(&mut d, ':');
        push_punct(&mut d, '?');
        push_ident(&mut d, "Sized");
        assert(vv(d) =~= seq![id("DYNOSAUR"), pu(':'), pu('?'), id("Sized")]);
        let ghost before = parts@;
        parts.push(d);
        assert(vvs(parts@) =~= vvs(before).push(vv(d)));
    }
    push_self_bounds(&mut parts, t);
    assert(vvs(parts@) =~= trait_preds(*t) + own_preds(*t, b));
    let mut out: Vec<Tok> = Vec::new();
    if parts.len() > 0 {
        push_ident(&mut out, "where");
        append_joined(&mut out, &parts, ',');
    }
    assert(vv(out) =~= bridge_where(*t, b));
    out
}

fn bridge_parts(s: &String, t: &TraitModel, b: Bridge) -> (r: BridgeParts)
    requires
        trait_fits(*t),
        b != Bridge::Disabled,
    ensures
        vv(r.head) == seq![id("impl")] + bridge_impl_generics(*t, b) + seq![
            SpecTok::Ident(t.ident@),
        ] + split_generics(pvs(t.generics.params@), true) + seq![id("for")],
        vv(r.target) == bridge_target(s@, *t, b),
        vv(r.own_where) == bridge_where(*t, b),
        vv(r.items) == group(
            Delim::Brace,
            concat(t.items@.map_values(|it: ItemModel| bridge_item_toks(s@, *t, b, it))),
        ),
{
    let p = struct_trait_params(t);
    let trait_generics = split_generics_toks(&t.generics.params, true);
    let mut self_ty: Vec<Tok> = Vec::new();
    push_ident_string(&mut self_ty, s);
    append_toks(&mut self_ty, &p.struct_params);
    assert(vv(self_ty) =~= self_ty_toks(s@, *t));
    let mut dyn_ty: Vec<Tok> = Vec::new();
    push_ident(&mut dyn_ty, "DYNOSAUR");
    let mut self_path: Vec<Tok> = Vec::new();
    let mut type_prefix: Vec<Tok> = Vec::new();
    let mut impl_generics: Vec<Tok> = Vec::new();
    let mut target: Vec<Tok> = Vec::new();
    if b == Bridge::Blanket {
        push_qself(&mut self_path, &dyn_ty, &t.ident, &trait_generics);
        push_qself(&mut type_prefix, &dyn_ty, &t.ident, &trait_generics);
        push_colon2(&mut type_prefix);
        let ps = blanket_params(t);
        impl_generics = split_generics_toks(&ps, false);
        push_ident(&mut target, "DYNOSAUR");
    } else {
        push_qself(&mut self_path, &self_ty, &t.ident, &trait_generics);
        impl_generics = copy_toks(&p.struct_with_bounds_params);
        target = self_ty;
    }
    assert(vv(self_path) =~= bridge_self(s@, *t, b));
    assert(vv(type_prefix) =~= bridge_type_prefix(*t, b));
    assert(vv(impl_generics) =~= bridge_impl_generics(*t, b));
    assert(vv(target) =~= bridge_target(s@, *t, b));
    let items = bridge_items(s, t, b, &self_path, &type_prefix);
    let mut head: Vec<Tok> = Vec::new();
    push_ident(&mut head, "impl");
    append_toks(&mut head, &impl_generics);
    push_ident_string(&mut head, &t.ident);
    append_toks(&mut head, &trait_generics);
    push_ident(&mut head, "for");
    let own_where = own_where(t, b);
    let r = BridgeParts { head, target, own_where, items };
    assert(vv(r.head) =~= seq![id("impl")] + bridge_impl_generics(*t, b) + seq![
        SpecTok::Ident(t.ident@),
    ] + split_generics(pvs(t.generics.params@), true) + seq![id("for")]);
    r
}

fn push_bridge_one(out: &mut Vec<Tok>, kind: u8, p: &BridgeParts)
    requires
        kind <= 2,
    ensures
        vv(*final(out)) == vv(*old(out)) + bridge_one(
            kind as nat,
            vv(p.head),
            vv(p.target),
            vv(p.own_where),
            vv(p.items),
        ),
{
    let ghost start = vv(*out);
    append_toks(out, &p.head);
    if kind == 0 {
        push_punct(out, '&');
    } else if kind == 1 {
        push_punct(out, '&');
        push_ident(out, "mut");
    } else {
        push_ident(out, "Box");
        push_punct(out, '<');
    }
    append_toks(out, &p.target);
    if kind == 2 {
        push_punct(out, '>');
    }
    append_toks(out, &p.own_where);
    append_toks(out, &p.items);
    assert(vv(*out) =~= start + bridge_one(
        kind as nat,
        vv(p.head),
        vv(p.target),
        vv(p.own_where),
        vv(p.items),
    ));
}

/// The bridge impls, as `bridge_impl_toks` says.
pub fn mk_box_blanket_impl(struct_ident: &String, item_trait: &TraitModel, blanket: Bridge) -> (r: Vec<
    Tok,
>)
    requires
        trait_fits(*item_trait),
    ensures
        vv(r) == bridge_impl_toks(struct_ident@, *item_trait, blanket),
{
    let t = item_trait;
    let mut out: Vec<Tok> = Vec::new();
    if blanket == Bridge::Disabled {
        assert(vv(out) =~= Seq::<SpecTok>::empty());
        return out;
    }
    let parts = bridge_parts(struct_ident, t, blanket);
    let self_receiver = self_receiver(t);
    if self_receiver.other {
        push_error(&mut out, "unsupported self type");
    }
    if self_receiver.owned {
        push_error(&mut out, "By value Self is not supported");
    }
    if self_receiver.box_self {
        push_error(&mut out, "Box<Self> is not supported");
    }
    assert(vv(out) =~= receiver_errors(self_receiver));
    if self_receiver.should_gen_ref() {
        push_bridge_one(&mut out, 0, &parts);
    }
    if self_receiver.should_gen_mut_ref() {
        push_bridge_one(&mut out, 1, &parts);
    }
    if self_receiver.should_gen_box_self() {
        push_bridge_one(&mut out, 2, &parts);
    }
    assert(vv(out) =~= bridge_impl_toks(struct_ident@, *t, blanket));
    out
}

} // verus!
