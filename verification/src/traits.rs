//! What the trait's method receivers decide about the bridge impls.

use vstd::prelude::*;
use crate::tokens::{Tok, SpecTok, vv, pu, push_tok, push_punct, push_ident_string, str_eq};
use crate::model::{
    TypeModel, TypeKind, ArgModel, ItemModel, TraitItemKind, TraitModel, ParamModel, vvs, join,
    append_joined,
};
use crate::print::{param_toks, bounds_toks, print_param, print_bounds, lt};
use crate::where_clauses::{spec_has_where_self_sized, has_where_self_sized};

verus! {

/// Which kinds of `self` receivers occur in a trait.
#[derive(PartialEq, Eq, Structural)]
pub struct SelfReceiver {
    pub shared_ref: bool,
    pub mut_ref: bool,
    pub owned: bool,
    pub box_self: bool,
    pub other: bool,
}

impl SelfReceiver {
    /// An impl for `&T` is written when every receiver is `&self`.
    pub fn should_gen_ref(&self) -> (r: bool)
        ensures
            r == (!self.mut_ref && !self.owned && !self.box_self && !self.other),
    {
        !self.mut_ref && !self.owned && !self.box_self && !self.other
    }

    /// An impl for `&mut T` is written when every receiver is `&self` or `&mut self`.
    pub fn should_gen_mut_ref(&self) -> (r: bool)
        ensures
            r == (!self.owned && !self.box_self && !self.other),
    {
        !self.owned && !self.box_self && !self.other
    }

    /// An impl for `Box<T>` is written unless some receiver has an unsupported type.
    pub fn should_gen_box_self(&self) -> (r: bool)
        ensures
            r == !self.other,
    {
        !self.other
    }
}

/// How a receiver's type counts.
#[derive(PartialEq, Eq, Structural)]
pub enum RecvKind {
    /// `&Self`-like: a shared reference.
    Shared,
    /// A mutable reference.
    Mut,
    /// `Self`.
    Owned,
    /// `Box<..>`.
    Boxed,
    /// A one-segment path other than `Self` and `Box`, such as `Rc<Self>`.
    Unsupported,
    /// Any other type, which sets no flag.
    Ignored,
}

/// How a receiver of type `ty` counts.
pub open spec fn recv_kind(ty: TypeModel) -> RecvKind {
    match ty.kind {
        TypeKind::Reference(m) => if m {
            RecvKind::Mut
        } else {
            RecvKind::Shared
        },
        TypeKind::Path(p) => if p.segments.len() == 1 {
            if p.segments[0].ident@ == "Box"@ {
                RecvKind::Boxed
            } else if p.segments[0].ident@ == "Self"@ {
                RecvKind::Owned
            } else {
                RecvKind::Unsupported
            }
        } else {
            RecvKind::Ignored
        },
        _ => RecvKind::Ignored,
    }
}

/// The types of the receivers among the arguments.
pub open spec fn sig_receivers(inputs: Seq<ArgModel>) -> Seq<TypeModel>
    decreases inputs.len(),
{
    if inputs.len() == 0 {
        seq![]
    } else {
        let r = sig_receivers(inputs.drop_last());
        match inputs.last() {
            ArgModel::Receiver(x) => r.push(x.ty),
            _ => r,
        }
    }
}

/// The types of the receivers of the methods among the items.
pub open spec fn items_receivers(items: Seq<ItemModel>) -> Seq<TypeModel>
    decreases items.len(),
{
    if items.len() == 0 {
        seq![]
    } else {
        items_receivers(items.drop_last()) + match items.last().kind {
            TraitItemKind::Fn(sig) => sig_receivers(sig.inputs@),
            _ => seq![],
        }
    }
}

/// The types of the receivers of the trait's own methods.
pub open spec fn trait_receivers(t: TraitModel) -> Seq<TypeModel> {
    items_receivers(t.items@)
}

/// Whether one of the receivers counts as `k`.
pub open spec fn has_kind(rs: Seq<TypeModel>, k: RecvKind) -> bool {
    exists|i: int| 0 <= i < rs.len() && recv_kind(#[trigger] rs[i]) == k
}

/// The flags of a set of receivers.
pub open spec fn flags_of(rs: Seq<TypeModel>) -> SelfReceiver {
    SelfReceiver {
        shared_ref: has_kind(rs, RecvKind::Shared),
        mut_ref: has_kind(rs, RecvKind::Mut),
        owned: has_kind(rs, RecvKind::Owned),
        box_self: has_kind(rs, RecvKind::Boxed),
        other: has_kind(rs, RecvKind::Unsupported),
    }
}

proof fn lemma_has_kind_push(rs: Seq<TypeModel>, x: TypeModel, k: RecvKind)
    ensures
        has_kind(rs.push(x), k) == (has_kind(rs, k) || recv_kind(x) == k),
{
    if has_kind(rs, k) {
        let i = choose|i: int| 0 <= i < rs.len() && recv_kind(#[trigger] rs[i]) == k;
        assert(rs.push(x)[i] == rs[i]);
    }
    if recv_kind(x) == k {
        assert(rs.push(x)[rs.len() as int] == x);
    }
    if has_kind(rs.push(x), k) {
        let i = choose|i: int| 0 <= i < rs.push(x).len() && recv_kind(#[trigger] rs.push(x)[i]) == k;
        if i < rs.len() {
            assert(rs.push(x)[i] == rs[i]);
        }
    }
}

/// One more receiver sets the flag of its kind and leaves every other
/// flag as it was; no flag goes from set to unset.
pub proof fn law_receiver_step(rs: Seq<TypeModel>, x: TypeModel)
    ensures
        flags_of(rs.push(x)) == (SelfReceiver {
            shared_ref: flags_of(rs).shared_ref || recv_kind(x) == RecvKind::Shared,
            mut_ref: flags_of(rs).mut_ref || recv_kind(x) == RecvKind::Mut,
            owned: flags_of(rs).owned || recv_kind(x) == RecvKind::Owned,
            box_self: flags_of(rs).box_self || recv_kind(x) == RecvKind::Boxed,
            other: flags_of(rs).other || recv_kind(x) == RecvKind::Unsupported,
        }),
{
    lemma_has_kind_push(rs, x, RecvKind::Shared);
    lemma_has_kind_push(rs, x, RecvKind::Mut);
    lemma_has_kind_push(rs, x, RecvKind::Owned);
    lemma_has_kind_push(rs, x, RecvKind::Boxed);
    lemma_has_kind_push(rs, x, RecvKind::Unsupported);
}

fn recv_kind_exec(ty: &TypeModel) -> (r: RecvKind)
    ensures
        r == recv_kind(*ty),
{
    match &ty.kind {
        TypeKind::Reference(m) => if *m {
            RecvKind::Mut
        } else {
            RecvKind::Shared
        },
        TypeKind::Path(p) => if p.segments.len() == 1 {
            if str_eq(&p.segments[0].ident, "Box") {
                RecvKind::Boxed
            } else if str_eq(&p.segments[0].ident, "Self") {
                RecvKind::Owned
            } else {
                RecvKind::Unsupported
            }
        } else {
            RecvKind::Ignored
        },
        _ => RecvKind::Ignored,
    }
}

/// Adds the receiver of type `ty` to the flags.
fn visit_receiver(acc: &mut SelfReceiver, ty: &TypeModel, rs: Ghost<Seq<TypeModel>>)
    requires
        *old(acc) == flags_of(rs@),
    ensures
        *final(acc) == flags_of(rs@.push(*ty)),
{
    proof {
        law_receiver_step(rs@, *ty);
    }
    match recv_kind_exec(ty) {
        RecvKind::Shared => acc.shared_ref = true,
        RecvKind::Mut => acc.mut_ref = true,
        RecvKind::Owned => acc.owned = true,
        RecvKind::Boxed => acc.box_self = true,
        RecvKind::Unsupported => acc.other = true,
        RecvKind::Ignored => {},
    }
}

/// Which kinds of receivers occur in the trait.
pub fn self_receiver(t: &TraitModel) -> (r: SelfReceiver)
    ensures
        r == flags_of(trait_receivers(*t)),
{
    let mut acc = SelfReceiver {
        shared_ref: false,
        mut_ref: false,
        owned: false,
        box_self: false,
        other: false,
    };
    let ghost mut seen: Seq<TypeModel> = seq![];
    let mut i: usize = 0;
    while i < t.items.len()
        invariant
            0 <= i <= t.items.len(),
            seen == items_receivers(t.items@.take(i as int)),
            acc == flags_of(seen),
        decreases t.items.len() - i,
    {
        assert(t.items@.take(i + 1).drop_last() =~= t.items@.take(i as int));
        let ghost base = seen;
        if let TraitItemKind::Fn(sig) = &t.items[i].kind {
            let mut j: usize = 0;
            while j < sig.inputs.len()
                invariant
                    0 <= j <= sig.inputs.len(),
                    seen == base + sig_receivers(sig.inputs@.take(j as int)),
                    acc == flags_of(seen),
                decreases sig.inputs.len() - j,
            {
                assert(sig.inputs@.take(j + 1).drop_last() =~= sig.inputs@.take(j as int));
                if let ArgModel::Receiver(x) = &sig.inputs[j] {
                    visit_receiver(&mut acc, &x.ty, Ghost(seen));
                    proof {
                        seen = seen.push(x.ty);
                    }
                }
                assert(seen =~= base + sig_receivers(sig.inputs@.take(j + 1)));
                j = j + 1;
            }
            assert(sig.inputs@.take(j as int) =~= sig.inputs@);
        }
        assert(seen =~= items_receivers(t.items@.take(i + 1)));
        i = i + 1;
    }
    assert(t.items@.take(i as int) =~= t.items@);
    assert(seen =~= trait_receivers(*t));
    acc
}

/// The bridge impls the documentation promises: one for `&T` when every
/// receiver is `&self`, one for `&mut T` when every receiver is `&self` or
/// `&mut self`, one for `Box<T>` unless a receiver has an unsupported type;
/// and each impl that is written implies the next.
pub proof fn law_bridge_impls(t: TraitModel)
    ensures
        ({
            let f = flags_of(trait_receivers(t));
            let rs = trait_receivers(t);
            &&& (!f.mut_ref && !f.owned && !f.box_self && !f.other) <==> (forall|i: int|
                0 <= i < rs.len() ==> #[trigger] recv_kind(rs[i]) == RecvKind::Shared
                    || recv_kind(rs[i]) == RecvKind::Ignored)
            &&& (!f.owned && !f.box_self && !f.other) <==> (forall|i: int|
                0 <= i < rs.len() ==> #[trigger] recv_kind(rs[i]) == RecvKind::Shared
                    || recv_kind(rs[i]) == RecvKind::Mut || recv_kind(rs[i]) == RecvKind::Ignored)
            &&& !f.other <==> (forall|i: int|
                0 <= i < rs.len() ==> #[trigger] recv_kind(rs[i]) != RecvKind::Unsupported)
        }),
{
    let rs = trait_receivers(t);
    assert forall|i: int| 0 <= i < rs.len() implies #[trigger] recv_kind(rs[i])
        == RecvKind::Shared || recv_kind(rs[i]) == RecvKind::Mut || recv_kind(rs[i])
        == RecvKind::Owned || recv_kind(rs[i]) == RecvKind::Boxed || recv_kind(rs[i])
        == RecvKind::Unsupported || recv_kind(rs[i]) == RecvKind::Ignored by {}
}

/// Whether the item can stand in a `dyn` trait: it is no method with
/// `where Self: Sized`.
pub open spec fn dyn_compatible(item: ItemModel) -> bool {
    match item.kind {
        TraitItemKind::Fn(sig) => !spec_has_where_self_sized(sig),
        _ => true,
    }
}

/// Whether the item can stand in a `dyn` trait.
pub fn is_dyn_compatible(item: &ItemModel) -> (r: bool)
    ensures
        r == dyn_compatible(*item),
{
    match &item.kind {
        TraitItemKind::Fn(sig) => !has_where_self_sized(sig),
        _ => true,
    }
}

/// The indices of the items that are dyn compatible, in order.
pub open spec fn compatible_indices(items: Seq<ItemModel>) -> Seq<int>
    decreases items.len(),
{
    if items.len() == 0 {
        seq![]
    } else {
        let r = compatible_indices(items.drop_last());
        if dyn_compatible(items.last()) {
            r.push(items.len() - 1)
        } else {
            r
        }
    }
}

/// The indices of the items that are dyn compatible (every item but the
/// methods with `where Self: Sized`), in their order.
pub fn dyn_compatible_items(items: &Vec<ItemModel>) -> (r: Vec<usize>)
    ensures
        r@.map_values(|k: usize| k as int) == compatible_indices(items@),
{
    let mut r: Vec<usize> = Vec::new();
    let mut i: usize = 0;
    while i < items.len()
        invariant
            0 <= i <= items.len(),
            r@.map_values(|k: usize| k as int) == compatible_indices(items@.take(i as int)),
        decreases items.len() - i,
    {
        assert(items@.take(i + 1).drop_last() =~= items@.take(i as int));
        let ghost before = r@;
        if is_dyn_compatible(&items[i]) {
            r.push(i);
            assert(r@.map_values(|k: usize| k as int) =~= before.map_values(|k: usize| k as int).push(
                i as int,
            ));
        }
        i = i + 1;
    }
    assert(items@.take(i as int) =~= items@);
    r
}

/// The name of the erased trait: `Erased` followed by the trait's name.
pub fn trait_item_erased_name(trait_ident: &String) -> (r: String)
    ensures
        r@ == "Erased"@ + trait_ident@,
{
    let mut r = String::from_str("Erased");
    r.append(trait_ident.as_str());
    r
}

/// The parameters that the `Dyn` struct and the erased trait are written with.
pub struct StructTraitParams {
    /// `<'dynosaur_struct, params.., AssocTypes..>`
    pub struct_params: Vec<Tok>,
    /// `<'dynosaur_struct, params.., AssocType: Bounds..>`
    pub struct_with_bounds_params: Vec<Tok>,
    /// `<params.., AssocType = AssocType..>`, or nothing if both lists are empty.
    pub trait_params: Vec<Tok>,
}

/// How an associated type is written in a parameter list.
pub open spec fn assoc_part(ident: Seq<char>, bounds: Seq<crate::model::Bound>, form: nat) -> Seq<
    SpecTok,
> {
    if form == 0 {
        seq![SpecTok::Ident(ident)]
    } else if form == 1 {
        seq![SpecTok::Ident(ident), pu(':')] + bounds_toks(bounds)
    } else {
        seq![SpecTok::Ident(ident), pu('='), SpecTok::Ident(ident)]
    }
}

/// The associated types of the items, each written in the given form.
pub open spec fn assoc_parts(items: Seq<ItemModel>, form: nat) -> Seq<Seq<SpecTok>>
    decreases items.len(),
{
    if items.len() == 0 {
        seq![]
    } else {
        let r = assoc_parts(items.drop_last(), form);
        match items.last().kind {
            TraitItemKind::Type { ident, bounds, .. } => r.push(assoc_part(ident@, bounds@, form)),
            _ => r,
        }
    }
}

/// The generic parameters, each written out.
pub open spec fn param_parts(ps: Seq<ParamModel>) -> Seq<Seq<SpecTok>> {
    ps.map_values(|p: ParamModel| param_toks(p))
}

/// `<parts>`
pub open spec fn angle(parts: Seq<Seq<SpecTok>>) -> Seq<SpecTok> {
    seq![pu('<')] + join(parts, pu(',')) + seq![pu('>')]
}

/// `'dynosaur_struct`
pub open spec fn struct_lt() -> Seq<SpecTok> {
    seq![lt("dynosaur_struct"@)]
}

/// What `struct_trait_params` gives for the trait.
pub open spec fn spec_struct_trait_params(t: TraitModel) -> (Seq<SpecTok>, Seq<SpecTok>, Seq<
    SpecTok,
>) {
    let ps = param_parts(t.generics.params@);
    (
        angle(seq![struct_lt()] + ps + assoc_parts(t.items@, 0)),
        angle(seq![struct_lt()] + ps + assoc_parts(t.items@, 1)),
        if ps.len() + assoc_parts(t.items@, 2).len() == 0 {
            seq![]
        } else {
            angle(ps + assoc_parts(t.items@, 2))
        },
    )
}

/// Appends the associated types of the items, each in the given form, to `parts`.
fn push_assoc_parts(parts: &mut Vec<Vec<Tok>>, items: &Vec<ItemModel>, form: u8)
    requires
        form <= 2,
    ensures
        vvs(final(parts)@) == vvs(old(parts)@) + assoc_parts(items@, form as nat),
{
    let ghost start = vvs(parts@);
    let mut i: usize = 0;
    while i < items.len()
        invariant
            0 <= i <= items.len(),
            form <= 2,
            vvs(parts@) == start + assoc_parts(items@.take(i as int), form as nat),
        decreases items.len() - i,
    {
        assert(items@.take(i + 1).drop_last() =~= items@.take(i as int));
        let ghost before = parts@;
        if let TraitItemKind::Type { ident, bounds, .. } = &items[i].kind {
            let mut p: Vec<Tok> = Vec::new();
            push_ident_string(&mut p, ident);
            if form == 1 {
                push_punct(&mut p, ':');
                print_bounds(&mut p, bounds);
            } else if form == 2 {
                push_punct(&mut p, '=');
                push_ident_string(&mut p, ident);
            }
            assert(vv(p) =~= assoc_part(ident@, bounds@, form as nat));
            parts.push(p);
            assert(vvs(parts@) =~= vvs(before).push(vv(p)));
        }
        assert(vvs(parts@) =~= start + assoc_parts(items@.take(i + 1), form as nat));
        i = i + 1;
    }
    assert(items@.take(i as int) =~= items@);
}

/// Appends the generic parameters, each written out, to `parts`.
fn push_param_parts(parts: &mut Vec<Vec<Tok>>, ps: &Vec<ParamModel>)
    ensures
        vvs(final(parts)@) == vvs(old(parts)@) + param_parts(ps@),
{
    let ghost start = vvs(parts@);
    let mut i: usize = 0;
    while i < ps.len()
        invariant
            0 <= i <= ps.len(),
            vvs(parts@) == start + param_parts(ps@.take(i as int)),
        decreases ps.len() - i,
    {
        let ghost before = parts@;
        let mut p: Vec<Tok> = Vec::new();
        print_param(&mut p, &ps[i]);
        assert(vv(p) =~= param_toks(ps@[i as int]));
        parts.push(p);
        assert(vvs(parts@) =~= vvs(before).push(vv(p)));
        assert(param_parts(ps@.take(i + 1)) =~= param_parts(ps@.take(i as int)).push(
            param_toks(ps@[i as int]),
        ));
        i = i + 1;
    }
    assert(ps@.take(i as int) =~= ps@);
}

/// `<parts>`
fn angle_toks(parts: &Vec<Vec<Tok>>) -> (r: Vec<Tok>)
    ensures
        vv(r) == angle(vvs(parts@)),
{
    let mut r: Vec<Tok> = Vec::new();
    push_punct(&mut r, '<');
    append_joined(&mut r, parts, ',');
    push_punct(&mut r, '>');
    assert(vv(r) =~= angle(vvs(parts@)));
    r
}

/// The parameter lists of the `Dyn` struct and of the erased trait.
pub fn struct_trait_params(t: &TraitModel) -> (r: StructTraitParams)
    ensures
        (vv(r.struct_params), vv(r.struct_with_bounds_params), vv(r.trait_params))
            == spec_struct_trait_params(*t),
{
    let mut a: Vec<Vec<Tok>> = Vec::new();
    let mut l: Vec<Tok> = Vec::new();
    push_tok(&mut l, Tok::Lifetime(String::from_str("dynosaur_struct")));
    assert(vv(l) =~= struct_lt());
    a.push(l);
    assert(vvs(a@) =~= seq![struct_lt()]);
    push_param_parts(&mut a, &t.generics.params);
    let mut b: Vec<Vec<Tok>> = Vec::new();
    let mut l2: Vec<Tok> = Vec::new();
    push_tok(&mut l2, Tok::Lifetime(String::from_str("dynosaur_struct")));
    assert(vv(l2) =~= struct_lt());
    b.push(l2);
    assert(vvs(b@) =~= seq![struct_lt()]);
    push_param_parts(&mut b, &t.generics.params);
    let mut c: Vec<Vec<Tok>> = Vec::new();
    assert(vvs(c@) =~= Seq::<Seq<SpecTok>>::empty());
    push_param_parts(&mut c, &t.generics.params);
    push_assoc_parts(&mut a, &t.items, 0);
    push_assoc_parts(&mut b, &t.items, 1);
    push_assoc_parts(&mut c, &t.items, 2);
    let struct_params = angle_toks(&a);
    let struct_with_bounds_params = angle_toks(&b);
    let trait_params = if c.len() == 0 {
        let e: Vec<Tok> = Vec::new();
        assert(vv(e) =~= Seq::<SpecTok>::empty());
        e
    } else {
        angle_toks(&c)
    };
    proof {
        let ps = param_parts(t.generics.params@);
        assert(vvs(c@) =~= ps + assoc_parts(t.items@, 2));
    }
    StructTraitParams { struct_params, struct_with_bounds_params, trait_params }
}

} // verus!


