//! The `Dyn` struct, its impl of the trait, its constructors, and the
//! bridge impls of the trait for references and boxes.

use vstd::prelude::*;
use crate::tokens::{
    Tok, SpecTok, Delim, vv, id, pu, colon2, group, push_tok, push_ident, push_ident_string,
    push_punct, push_colon2, push_open, push_close, append_toks,
};
use crate::model::{ItemModel, TraitItemKind, TraitModel, vvs, concat, append_concat};
use crate::print::{lt, sig_view, pvs, where_view, where_toks, print_where, arrow};
use crate::expand::{split_generics, split_generics_toks, error_tok, push_error};
use crate::forward::{
    InvokeArgsMode, ModeView, dyn_struct_fn_toks, expand_dyn_struct_fn, transmute_of,
    push_transmute,
};
use crate::erased::{erased_name, item_fits, trait_fits, assoc_type_toks, push_assoc_type};
use crate::traits::{spec_struct_trait_params, struct_trait_params, trait_item_erased_name};
use crate::where_clauses::spec_has_where_self_sized;

verus! {

/// `'dynosaur_struct`
pub open spec fn ds_lt() -> SpecTok {
    lt("dynosaur_struct"@)
}

fn push_ds_lt(out: &mut Vec<Tok>)
    ensures
        vv(*final(out)) == vv(*old(out)).push(ds_lt()),
{
    push_tok(out, Tok::Lifetime(String::from_str("dynosaur_struct")));
}

/// `#[doc = text]`, the text being a string literal as written.
pub open spec fn doc_attr(text: Seq<char>) -> Seq<SpecTok> {
    seq![pu('#')] + group(Delim::Bracket, seq![id("doc"), pu('='), SpecTok::Lit(text)])
}

/// Appends `#[doc = text]`.
fn push_doc(out: &mut Vec<Tok>, text: &str)
    ensures
        vv(*final(out)) == vv(*old(out)) + doc_attr(text@),
{
    let ghost start = vv(*out);
    push_punct(out, '#');
    push_open(out, Delim::Bracket);
    push_ident(out, "doc");
    push_punct(out, '=');
    push_tok(out, Tok::Lit(String::from_str(text)));
    push_close(out, Delim::Bracket);
    assert(vv(*out) =~= start + doc_attr(text@));
}

/// The documentation of the `Dyn` struct.
pub open spec fn struct_doc() -> Seq<char> {
    "\"Stands for a `dyn` value of the trait; its methods box the futures and values that the trait's methods return.\""@
}

/// The `Dyn` struct: `#[doc = ..] #[repr(transparent)] pub struct Name<'dynosaur_struct,
/// params.., Assoc: Bounds..> { ptr: dyn ErasedTrait<params.., Assoc = Assoc..>
/// + 'dynosaur_struct }`. The erased trait has the trait's parameters and
/// associated types (`law_erased_assoc_types`), so the parameters are read
/// from the trait.
pub open spec fn dyn_struct_toks(s: Seq<char>, t: TraitModel) -> Seq<SpecTok> {
    let (_, swb, tp) = spec_struct_trait_params(t);
    doc_attr(struct_doc()) + seq![pu('#')] + group(
        Delim::Bracket,
        seq![id("repr")] + group(Delim::Paren, seq![id("transparent")]),
    ) + seq![id("pub"), id("struct"), SpecTok::Ident(s)] + swb + group(
        Delim::Brace,
        seq![id("ptr"), pu(':'), id("dyn"), SpecTok::Ident(erased_name(t.ident@))] + tp + seq![
            pu('+'),
            ds_lt(),
        ],
    )
}

/// The `Dyn` struct, as `dyn_struct_toks` says.
pub fn mk_dyn_struct(struct_ident: &String, item_trait: &TraitModel) -> (r: Vec<Tok>)
    ensures
        vv(r) == dyn_struct_toks(struct_ident@, *item_trait),
{
    let p = struct_trait_params(item_trait);
    let name = trait_item_erased_name(&item_trait.ident);
    let mut out: Vec<Tok> = Vec::new();
    push_doc(
        &mut out,
        "\"Stands for a `dyn` value of the trait; its methods box the futures and values that the trait's methods return.\"",
    );
    push_punct(&mut out, '#');
    push_open(&mut out, Delim::Bracket);
    push_ident(&mut out, "repr");
    push_open(&mut out, Delim::Paren);
    push_ident(&mut out, "transparent");
    push_close(&mut out, Delim::Paren);
    push_close(&mut out, Delim::Bracket);
    push_ident(&mut out, "pub");
    push_ident(&mut out, "struct");
    push_ident_string(&mut out, struct_ident);
    append_toks(&mut out, &p.struct_with_bounds_params);
    push_open(&mut out, Delim::Brace);
    push_ident(&mut out, "ptr");
    push_punct(&mut out, ':');
    push_ident(&mut out, "dyn");
    push_ident_string(&mut out, &name);
    append_toks(&mut out, &p.trait_params);
    push_punct(&mut out, '+');
    push_ds_lt(&mut out);
    push_close(&mut out, Delim::Brace);
    assert(vv(out) =~= dyn_struct_toks(struct_ident@, *item_trait));
    out
}

/// An item of the trait's impl for the `Dyn` struct: a method that calls
/// the erased trait (`dyn_struct_fn_toks` in the boxed mode), an associated
/// type defined as the struct's parameter of the same name, and an error
/// for a const or any other item.
pub open spec fn dyn_impl_item_toks(it: ItemModel) -> Seq<SpecTok> {
    match it.kind {
        TraitItemKind::Const => error_tok("consts make the trait not dyn compatible"@),
        TraitItemKind::Fn(sig) => dyn_struct_fn_toks(
            sig_view(sig),
            spec_has_where_self_sized(sig),
            ModeView::MaybeBoxed,
        ),
        TraitItemKind::Type { ident, generics, .. } => assoc_type_toks(
            ident@,
            pvs(generics.params@),
            where_view(generics.where_clause),
            seq![],
        ),
        TraitItemKind::Other => error_tok("unsupported item type"@),
    }
}

/// The trait's impl for the `Dyn` struct: `impl<'dynosaur_struct, params..,
/// Assoc: Bounds..> Trait<params> for Name<'dynosaur_struct, params..,
/// Assoc..> where .. { items }`, every item as `dyn_impl_item_toks` writes it.
pub open spec fn dyn_impl_toks(s: Seq<char>, t: TraitModel) -> Seq<SpecTok> {
    let (sp, swb, _) = spec_struct_trait_params(t);
    seq![id("impl")] + swb + seq![SpecTok::Ident(t.ident@)] + split_generics(
        pvs(t.generics.params@),
        true,
    ) + seq![id("for"), SpecTok::Ident(s)] + sp + where_toks(t.generics.where_clause) + group(
        Delim::Brace,
        concat(t.items@.map_values(|it: ItemModel| dyn_impl_item_toks(it))),
    )
}

fn dyn_impl_item(it: &ItemModel) -> (r: Vec<Tok>)
    requires
        item_fits(*it),
    ensures
        vv(r) == dyn_impl_item_toks(*it),
{
    let mut out: Vec<Tok> = Vec::new();
    match &it.kind {
        TraitItemKind::Const => push_error(&mut out, "consts make the trait not dyn compatible"),
        TraitItemKind::Fn(sig) => {
            out = expand_dyn_struct_fn(sig, &InvokeArgsMode::MaybeBoxedNonUfcs);
        },
        TraitItemKind::Type { ident, generics, .. } => {
            let prefix: Vec<Tok> = Vec::new();
            assert(vv(prefix) =~= Seq::<SpecTok>::empty());
            push_assoc_type(&mut out, ident, generics, &prefix);
        },
        TraitItemKind::Other => push_error(&mut out, "unsupported item type"),
    }
    assert(vv(out) =~= dyn_impl_item_toks(*it));
    out
}

/// The trait's impl for the `Dyn` struct, as `dyn_impl_toks` says.
pub fn mk_dyn_struct_impl_item(struct_ident: &String, item_trait: &TraitModel) -> (r: Vec<Tok>)
    requires
        trait_fits(*item_trait),
    ensures
        vv(r) == dyn_impl_toks(struct_ident@, *item_trait),
{
    let t = item_trait;
    let mut parts: Vec<Vec<Tok>> = Vec::new();
    let mut i: usize = 0;
    while i < t.items.len()
        invariant
            i <= t.items.len(),
            trait_fits(*t),
            vvs(parts@) == t.items@.take(i as int).map_values(
                |it: ItemModel| dyn_impl_item_toks(it),
            ),
        decreases t.items.len() - i,
    {
        assert(item_fits(t.items@[i as int]));
        let p = dyn_impl_item(&t.items[i]);
        let ghost before = parts@;
        parts.push(p);
        assert(vvs(parts@) =~= vvs(before).push(vv(p)));
        assert(vvs(parts@) =~= t.items@.take(i + 1).map_values(
            |it: ItemModel| dyn_impl_item_toks(it),
        ));
        i = i + 1;
    }
    assert(t.items@.take(i as int) =~= t.items@);
    let p = struct_trait_params(t);
    let trait_generics = split_generics_toks(&t.generics.params, true);
    let mut out: Vec<Tok> = Vec::new();
    push_ident(&mut out, "impl");
    append_toks(&mut out, &p.struct_with_bounds_params);
    push_ident_string(&mut out, &t.ident);
    append_toks(&mut out, &trait_generics);
    push_ident(&mut out, "for");
    push_ident_string(&mut out, struct_ident);
    append_toks(&mut out, &p.struct_params);
    print_where(&mut out, &t.generics.where_clause);
    push_open(&mut out, Delim::Brace);
    append_concat(&mut out, &parts);
    push_close(&mut out, Delim::Brace);
    assert(vv(out) =~= dyn_impl_toks(struct_ident@, *t));
    out
}

/// The names the constructors are written with: the bound `impl Trait<..>
/// + 'dynosaur_struct`, the bound `dyn ErasedTrait<..> + 'dynosaur_struct`
/// and the struct's type `Name<..>`.
pub struct CtorNames {
    pub impl_bound: Vec<Tok>,
    pub dyn_bound: Vec<Tok>,
    pub self_ty: Vec<Tok>,
}

/// `impl Trait<params> + 'dynosaur_struct`
pub open spec fn impl_bound_toks(t: TraitModel) -> Seq<SpecTok> {
    seq![id("impl"), SpecTok::Ident(t.ident@)] + spec_struct_trait_params(t).2 + seq![
        pu('+'),
        ds_lt(),
    ]
}

/// `dyn ErasedTrait<params> + 'dynosaur_struct`
pub open spec fn dyn_bound_toks(t: TraitModel) -> Seq<SpecTok> {
    seq![id("dyn"), SpecTok::Ident(erased_name(t.ident@))] + spec_struct_trait_params(t).2 + seq![
        pu('+'),
        ds_lt(),
    ]
}

/// `Name<'dynosaur_struct, params.., Assoc..>`
pub open spec fn self_ty_toks(s: Seq<char>, t: TraitModel) -> Seq<SpecTok> {
    seq![SpecTok::Ident(s)] + spec_struct_trait_params(t).0
}

/// A smart pointer of the constructors: `Box`, `std::sync::Arc` or `std::rc::Rc`.
pub enum PtrKind {
    Boxed,
    Arc,
    Rc,
}

/// The path of the pointer type.
pub open spec fn ptr_path(k: PtrKind) -> Seq<SpecTok> {
    match k {
        PtrKind::Boxed => seq![id("Box")],
        PtrKind::Arc => seq![id("std")] + colon2() + seq![id("sync")] + colon2() + seq![id("Arc")],
        PtrKind::Rc => seq![id("std")] + colon2() + seq![id("rc")] + colon2() + seq![id("Rc")],
    }
}

/// The name of the constructor from a value.
pub open spec fn new_name(k: PtrKind) -> Seq<char> {
    match k {
        PtrKind::Boxed => "new_box"@,
        PtrKind::Arc => "new_arc"@,
        PtrKind::Rc => "new_rc"@,
    }
}

/// `path<inner>`
pub open spec fn in_ptr(path: Seq<SpecTok>, inner: Seq<SpecTok>) -> Seq<SpecTok> {
    path + seq![pu('<')] + inner + seq![pu('>')]
}

/// The documentation of the constructor from a value.
pub open spec fn new_doc(k: PtrKind) -> Seq<char> {
    match k {
        PtrKind::Boxed => "\"Boxes the value and makes it this type.\""@,
        PtrKind::Arc => "\"Puts the value in an `Arc` and makes it this type.\""@,
        PtrKind::Rc => "\"Puts the value in an `Rc` and makes it this type.\""@,
    }
}

/// The documentation of the constructor from a box.
pub open spec fn from_box_doc() -> Seq<char> {
    "\"Makes a boxed value this type.\""@
}

/// The documentation of the constructor from a reference (`&mut` if `m`).
pub open spec fn from_ref_doc(m: bool) -> Seq<char> {
    if m {
        "\"Makes a mutable reference to a value a mutable reference to this type.\""@
    } else {
        "\"Makes a reference to a value a reference to this type.\""@
    }
}

/// `#[doc = ..] pub fn new_x(value: impl Trait + 'ds) -> Ptr<Name>`
pub open spec fn new_ctor_head(k: PtrKind, ib: Seq<SpecTok>, st: Seq<SpecTok>) -> Seq<SpecTok> {
    doc_attr(new_doc(k)) + seq![id("pub"), id("fn"), SpecTok::Ident(new_name(k))] + group(
        Delim::Paren,
        seq![id("value"), pu(':')] + ib,
    ) + arrow() + in_ptr(ptr_path(k), st)
}

/// `let value = Ptr::new(value); let value: Ptr<dyn Erased + 'ds> = value;
/// unsafe { ::core::mem::transmute(value) }`
pub open spec fn new_ctor_body(k: PtrKind, db: Seq<SpecTok>) -> Seq<SpecTok> {
    let p = ptr_path(k);
    seq![id("let"), id("value"), pu('=')] + p + colon2() + seq![id("new")] + group(
        Delim::Paren,
        seq![id("value")],
    ) + seq![pu(';'), id("let"), id("value"), pu(':')] + in_ptr(p, db) + seq![
        pu('='),
        id("value"),
        pu(';'),
    ] + transmute_of("value"@)
}

/// A constructor from a value: `new_ctor_head { new_ctor_body }`.
pub open spec fn new_ctor_toks(k: PtrKind, ib: Seq<SpecTok>, db: Seq<SpecTok>, st: Seq<SpecTok>) -> Seq<
    SpecTok,
> {
    new_ctor_head(k, ib, st) + group(Delim::Brace, new_ctor_body(k, db))
}

/// `pub const fn from_box(value: Box<impl Trait + 'ds>) -> Box<Name> { let
/// value: Box<dyn Erased + 'ds> = value; unsafe { ::core::mem::transmute(value) } }`
pub open spec fn from_box_toks(ib: Seq<SpecTok>, db: Seq<SpecTok>, st: Seq<SpecTok>) -> Seq<
    SpecTok,
> {
    let p = seq![id("Box")];
    doc_attr(from_box_doc()) + seq![id("pub"), id("const"), id("fn"), id("from_box")] + group(
        Delim::Paren,
        seq![id("value"), pu(':')] + in_ptr(p, ib),
    ) + arrow() + in_ptr(p, st) + group(
        Delim::Brace,
        seq![id("let"), id("value"), pu(':')] + in_ptr(p, db) + seq![
            pu('='),
            id("value"),
            pu(';'),
        ] + transmute_of("value"@),
    )
}

/// `&` or `&mut`.
pub open spec fn amp(m: bool) -> Seq<SpecTok> {
    if m {
        seq![pu('&'), id("mut")]
    } else {
        seq![pu('&')]
    }
}

/// `pub const fn from_ref(value: &(impl Trait + 'ds)) -> &Name`, or
/// `from_mut` with `&mut`.
pub open spec fn from_ref_head(m: bool, ib: Seq<SpecTok>, st: Seq<SpecTok>) -> Seq<SpecTok> {
    doc_attr(from_ref_doc(m)) + seq![id("pub"), id("const"), id("fn"), id(if m { "from_mut" } else { "from_ref" })] + group(
        Delim::Paren,
        seq![id("value"), pu(':')] + amp(m) + group(Delim::Paren, ib),
    ) + arrow() + amp(m) + st
}

/// `let value: &(dyn Erased + 'ds) = &*value; unsafe {
/// ::core::mem::transmute(value) }`, or with `&mut`.
pub open spec fn from_ref_body(m: bool, db: Seq<SpecTok>) -> Seq<SpecTok> {
    seq![id("let"), id("value"), pu(':')] + amp(m) + group(Delim::Paren, db) + seq![pu('=')] + amp(
        m,
    ) + seq![pu('*'), id("value"), pu(';')] + transmute_of("value"@)
}

/// A constructor from a reference: `from_ref_head { from_ref_body }`.
pub open spec fn from_ref_toks(m: bool, ib: Seq<SpecTok>, db: Seq<SpecTok>, st: Seq<SpecTok>) -> Seq<
    SpecTok,
> {
    from_ref_head(m, ib, st) + group(Delim::Brace, from_ref_body(m, db))
}

/// The constructors of the `Dyn` struct: `new_box`, `new_arc` and `new_rc`
/// from a value, `from_box` from a box, `from_ref` and `from_mut` from a
/// reference; each turns its argument into the erased `dyn` and transmutes
/// that into the struct, which has the same layout.
pub open spec fn inherent_impl_toks(s: Seq<char>, t: TraitModel) -> Seq<SpecTok> {
    let (_, swb, _) = spec_struct_trait_params(t);
    let ib = impl_bound_toks(t);
    let db = dyn_bound_toks(t);
    let st = self_ty_toks(s, t);
    seq![id("impl")] + swb + st + group(
        Delim::Brace,
        new_ctor_toks(PtrKind::Boxed, ib, db, st) + new_ctor_toks(PtrKind::Arc, ib, db, st)
            + new_ctor_toks(PtrKind::Rc, ib, db, st) + from_box_toks(ib, db, st) + from_ref_toks(
            false,
            ib,
            db,
            st,
        ) + from_ref_toks(true, ib, db, st),
    )
}

fn push_ptr_path(out: &mut Vec<Tok>, k: &PtrKind)
    ensures
        vv(*final(out)) == vv(*old(out)) + ptr_path(*k),
{
    let ghost start = vv(*out);
    match k {
        PtrKind::Boxed => push_ident(out, "Box"),
        PtrKind::Arc => {
            push_ident(out, "std");
            push_colon2(out);
            push_ident(out, "sync");
            push_colon2(out);
            push_ident(out, "Arc");
        },
        PtrKind::Rc => {
            push_ident(out, "std");
            push_colon2(out);
            push_ident(out, "rc");
            push_colon2(out);
            push_ident(out, "Rc");
        },
    }
    assert(vv(*out) =~= start + ptr_path(*k));
}

fn push_in_ptr(out: &mut Vec<Tok>, k: &PtrKind, inner: &Vec<Tok>)
    ensures
        vv(*final(out)) == vv(*old(out)) + in_ptr(ptr_path(*k), vv(*inner)),
{
    let ghost start = vv(*out);
    push_ptr_path(out, k);
    push_punct(out, '<');
    append_toks(out, inner);
    push_punct(out, '>');
    assert(vv(*out) =~= start + in_ptr(ptr_path(*k), vv(*inner)));
}

fn push_arrow(out: &mut Vec<Tok>)
    ensures
        vv(*final(out)) == vv(*old(out)) + arrow(),
{
    let ghost start = vv(*out);
    push_tok(out, Tok::Punct('-', true));
    push_punct(out, '>');
    assert(vv(*out) =~= start + arrow());
}

fn push_amp(out: &mut Vec<Tok>, m: bool)
    ensures
        vv(*final(out)) == vv(*old(out)) + amp(m),
{
    let ghost start = vv(*out);
    push_punct(out, '&');
    if m {
        push_ident(out, "mut");
    }
    assert(vv(*out) =~= start + amp(m));
}

fn push_new_ctor_head(out: &mut Vec<Tok>, k: &PtrKind, ib: &Vec<Tok>, st: &Vec<Tok>)
    ensures
        vv(*final(out)) == vv(*old(out)) + new_ctor_head(*k, vv(*ib), vv(*st)),
{
    let ghost start = vv(*out);
    match k {
        PtrKind::Boxed => push_doc(out, "\"Boxes the value and makes it this type.\""),
        PtrKind::Arc => push_doc(out, "\"Puts the value in an `Arc` and makes it this type.\""),
        PtrKind::Rc => push_doc(out, "\"Puts the value in an `Rc` and makes it this type.\""),
    }
    push_ident(out, "pub");
    push_ident(out, "fn");
    match k {
        PtrKind::Boxed => push_ident(out, "new_box"),
        PtrKind::Arc => push_ident(out, "new_arc"),
        PtrKind::Rc => push_ident(out, "new_rc"),
    }
    push_open(out, Delim::Paren);
    push_ident(out, "value");
    push_punct(out, ':');
    append_toks(out, ib);
    push_close(out, Delim::Paren);
    push_arrow(out);
    push_in_ptr(out, k, st);
    assert(vv(*out) =~= start + new_ctor_head(*k, vv(*ib), vv(*st)));
}

fn push_new_ctor_body(out: &mut Vec<Tok>, k: &PtrKind, db: &Vec<Tok>)
    ensures
        vv(*final(out)) == vv(*old(out)) + new_ctor_body(*k, vv(*db)),
{
    let ghost start = vv(*out);
    push_ident(out, "let");
    push_ident(out, "value");
    push_punct(out, '=');
    push_ptr_path(out, k);
    push_colon2(out);
    push_ident(out, "new");
    push_open(out, Delim::Paren);
    push_ident(out, "value");
    push_close(out, Delim::Paren);
    push_punct(out, ';');
    push_ident(out, "let");
    push_ident(out, "value");
    push_punct(out, ':');
    push_in_ptr(out, k, db);
    push_punct(out, '=');
    push_ident(out, "value");
    push_punct(out, ';');
    push_transmute(out, "value");
    assert(vv(*out) =~= start + new_ctor_body(*k, vv(*db)));
}

fn push_new_ctor(out: &mut Vec<Tok>, k: PtrKind, n: &CtorNames)
    ensures
        vv(*final(out)) == vv(*old(out)) + new_ctor_toks(
            k,
            vv(n.impl_bound),
            vv(n.dyn_bound),
            vv(n.self_ty),
        ),
{
    let ghost start = vv(*out);
    push_new_ctor_head(out, &k, &n.impl_bound, &n.self_ty);
    push_open(out, Delim::Brace);
    push_new_ctor_body(out, &k, &n.dyn_bound);
    push_close(out, Delim::Brace);
    assert(vv(*out) =~= start + new_ctor_toks(
        k,
        vv(n.impl_bound),
        vv(n.dyn_bound),
        vv(n.self_ty),
    ));
}

fn push_from_box(out: &mut Vec<Tok>, n: &CtorNames)
    ensures
        vv(*final(out)) == vv(*old(out)) + from_box_toks(
            vv(n.impl_bound),
            vv(n.dyn_bound),
            vv(n.self_ty),
        ),
{
    let ghost start = vv(*out);
    push_doc(out, "\"Makes a boxed value this type.\"");
    push_ident(out, "pub");
    push_ident(out, "const");
    push_ident(out, "fn");
    push_ident(out, "from_box");
    push_open(out, Delim::Paren);
    push_ident(out, "value");
    push_punct(out, ':');
    push_in_ptr(out, &PtrKind::Boxed, &n.impl_bound);
    push_close(out, Delim::Paren);
    push_arrow(out);
    push_in_ptr(out, &PtrKind::Boxed, &n.self_ty);
    push_open(out, Delim::Brace);
    push_ident(out, "let");
    push_ident(out, "value");
    push_punct(out, ':');
    push_in_ptr(out, &PtrKind::Boxed, &n.dyn_bound);
    push_punct(out, '=');
    push_ident(out, "value");
    push_punct(out, ';');
    push_transmute(out, "value");
    push_close(out, Delim::Brace);
    assert(vv(*out) =~= start + from_box_toks(vv(n.impl_bound), vv(n.dyn_bound), vv(n.self_ty)));
}

fn push_from_ref_head(out: &mut Vec<Tok>, m: bool, ib: &Vec<Tok>, st: &Vec<Tok>)
    ensures
        vv(*final(out)) == vv(*old(out)) + from_ref_head(m, vv(*ib), vv(*st)),
{
    let ghost start = vv(*out);
    if m {
        push_doc(out, "\"Makes a mutable reference to a value a mutable reference to this type.\"");
    } else {
        push_doc(out, "\"Makes a reference to a value a reference to this type.\"");
    }
    push_ident(out, "pub");
    push_ident(out, "const");
    push_ident(out, "fn");
    if m {
        push_ident(out, "from_mut");
    } else {
        push_ident(out, "from_ref");
    }
    push_open(out, Delim::Paren);
    push_ident(out, "value");
    push_punct(out, ':');
    push_amp(out, m);
    push_open(out, Delim::Paren);
    append_toks(out, ib);
    push_close(out, Delim::Paren);
    push_close(out, Delim::Paren);
    push_arrow(out);
    push_amp(out, m);
    append_toks(out, st);
    assert(vv(*out) =~= start + from_ref_head(m, vv(*ib), vv(*st)));
}

fn push_from_ref_body(out: &mut Vec<Tok>, m: bool, db: &Vec<Tok>)
    ensures
        vv(*final(out)) == vv(*old(out)) + from_ref_body(m, vv(*db)),
{
    let ghost start = vv(*out);
    push_ident(out, "let");
    push_ident(out, "value");
    push_punct(out, ':');
    push_amp(out, m);
    push_open(out, Delim::Paren);
    append_toks(out, db);
    push_close(out, Delim::Paren);
    push_punct(out, '=');
    push_amp(out, m);
    push_punct(out, '*');
    push_ident(out, "value");
    push_punct(out, ';');
    push_transmute(out, "value");
    assert(vv(*out) =~= start + from_ref_body(m, vv(*db)));
}

fn push_from_ref(out: &mut Vec<Tok>, m: bool, n: &CtorNames)
    ensures
        vv(*final(out)) == vv(*old(out)) + from_ref_toks(
            m,
            vv(n.impl_bound),
            vv(n.dyn_bound),
            vv(n.self_ty),
        ),
{
    let ghost start = vv(*out);
    push_from_ref_head(out, m, &n.impl_bound, &n.self_ty);
    push_open(out, Delim::Brace);
    push_from_ref_body(out, m, &n.dyn_bound);
    push_close(out, Delim::Brace);
    assert(vv(*out) =~= start + from_ref_toks(
        m,
        vv(n.impl_bound),
        vv(n.dyn_bound),
        vv(n.self_ty),
    ));
}

/// The constructors of the `Dyn` struct, as `inherent_impl_toks` says.
pub fn mk_struct_inherent_impl(struct_ident: &String, item_trait: &TraitModel) -> (r: Vec<Tok>)
    ensures
        vv(r) == inherent_impl_toks(struct_ident@, *item_trait),
{
    let t = item_trait;
    let p = struct_trait_params(t);
    let name = trait_item_erased_name(&t.ident);
    let mut impl_bound: Vec<Tok> = Vec::new();
    push_ident(&mut impl_bound, "impl");
    push_ident_string(&mut impl_bound, &t.ident);
    append_toks(&mut impl_bound, &p.trait_params);
    push_punct(&mut impl_bound, '+');
    push_ds_lt(&mut impl_bound);
    assert(vv(impl_bound) =~= impl_bound_toks(*t));
    let mut dyn_bound: Vec<Tok> = Vec::new();
    push_ident(&mut dyn_bound, "dyn");
    push_ident_string(&mut dyn_bound, &name);
    append_toks(&mut dyn_bound, &p.trait_params);
    push_punct(&mut dyn_bound, '+');
    push_ds_lt(&mut dyn_bound);
    assert(vv(dyn_bound) =~= dyn_bound_toks(*t));
    let mut self_ty: Vec<Tok> = Vec::new();
    push_ident_string(&mut self_ty, struct_ident);
    append_toks(&mut self_ty, &p.struct_params);
    assert(vv(self_ty) =~= self_ty_toks(struct_ident@, *t));
    let n = CtorNames { impl_bound, dyn_bound, self_ty };
    let mut body: Vec<Tok> = Vec::new();
    push_new_ctor(&mut body, PtrKind::Boxed, &n);
    push_new_ctor(&mut body, PtrKind::Arc, &n);
    push_new_ctor(&mut body, PtrKind::Rc, &n);
    push_from_box(&mut body, &n);
    push_from_ref(&mut body, false, &n);
    push_from_ref(&mut body, true, &n);
    let mut out: Vec<Tok> = Vec::new();
    push_ident(&mut out, "impl");
    append_toks(&mut out, &p.struct_with_bounds_params);
    append_toks(&mut out, &n.self_ty);
    push_open(&mut out, Delim::Brace);
    append_toks(&mut out, &body);
    push_close(&mut out, Delim::Brace);
    assert(vv(out) =~= inherent_impl_toks(struct_ident@, *t));
    out
}

} // verus!
