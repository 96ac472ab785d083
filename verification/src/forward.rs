//! The methods that forward each call: those of the `Dyn` struct, of the
//! bridge impls and of the erased trait's blanket impl.

use vstd::prelude::*;
use crate::tokens::{
    Tok, SpecTok, Delim, vv, id, pu, colon2, group, push_ident, push_ident_string, push_punct,
    push_colon2, push_open, push_close, append_toks, copy_toks,
};
use crate::model::{Sig, TypeModel, TypeKind, TraitModel, vvs, join, append_joined};
use crate::print::{ParamView, SigView, TyView, sig_view, sig_view_toks, print_sig, pvs};
use crate::sig::{is_async_v, is_rpit_v, is_async, is_rpit};
use crate::expand::{
    arg_names_v, with_inputs, invoke_args, sig_ret_ty_v, ret_ty_to_rpit_v, fn_sig_v, sig_fits,
    split_generics, box_call, expand_arg_names, expand_invoke_args, expand_sig_ret_ty,
    expand_sig_ret_ty_to_rpit, expand_fn_sig, split_generics_toks, push_box_call,
};
use crate::where_clauses::{spec_has_where_self_sized, has_where_self_sized};

verus! {

/// How a forwarding method calls the implementation it forwards to.
pub enum InvokeArgsMode {
    /// `self.ptr.method(args)`, with the `impl Trait` arguments boxed: the
    /// methods of the `Dyn` struct, which call the erased trait.
    MaybeBoxedNonUfcs,
    /// `prefix::method(self, args)`, the arguments as they are: the bridge
    /// impls, with the given path prefix.
    DirectUfcs(Vec<Tok>),
}

/// The value of a forwarding mode.
pub enum ModeView {
    MaybeBoxed,
    Direct(Seq<SpecTok>),
}

impl View for InvokeArgsMode {
    type V = ModeView;

    open spec fn view(&self) -> ModeView {
        match self {
            InvokeArgsMode::MaybeBoxedNonUfcs => ModeView::MaybeBoxed,
            InvokeArgsMode::DirectUfcs(p) => ModeView::Direct(vv(*p)),
        }
    }
}

/// `unreachable!()`
pub open spec fn unreachable_call() -> Seq<SpecTok> {
    seq![id("unreachable"), pu('!'), SpecTok::Open(Delim::Paren), SpecTok::Close(Delim::Paren)]
}

/// `#[allow(unreachable_code)]`
pub open spec fn allow_unreachable() -> Seq<SpecTok> {
    seq![pu('#')] + group(
        Delim::Bracket,
        seq![id("allow")] + group(Delim::Paren, seq![id("unreachable_code")]),
    )
}

/// `(a1, a2, ..)`
pub open spec fn call_args(args: Seq<Seq<SpecTok>>) -> Seq<SpecTok> {
    group(Delim::Paren, join(args, pu(',')))
}

/// `let ret: ty =`
pub open spec fn let_ret(ty: Seq<SpecTok>) -> Seq<SpecTok> {
    seq![id("let"), id("ret"), pu(':')] + ty + seq![pu('=')]
}

/// `unsafe { ::core::mem::transmute(x) }`
pub open spec fn transmute_of(x: Seq<char>) -> Seq<SpecTok> {
    seq![id("unsafe")] + group(
        Delim::Brace,
        colon2() + seq![id("core")] + colon2() + seq![id("mem")] + colon2() + seq![
            id("transmute"),
        ] + group(Delim::Paren, seq![SpecTok::Ident(x)]),
    )
}

/// `unsafe { ::core::mem::transmute(ret) }`
pub open spec fn transmute_ret() -> Seq<SpecTok> {
    transmute_of("ret"@)
}

/// The signature without `async`; an async one returns `impl Future<..>` instead.
pub open spec fn rpit_sig(v: SigView) -> SigView {
    if is_async_v(v) {
        SigView {
            asyncness: false,
            output: Some(ret_ty_to_rpit_v(v)),
            output_kind: Some(TyView::Other),
            ..v
        }
    } else {
        SigView { asyncness: false, ..v }
    }
}

/// A method with `where Self: Sized`, which a `dyn` value never calls:
/// `#sig { unreachable!() }`, and for one returning `impl Trait` the
/// unreachable value is cast to the boxed return type.
pub open spec fn sized_fn_toks(v: SigView) -> Seq<SpecTok> {
    if is_rpit_v(v) {
        allow_unreachable() + sig_view_toks(v) + group(
            Delim::Brace,
            unreachable_call() + seq![id("as")] + sig_ret_ty_v(v, "static"@),
        )
    } else {
        sig_view_toks(v) + group(Delim::Brace, unreachable_call())
    }
}

/// `self.ptr.method(args)`
pub open spec fn ptr_call(ident: Seq<char>, args: Seq<Seq<SpecTok>>) -> Seq<SpecTok> {
    seq![id("self"), pu('.'), id("ptr"), pu('.'), SpecTok::Ident(ident)] + call_args(args)
}

/// The forwarding method in the direct mode, for the signature `v` whose
/// `_` arguments are named: `prefix::method(self, args)`; an async method
/// becomes one returning `impl Future`.
pub open spec fn direct_fn_toks(v: SigView, prefix: Seq<SpecTok>) -> Seq<SpecTok> {
    sig_view_toks(rpit_sig(v)) + group(
        Delim::Brace,
        prefix + colon2() + seq![SpecTok::Ident(v.ident)] + call_args(
            invoke_args(v.inputs, true, false),
        ),
    )
}

/// The forwarding method in the boxed mode, for the signature `v` whose
/// `_` arguments are named: it calls `self.ptr.method(args)` on the erased
/// trait; where that returns a boxed value, the value is taken with the
/// lifetime `'_` and transmuted to `'static` for an async method, whose
/// signature then returns `impl Future`.
pub open spec fn boxed_fn_toks(v: SigView) -> Seq<SpecTok> {
    let call = ptr_call(v.ident, invoke_args(v.inputs, false, true));
    if !is_async_v(v) && !is_rpit_v(v) {
        sig_view_toks(v) + group(Delim::Brace, call)
    } else {
        let ty1 = sig_ret_ty_v(v, "_"@);
        let ty2 = if is_async_v(v) {
            sig_ret_ty_v(v, "static"@)
        } else {
            ty1
        };
        sig_view_toks(rpit_sig(v)) + group(Delim::Brace, transmute_body(ty1, call, ty2))
    }
}

/// `let ret: ty1 = call; let ret: ty2 = unsafe { ::core::mem::transmute(ret) }; ret`
pub open spec fn transmute_body(ty1: Seq<SpecTok>, call: Seq<SpecTok>, ty2: Seq<SpecTok>) -> Seq<
    SpecTok,
> {
    let_ret(ty1) + call + seq![pu(';')] + let_ret(ty2) + transmute_ret() + seq![pu(';'), id("ret")]
}

/// The method that forwards a call, in the given mode, its `_` arguments
/// named first; for a method with `where Self: Sized`, `sized_fn_toks`.
pub open spec fn dyn_struct_fn_toks(v: SigView, sized: bool, mode: ModeView) -> Seq<SpecTok> {
    if sized {
        sized_fn_toks(v)
    } else {
        let v1 = with_inputs(v, arg_names_v(v.inputs));
        match mode {
            ModeView::Direct(prefix) => direct_fn_toks(v1, prefix),
            ModeView::MaybeBoxed => boxed_fn_toks(v1),
        }
    }
}

fn push_unreachable(out: &mut Vec<Tok>)
    ensures
        vv(*final(out)) == vv(*old(out)) + unreachable_call(),
{
    let ghost start = vv(*out);
    push_ident(out, "unreachable");
    push_punct(out, '!');
    push_open(out, Delim::Paren);
    push_close(out, Delim::Paren);
    assert(vv(*out) =~= start + unreachable_call());
}

fn push_allow_unreachable(out: &mut Vec<Tok>)
    ensures
        vv(*final(out)) == vv(*old(out)) + allow_unreachable(),
{
    let ghost start = vv(*out);
    push_punct(out, '#');
    push_open(out, Delim::Bracket);
    push_ident(out, "allow");
    push_open(out, Delim::Paren);
    push_ident(out, "unreachable_code");
    push_close(out, Delim::Paren);
    push_close(out, Delim::Bracket);
    assert(vv(*out) =~= start + allow_unreachable());
}

fn push_call_args(out: &mut Vec<Tok>, args: &Vec<Vec<Tok>>)
    ensures
        vv(*final(out)) == vv(*old(out)) + call_args(vvs(args@)),
{
    let ghost start = vv(*out);
    push_open(out, Delim::Paren);
    append_joined(out, args, ',');
    push_close(out, Delim::Paren);
    assert(vv(*out) =~= start + call_args(vvs(args@)));
}

fn push_let_ret(out: &mut Vec<Tok>, ty: &Vec<Tok>)
    ensures
        vv(*final(out)) == vv(*old(out)) + let_ret(vv(*ty)),
{
    let ghost start = vv(*out);
    push_ident(out, "let");
    push_ident(out, "ret");
    push_punct(out, ':');
    append_toks(out, ty);
    push_punct(out, '=');
    assert(vv(*out) =~= start + let_ret(vv(*ty)));
}

/// Appends `unsafe { ::core::mem::transmute(x) }`.
pub fn push_transmute(out: &mut Vec<Tok>, x: &str)
    ensures
        vv(*final(out)) == vv(*old(out)) + transmute_of(x@),
{
    let ghost start = vv(*out);
    push_ident(out, "unsafe");
    push_open(out, Delim::Brace);
    push_colon2(out);
    push_ident(out, "core");
    push_colon2(out);
    push_ident(out, "mem");
    push_colon2(out);
    push_ident(out, "transmute");
    push_open(out, Delim::Paren);
    push_ident(out, x);
    push_close(out, Delim::Paren);
    push_close(out, Delim::Brace);
    assert(vv(*out) =~= start + transmute_of(x@));
}

fn push_ptr_call(out: &mut Vec<Tok>, ident: &String, args: &Vec<Vec<Tok>>)
    ensures
        vv(*final(out)) == vv(*old(out)) + ptr_call(ident@, vvs(args@)),
{
    let ghost start = vv(*out);
    push_ident(out, "self");
    push_punct(out, '.');
    push_ident(out, "ptr");
    push_punct(out, '.');
    push_ident_string(out, ident);
    push_call_args(out, args);
    assert(vv(*out) =~= start + ptr_call(ident@, vvs(args@)));
}

/// Rewrites the signature as `rpit_sig` says.
fn make_rpit(s: &mut Sig)
    ensures
        sig_view(*final(s)) == rpit_sig(sig_view(*old(s))),
{
    proof {
        crate::sig::lemma_async_view(*s);
    }
    if is_async(s) {
        let t = expand_sig_ret_ty_to_rpit(s);
        s.output = Some(TypeModel { kind: TypeKind::Other, toks: t });
    }
    s.asyncness = false;
}

fn sized_fn(sig: &Sig) -> (r: Vec<Tok>)
    ensures
        vv(r) == sized_fn_toks(sig_view(*sig)),
{
    proof {
        crate::sig::lemma_async_view(*sig);
    }
    let mut out: Vec<Tok> = Vec::new();
    if is_rpit(sig) {
        let ty = expand_sig_ret_ty(sig, "static");
        push_allow_unreachable(&mut out);
        print_sig(&mut out, sig);
        push_open(&mut out, Delim::Brace);
        push_unreachable(&mut out);
        push_ident(&mut out, "as");
        append_toks(&mut out, &ty);
        push_close(&mut out, Delim::Brace);
    } else {
        print_sig(&mut out, sig);
        push_open(&mut out, Delim::Brace);
        push_unreachable(&mut out);
        push_close(&mut out, Delim::Brace);
    }
    assert(vv(out) =~= sized_fn_toks(sig_view(*sig)));
    out
}

fn direct_fn(s: Sig, prefix: &Vec<Tok>) -> (r: Vec<Tok>)
    ensures
        vv(r) == direct_fn_toks(sig_view(s), vv(*prefix)),
{
    let ghost v = sig_view(s);
    let mut s = s;
    let args = expand_invoke_args(&s, true, false);
    let ident = s.ident.clone();
    make_rpit(&mut s);
    let mut out: Vec<Tok> = Vec::new();
    print_sig(&mut out, &s);
    push_open(&mut out, Delim::Brace);
    append_toks(&mut out, prefix);
    push_colon2(&mut out);
    push_ident_string(&mut out, &ident);
    push_call_args(&mut out, &args);
    push_close(&mut out, Delim::Brace);
    assert(vv(out) =~= direct_fn_toks(v, vv(*prefix)));
    out
}

fn push_transmute_body(out: &mut Vec<Tok>, ty1: &Vec<Tok>, call: &Vec<Tok>, ty2: &Vec<Tok>)
    ensures
        vv(*final(out)) == vv(*old(out)) + transmute_body(vv(*ty1), vv(*call), vv(*ty2)),
{
    let ghost start = vv(*out);
    push_let_ret(out, ty1);
    append_toks(out, call);
    push_punct(out, ';');
    push_let_ret(out, ty2);
    push_transmute(out, "ret");
    push_punct(out, ';');
    push_ident(out, "ret");
    assert(vv(*out) =~= start + transmute_body(vv(*ty1), vv(*call), vv(*ty2)));
}

fn boxed_fn(s: Sig) -> (r: Vec<Tok>)
    ensures
        vv(r) == boxed_fn_toks(sig_view(s)),
{
    proof {
        crate::sig::lemma_async_view(s);
    }
    let ghost v = sig_view(s);
    let mut s = s;
    let is_async = is_async(&s);
    let is_rpit = is_rpit(&s);
    let args = expand_invoke_args(&s, false, true);
    let mut call: Vec<Tok> = Vec::new();
    push_ptr_call(&mut call, &s.ident, &args);
    assert(vv(call) =~= ptr_call(v.ident, invoke_args(v.inputs, false, true)));
    let mut out: Vec<Tok> = Vec::new();
    if !is_async && !is_rpit {
        print_sig(&mut out, &s);
        push_open(&mut out, Delim::Brace);
        append_toks(&mut out, &call);
        push_close(&mut out, Delim::Brace);
        assert(vv(out) =~= boxed_fn_toks(v));
    } else {
        let ty1 = expand_sig_ret_ty(&s, "_");
        let ty2 = if is_async {
            expand_sig_ret_ty(&s, "static")
        } else {
            copy_toks(&ty1)
        };
        make_rpit(&mut s);
        print_sig(&mut out, &s);
        push_open(&mut out, Delim::Brace);
        push_transmute_body(&mut out, &ty1, &call, &ty2);
        push_close(&mut out, Delim::Brace);
        assert(vv(out) =~= boxed_fn_toks(v));
    }
    out
}

/// The method that forwards a call of the trait's method with this
/// signature, as `dyn_struct_fn_toks` says.
pub fn expand_dyn_struct_fn(sig: &Sig, mode: &InvokeArgsMode) -> (r: Vec<Tok>)
    requires
        sig.inputs.len() < usize::MAX,
    ensures
        vv(r) == dyn_struct_fn_toks(sig_view(*sig), spec_has_where_self_sized(*sig), mode@),
{
    if has_where_self_sized(sig) {
        return sized_fn(sig);
    }
    let mut s = sig.copy();
    expand_arg_names(&mut s);
    match mode {
        InvokeArgsMode::DirectUfcs(prefix) => direct_fn(s, prefix),
        InvokeArgsMode::MaybeBoxedNonUfcs => boxed_fn(s),
    }
}

/// `<ty as Trait<params>>`, the trait's parameters written as for a type.
pub open spec fn qself(ty: Seq<SpecTok>, trait_ident: Seq<char>, tg: Seq<ParamView>) -> Seq<
    SpecTok,
> {
    seq![pu('<')] + ty + seq![id("as"), SpecTok::Ident(trait_ident)] + split_generics(tg, true)
        + seq![pu('>')]
}

/// Appends `<ty as Trait trait_generics>`.
pub fn push_qself(out: &mut Vec<Tok>, ty: &Vec<Tok>, trait_ident: &String, trait_generics: &Vec<Tok>)
    ensures
        vv(*final(out)) == vv(*old(out)) + seq![pu('<')] + vv(*ty) + seq![
            id("as"),
            SpecTok::Ident(trait_ident@),
        ] + vv(*trait_generics) + seq![pu('>')],
{
    let ghost start = vv(*out);
    push_punct(out, '<');
    append_toks(out, ty);
    push_ident(out, "as");
    push_ident_string(out, trait_ident);
    append_toks(out, trait_generics);
    push_punct(out, '>');
    assert(vv(*out) =~= start + seq![pu('<')] + vv(*ty) + seq![
        id("as"),
        SpecTok::Ident(trait_ident@),
    ] + vv(*trait_generics) + seq![pu('>')]);
}

/// `<Self as Trait<params>>::method(args)`, boxed with `Box::pin` for an
/// async method and with `Box::new` for one returning `impl Trait`: the
/// method of the erased trait's blanket impl, with the signature that the
/// erased trait gives it.
pub open spec fn blanket_fn_toks(tg: Seq<ParamView>, trait_ident: Seq<char>, v: SigView) -> Seq<
    SpecTok,
> {
    let v2 = fn_sig_v(tg, v);
    let call = qself(seq![id("Self")], trait_ident, tg) + colon2() + seq![SpecTok::Ident(v.ident)]
        + call_args(invoke_args(v2.inputs, true, true));
    sig_view_toks(v2) + group(
        Delim::Brace,
        if is_async_v(v) {
            box_call("pin"@, call)
        } else if is_rpit_v(v) {
            box_call("new"@, call)
        } else {
            call
        },
    )
}

/// Rewrites the signature for the erased trait and writes the method of
/// the erased trait's blanket impl, which calls the trait's own method.
pub fn expand_blanket_impl_fn(item_trait: &TraitModel, sig: &mut Sig) -> (r: Vec<Tok>)
    requires
        sig_fits(*old(sig)),
    ensures
        sig_view(*final(sig)) == fn_sig_v(pvs(item_trait.generics.params@), sig_view(*old(sig))),
        vv(r) == blanket_fn_toks(
            pvs(item_trait.generics.params@),
            item_trait.ident@,
            sig_view(*old(sig)),
        ),
{
    proof {
        crate::sig::lemma_async_view(*sig);
    }
    let ghost v = sig_view(*sig);
    let ghost tg = pvs(item_trait.generics.params@);
    let is_async = is_async(sig);
    let is_rpit = is_rpit(sig);
    expand_fn_sig(&item_trait.generics, sig);
    let trait_generics = split_generics_toks(&item_trait.generics.params, true);
    let args = expand_invoke_args(sig, true, true);
    let mut self_ty: Vec<Tok> = Vec::new();
    push_ident(&mut self_ty, "Self");
    let mut call: Vec<Tok> = Vec::new();
    push_qself(&mut call, &self_ty, &item_trait.ident, &trait_generics);
    push_colon2(&mut call);
    push_ident_string(&mut call, &sig.ident);
    push_call_args(&mut call, &args);
    let mut out: Vec<Tok> = Vec::new();
    print_sig(&mut out, sig);
    push_open(&mut out, Delim::Brace);
    if is_async {
        push_box_call(&mut out, "pin", &call);
    } else if is_rpit {
        push_box_call(&mut out, "new", &call);
    } else {
        append_toks(&mut out, &call);
    }
    push_close(&mut out, Delim::Brace);
    assert(vv(out) =~= blanket_fn_toks(tg, item_trait.ident@, v));
    out
}

} // verus!
