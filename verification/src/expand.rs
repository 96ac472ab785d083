//! Rewriting the signatures of the trait's methods and writing the bodies
//! that forward calls.

use vstd::prelude::*;
use crate::tokens::{
    Tok, SpecTok, Delim, vv, id, pu, colon2, push_tok, push_ident, push_ident_string, push_punct,
    push_colon2, push_open, push_close, append_toks,
};
use crate::model::{
    Bound, BoundKind, TypeModel, TypeKind, PatKind, PatModel, ArgModel, TypedArg, ParamModel,
    Predicate, GenericsModel, Sig, vvs, join, append_joined,
};
use crate::print::{
    ParamView, ArgView, SigView, BoundView, TyView, bvs, lt, param_view_toks, pvs, param_view,
    print_param, print_bounds, print_lifetimes, bound_parts, sig_view, arg_view,
};
use crate::sig::{is_async, is_rpit, is_future, has_future_view, is_async_v, is_rpit_v};
use crate::tokens::group;

verus! {

/// An error with the message `msg`.
pub open spec fn error_tok(msg: Seq<char>) -> Seq<SpecTok> {
    seq![SpecTok::Error(msg)]
}

/// Appends an error with the message `msg`.
pub fn push_error(out: &mut Vec<Tok>, msg: &str)
    ensures
        vv(*final(out)) == vv(*old(out)) + error_tok(msg@),
{
    let ghost start = vv(*out);
    push_tok(out, Tok::Error(String::from_str(msg)));
    assert(vv(*out) =~= start + error_tok(msg@));
}

/// `::core::future::Future<Output = out>`
pub open spec fn future_output(out: Seq<SpecTok>) -> Seq<SpecTok> {
    colon2() + seq![id("core")] + colon2() + seq![id("future")] + colon2() + seq![
        id("Future"),
        pu('<'),
        id("Output"),
        pu('='),
    ] + out + seq![pu('>')]
}

/// `::core::pin::Pin<Box<dyn b>>`
pub open spec fn pin_box_dyn(b: Seq<SpecTok>) -> Seq<SpecTok> {
    colon2() + seq![id("core")] + colon2() + seq![id("pin")] + colon2() + seq![
        id("Pin"),
        pu('<'),
        id("Box"),
        pu('<'),
        id("dyn"),
    ] + b + seq![pu('>'), pu('>')]
}

/// `Box<dyn b>`
pub open spec fn box_dyn(b: Seq<SpecTok>) -> Seq<SpecTok> {
    seq![id("Box"), pu('<'), id("dyn")] + b + seq![pu('>')]
}

/// `()`
pub open spec fn unit() -> Seq<SpecTok> {
    seq![SpecTok::Open(Delim::Paren), SpecTok::Close(Delim::Paren)]
}

fn push_future_output(out: &mut Vec<Tok>, o: &Vec<Tok>)
    ensures
        vv(*final(out)) == vv(*old(out)) + future_output(vv(*o)),
{
    let ghost start = vv(*out);
    push_colon2(out);
    push_ident(out, "core");
    push_colon2(out);
    push_ident(out, "future");
    push_colon2(out);
    push_ident(out, "Future");
    push_punct(out, '<');
    push_ident(out, "Output");
    push_punct(out, '=');
    append_toks(out, o);
    push_punct(out, '>');
    assert(vv(*out) =~= start + future_output(vv(*o)));
}

/// Appends `::core::pin::Pin<Box<dyn b>>` if `pinned`, else `Box<dyn b>`.
pub fn push_boxed_dyn(out: &mut Vec<Tok>, b: &Vec<Tok>, pinned: bool)
    ensures
        vv(*final(out)) == vv(*old(out)) + (if pinned {
            pin_box_dyn(vv(*b))
        } else {
            box_dyn(vv(*b))
        }),
{
    let ghost start = vv(*out);
    if pinned {
        push_colon2(out);
        push_ident(out, "core");
        push_colon2(out);
        push_ident(out, "pin");
        push_colon2(out);
        push_ident(out, "Pin");
        push_punct(out, '<');
    }
    push_ident(out, "Box");
    push_punct(out, '<');
    push_ident(out, "dyn");
    append_toks(out, b);
    push_punct(out, '>');
    if pinned {
        push_punct(out, '>');
        assert(vv(*out) =~= start + pin_box_dyn(vv(*b)));
    } else {
        assert(vv(*out) =~= start + box_dyn(vv(*b)));
    }
}

/// The tokens of the bounds that are not lifetimes, in order.
pub open spec fn nonlt_view_parts(bs: Seq<BoundView>) -> Seq<Seq<SpecTok>>
    decreases bs.len(),
{
    if bs.len() == 0 {
        seq![]
    } else {
        let r = nonlt_view_parts(bs.drop_last());
        if bs.last().lifetime {
            r
        } else {
            r.push(bs.last().toks)
        }
    }
}

/// The tokens of the bounds that are not lifetimes, in order.
pub open spec fn nonlt_parts(bs: Seq<Bound>) -> Seq<Seq<SpecTok>> {
    nonlt_view_parts(bvs(bs))
}

/// The bounds followed by the lifetime, if one is given, separated by `+`.
pub open spec fn expanded_bounds(parts: Seq<Seq<SpecTok>>, l: Option<Seq<char>>) -> Seq<SpecTok> {
    join(
        match l {
            Some(x) => parts.push(seq![lt(x)]),
            None => parts,
        },
        pu('+'),
    )
}

/// The value of an optional lifetime name.
pub open spec fn opt_str(l: Option<&str>) -> Option<Seq<char>> {
    match l {
        Some(x) => Some(x@),
        None => None,
    }
}

/// The tokens of the bounds that are not lifetimes.
fn nonlt_bound_parts(bs: &Vec<Bound>) -> (r: Vec<Vec<Tok>>)
    ensures
        vvs(r@) == nonlt_parts(bs@),
{
    let mut r: Vec<Vec<Tok>> = Vec::new();
    let mut i: usize = 0;
    while i < bs.len()
        invariant
            i <= bs.len(),
            vvs(r@) == nonlt_parts(bs@.take(i as int)),
        decreases bs.len() - i,
    {
        assert(bvs(bs@.take(i + 1)).drop_last() =~= bvs(bs@.take(i as int)));
        let ghost before = r@;
        match &bs[i].kind {
            BoundKind::Lifetime => {},
            _ => {
                let mut p: Vec<Tok> = Vec::new();
                append_toks(&mut p, &bs[i].toks);
                assert(vv(p) =~= vv(bs@[i as int].toks));
                r.push(p);
                assert(vvs(r@) =~= vvs(before).push(vv(p)));
            },
        }
        i = i + 1;
    }
    assert(bs@.take(i as int) =~= bs@);
    r
}

/// The parts followed by the lifetime, if one is given, separated by `+`.
fn join_with_lifetime(parts: Vec<Vec<Tok>>, lifetime: Option<&str>) -> (r: Vec<Tok>)
    ensures
        vv(r) == expanded_bounds(vvs(parts@), opt_str(lifetime)),
{
    let mut parts = parts;
    let ghost before = parts@;
    match lifetime {
        Some(l) => {
            let mut p: Vec<Tok> = Vec::new();
            push_tok(&mut p, Tok::Lifetime(String::from_str(l)));
            assert(vv(p) =~= seq![lt(l@)]);
            parts.push(p);
            assert(vvs(parts@) =~= vvs(before).push(seq![lt(l@)]));
        },
        None => {},
    }
    let mut r: Vec<Tok> = Vec::new();
    append_joined(&mut r, &parts, '+');
    assert(vv(r) =~= expanded_bounds(vvs(before), opt_str(lifetime)));
    r
}

/// The bounds that are not lifetimes, followed by the lifetime if one is
/// given, separated by `+`.
pub fn expand_bounds(bs: &Vec<Bound>, lifetime: Option<&str>) -> (r: Vec<Tok>)
    ensures
        vv(r) == expanded_bounds(nonlt_parts(bs@), opt_str(lifetime)),
{
    let parts = nonlt_bound_parts(bs);
    join_with_lifetime(parts, lifetime)
}

/// The bounds of the value a method returns: `Future<Output = ..>` for an
/// `async fn`, the bounds of `impl Trait` (lifetimes left out) otherwise,
/// and an error where the method returns neither.
pub open spec fn ret_parts_v(v: SigView) -> Seq<Seq<SpecTok>> {
    if v.asyncness {
        match v.output {
            None => seq![future_output(unit())],
            Some(t) => seq![future_output(t)],
        }
    } else {
        match v.output_kind {
            Some(TyView::Impl(bs)) => nonlt_view_parts(bs),
            _ => seq![error_tok("unsupported return type"@)],
        }
    }
}

/// The bounds of the value a method returns.
pub open spec fn ret_bound_parts(sig: Sig) -> Seq<Seq<SpecTok>> {
    ret_parts_v(sig_view(sig))
}

fn ret_parts(sig: &Sig) -> (r: Vec<Vec<Tok>>)
    ensures
        vvs(r@) == ret_bound_parts(*sig),
{
    let mut r: Vec<Vec<Tok>> = Vec::new();
    let mut p: Vec<Tok> = Vec::new();
    if sig.asyncness {
        match &sig.output {
            None => {
                let mut u: Vec<Tok> = Vec::new();
                push_open(&mut u, Delim::Paren);
                push_close(&mut u, Delim::Paren);
                assert(vv(u) =~= unit());
                push_future_output(&mut p, &u);
            },
            Some(t) => push_future_output(&mut p, &t.toks),
        }
        assert(vv(p) =~= seq![].add(vv(p)));
        r.push(p);
        assert(vvs(r@) =~= seq![vv(p)]);
        r
    } else {
        match &sig.output {
            Some(t) => match &t.kind {
                TypeKind::ImplTrait(bs) => {
                    return nonlt_bound_parts(bs);
                },
                _ => {},
            },
            None => {},
        }
        push_error(&mut p, "unsupported return type");
        r.push(p);
        assert(vvs(r@) =~= seq![vv(p)]);
        r
    }
}

/// The bounds of the value a method returns, followed by the lifetime if
/// one is given, separated by `+`.
pub fn expand_ret_bounds(sig: &Sig, lifetime: Option<&str>) -> (r: Vec<Tok>)
    ensures
        vv(r) == expanded_bounds(ret_bound_parts(*sig), opt_str(lifetime)),
{
    let parts = ret_parts(sig);
    join_with_lifetime(parts, lifetime)
}

/// The type a method of the erased trait returns, with `'l` as the lifetime
/// of the boxed value.
pub open spec fn sig_ret_ty_v(v: SigView, l: Seq<char>) -> Seq<SpecTok> {
    if is_async_v(v) {
        pin_box_dyn(expanded_bounds(ret_parts_v(v), Some(l)))
    } else if is_rpit_v(v) {
        box_dyn(expanded_bounds(ret_parts_v(v), Some(l)))
    } else {
        match v.output {
            None => unit(),
            Some(t) => t,
        }
    }
}

/// The type a method of the erased trait returns.
pub open spec fn sig_ret_ty(sig: Sig, l: Seq<char>) -> Seq<SpecTok> {
    sig_ret_ty_v(sig_view(sig), l)
}

/// The type a method of the erased trait returns: `Pin<Box<dyn Future>>`
/// for an async method, `Box<dyn Bounds>` for one returning `impl Bounds`,
/// the declared type otherwise.
pub fn expand_sig_ret_ty(sig: &Sig, lifetime: &str) -> (r: Vec<Tok>)
    ensures
        vv(r) == sig_ret_ty(*sig, lifetime@),
{
    proof {
        crate::sig::lemma_async_view(*sig);
    }
    let a = is_async(sig);
    let b = is_rpit(sig);
    let mut out: Vec<Tok> = Vec::new();
    if a || b {
        let bounds = expand_ret_bounds(sig, Some(lifetime));
        push_boxed_dyn(&mut out, &bounds, a);
        assert(vv(out) =~= sig_ret_ty(*sig, lifetime@));
    } else {
        match &sig.output {
            None => {
                push_open(&mut out, Delim::Paren);
                push_close(&mut out, Delim::Paren);
            },
            Some(t) => append_toks(&mut out, &t.toks),
        }
        assert(vv(out) =~= sig_ret_ty(*sig, lifetime@));
    }
    out
}

/// `impl Bounds` for the value a method returns.
pub open spec fn ret_ty_to_rpit_v(v: SigView) -> Seq<SpecTok> {
    seq![id("impl")] + expanded_bounds(ret_parts_v(v), None)
}

/// `impl Bounds` for the value a method returns.
pub open spec fn ret_ty_to_rpit(sig: Sig) -> Seq<SpecTok> {
    ret_ty_to_rpit_v(sig_view(sig))
}

/// `impl Bounds` for the value a method returns.
pub fn expand_sig_ret_ty_to_rpit(sig: &Sig) -> (r: Vec<Tok>)
    ensures
        vv(r) == ret_ty_to_rpit(*sig),
{
    let bounds = expand_ret_bounds(sig, None);
    let mut out: Vec<Tok> = Vec::new();
    push_ident(&mut out, "impl");
    append_toks(&mut out, &bounds);
    assert(vv(out) =~= ret_ty_to_rpit(*sig));
    out
}

/// A parameter as written after `impl`: without its default.
pub open spec fn impl_param_toks(p: ParamView) -> Seq<SpecTok> {
    match p {
        ParamView::Lifetime { .. } => param_view_toks(p),
        ParamView::Type { attrs, ident, bounds, .. } => attrs + seq![SpecTok::Ident(ident)] + (
        if bounds.len() == 0 {
            seq![]
        } else {
            seq![pu(':')] + join(bounds, pu('+'))
        }),
        ParamView::Const { attrs, ident, ty, .. } => attrs + seq![
            id("const"),
            SpecTok::Ident(ident),
            pu(':'),
        ] + ty,
    }
}

/// A parameter as written after a type: its name alone.
pub open spec fn ty_param_toks(p: ParamView) -> Seq<SpecTok> {
    match p {
        ParamView::Lifetime { name, .. } => seq![lt(name)],
        ParamView::Type { ident, .. } => seq![SpecTok::Ident(ident)],
        ParamView::Const { ident, .. } => seq![SpecTok::Ident(ident)],
    }
}

/// The parameters that are lifetimes (`lts`) or that are not, each written
/// for a type (`ty`) or for `impl`.
pub open spec fn split_parts(ps: Seq<ParamView>, lts: bool, ty: bool) -> Seq<Seq<SpecTok>>
    decreases ps.len(),
{
    if ps.len() == 0 {
        seq![]
    } else {
        let r = split_parts(ps.drop_last(), lts, ty);
        if (ps.last() is Lifetime) == lts {
            r.push(
                if ty {
                    ty_param_toks(ps.last())
                } else {
                    impl_param_toks(ps.last())
                },
            )
        } else {
            r
        }
    }
}

/// The generics written for a type (`ty`) or for `impl`, lifetimes first,
/// or nothing if there are no parameters.
pub open spec fn split_generics(ps: Seq<ParamView>, ty: bool) -> Seq<SpecTok> {
    if ps.len() == 0 {
        seq![]
    } else {
        seq![pu('<')] + join(split_parts(ps, true, ty) + split_parts(ps, false, ty), pu(','))
            + seq![pu('>')]
    }
}

fn print_split_param(out: &mut Vec<Tok>, p: &ParamModel, ty: bool)
    ensures
        vv(*final(out)) == vv(*old(out)) + (if ty {
            ty_param_toks(param_view(*p))
        } else {
            impl_param_toks(param_view(*p))
        }),
{
    let ghost start = vv(*out);
    if !ty {
        match p {
            ParamModel::Lifetime { .. } => print_param(out, p),
            ParamModel::Type { attrs, ident, bounds, .. } => {
                append_toks(out, attrs);
                push_ident_string(out, ident);
                if bounds.len() > 0 {
                    push_punct(out, ':');
                    print_bounds(out, bounds);
                }
            },
            ParamModel::Const { attrs, ident, ty, .. } => {
                append_toks(out, attrs);
                push_ident(out, "const");
                push_ident_string(out, ident);
                push_punct(out, ':');
                append_toks(out, ty);
            },
        }
    } else {
        match p {
            ParamModel::Lifetime { name, .. } => push_tok(out, Tok::Lifetime(name.clone())),
            ParamModel::Type { ident, .. } => push_ident_string(out, ident),
            ParamModel::Const { ident, .. } => push_ident_string(out, ident),
        }
    }
    assert(vv(*out) =~= start + (if ty {
        ty_param_toks(param_view(*p))
    } else {
        impl_param_toks(param_view(*p))
    }));
}

/// The generics written for a type (`ty`) or for `impl`, as `split_for_impl`
/// writes them.
pub fn split_generics_toks(ps: &Vec<ParamModel>, ty: bool) -> (r: Vec<Tok>)
    ensures
        vv(r) == split_generics(pvs(ps@), ty),
{
    let mut out: Vec<Tok> = Vec::new();
    if ps.len() == 0 {
        assert(vv(out) =~= split_generics(pvs(ps@), ty));
        return out;
    }
    let mut parts: Vec<Vec<Tok>> = Vec::new();
    let mut i: usize = 0;
    while i < ps.len()
        invariant
            0 <= i <= ps.len(),
            vvs(parts@) == split_parts(pvs(ps@.take(i as int)), true, ty),
        decreases ps.len() - i,
    {
        let ghost before = parts@;
        assert(pvs(ps@.take(i + 1)).drop_last() =~= pvs(ps@.take(i as int)));
        if let ParamModel::Lifetime { .. } = &ps[i] {
            let mut p: Vec<Tok> = Vec::new();
            print_split_param(&mut p, &ps[i], ty);
            parts.push(p);
            assert(vvs(parts@) =~= vvs(before).push(vv(p)));
        }
        i = i + 1;
    }
    assert(ps@.take(ps.len() as int) =~= ps@);
    assert(split_parts(pvs(ps@.take(0)), false, ty) =~= Seq::<Seq<SpecTok>>::empty());
    assert(vvs(parts@) =~= split_parts(pvs(ps@), true, ty) + split_parts(
        pvs(ps@.take(0)),
        false,
        ty,
    ));
    i = 0;
    while i < ps.len()
        invariant
            0 <= i <= ps.len(),
            vvs(parts@) == split_parts(pvs(ps@), true, ty) + split_parts(
                pvs(ps@.take(i as int)),
                false,
                ty,
            ),
        decreases ps.len() - i,
    {
        let ghost before = parts@;
        assert(pvs(ps@.take(i + 1)).drop_last() =~= pvs(ps@.take(i as int)));
        match &ps[i] {
            ParamModel::Lifetime { .. } => {},
            _ => {
                let mut p: Vec<Tok> = Vec::new();
                print_split_param(&mut p, &ps[i], ty);
                parts.push(p);
                assert(vvs(parts@) =~= vvs(before).push(vv(p)));
            },
        }
        i = i + 1;
    }
    push_punct(&mut out, '<');
    append_joined(&mut out, &parts, ',');
    push_punct(&mut out, '>');
    assert(vv(out) =~= split_generics(pvs(ps@), ty));
    out
}

/// Whether the argument is `_: Ty`.
pub open spec fn is_wild_arg(a: ArgView) -> bool {
    match a {
        ArgView::Typed { pat_kind, .. } => pat_kind == PatKind::Wild,
        _ => false,
    }
}

/// The number of arguments `_: Ty`.
pub open spec fn wild_count(args: Seq<ArgView>) -> nat
    decreases args.len(),
{
    if args.len() == 0 {
        0
    } else {
        wild_count(args.drop_last()) + if is_wild_arg(args.last()) {
            1nat
        } else {
            0nat
        }
    }
}

/// The name given to the `k`-th argument `_`: `__dynosaur_arg` and the digits of `k`.
pub open spec fn arg_name(k: nat) -> Seq<char> {
    "__dynosaur_arg"@ + crate::lifetime::decimal(k)
}

/// The argument with a `_` pattern replaced by the name `arg_name(k)`.
pub open spec fn rename_arg(a: ArgView, k: nat) -> ArgView {
    match a {
        ArgView::Typed { attrs, pat_kind, pat, ty_kind, ty } => if pat_kind == PatKind::Wild {
            ArgView::Typed {
                attrs,
                pat_kind: PatKind::Ident,
                pat: seq![SpecTok::Ident(arg_name(k))],
                ty_kind,
                ty,
            }
        } else {
            a
        },
        _ => a,
    }
}

/// The arguments with their `_` patterns named `__dynosaur_arg1`,
/// `__dynosaur_arg2` and so on, in order; the others unchanged.
pub open spec fn arg_names_v(args: Seq<ArgView>) -> Seq<ArgView> {
    Seq::new(args.len(), |j: int| rename_arg(args[j], wild_count(args.take(j)) + 1))
}

/// The signature with other arguments.
pub open spec fn with_inputs(s: SigView, inputs: Seq<ArgView>) -> SigView {
    SigView { inputs, ..s }
}

/// The values of arguments.
pub open spec fn avs(args: Seq<ArgModel>) -> Seq<ArgView> {
    args.map_values(|a: ArgModel| arg_view(a))
}

/// Names the arguments whose pattern is `_`.
pub fn expand_arg_names(sig: &mut Sig)
    requires
        old(sig).inputs.len() < usize::MAX,
    ensures
        sig_view(*final(sig)) == with_inputs(
            sig_view(*old(sig)),
            arg_names_v(sig_view(*old(sig)).inputs),
        ),
        final(sig).inputs.len() == old(sig).inputs.len(),
        final(sig).output == old(sig).output,
        final(sig).asyncness == old(sig).asyncness,
        final(sig).generics == old(sig).generics,
{
    let ghost s0 = *sig;
    let ghost ov = avs(s0.inputs@);
    let mut wild_id: usize = 1;
    let mut j: usize = 0;
    while j < sig.inputs.len()
        invariant
            j <= sig.inputs.len() == s0.inputs.len() < usize::MAX,
            ov == avs(s0.inputs@),
            wild_id == wild_count(ov.take(j as int)) + 1,
            wild_id <= j + 1,
            forall|k: int|
                0 <= k < j ==> #[trigger] arg_view(sig.inputs@[k]) == rename_arg(
                    ov[k],
                    wild_count(ov.take(k)) + 1,
                ),
            forall|k: int| j <= k < sig.inputs.len() ==> #[trigger] sig.inputs@[k] == s0.inputs@[k],
            sig.constness == s0.constness,
            sig.asyncness == s0.asyncness,
            sig.unsafety == s0.unsafety,
            sig.abi == s0.abi,
            sig.ident == s0.ident,
            sig.generics == s0.generics,
            sig.output == s0.output,
        decreases sig.inputs.len() - j,
    {
        assert(ov.take(j + 1).drop_last() =~= ov.take(j as int));
        let ghost before = sig.inputs@;
        let a = sig.inputs.remove(j);
        let b = match a {
            ArgModel::Typed(t) => {
                let TypedArg { attrs, pat, ty } = t;
                if pat.kind == PatKind::Wild {
                    let mut name = String::from_str("__dynosaur_arg");
                    crate::lifetime::push_decimal(&mut name, wild_id);
                    let mut toks: Vec<Tok> = Vec::new();
                    let ghost nm = name@;
                    push_tok(&mut toks, Tok::Ident(name));
                    assert(vv(toks) =~= seq![SpecTok::Ident(nm)]);
                    assert(nm == arg_name(wild_count(ov.take(j as int)) + 1));
                    wild_id = wild_id + 1;
                    ArgModel::Typed(TypedArg { attrs, pat: PatModel { kind: PatKind::Ident, toks }, ty })
                } else {
                    ArgModel::Typed(TypedArg { attrs, pat, ty })
                }
            },
            other => other,
        };
        sig.inputs.insert(j, b);
        assert(sig.inputs@ =~= before.update(j as int, b));
        j = j + 1;
    }
    assert(avs(sig.inputs@) =~= arg_names_v(ov));
}

/// The type `impl Bounds` of an argument, boxed: `Pin<Box<dyn Bounds + 'l>>`
/// if the bounds name `Future`, else `Box<dyn Bounds + 'l>`.
pub open spec fn boxed_bounds(bs: Seq<BoundView>, l: Seq<char>) -> Seq<SpecTok> {
    let b = expanded_bounds(nonlt_view_parts(bs), Some(l));
    if has_future_view(bs) {
        pin_box_dyn(b)
    } else {
        box_dyn(b)
    }
}

/// The argument with a type `impl Bounds` boxed.
pub open spec fn apit_arg(a: ArgView, l: Seq<char>) -> ArgView {
    match a {
        ArgView::Typed { attrs, pat_kind, pat, ty_kind, ty } => match ty_kind {
            TyView::Impl(bs) => ArgView::Typed {
                attrs,
                pat_kind,
                pat,
                ty_kind: TyView::Other,
                ty: boxed_bounds(bs, l),
            },
            _ => a,
        },
        _ => a,
    }
}

/// The lifetime of boxed `impl Trait` arguments: `'dynosaur` in an async
/// method, `'_` otherwise.
pub open spec fn apit_lifetime_v(v: SigView) -> Seq<char> {
    if is_async_v(v) {
        "dynosaur"@
    } else {
        "_"@
    }
}

/// The lifetime of boxed `impl Trait` arguments.
pub open spec fn apit_lifetime(sig: Sig) -> Seq<char> {
    apit_lifetime_v(sig_view(sig))
}

/// The arguments with their `impl Trait` types boxed.
pub open spec fn apits_v(args: Seq<ArgView>, l: Seq<char>) -> Seq<ArgView> {
    args.map_values(|a: ArgView| apit_arg(a, l))
}

/// Boxes the arguments of type `impl Trait`.
pub fn expand_apits(sig: &mut Sig)
    ensures
        sig_view(*final(sig)) == with_inputs(
            sig_view(*old(sig)),
            apits_v(sig_view(*old(sig)).inputs, apit_lifetime(*old(sig))),
        ),
        final(sig).inputs.len() == old(sig).inputs.len(),
        final(sig).output == old(sig).output,
        final(sig).asyncness == old(sig).asyncness,
        final(sig).generics == old(sig).generics,
{
    let ghost s0 = *sig;
    let ghost ov = avs(s0.inputs@);
    proof {
        crate::sig::lemma_async_view(*sig);
    }
    let lifetime: &str = if is_async(sig) {
        "dynosaur"
    } else {
        "_"
    };
    assert(lifetime@ == apit_lifetime(s0));
    let mut j: usize = 0;
    while j < sig.inputs.len()
        invariant
            j <= sig.inputs.len() == s0.inputs.len(),
            ov == avs(s0.inputs@),
            lifetime@ == apit_lifetime(s0),
            forall|k: int|
                0 <= k < j ==> #[trigger] arg_view(sig.inputs@[k]) == apit_arg(
                    ov[k],
                    lifetime@,
                ),
            forall|k: int| j <= k < sig.inputs.len() ==> #[trigger] sig.inputs@[k] == s0.inputs@[k],
            sig.constness == s0.constness,
            sig.asyncness == s0.asyncness,
            sig.unsafety == s0.unsafety,
            sig.abi == s0.abi,
            sig.ident == s0.ident,
            sig.generics == s0.generics,
            sig.output == s0.output,
        decreases sig.inputs.len() - j,
    {
        let ghost before = sig.inputs@;
        let a = sig.inputs.remove(j);
        let b = match a {
            ArgModel::Typed(t) => {
                let TypedArg { attrs, pat, ty } = t;
                match &ty.kind {
                    TypeKind::ImplTrait(bs) => {
                        proof {
                            crate::sig::lemma_future_view(bs@);
                        }
                        let bounds = expand_bounds(bs, Some(lifetime));
                        let mut toks: Vec<Tok> = Vec::new();
                        push_boxed_dyn(&mut toks, &bounds, is_future(bs));
                        ArgModel::Typed(
                            TypedArg { attrs, pat, ty: TypeModel { kind: TypeKind::Other, toks } },
                        )
                    },
                    _ => ArgModel::Typed(TypedArg { attrs, pat, ty }),
                }
            },
            other => other,
        };
        sig.inputs.insert(j, b);
        assert(sig.inputs@ =~= before.update(j as int, b));
        j = j + 1;
    }
    assert(avs(sig.inputs@) =~= apits_v(ov, lifetime@));
}

/// `'dynosaur`
pub open spec fn dyn_lt_part() -> Seq<SpecTok> {
    seq![lt("dynosaur"@)]
}

/// The where-predicate that a parameter of the trait or method gets:
/// `T: Bounds + 'dynosaur` or `'a: 'b + 'dynosaur`; none for a const.
pub open spec fn param_pred(p: ParamView) -> Option<Seq<SpecTok>> {
    match p {
        ParamView::Type { ident, bounds, .. } => Some(
            seq![SpecTok::Ident(ident), pu(':')] + join(bounds.push(dyn_lt_part()), pu('+')),
        ),
        ParamView::Lifetime { name, bounds, .. } => Some(
            seq![lt(name), pu(':')] + join(
                bounds.map_values(|l: Seq<char>| seq![lt(l)]).push(dyn_lt_part()),
                pu('+'),
            ),
        ),
        ParamView::Const { .. } => None,
    }
}

/// The where-predicates of the parameters, in order.
pub open spec fn param_preds(ps: Seq<ParamView>) -> Seq<Seq<SpecTok>>
    decreases ps.len(),
{
    if ps.len() == 0 {
        seq![]
    } else {
        let r = param_preds(ps.drop_last());
        match param_pred(ps.last()) {
            Some(p) => r.push(p),
            None => r,
        }
    }
}

proof fn lemma_param_preds_add(a: Seq<ParamView>, b: Seq<ParamView>)
    ensures
        param_preds(a + b) == param_preds(a) + param_preds(b),
    decreases b.len(),
{
    if b.len() == 0 {
        assert(a + b =~= a);
        assert(param_preds(b) =~= Seq::<Seq<SpecTok>>::empty());
        assert(param_preds(a) + param_preds(b) =~= param_preds(a));
    } else {
        lemma_param_preds_add(a, b.drop_last());
        assert((a + b).drop_last() =~= a + b.drop_last());
        assert((a + b).last() == b.last());
        match param_pred(b.last()) {
            Some(p) => {
                assert(param_preds(a) + param_preds(b) =~= (param_preds(a) + param_preds(
                    b.drop_last(),
                )).push(p));
            },
            None => {},
        }
    }
}

/// The parameter without its bounds.
pub open spec fn strip_bounds(p: ParamView) -> ParamView {
    match p {
        ParamView::Type { attrs, ident, default, .. } => ParamView::Type {
            attrs,
            ident,
            bounds: seq![],
            default,
        },
        ParamView::Lifetime { attrs, name, .. } => ParamView::Lifetime {
            attrs,
            name,
            bounds: seq![],
        },
        ParamView::Const { .. } => p,
    }
}

/// The lifetime parameter `'name` with no attributes and no bounds.
pub open spec fn plain_lifetime(name: Seq<char>) -> ParamView {
    ParamView::Lifetime { attrs: seq![], name, bounds: seq![] }
}

/// `'lifeK: 'dynosaur`
pub open spec fn elided_pred(k: nat) -> Seq<SpecTok> {
    seq![lt(crate::lifetime::life_name(k)), pu(':'), lt("dynosaur"@)]
}

/// `Self: 'dynosaur`
pub open spec fn self_pred() -> Seq<SpecTok> {
    seq![id("Self"), pu(':'), lt("dynosaur"@)]
}

/// The where clause with the predicates added; it is created if there is
/// none and something is added.
pub open spec fn add_preds(w: Option<Seq<Seq<SpecTok>>>, new: Seq<Seq<SpecTok>>) -> Option<
    Seq<Seq<SpecTok>>,
> {
    if new.len() == 0 {
        w
    } else {
        Some(
            match w {
                Some(ps) => ps,
                None => seq![],
            } + new,
        )
    }
}

/// The argument with `'dynosaur +` written in each `impl Trait` of its type.
pub open spec fn add_lt_arg(a: ArgView) -> ArgView {
    match a {
        ArgView::Typed { attrs, pat_kind, pat, ty_kind, ty } => ArgView::Typed {
            attrs,
            pat_kind,
            pat,
            ty_kind,
            ty: crate::lifetime::add_lifetime_to_impl_trait(ty),
        },
        _ => a,
    }
}

/// The signature with its lifetimes made explicit, given the trait's
/// parameters `tg`: elided lifetimes become `'life0`, `'life1`, ...; every
/// parameter, every elided lifetime and (if the signature mentions it)
/// `Self` must outlive `'dynosaur`, a new lifetime parameter; the bounds of
/// the method's parameters move to the where clause; each `impl Trait`
/// argument type gets the bound `'dynosaur`.
pub open spec fn fn_input_v(tg: Seq<ParamView>, s: SigView) -> SigView {
    let (inputs1, m) = crate::lifetime::collect_args(s.inputs, 0);
    let new_preds = param_preds(tg + s.params) + Seq::new(m, |k: int| elided_pred(k as nat));
    let params = s.params.map_values(|p: ParamView| strip_bounds(p)) + Seq::new(
        m,
        |k: int| plain_lifetime(crate::lifetime::life_name(k as nat)),
    ) + seq![plain_lifetime("dynosaur"@)];
    let w1 = add_preds(s.where_clause, new_preds);
    let s1 = SigView { params, where_clause: w1, inputs: inputs1, ..s };
    let w2 = if crate::receiver::sig_mentions_self(s1) {
        add_preds(w1, seq![self_pred()])
    } else {
        w1
    };
    SigView { where_clause: w2, inputs: inputs1.map_values(|a: ArgView| add_lt_arg(a)), ..s1 }
}

/// The number of tokens of an argument's type.
pub open spec fn view_ty_len(a: ArgView) -> nat {
    match a {
        ArgView::Receiver { ty, .. } => ty.len(),
        ArgView::Typed { ty, .. } => ty.len(),
    }
}

/// The sum, over the arguments, of the length of each type plus one.
pub open spec fn views_size(args: Seq<ArgView>) -> nat
    decreases args.len(),
{
    if args.len() == 0 {
        0
    } else {
        views_size(args.drop_last()) + view_ty_len(args.last()) + 1
    }
}

/// Appends the where-predicate of a parameter, if it has one.
fn push_param_pred(preds: &mut Vec<Vec<Tok>>, p: &ParamModel)
    ensures
        vvs(final(preds)@) == match param_pred(param_view(*p)) {
            Some(x) => vvs(old(preds)@).push(x),
            None => vvs(old(preds)@),
        },
{
    let ghost before = preds@;
    match p {
        ParamModel::Type { ident, bounds, .. } => {
            let mut t: Vec<Tok> = Vec::new();
            push_ident_string(&mut t, ident);
            push_punct(&mut t, ':');
            if bounds.len() > 0 {
                print_bounds(&mut t, bounds);
                push_punct(&mut t, '+');
            }
            push_tok(&mut t, Tok::Lifetime(String::from_str("dynosaur")));
            proof {
                let bp = bound_parts(bounds@);
                if bp.len() > 0 {
                    assert(bp.push(dyn_lt_part()).drop_last() =~= bp);
                }
            }
            assert(vv(t) =~= param_pred(param_view(*p))->0);
            preds.push(t);
            assert(vvs(preds@) =~= vvs(before).push(vv(t)));
        },
        ParamModel::Lifetime { name, bounds, .. } => {
            let mut t: Vec<Tok> = Vec::new();
            push_tok(&mut t, Tok::Lifetime(name.clone()));
            push_punct(&mut t, ':');
            if bounds.len() > 0 {
                print_lifetimes(&mut t, bounds);
                push_punct(&mut t, '+');
            }
            push_tok(&mut t, Tok::Lifetime(String::from_str("dynosaur")));
            proof {
                let lp = bounds@.map_values(|l: String| l@).map_values(
                    |l: Seq<char>| seq![lt(l)],
                );
                if lp.len() > 0 {
                    assert(lp.push(dyn_lt_part()).drop_last() =~= lp);
                }
            }
            assert(vv(t) =~= param_pred(param_view(*p))->0);
            preds.push(t);
            assert(vvs(preds@) =~= vvs(before).push(vv(t)));
        },
        ParamModel::Const { .. } => {},
    }
}

/// Appends the where-predicates of the parameters.
fn push_param_preds(preds: &mut Vec<Vec<Tok>>, ps: &Vec<ParamModel>)
    ensures
        vvs(final(preds)@) == vvs(old(preds)@) + param_preds(pvs(ps@)),
{
    let ghost start = vvs(preds@);
    let mut i: usize = 0;
    while i < ps.len()
        invariant
            i <= ps.len(),
            vvs(preds@) == start + param_preds(pvs(ps@.take(i as int))),
        decreases ps.len() - i,
    {
        assert(pvs(ps@.take(i + 1)).drop_last() =~= pvs(ps@.take(i as int)));
        let ghost before = vvs(preds@);
        push_param_pred(preds, &ps[i]);
        proof {
            match param_pred(param_view(ps@[i as int])) {
                Some(x) => {
                    assert(vvs(preds@) =~= start + param_preds(pvs(ps@.take(i + 1))));
                },
                None => {
                    assert(vvs(preds@) =~= start + param_preds(pvs(ps@.take(i + 1))));
                },
            }
        }
        i = i + 1;
    }
    assert(ps@.take(i as int) =~= ps@);
}

/// Appends the predicates to the where clause.
fn add_where_preds(w: &mut Option<Vec<Predicate>>, preds: Vec<Vec<Tok>>)
    ensures
        crate::print::where_view(*final(w)) == add_preds(
            crate::print::where_view(*old(w)),
            vvs(preds@),
        ),
{
    if preds.len() == 0 {
        assert(vvs(preds@) =~= Seq::<Seq<SpecTok>>::empty());
        return;
    }
    let ghost old_parts = match crate::print::where_view(*w) {
        Some(ps) => ps,
        None => Seq::<Seq<SpecTok>>::empty(),
    };
    let mut preds = preds;
    let ghost all = vvs(preds@);
    let ghost n = preds@.len();
    let target = crate::where_clauses::where_clause_or_default(w);
    assert(crate::print::pred_parts(target@) =~= old_parts);
    let mut i: usize = 0;
    while preds.len() > 0
        invariant
            crate::print::pred_parts(target@) == old_parts + all.take(i as int),
            vvs(preds@) == all.skip(i as int),
            i + preds@.len() == n,
            n == all.len(),
            n <= usize::MAX,
        decreases preds@.len(),
    {
        let ghost pv = preds@;
        let toks = preds.remove(0);
        assert(vv(toks) == vvs(pv)[0]);
        assert(vvs(pv)[0] == all.skip(i as int)[0]);
        assert(vvs(preds@) =~= vvs(pv).drop_first());
        let ghost before = target@;
        target.push(Predicate { kind: crate::model::PredKind::Other, toks });
        assert(crate::print::pred_parts(target@) =~= crate::print::pred_parts(before).push(
            all[i as int],
        ));
        assert(all.take(i + 1) =~= all.take(i as int).push(all[i as int]));
        assert(vvs(preds@) =~= all.skip(i + 1));
        i = i + 1;
    }
    assert(all.take(i as int) =~= all);
}

pub proof fn lemma_views_size_prefix(s: Seq<ArgView>, j: int)
    requires
        0 <= j <= s.len(),
    ensures
        views_size(s.take(j)) <= views_size(s),
    decreases s.len(),
{
    if j < s.len() {
        assert(s.drop_last().take(j) =~= s.take(j));
        lemma_views_size_prefix(s.drop_last(), j);
    } else {
        assert(s.take(j) =~= s);
    }
}

/// The parameter without its bounds.
fn strip_param(p: ParamModel) -> (r: ParamModel)
    ensures
        param_view(r) == strip_bounds(param_view(p)),
{
    match p {
        ParamModel::Type { attrs, ident, bounds, default } => {
            let e: Vec<Bound> = Vec::new();
            assert(bound_parts(e@) =~= Seq::<Seq<SpecTok>>::empty());
            ParamModel::Type { attrs, ident, bounds: e, default }
        },
        ParamModel::Lifetime { attrs, name, bounds } => {
            let e: Vec<String> = Vec::new();
            assert(e@.map_values(|l: String| l@) =~= Seq::<Seq<char>>::empty());
            ParamModel::Lifetime { attrs, name, bounds: e }
        },
        c => c,
    }
}

/// The lifetime parameter `'name`.
fn plain_lifetime_param(name: String) -> (r: ParamModel)
    ensures
        param_view(r) == plain_lifetime(name@),
{
    let attrs: Vec<Tok> = Vec::new();
    let bounds: Vec<String> = Vec::new();
    assert(vv(attrs) =~= Seq::<SpecTok>::empty());
    assert(bounds@.map_values(|l: String| l@) =~= Seq::<Seq<char>>::empty());
    ParamModel::Lifetime { attrs, name, bounds }
}

/// Names the elided lifetimes of the arguments in order; gives their number.
fn collect_inputs(sig: &mut Sig) -> (m: usize)
    requires
        views_size(avs(old(sig).inputs@)) < usize::MAX,
    ensures
        (avs(final(sig).inputs@), m as nat) == crate::lifetime::collect_args(
            avs(old(sig).inputs@),
            0,
        ),
        final(sig).inputs.len() == old(sig).inputs.len(),
        final(sig).constness == old(sig).constness,
        final(sig).asyncness == old(sig).asyncness,
        final(sig).unsafety == old(sig).unsafety,
        final(sig).abi == old(sig).abi,
        final(sig).ident == old(sig).ident,
        final(sig).generics == old(sig).generics,
        final(sig).output == old(sig).output,
{
    let ghost s0 = *sig;
    let ghost ov = avs(s0.inputs@);
    let mut count: usize = 0;
    let mut j: usize = 0;
    assert(ov.skip(0) =~= ov);
    assert(avs(sig.inputs@.take(0)) =~= Seq::<ArgView>::empty());
    while j < sig.inputs.len()
        invariant
            j <= sig.inputs.len() == s0.inputs.len(),
            ov == avs(s0.inputs@),
            views_size(ov) < usize::MAX,
            count <= views_size(ov.take(j as int)),
            forall|k: int| j <= k < sig.inputs.len() ==> #[trigger] sig.inputs@[k] == s0.inputs@[k],
            avs(sig.inputs@.take(j as int)) + crate::lifetime::collect_args(
                ov.skip(j as int),
                count as nat,
            ).0 == crate::lifetime::collect_args(ov, 0).0,
            crate::lifetime::collect_args(ov.skip(j as int), count as nat).1
                == crate::lifetime::collect_args(ov, 0).1,
            sig.constness == s0.constness,
            sig.asyncness == s0.asyncness,
            sig.unsafety == s0.unsafety,
            sig.abi == s0.abi,
            sig.ident == s0.ident,
            sig.generics == s0.generics,
            sig.output == s0.output,
        decreases sig.inputs.len() - j,
    {
        proof {
            lemma_views_size_prefix(ov, j + 1);
            assert(ov.take(j + 1).drop_last() =~= ov.take(j as int));
            assert(ov.skip(j as int).drop_first() =~= ov.skip(j + 1));
            assert(ov.skip(j as int)[0] == ov[j as int]);
        }
        let ghost before = sig.inputs@;
        let ghost c0 = count as nat;
        let a = sig.inputs.remove(j);
        let b = crate::lifetime::collect_lifetimes_arg(a, &mut count);
        sig.inputs.insert(j, b);
        proof {
            assert(sig.inputs@ =~= before.update(j as int, b));
            assert(avs(sig.inputs@.take(j + 1)) =~= avs(sig.inputs@.take(j as int)).push(
                arg_view(b),
            ));
            assert(sig.inputs@.take(j as int) =~= before.take(j as int));
            let (r, k) = crate::lifetime::collect_args(ov.skip(j + 1), count as nat);
            assert(crate::lifetime::collect_args(ov.skip(j as int), c0).0 =~= seq![arg_view(b)]
                + r);
            assert(avs(sig.inputs@.take(j + 1)) + r =~= avs(sig.inputs@.take(j as int))
                + crate::lifetime::collect_args(ov.skip(j as int), c0).0);
        }
        j = j + 1;
    }
    proof {
        assert(sig.inputs@.take(j as int) =~= sig.inputs@);
        assert(ov.skip(j as int) =~= Seq::<ArgView>::empty());
        assert(avs(sig.inputs@) + Seq::<ArgView>::empty() =~= avs(sig.inputs@));
    }
    count
}

/// Makes the lifetimes of the signature explicit, as `fn_input_v` says.
pub fn expand_fn_input(tg: &GenericsModel, sig: &mut Sig)
    requires
        views_size(avs(old(sig).inputs@)) < usize::MAX,
    ensures
        sig_view(*final(sig)) == fn_input_v(pvs(tg.params@), sig_view(*old(sig))),
        final(sig).output == old(sig).output,
        final(sig).asyncness == old(sig).asyncness,
        final(sig).inputs.len() == old(sig).inputs.len(),
{
    let ghost s0 = *sig;
    let ghost v0 = sig_view(s0);
    let m = collect_inputs(sig);
    let ghost inputs1 = avs(sig.inputs@);
    // The where-predicates of the parameters, then of the elided lifetimes.
    let mut preds: Vec<Vec<Tok>> = Vec::new();
    assert(vvs(preds@) =~= Seq::<Seq<SpecTok>>::empty());
    push_param_preds(&mut preds, &tg.params);
    push_param_preds(&mut preds, &sig.generics.params);
    proof {
        lemma_param_preds_add(pvs(tg.params@), v0.params);
    }
    let ghost pp = vvs(preds@);
    let mut k: usize = 0;
    while k < m
        invariant
            k <= m,
            vvs(preds@) == pp + Seq::new(k as nat, |i: int| elided_pred(i as nat)),
        decreases m - k,
    {
        let ghost before = vvs(preds@);
        let mut t: Vec<Tok> = Vec::new();
        push_tok(&mut t, crate::lifetime::life_lifetime(k));
        push_punct(&mut t, ':');
        push_tok(&mut t, Tok::Lifetime(String::from_str("dynosaur")));
        assert(vv(t) =~= elided_pred(k as nat));
        preds.push(t);
        assert(vvs(preds@) =~= before.push(vv(t)));
        assert(vvs(preds@) =~= pp + Seq::new((k + 1) as nat, |i: int| elided_pred(i as nat)));
        k = k + 1;
    }
    // The method's parameters lose their bounds.
    let ghost ps0 = sig.generics.params@;
    let mut i: usize = 0;
    while i < sig.generics.params.len()
        invariant
            i <= sig.generics.params.len() == ps0.len(),
            forall|k: int|
                0 <= k < i ==> #[trigger] param_view(sig.generics.params@[k]) == strip_bounds(
                    param_view(ps0[k]),
                ),
            forall|k: int|
                i <= k < sig.generics.params.len() ==> #[trigger] sig.generics.params@[k]
                    == ps0[k],
            sig.generics.where_clause == s0.generics.where_clause,
            avs(sig.inputs@) == inputs1,
            sig.constness == s0.constness,
            sig.asyncness == s0.asyncness,
            sig.unsafety == s0.unsafety,
            sig.abi == s0.abi,
            sig.ident == s0.ident,
            sig.output == s0.output,
        decreases sig.generics.params.len() - i,
    {
        let ghost before = sig.generics.params@;
        let a = sig.generics.params.remove(i);
        let b = strip_param(a);
        sig.generics.params.insert(i, b);
        assert(sig.generics.params@ =~= before.update(i as int, b));
        i = i + 1;
    }
    assert(pvs(sig.generics.params@) =~= v0.params.map_values(|p: ParamView| strip_bounds(p)));
    // The elided lifetimes and `'dynosaur` become parameters.
    let ghost ps1 = pvs(sig.generics.params@);
    k = 0;
    while k < m
        invariant
            k <= m,
            pvs(sig.generics.params@) == ps1 + Seq::new(
                k as nat,
                |i: int| plain_lifetime(crate::lifetime::life_name(i as nat)),
            ),
            sig.generics.where_clause == s0.generics.where_clause,
            avs(sig.inputs@) == inputs1,
            sig.constness == s0.constness,
            sig.asyncness == s0.asyncness,
            sig.unsafety == s0.unsafety,
            sig.abi == s0.abi,
            sig.ident == s0.ident,
            sig.output == s0.output,
        decreases m - k,
    {
        let mut name = String::from_str("life");
        crate::lifetime::push_decimal(&mut name, k);
        assert(name@ == crate::lifetime::life_name(k as nat));
        let p = plain_lifetime_param(name);
        let ghost before = pvs(sig.generics.params@);
        sig.generics.params.push(p);
        assert(pvs(sig.generics.params@) =~= before.push(param_view(p)));
        assert(pvs(sig.generics.params@) =~= ps1 + Seq::new(
            (k + 1) as nat,
            |i: int| plain_lifetime(crate::lifetime::life_name(i as nat)),
        ));
        k = k + 1;
    }
    let d = plain_lifetime_param(String::from_str("dynosaur"));
    let ghost ps2 = pvs(sig.generics.params@);
    sig.generics.params.push(d);
    assert(pvs(sig.generics.params@) =~= ps2 + seq![plain_lifetime("dynosaur"@)]);
    add_where_preds(&mut sig.generics.where_clause, preds);
    let ghost s1 = sig_view(*sig);
    assert(s1 =~= ({
        let (inputs1, m) = crate::lifetime::collect_args(v0.inputs, 0);
        let new_preds = param_preds(pvs(tg.params@) + v0.params) + Seq::new(
            m,
            |k: int| elided_pred(k as nat),
        );
        let params = v0.params.map_values(|p: ParamView| strip_bounds(p)) + Seq::new(
            m,
            |k: int| plain_lifetime(crate::lifetime::life_name(k as nat)),
        ) + seq![plain_lifetime("dynosaur"@)];
        SigView {
            params,
            where_clause: add_preds(v0.where_clause, new_preds),
            inputs: inputs1,
            ..v0
        }
    }));
    if crate::receiver::has_self_in_sig(sig) {
        let mut t: Vec<Tok> = Vec::new();
        push_ident(&mut t, "Self");
        push_punct(&mut t, ':');
        push_tok(&mut t, Tok::Lifetime(String::from_str("dynosaur")));
        assert(vv(t) =~= self_pred());
        let mut more: Vec<Vec<Tok>> = Vec::new();
        more.push(t);
        assert(vvs(more@) =~= seq![self_pred()]);
        add_where_preds(&mut sig.generics.where_clause, more);
    }
    // Each `impl Trait` in an argument type gets the bound `'dynosaur`.
    let ghost s2 = *sig;
    let mut j: usize = 0;
    while j < sig.inputs.len()
        invariant
            j <= sig.inputs.len() == s2.inputs.len(),
            forall|k: int|
                0 <= k < j ==> #[trigger] arg_view(sig.inputs@[k]) == add_lt_arg(
                    arg_view(s2.inputs@[k]),
                ),
            forall|k: int| j <= k < sig.inputs.len() ==> #[trigger] sig.inputs@[k] == s2.inputs@[k],
            sig.constness == s2.constness,
            sig.asyncness == s2.asyncness,
            sig.unsafety == s2.unsafety,
            sig.abi == s2.abi,
            sig.ident == s2.ident,
            sig.generics == s2.generics,
            sig.output == s2.output,
        decreases sig.inputs.len() - j,
    {
        let ghost before = sig.inputs@;
        let a = sig.inputs.remove(j);
        let b = match a {
            ArgModel::Typed(t) => {
                let TypedArg { attrs, pat, ty } = t;
                let TypeModel { kind, toks } = ty;
                let n = crate::lifetime::add_lifetime_to_impl_trait_toks(&toks);
                ArgModel::Typed(TypedArg { attrs, pat, ty: TypeModel { kind, toks: n } })
            },
            other => other,
        };
        sig.inputs.insert(j, b);
        assert(sig.inputs@ =~= before.update(j as int, b));
        j = j + 1;
    }
    assert(avs(sig.inputs@) =~= avs(s2.inputs@).map_values(|a: ArgView| add_lt_arg(a)));
}

/// The signature of a method of the erased trait, given the trait's
/// parameters `tg`: `_` arguments are named, `impl Trait` arguments are
/// boxed and, for an `async` method or one returning `impl Trait`, the
/// lifetimes are made explicit and the method returns a boxed value.
pub open spec fn fn_sig_v(tg: Seq<ParamView>, v: SigView) -> SigView {
    let v1 = with_inputs(v, arg_names_v(v.inputs));
    let v2 = with_inputs(v1, apits_v(v1.inputs, apit_lifetime_v(v)));
    if is_async_v(v) || is_rpit_v(v) {
        let v3 = fn_input_v(tg, v2);
        SigView {
            asyncness: false,
            output: Some(sig_ret_ty_v(v, "dynosaur"@)),
            output_kind: Some(TyView::Other),
            ..v3
        }
    } else {
        v2
    }
}

/// Whether the arguments of the method, once boxed, have fewer than
/// `usize::MAX` type tokens in all (a limit of the machine).
pub open spec fn sig_fits(sig: Sig) -> bool {
    &&& sig.inputs.len() < usize::MAX
    &&& views_size(apits_v(arg_names_v(avs(sig.inputs@)), apit_lifetime(sig))) < usize::MAX
}

/// Rewrites the signature of a method for the erased trait, as `fn_sig_v` says.
pub fn expand_fn_sig(tg: &GenericsModel, sig: &mut Sig)
    requires
        sig_fits(*old(sig)),
    ensures
        sig_view(*final(sig)) == fn_sig_v(pvs(tg.params@), sig_view(*old(sig))),
{
    let ghost s0 = *sig;
    proof {
        crate::sig::lemma_async_view(*sig);
    }
    expand_arg_names(sig);
    let ghost s1 = *sig;
    assert(apit_lifetime(s1) == apit_lifetime(s0));
    expand_apits(sig);
    proof {
        crate::sig::lemma_async_view(*sig);
    }
    if is_async(sig) || is_rpit(sig) {
        expand_fn_input(tg, sig);
        let ret_ty = expand_sig_ret_ty(sig, "dynosaur");
        assert(vv(ret_ty) == sig_ret_ty(s0, "dynosaur"@));
        sig.asyncness = false;
        sig.output = Some(TypeModel { kind: TypeKind::Other, toks: ret_ty });
    }
}

/// `Box::f(pat)`
pub open spec fn box_call(f: Seq<char>, pat: Seq<SpecTok>) -> Seq<SpecTok> {
    seq![id("Box")] + colon2() + seq![SpecTok::Ident(f)] + group(Delim::Paren, pat)
}

/// What an argument passes on in a forwarding call: `self` for a receiver
/// (if `with_self`), the binding for a typed argument, boxed with
/// `Box::pin` or `Box::new` if `boxing` and its type is `impl Trait`, and an
/// error for an argument whose pattern is no binding.
pub open spec fn invoke_arg(a: ArgView, with_self: bool, boxing: bool) -> Seq<Seq<SpecTok>> {
    match a {
        ArgView::Receiver { .. } => if with_self {
            seq![seq![id("self")]]
        } else {
            seq![]
        },
        ArgView::Typed { pat_kind, pat, ty_kind, .. } => if pat_kind == PatKind::Ident {
            if boxing {
                match ty_kind {
                    TyView::Impl(bs) => seq![
                        if has_future_view(bs) {
                            box_call("pin"@, pat)
                        } else {
                            box_call("new"@, pat)
                        },
                    ],
                    _ => seq![pat],
                }
            } else {
                seq![pat]
            }
        } else {
            seq![error_tok("patterns are not supported in arguments"@)]
        },
    }
}

/// What the arguments pass on in a forwarding call, in order.
pub open spec fn invoke_args(args: Seq<ArgView>, with_self: bool, boxing: bool) -> Seq<
    Seq<SpecTok>,
>
    decreases args.len(),
{
    if args.len() == 0 {
        seq![]
    } else {
        invoke_args(args.drop_last(), with_self, boxing) + invoke_arg(
            args.last(),
            with_self,
            boxing,
        )
    }
}

/// Appends `Box::f(pat)`.
pub fn push_box_call(out: &mut Vec<Tok>, f: &str, pat: &Vec<Tok>)
    ensures
        vv(*final(out)) == vv(*old(out)) + box_call(f@, vv(*pat)),
{
    let ghost start = vv(*out);
    push_ident(out, "Box");
    push_colon2(out);
    push_ident(out, f);
    push_open(out, Delim::Paren);
    append_toks(out, pat);
    push_close(out, Delim::Paren);
    assert(vv(*out) =~= start + box_call(f@, vv(*pat)));
}

/// What the arguments of the signature pass on in a forwarding call.
pub fn expand_invoke_args(sig: &Sig, with_self: bool, boxing: bool) -> (r: Vec<Vec<Tok>>)
    ensures
        vvs(r@) == invoke_args(sig_view(*sig).inputs, with_self, boxing),
{
    let ghost av = sig_view(*sig).inputs;
    let mut r: Vec<Vec<Tok>> = Vec::new();
    let mut i: usize = 0;
    while i < sig.inputs.len()
        invariant
            i <= sig.inputs.len(),
            av == avs(sig.inputs@),
            vvs(r@) == invoke_args(av.take(i as int), with_self, boxing),
        decreases sig.inputs.len() - i,
    {
        assert(av.take(i + 1).drop_last() =~= av.take(i as int));
        let ghost before = vvs(r@);
        match &sig.inputs[i] {
            ArgModel::Receiver(_) => {
                if with_self {
                    let mut t: Vec<Tok> = Vec::new();
                    push_ident(&mut t, "self");
                    assert(vv(t) =~= seq![id("self")]);
                    r.push(t);
                    assert(vvs(r@) =~= before.push(vv(t)));
                }
            },
            ArgModel::Typed(t) => {
                let mut p: Vec<Tok> = Vec::new();
                assert(vv(p) =~= Seq::<SpecTok>::empty());
                if t.pat.kind == PatKind::Ident {
                    let mut done = false;
                    if boxing {
                        if let TypeKind::ImplTrait(bs) = &t.ty.kind {
                            proof {
                                crate::sig::lemma_future_view(bs@);
                            }
                            if is_future(bs) {
                                push_box_call(&mut p, "pin", &t.pat.toks);
                            } else {
                                push_box_call(&mut p, "new", &t.pat.toks);
                            }
                            done = true;
                        }
                    }
                    if !done {
                        append_toks(&mut p, &t.pat.toks);
                    }
                } else {
                    push_error(&mut p, "patterns are not supported in arguments");
                }
                assert(invoke_arg(av[i as int], with_self, boxing) =~= seq![vv(p)]);
                r.push(p);
                assert(vvs(r@) =~= before.push(vv(p)));
            },
        }
        assert(vvs(r@) =~= invoke_args(av.take(i + 1), with_self, boxing));
        i = i + 1;
    }
    assert(av.take(i as int) =~= av);
    r
}

} // verus!





