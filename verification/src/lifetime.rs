//! Naming the elided lifetimes of a signature, and bounding `impl Trait`
//! argument types by `'dynosaur`.

use vstd::prelude::*;
use crate::tokens::{Tok, SpecTok, vv, id, push_tok};
use crate::model::{ReceiverModel, TypeModel, ArgModel, TypedArg};
use crate::print::{ArgView, arg_view};

verus! {

/// The decimal digit of `d`.
pub open spec fn digit(d: nat) -> char {
    if d == 0 {
        '0'
    } else if d == 1 {
        '1'
    } else if d == 2 {
        '2'
    } else if d == 3 {
        '3'
    } else if d == 4 {
        '4'
    } else if d == 5 {
        '5'
    } else if d == 6 {
        '6'
    } else if d == 7 {
        '7'
    } else if d == 8 {
        '8'
    } else {
        '9'
    }
}

/// The decimal digits of `n`.
pub open spec fn decimal(n: nat) -> Seq<char>
    decreases n,
{
    if n < 10 {
        seq![digit(n)]
    } else {
        decimal(n / 10).push(digit(n % 10))
    }
}

fn digit_str(d: usize) -> (r: &'static str)
    requires
        d < 10,
    ensures
        r@ == seq![digit(d as nat)],
{
    proof {
        reveal_strlit("0");
        reveal_strlit("1");
        reveal_strlit("2");
        reveal_strlit("3");
        reveal_strlit("4");
        reveal_strlit("5");
        reveal_strlit("6");
        reveal_strlit("7");
        reveal_strlit("8");
        reveal_strlit("9");
    }
    if d == 0 {
        "0"
    } else if d == 1 {
        "1"
    } else if d == 2 {
        "2"
    } else if d == 3 {
        "3"
    } else if d == 4 {
        "4"
    } else if d == 5 {
        "5"
    } else if d == 6 {
        "6"
    } else if d == 7 {
        "7"
    } else if d == 8 {
        "8"
    } else {
        "9"
    }
}

/// Appends the decimal digits of `n`.
pub fn push_decimal(s: &mut String, n: usize)
    ensures
        final(s)@ == old(s)@ + decimal(n as nat),
    decreases n,
{
    if n >= 10 {
        push_decimal(s, n / 10);
    }
    s.append(digit_str(n % 10));
    assert(final(s)@ =~= old(s)@ + decimal(n as nat));
}

/// The name of the `n`-th elided lifetime: `life` and the digits of `n`.
pub open spec fn life_name(n: nat) -> Seq<char> {
    "life"@ + decimal(n)
}

/// `'life{n}`
pub fn life_lifetime(n: usize) -> (r: Tok)
    ensures
        r@ == SpecTok::Lifetime(life_name(n as nat)),
{
    let mut s = String::from_str("life");
    push_decimal(&mut s, n);
    Tok::Lifetime(s)
}

/// Whether the token is the punctuation `c`.
pub open spec fn is_punct_tok(t: SpecTok, c: char) -> bool {
    match t {
        SpecTok::Punct(x, _) => x == c,
        _ => false,
    }
}

/// Whether the token is a lifetime.
pub open spec fn is_lifetime_tok(t: SpecTok) -> bool {
    t is Lifetime
}

/// The tokens from `i` with each elided lifetime named, counting from `n`:
/// a `&` without a lifetime and a `'_` after `&`, `<` or `,` get the next
/// `'lifeN`. The result is the new tokens and the next count.
pub open spec fn collect(s: Seq<SpecTok>, i: int, n: nat) -> (Seq<SpecTok>, nat)
    decreases s.len() - i,
{
    if i < 0 || i >= s.len() {
        (seq![], n)
    } else if is_punct_tok(s[i], '&') {
        if i + 1 < s.len() && is_lifetime_tok(s[i + 1]) {
            if s[i + 1] == SpecTok::Lifetime("_"@) {
                let (r, m) = collect(s, i + 2, n + 1);
                (seq![s[i], SpecTok::Lifetime(life_name(n))] + r, m)
            } else {
                let (r, m) = collect(s, i + 2, n);
                (seq![s[i], s[i + 1]] + r, m)
            }
        } else {
            let (r, m) = collect(s, i + 1, n + 1);
            (seq![s[i], SpecTok::Lifetime(life_name(n))] + r, m)
        }
    } else if s[i] == SpecTok::Lifetime("_"@) && i > 0 && (is_punct_tok(s[i - 1], '<')
        || is_punct_tok(s[i - 1], ',')) {
        let (r, m) = collect(s, i + 1, n + 1);
        (seq![SpecTok::Lifetime(life_name(n))] + r, m)
    } else {
        let (r, m) = collect(s, i + 1, n);
        (seq![s[i]] + r, m)
    }
}

fn tok_is_punct(t: &Tok, c: char) -> (r: bool)
    ensures
        r == is_punct_tok(t@, c),
{
    match t {
        Tok::Punct(x, _) => *x == c,
        _ => false,
    }
}

fn tok_is_underscore_lifetime(t: &Tok) -> (r: bool)
    ensures
        r == (t@ == SpecTok::Lifetime("_"@)),
{
    match t {
        Tok::Lifetime(x) => crate::tokens::str_eq(x, "_"),
        _ => false,
    }
}

/// Names the elided lifetimes of a type's tokens, counting from `*count`.
pub fn collect_lifetimes_toks(v: &Vec<Tok>, count: &mut usize) -> (r: Vec<Tok>)
    requires
        *old(count) + v.len() <= usize::MAX,
    ensures
        (vv(r), *final(count) as nat) == collect(vv(*v), 0, *old(count) as nat),
        *final(count) <= *old(count) + v.len(),
{
    let ghost s = vv(*v);
    let ghost n0 = *count as nat;
    let mut out: Vec<Tok> = Vec::new();
    let mut i: usize = 0;
    while i < v.len()
        invariant
            s == vv(*v),
            i <= v.len(),
            n0 <= *count <= n0 + i,
            n0 + v.len() <= usize::MAX,
            ({
                let (r, m) = collect(s, i as int, *count as nat);
                collect(s, 0, n0) == (vv(out) + r, m)
            }),
        decreases v.len() - i,
    {
        let ghost before = vv(out);
        if tok_is_punct(&v[i], '&') {
            push_tok(&mut out, v[i].copy());
            if i + 1 < v.len() && matches!(&v[i + 1], Tok::Lifetime(_)) {
                if tok_is_underscore_lifetime(&v[i + 1]) {
                    push_tok(&mut out, life_lifetime(*count));
                    *count = *count + 1;
                } else {
                    push_tok(&mut out, v[i + 1].copy());
                }
                assert(vv(out) =~= before + seq![s[i as int], vv(out).last()]);
                i = i + 2;
            } else {
                push_tok(&mut out, life_lifetime(*count));
                *count = *count + 1;
                assert(vv(out) =~= before + seq![s[i as int], vv(out).last()]);
                i = i + 1;
            }
        } else if tok_is_underscore_lifetime(&v[i]) && i > 0 && (tok_is_punct(&v[i - 1], '<')
            || tok_is_punct(&v[i - 1], ',')) {
            push_tok(&mut out, life_lifetime(*count));
            *count = *count + 1;
            assert(vv(out) =~= before + seq![vv(out).last()]);
            i = i + 1;
        } else {
            push_tok(&mut out, v[i].copy());
            assert(vv(out) =~= before + seq![s[i as int]]);
            i = i + 1;
        }
    }
    assert(vv(out) + Seq::<SpecTok>::empty() =~= vv(out));
    out
}

/// The tokens with `'dynosaur +` written after each `impl`.
pub open spec fn add_lifetime_to_impl_trait(s: Seq<SpecTok>) -> Seq<SpecTok>
    decreases s.len(),
{
    if s.len() == 0 {
        seq![]
    } else {
        let r = add_lifetime_to_impl_trait(s.drop_last());
        if s.last() == id("impl") {
            r + seq![s.last(), SpecTok::Lifetime("dynosaur"@), SpecTok::Punct('+', false)]
        } else {
            r.push(s.last())
        }
    }
}

/// Bounds each `impl Trait` among the tokens by `'dynosaur`, written first.
pub fn add_lifetime_to_impl_trait_toks(v: &Vec<Tok>) -> (r: Vec<Tok>)
    ensures
        vv(r) == add_lifetime_to_impl_trait(vv(*v)),
{
    let ghost s = vv(*v);
    let mut out: Vec<Tok> = Vec::new();
    let mut i: usize = 0;
    while i < v.len()
        invariant
            s == vv(*v),
            i <= v.len(),
            vv(out) == add_lifetime_to_impl_trait(s.take(i as int)),
        decreases v.len() - i,
    {
        assert(s.take(i + 1).drop_last() =~= s.take(i as int));
        let ghost before = vv(out);
        let is_impl = v[i].is_ident("impl");
        push_tok(&mut out, v[i].copy());
        if is_impl {
            push_tok(&mut out, Tok::Lifetime(String::from_str("dynosaur")));
            push_tok(&mut out, Tok::Punct('+', false));
            assert(vv(out) =~= before + seq![
                s[i as int],
                SpecTok::Lifetime("dynosaur"@),
                SpecTok::Punct('+', false),
            ]);
        }
        i = i + 1;
    }
    assert(s.take(i as int) =~= s);
    out
}

/// An argument with its elided lifetimes named, counting from `n`: `&self`
/// gets `'lifeN`, a receiver with a written type and a typed argument
/// have the elided lifetimes of their type named. The result is the new
/// argument and the next count.
pub open spec fn collect_arg(a: ArgView, n: nat) -> (ArgView, nat) {
    match a {
        ArgView::Receiver { attrs, reference, mutable, colon_ty, ty } => match reference {
            Some(l) => {
                let fresh = match l {
                    None => true,
                    Some(x) => x == "_"@,
                };
                if fresh {
                    (
                        ArgView::Receiver {
                            attrs,
                            reference: Some(Some(life_name(n))),
                            mutable,
                            colon_ty,
                            ty,
                        },
                        n + 1,
                    )
                } else {
                    (a, n)
                }
            },
            None => {
                let (t, m) = collect(ty, 0, n);
                (ArgView::Receiver { attrs, reference, mutable, colon_ty, ty: t }, m)
            },
        },
        ArgView::Typed { attrs, pat_kind, pat, ty_kind, ty } => {
            let (t, m) = collect(ty, 0, n);
            (ArgView::Typed { attrs, pat_kind, pat, ty_kind, ty: t }, m)
        },
    }
}

/// The arguments with their elided lifetimes named in order, counting from
/// `n`, and the next count.
pub open spec fn collect_args(args: Seq<ArgView>, n: nat) -> (Seq<ArgView>, nat)
    decreases args.len(),
{
    if args.len() == 0 {
        (seq![], n)
    } else {
        let (a, m) = collect_arg(args[0], n);
        let (r, k) = collect_args(args.drop_first(), m);
        (seq![a] + r, k)
    }
}

/// The number of tokens of an argument's type.
pub open spec fn arg_ty_len(a: ArgModel) -> nat {
    match a {
        ArgModel::Receiver(r) => r.ty.toks.len() as nat,
        ArgModel::Typed(t) => t.ty.toks.len() as nat,
    }
}

/// Names the elided lifetimes of an argument, counting from `*count`.
pub fn collect_lifetimes_arg(a: ArgModel, count: &mut usize) -> (r: ArgModel)
    requires
        *old(count) + arg_ty_len(a) + 1 <= usize::MAX,
    ensures
        (arg_view(r), *final(count) as nat) == collect_arg(arg_view(a), *old(count) as nat),
        *final(count) <= *old(count) + arg_ty_len(a) + 1,
        r is Receiver <==> a is Receiver,
{
    match a {
        ArgModel::Receiver(rcv) => {
            let ReceiverModel { attrs, reference, mutable, colon_ty, ty } = rcv;
            let fresh = match &reference {
                Some(l) => match l {
                    None => true,
                    Some(x) => crate::tokens::str_eq(x, "_"),
                },
                None => false,
            };
            if reference.is_some() {
                if fresh {
                    let mut s = String::from_str("life");
                    push_decimal(&mut s, *count);
                    *count = *count + 1;
                    ArgModel::Receiver(
                        ReceiverModel { attrs, reference: Some(Some(s)), mutable, colon_ty, ty },
                    )
                } else {
                    ArgModel::Receiver(ReceiverModel { attrs, reference, mutable, colon_ty, ty })
                }
            } else {
                let TypeModel { kind, toks } = ty;
                let t = collect_lifetimes_toks(&toks, count);
                ArgModel::Receiver(
                    ReceiverModel {
                        attrs,
                        reference,
                        mutable,
                        colon_ty,
                        ty: TypeModel { kind, toks: t },
                    },
                )
            }
        },
        ArgModel::Typed(t) => {
            let TypedArg { attrs, pat, ty } = t;
            let TypeModel { kind, toks } = ty;
            let n = collect_lifetimes_toks(&toks, count);
            ArgModel::Typed(TypedArg { attrs, pat, ty: TypeModel { kind, toks: n } })
        },
    }
}

} // verus!
