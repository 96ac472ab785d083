//! Whether a signature mentions `Self`, and `mut` bindings in patterns.

use vstd::prelude::*;
use crate::tokens::{Tok, SpecTok, Delim, vv, id};
use crate::model::{ArgModel, ParamModel, Sig, PatModel, Bound};
use crate::print::{
    ParamView, ArgView, SigView, sig_view, param_view, arg_view, bound_parts, opt_view,
    pred_parts,
};
use crate::attrs::{match_close, lemma_match_close_bounds, find_close};

verus! {

/// Whether the identifier `kw` occurs among the tokens.
pub open spec fn has_ident(s: Seq<SpecTok>, kw: Seq<char>) -> bool {
    exists|k: int| 0 <= k < s.len() && #[trigger] s[k] == SpecTok::Ident(kw)
}

/// Whether an invocation `name!(..)` starts at `i`.
pub open spec fn is_macro_at(s: Seq<SpecTok>, i: int) -> bool {
    &&& 0 <= i
    &&& i + 2 < s.len()
    &&& s[i] is Ident
    &&& s[i + 1] matches SpecTok::Punct(c, _) && c == '!'
    &&& s[i + 2] is Open
}

/// Whether an item starts at `i`: an item keyword, or `fn`, `const` or
/// `union` followed by a name (`fn(..)` is a type, `const { .. }` a block).
pub open spec fn is_item_start(s: Seq<SpecTok>, i: int) -> bool {
    &&& 0 <= i < s.len()
    &&& {
        ||| s[i] == id("struct")
        ||| s[i] == id("enum")
        ||| s[i] == id("impl")
        ||| s[i] == id("trait")
        ||| s[i] == id("mod")
        ||| s[i] == id("type")
        ||| s[i] == id("static")
        ||| s[i] == id("use")
        ||| (s[i] == id("fn") || s[i] == id("const") || s[i] == id("union")) && i + 1 < s.len()
            && s[i + 1] is Ident
    }
}

/// Where an item whose tokens continue at `j` ends, with `d` groups open
/// since its start: after a `;` outside any group, after its first
/// top-level `{ .. }` group, or before a delimiter that closes the
/// enclosing group.
pub open spec fn item_end(s: Seq<SpecTok>, j: int, d: nat) -> int
    decreases s.len() - j,
{
    if j < 0 || j >= s.len() {
        s.len() as int
    } else {
        match s[j] {
            SpecTok::Open(_) => item_end(s, j + 1, d + 1),
            SpecTok::Close(dl) => if d == 0 {
                j
            } else if d == 1 && dl == Delim::Brace {
                j + 1
            } else {
                item_end(s, j + 1, (d - 1) as nat)
            },
            SpecTok::Punct(c, _) => if c == ';' && d == 0 {
                j + 1
            } else {
                item_end(s, j + 1, d)
            },
            _ => item_end(s, j + 1, d),
        }
    }
}

/// An item's end lies at or after where its scan starts, and within the tokens.
pub proof fn lemma_item_end_bounds(s: Seq<SpecTok>, j: int, d: nat)
    requires
        0 <= j <= s.len(),
    ensures
        j <= item_end(s, j, d) <= s.len(),
    decreases s.len() - j,
{
    if j < s.len() {
        match s[j] {
            SpecTok::Open(_) => lemma_item_end_bounds(s, j + 1, d + 1),
            SpecTok::Close(dl) => if d > 0 && !(d == 1 && dl == Delim::Brace) {
                lemma_item_end_bounds(s, j + 1, (d - 1) as nat)
            },
            SpecTok::Punct(c, _) => if !(c == ';' && d == 0) {
                lemma_item_end_bounds(s, j + 1, d)
            },
            _ => lemma_item_end_bounds(s, j + 1, d),
        }
    }
}

/// The number of `{ .. }` groups open after the token `t`, from `depth`.
pub open spec fn brace_depth(t: SpecTok, depth: nat) -> nat {
    match t {
        SpecTok::Open(Delim::Brace) => depth + 1,
        SpecTok::Close(Delim::Brace) => if depth > 0 {
            (depth - 1) as nat
        } else {
            0
        },
        _ => depth,
    }
}

/// Whether the tokens from `i` mention `Self`, with `depth` braces open: a
/// macro invocation counts if its tokens hold `Self` and do not hold `fn`;
/// an item inside braces (inside a block) is skipped; any other `Self` counts.
pub open spec fn self_scan(s: Seq<SpecTok>, i: int, depth: nat) -> bool
    decreases s.len() - i,
{
    if i < 0 || i >= s.len() {
        false
    } else if is_macro_at(s, i) && match_close(s, i + 3, 1) is Some {
        let e = match_close(s, i + 3, 1)->0;
        proof {
            lemma_match_close_bounds(s, i + 3, 1);
        }
        let body = s.subrange(i + 3, e);
        if has_ident(body, "fn"@) {
            self_scan(s, e + 1, depth)
        } else {
            has_ident(body, "Self"@) || self_scan(s, e + 1, depth)
        }
    } else if depth > 0 && is_item_start(s, i) {
        proof {
            lemma_item_end_bounds(s, i + 1, 0);
        }
        self_scan(s, item_end(s, i + 1, 0), depth)
    } else if s[i] == id("Self") {
        true
    } else {
        self_scan(s, i + 1, brace_depth(s[i], depth))
    }
}

/// Whether the tokens mention `Self`.
pub open spec fn mentions_self(s: Seq<SpecTok>) -> bool {
    self_scan(s, 0, 0)
}

/// Whether one of the token sequences mentions `Self`.
pub open spec fn parts_mention_self(ps: Seq<Seq<SpecTok>>) -> bool {
    exists|i: int| 0 <= i < ps.len() && mentions_self(#[trigger] ps[i])
}

/// Whether a default mentions `Self`.
pub open spec fn default_mentions_self(d: Option<Seq<SpecTok>>) -> bool {
    match d {
        Some(t) => mentions_self(t),
        None => false,
    }
}

/// Whether a generic parameter mentions `Self` (its attributes aside).
pub open spec fn param_mentions_self(p: ParamView) -> bool {
    match p {
        ParamView::Lifetime { .. } => false,
        ParamView::Type { bounds, default, .. } => parts_mention_self(bounds)
            || default_mentions_self(default),
        ParamView::Const { ty, default, .. } => mentions_self(ty) || default_mentions_self(default),
    }
}

/// Whether an argument is a receiver or mentions `Self` (its attributes aside).
pub open spec fn arg_mentions_self(a: ArgView) -> bool {
    match a {
        ArgView::Receiver { .. } => true,
        ArgView::Typed { pat, ty, .. } => mentions_self(pat) || mentions_self(ty),
    }
}

/// Whether one of the arguments mentions `Self`.
pub open spec fn inputs_mention_self(args: Seq<ArgView>) -> bool {
    exists|i: int| 0 <= i < args.len() && arg_mentions_self(#[trigger] args[i])
}

/// Whether one of the parameters mentions `Self`.
pub open spec fn params_mention_self(ps: Seq<ParamView>) -> bool {
    exists|i: int| 0 <= i < ps.len() && param_mentions_self(#[trigger] ps[i])
}

/// Whether the where clause mentions `Self`.
pub open spec fn where_mentions_self(w: Option<Seq<Seq<SpecTok>>>) -> bool {
    match w {
        Some(ps) => parts_mention_self(ps),
        None => false,
    }
}

/// Whether the signature has a receiver or mentions `Self` in its
/// parameters, where clause, arguments or return type.
pub open spec fn sig_mentions_self(sig: SigView) -> bool {
    ||| params_mention_self(sig.params)
    ||| where_mentions_self(sig.where_clause)
    ||| inputs_mention_self(sig.inputs)
    ||| match sig.output {
        Some(t) => mentions_self(t),
        None => false,
    }
}

/// Whether the identifier `kw` occurs among the tokens from `from` to `to`.
fn range_has_ident(v: &Vec<Tok>, from: usize, to: usize, kw: &str) -> (r: bool)
    requires
        from <= to <= v.len(),
    ensures
        r == has_ident(vv(*v).subrange(from as int, to as int), kw@),
{
    let ghost s = vv(*v);
    let ghost sub = s.subrange(from as int, to as int);
    let mut k = from;
    while k < to
        invariant
            from <= k <= to <= v.len(),
            s == vv(*v),
            sub == s.subrange(from as int, to as int),
            forall|j: int| 0 <= j < k - from ==> sub[j] != SpecTok::Ident(kw@),
        decreases to - k,
    {
        if v[k].is_ident(kw) {
            assert(sub[k - from] == SpecTok::Ident(kw@));
            return true;
        }
        k = k + 1;
    }
    false
}

/// Whether the macro tokens hold the identifier `fn`.
pub fn contains_fn(v: &Vec<Tok>) -> (r: bool)
    ensures
        r == has_ident(vv(*v), "fn"@),
{
    assert(vv(*v).subrange(0, v.len() as int) =~= vv(*v));
    range_has_ident(v, 0, v.len(), "fn")
}

/// Whether the tokens hold the identifier `Self`.
pub fn has_self_in_token_stream(v: &Vec<Tok>) -> (r: bool)
    ensures
        r == has_ident(vv(*v), "Self"@),
{
    assert(vv(*v).subrange(0, v.len() as int) =~= vv(*v));
    range_has_ident(v, 0, v.len(), "Self")
}

fn macro_at(v: &Vec<Tok>, i: usize) -> (r: bool)
    ensures
        r == is_macro_at(vv(*v), i as int),
{
    if v.len() >= 3 && i < v.len() - 2 {
        match (&v[i], &v[i + 1], &v[i + 2]) {
            (Tok::Ident(_), Tok::Punct(c, _), Tok::Open(_)) => *c == '!',
            _ => false,
        }
    } else {
        false
    }
}

/// Where the item whose tokens continue at `j0` ends, as `item_end` says.
fn find_item_end(v: &Vec<Tok>, j0: usize) -> (r: usize)
    ensures
        r == item_end(vv(*v), j0 as int, 0),
{
    let ghost s = vv(*v);
    let mut j = j0;
    let mut d: usize = 0;
    while j < v.len()
        invariant
            s == vv(*v),
            j0 <= j,
            d <= j - j0,
            item_end(s, j0 as int, 0) == item_end(s, j as int, d as nat),
        decreases v.len() - j,
    {
        match &v[j] {
            Tok::Open(_) => {
                d = d + 1;
            },
            Tok::Close(dl) => {
                if d == 0 {
                    return j;
                } else if d == 1 && *dl == Delim::Brace {
                    return j + 1;
                } else {
                    d = d - 1;
                }
            },
            Tok::Punct(c, _) => {
                if *c == ';' && d == 0 {
                    return j + 1;
                }
            },
            _ => {},
        }
        j = j + 1;
    }
    v.len()
}

fn item_start(v: &Vec<Tok>, i: usize) -> (r: bool)
    requires
        i < v.len(),
    ensures
        r == is_item_start(vv(*v), i as int),
{
    let t = &v[i];
    if t.is_ident("struct") || t.is_ident("enum") || t.is_ident("impl") || t.is_ident("trait")
        || t.is_ident("mod") || t.is_ident("type") || t.is_ident("static") || t.is_ident("use") {
        return true;
    }
    if (t.is_ident("fn") || t.is_ident("const") || t.is_ident("union")) && i + 1 < v.len() {
        if let Tok::Ident(_) = &v[i + 1] {
            return true;
        }
    }
    false
}

/// Whether the tokens mention `Self`, as `self_scan` says.
pub fn tokens_mention_self(v: &Vec<Tok>) -> (r: bool)
    ensures
        r == mentions_self(vv(*v)),
{
    let ghost s = vv(*v);
    let mut i: usize = 0;
    let mut depth: usize = 0;
    while i < v.len()
        invariant
            s == vv(*v),
            i <= v.len(),
            depth <= i,
            self_scan(s, 0, 0) == self_scan(s, i as int, depth as nat),
        decreases v.len() - i,
    {
        if macro_at(v, i) {
            match find_close(v, i + 3) {
                Some(e) => {
                    if !range_has_ident(v, i + 3, e, "fn") && range_has_ident(v, i + 3, e, "Self") {
                        return true;
                    }
                    i = e + 1;
                    continue;
                },
                None => {},
            }
        }
        if depth > 0 && item_start(v, i) {
            let e = find_item_end(v, i + 1);
            proof {
                lemma_item_end_bounds(s, i + 1, 0);
            }
            i = e;
            continue;
        }
        if v[i].is_ident("Self") {
            return true;
        }
        match &v[i] {
            Tok::Open(Delim::Brace) => {
                depth = depth + 1;
            },
            Tok::Close(Delim::Brace) => {
                if depth > 0 {
                    depth = depth - 1;
                }
            },
            _ => {},
        }
        i = i + 1;
    }
    false
}

fn bounds_self(bs: &Vec<Bound>) -> (r: bool)
    ensures
        r == parts_mention_self(bound_parts(bs@)),
{
    let mut i: usize = 0;
    while i < bs.len()
        invariant
            i <= bs.len(),
            forall|j: int| 0 <= j < i ==> !mentions_self(#[trigger] bound_parts(bs@)[j]),
        decreases bs.len() - i,
    {
        if tokens_mention_self(&bs[i].toks) {
            assert(mentions_self(bound_parts(bs@)[i as int]));
            return true;
        }
        i = i + 1;
    }
    false
}

fn default_self(d: &Option<Vec<Tok>>) -> (r: bool)
    ensures
        r == default_mentions_self(opt_view(*d)),
{
    match d {
        Some(t) => tokens_mention_self(t),
        None => false,
    }
}

fn param_self(p: &ParamModel) -> (r: bool)
    ensures
        r == param_mentions_self(param_view(*p)),
{
    match p {
        ParamModel::Lifetime { .. } => false,
        ParamModel::Type { bounds, default, .. } => bounds_self(bounds) || default_self(default),
        ParamModel::Const { ty, default, .. } => tokens_mention_self(ty) || default_self(default),
    }
}

fn arg_self(a: &ArgModel) -> (r: bool)
    ensures
        r == arg_mentions_self(arg_view(*a)),
{
    match a {
        ArgModel::Receiver(_) => true,
        ArgModel::Typed(t) => tokens_mention_self(&t.pat.toks) || tokens_mention_self(&t.ty.toks),
    }
}

/// Whether the signature has a receiver or mentions `Self` (outside
/// attributes and outside the tokens of macros that contain `fn`).
pub fn has_self_in_sig(sig: &Sig) -> (r: bool)
    ensures
        r == sig_mentions_self(sig_view(*sig)),
{
    let ghost v = sig_view(*sig);
    let mut i: usize = 0;
    while i < sig.generics.params.len()
        invariant
            i <= sig.generics.params.len(),
            v == sig_view(*sig),
            forall|j: int| 0 <= j < i ==> !param_mentions_self(#[trigger] v.params[j]),
        decreases sig.generics.params.len() - i,
    {
        if param_self(&sig.generics.params[i]) {
            assert(param_mentions_self(v.params[i as int]));
            return true;
        }
        i = i + 1;
    }
    assert(!params_mention_self(v.params));
    match &sig.generics.where_clause {
        Some(ps) => {
            let mut k: usize = 0;
            while k < ps.len()
                invariant
                    k <= ps.len(),
                    sig.generics.where_clause == Some(*ps),
                    v == sig_view(*sig),
                    forall|j: int| 0 <= j < k ==> !mentions_self(#[trigger] pred_parts(ps@)[j]),
                decreases ps.len() - k,
            {
                if tokens_mention_self(&ps[k].toks) {
                    assert(mentions_self(pred_parts(ps@)[k as int]));
                    return true;
                }
                k = k + 1;
            }
        },
        None => {},
    }
    assert(!where_mentions_self(v.where_clause));
    let mut a: usize = 0;
    while a < sig.inputs.len()
        invariant
            a <= sig.inputs.len(),
            v == sig_view(*sig),
            forall|j: int| 0 <= j < a ==> !arg_mentions_self(#[trigger] v.inputs[j]),
        decreases sig.inputs.len() - a,
    {
        if arg_self(&sig.inputs[a]) {
            assert(arg_mentions_self(v.inputs[a as int]));
            return true;
        }
        a = a + 1;
    }
    assert(!inputs_mention_self(v.inputs));
    match &sig.output {
        Some(t) => tokens_mention_self(&t.toks),
        None => false,
    }
}

/// Whether the token is `&`.
pub open spec fn is_amp(t: SpecTok) -> bool {
    match t {
        SpecTok::Punct(c, _) => c == '&',
        _ => false,
    }
}

/// Whether a `mut` at `k` marks a binding (it follows no `&` and an
/// identifier follows it).
pub open spec fn is_binding_mut(s: Seq<SpecTok>, k: int) -> bool {
    &&& 0 <= k < s.len()
    &&& s[k] == id("mut")
    &&& !(k > 0 && is_amp(s[k - 1]))
    &&& k + 1 < s.len()
    &&& s[k + 1] is Ident
}

/// The index of the last `mut` of a binding among the tokens from `i`,
/// leaving out the tokens of macro invocations (a pattern `m!(..)` is not
/// looked into).
pub open spec fn last_mut(s: Seq<SpecTok>, i: int) -> Option<int>
    decreases s.len() - i,
{
    if i < 0 || i >= s.len() {
        None
    } else if is_macro_at(s, i) && match_close(s, i + 3, 1) is Some {
        let e = match_close(s, i + 3, 1)->0;
        proof {
            lemma_match_close_bounds(s, i + 3, 1);
        }
        last_mut(s, e + 1)
    } else {
        match last_mut(s, i + 1) {
            Some(k) => Some(k),
            None => if is_binding_mut(s, i) {
                Some(i)
            } else {
                None
            },
        }
    }
}

/// The index of the last `mut` of a binding in the pattern, outside macro
/// invocations, if there is one.
pub fn mut_pat(pat: &PatModel) -> (r: Option<usize>)
    ensures
        match r {
            Some(k) => last_mut(vv(pat.toks), 0) == Some(k as int),
            None => last_mut(vv(pat.toks), 0) is None,
        },
{
    let ghost s = vv(pat.toks);
    let v = &pat.toks;
    let mut found: Option<usize> = None;
    let mut i: usize = 0;
    while i < v.len()
        invariant
            s == vv(*v),
            s == vv(pat.toks),
            i <= v.len(),
            match found {
                Some(k) => k < i,
                None => true,
            },
            last_mut(s, 0) == match last_mut(s, i as int) {
                Some(k) => Some(k),
                None => match found {
                    Some(k) => Some(k as int),
                    None => None,
                },
            },
        decreases v.len() - i,
    {
        if macro_at(v, i) {
            match find_close(v, i + 3) {
                Some(e) => {
                    i = e + 1;
                    continue;
                },
                None => {},
            }
        }
        let after_amp = i > 0 && match &v[i - 1] {
            Tok::Punct(c, _) => *c == '&',
            _ => false,
        };
        if v[i].is_ident("mut") && !after_amp && i + 1 < v.len() {
            if let Tok::Ident(_) = &v[i + 1] {
                assert(is_binding_mut(s, i as int));
                found = Some(i);
            }
        }
        i = i + 1;
    }
    found
}

} // verus!
