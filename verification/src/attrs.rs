//! The arguments of the attribute: `vis DynName = dyn(box) TraitName, bridge(..)`.

use vstd::prelude::*;
use crate::tokens::{Tok, SpecTok, Delim, vv, id, str_eq};

verus! {

/// Which bridge impls to write.
#[derive(Debug, Clone, Copy, PartialEq, Eq, Structural)]
pub enum Bridge {
    /// `bridge(none)`: no bridge impls.
    Disabled,
    Blanket,
    Dyn,
}

/// The trait that the attribute names.
pub struct Target {
    pub trait_name: String,
}

/// The parsed arguments of the attribute.
pub struct Attrs {
    /// The tokens of the visibility of the `Dyn` struct (none if private).
    pub vis: Vec<Tok>,
    /// The name of the `Dyn` struct.
    pub ident: String,
    pub target: Target,
    pub bridge: Option<Bridge>,
}

/// The value of parsed arguments.
pub struct SpecAttrs {
    pub vis: Seq<SpecTok>,
    pub ident: Seq<char>,
    pub trait_name: Seq<char>,
    pub bridge: Option<Bridge>,
}

impl View for Attrs {
    type V = SpecAttrs;

    open spec fn view(&self) -> SpecAttrs {
        SpecAttrs {
            vis: vv(self.vis),
            ident: self.ident@,
            trait_name: self.target.trait_name@,
            bridge: self.bridge,
        }
    }
}

/// Why the arguments were refused.
#[derive(Debug, PartialEq, Eq)]
pub enum AttrError {
    /// "expected identifier"
    ExpectedIdent,
    /// "expected identifier, found keyword `..`"
    FoundKeyword(String),
    /// "expected `= dyn(box) TraitName`; dynosaur 0.3 requires this"
    ExpectedEqDynBox,
    /// "expected `dyn`"
    ExpectedDyn,
    /// "expected `dyn(box)`"
    ExpectedDynBox,
    /// "expected `box`"
    ExpectedBox,
    /// "expected trait name after `dyn(box)`"
    ExpectedTraitName,
    /// "unknown option"
    UnknownOption,
    /// "expected parentheses"
    ExpectedParens,
    /// "expected path segment after `::`"
    ExpectedPathSegment,
    /// A token was left over, inside parentheses or at the end.
    UnexpectedToken(Option<Delim>),
}

/// The value of an error.
pub enum SpecAttrError {
    ExpectedIdent,
    FoundKeyword(Seq<char>),
    ExpectedEqDynBox,
    ExpectedDyn,
    ExpectedDynBox,
    ExpectedBox,
    ExpectedTraitName,
    UnknownOption,
    ExpectedParens,
    ExpectedPathSegment,
    UnexpectedToken(Option<Delim>),
}

impl View for AttrError {
    type V = SpecAttrError;

    open spec fn view(&self) -> SpecAttrError {
        match self {
            AttrError::ExpectedIdent => SpecAttrError::ExpectedIdent,
            AttrError::FoundKeyword(k) => SpecAttrError::FoundKeyword(k@),
            AttrError::ExpectedEqDynBox => SpecAttrError::ExpectedEqDynBox,
            AttrError::ExpectedDyn => SpecAttrError::ExpectedDyn,
            AttrError::ExpectedDynBox => SpecAttrError::ExpectedDynBox,
            AttrError::ExpectedBox => SpecAttrError::ExpectedBox,
            AttrError::ExpectedTraitName => SpecAttrError::ExpectedTraitName,
            AttrError::UnknownOption => SpecAttrError::UnknownOption,
            AttrError::ExpectedParens => SpecAttrError::ExpectedParens,
            AttrError::ExpectedPathSegment => SpecAttrError::ExpectedPathSegment,
            AttrError::UnexpectedToken(d) => SpecAttrError::UnexpectedToken(*d),
        }
    }
}

/// Whether syn takes the identifier `s` for an `Ident`, that is, whether it
/// is no keyword.
pub uninterp spec fn syn_ident_ok(s: Seq<char>) -> bool;

/// Calls `syn::parse_str::<syn::Ident>` on an identifier and says whether it
/// succeeded; that is a function of the identifier alone, named
/// `syn_ident_ok`.
#[verifier::external_body]
fn syn_accepts_ident(s: &String) -> (r: bool)
    ensures
        r == syn_ident_ok(s@),
{
    syn::parse_str::<syn::Ident>(s.as_str()).is_ok()
}

/// The token at `i`, if `i` lies before `end`.
pub open spec fn tok_at(s: Seq<SpecTok>, i: int, end: int) -> Option<SpecTok> {
    if 0 <= i && i < end && i < s.len() {
        Some(s[i])
    } else {
        None
    }
}

/// Whether the token at `i` is an identifier that syn takes for an `Ident`.
pub open spec fn accepted(s: Seq<SpecTok>, i: int, end: int) -> bool {
    match tok_at(s, i, end) {
        Some(SpecTok::Ident(x)) => syn_ident_ok(x),
        _ => false,
    }
}

/// The error syn gives where it wants an `Ident` at `i`.
pub open spec fn ident_error(s: Seq<SpecTok>, i: int, end: int) -> SpecAttrError {
    match tok_at(s, i, end) {
        Some(SpecTok::Ident(x)) => SpecAttrError::FoundKeyword(x),
        _ => SpecAttrError::ExpectedIdent,
    }
}

/// Whether the token at `i` is the punctuation `c`.
pub open spec fn is_punct(s: Seq<SpecTok>, i: int, end: int, c: char) -> bool {
    match tok_at(s, i, end) {
        Some(SpecTok::Punct(x, _)) => x == c,
        _ => false,
    }
}

/// Whether `::` starts at `i`.
pub open spec fn is_colon2(s: Seq<SpecTok>, i: int, end: int) -> bool {
    tok_at(s, i, end) == Some(SpecTok::Punct(':', true)) && is_punct(s, i + 1, end, ':')
}

/// The index of the token that closes a group, scanning from `j` with
/// `depth` groups open; `None` if the groups are not closed.
pub open spec fn match_close(s: Seq<SpecTok>, j: int, depth: nat) -> Option<int>
    decreases s.len() - j,
{
    if j < 0 || j >= s.len() {
        None
    } else {
        match s[j] {
            SpecTok::Open(_) => match_close(s, j + 1, depth + 1),
            SpecTok::Close(_) => if depth <= 1 {
                Some(j)
            } else {
                match_close(s, j + 1, (depth - 1) as nat)
            },
            _ => match_close(s, j + 1, depth),
        }
    }
}

/// A closing index lies at or after the start of the scan.
pub proof fn lemma_match_close_bounds(s: Seq<SpecTok>, j: int, depth: nat)
    ensures
        match_close(s, j, depth) matches Some(c) ==> j <= c < s.len(),
    decreases s.len() - j,
{
    if 0 <= j < s.len() {
        match s[j] {
            SpecTok::Open(_) => lemma_match_close_bounds(s, j + 1, depth + 1),
            SpecTok::Close(_) => if depth > 1 {
                lemma_match_close_bounds(s, j + 1, (depth - 1) as nat);
            },
            _ => lemma_match_close_bounds(s, j + 1, depth),
        }
    }
}

/// If parentheses open at `i` and close before `end`, the index of the closing one.
pub open spec fn paren_close(s: Seq<SpecTok>, i: int, end: int) -> Option<int> {
    if tok_at(s, i, end) == Some(SpecTok::Open(Delim::Paren)) {
        match match_close(s, i + 1, 1) {
            Some(c) => if c < end {
                Some(c)
            } else {
                None
            },
            None => None,
        }
    } else {
        None
    }
}

/// Whether the token at `i` can be a segment of a module path.
pub open spec fn seg_ok(s: Seq<SpecTok>, i: int, end: int) -> bool {
    accepted(s, i, end) || tok_at(s, i, end) == Some(id("super")) || tok_at(s, i, end) == Some(
        id("self"),
    ) || tok_at(s, i, end) == Some(id("Self")) || tok_at(s, i, end) == Some(id("crate"))
}

/// The segments of a module path from `i`: the index after the path.
pub open spec fn mod_path_segs(s: Seq<SpecTok>, i: int, end: int) -> Result<int, SpecAttrError>
    decreases end - i,
{
    if seg_ok(s, i, end) {
        if is_colon2(s, i + 1, end) {
            if seg_ok(s, i + 3, end) {
                mod_path_segs(s, i + 3, end)
            } else {
                Err(SpecAttrError::ExpectedPathSegment)
            }
        } else {
            Ok(i + 1)
        }
    } else {
        Err(ident_error(s, i, end))
    }
}

/// A module path from `i`, as in `pub(in crate::a)`: the index after it.
pub open spec fn mod_path(s: Seq<SpecTok>, i: int, end: int) -> Result<int, SpecAttrError> {
    if is_colon2(s, i, end) {
        mod_path_segs(s, i + 2, end)
    } else {
        mod_path_segs(s, i, end)
    }
}

/// The visibility at the start: the index after it, and whether a token
/// was left inside its parentheses.
pub open spec fn parse_vis(s: Seq<SpecTok>, end: int) -> Result<(int, bool), SpecAttrError> {
    if tok_at(s, 0, end) == Some(id("pub")) {
        match paren_close(s, 1, end) {
            Some(c) => {
                if tok_at(s, 2, c) == Some(id("crate")) || tok_at(s, 2, c) == Some(id("self"))
                    || tok_at(s, 2, c) == Some(id("super")) {
                    if c == 3 {
                        Ok((4, false))
                    } else {
                        Ok((1, false))
                    }
                } else if tok_at(s, 2, c) == Some(id("in")) {
                    match mod_path(s, 3, c) {
                        Ok(p) => Ok((c + 1, p != c)),
                        Err(e) => Err(e),
                    }
                } else {
                    Ok((1, false))
                }
            },
            None => Ok((1, false)),
        }
    } else {
        Ok((0, false))
    }
}

/// The characters of the identifier at `i`.
pub open spec fn ident_text(s: Seq<SpecTok>, i: int) -> Seq<char> {
    match s[i] {
        SpecTok::Ident(x) => x,
        _ => Seq::empty(),
    }
}

/// The bridge option inside `bridge(..)`, from `i`: the option and the index after it.
pub open spec fn parse_bridge(s: Seq<SpecTok>, i: int, end: int) -> Result<
    (Bridge, int),
    SpecAttrError,
> {
    if tok_at(s, i, end) == Some(id("dyn")) {
        Ok((Bridge::Dyn, i + 1))
    } else if !accepted(s, i, end) {
        Err(ident_error(s, i, end))
    } else if ident_text(s, i) == "blanket"@ {
        Ok((Bridge::Blanket, i + 1))
    } else if ident_text(s, i) == "none"@ {
        Ok((Bridge::Disabled, i + 1))
    } else {
        Err(SpecAttrError::UnknownOption)
    }
}

/// The end of the parse: an error for a token left inside parentheses or
/// after the arguments, else the arguments.
pub open spec fn finish(s: Seq<SpecTok>, left_inside: bool, k: int, a: SpecAttrs) -> Result<
    SpecAttrs,
    SpecAttrError,
> {
    if left_inside {
        Err(SpecAttrError::UnexpectedToken(Some(Delim::Paren)))
    } else if k < s.len() {
        Err(SpecAttrError::UnexpectedToken(None))
    } else {
        Ok(a)
    }
}

/// What parsing the arguments `s` gives.
pub open spec fn spec_parse_attrs(s: Seq<SpecTok>) -> Result<SpecAttrs, SpecAttrError> {
    let end = s.len() as int;
    match parse_vis(s, end) {
        Err(e) => Err(e),
        Ok((i, left_vis)) => {
            if !accepted(s, i, end) {
                Err(ident_error(s, i, end))
            } else if !is_punct(s, i + 1, end, '=') {
                Err(SpecAttrError::ExpectedEqDynBox)
            } else if tok_at(s, i + 2, end) != Some(id("dyn")) {
                Err(SpecAttrError::ExpectedDyn)
            } else {
                match paren_close(s, i + 3, end) {
                    None => Err(SpecAttrError::ExpectedDynBox),
                    Some(c1) => {
                        if tok_at(s, i + 4, c1) != Some(id("box")) {
                            Err(SpecAttrError::ExpectedBox)
                        } else if !accepted(s, c1 + 1, end) {
                            Err(SpecAttrError::ExpectedTraitName)
                        } else {
                            let left = left_vis || c1 != i + 5;
                            let k = c1 + 2;
                            let a = SpecAttrs {
                                vis: s.subrange(0, i),
                                ident: ident_text(s, i),
                                trait_name: ident_text(s, c1 + 1),
                                bridge: None,
                            };
                            if is_punct(s, k, end, ',') {
                                if !accepted(s, k + 1, end) {
                                    Err(ident_error(s, k + 1, end))
                                } else if ident_text(s, k + 1) != "bridge"@ {
                                    Err(SpecAttrError::UnknownOption)
                                } else {
                                    match paren_close(s, k + 2, end) {
                                        None => Err(SpecAttrError::ExpectedParens),
                                        Some(c2) => match parse_bridge(s, k + 3, c2) {
                                            Err(e) => Err(e),
                                            Ok((b, p)) => finish(
                                                s,
                                                left || p != c2,
                                                c2 + 1,
                                                SpecAttrs { bridge: Some(b), ..a },
                                            ),
                                        },
                                    }
                                }
                            } else {
                                finish(s, left, k, a)
                            }
                        }
                    },
                }
            }
        },
    }
}

} // verus!

verus! {

/// The value of an index result.
pub open spec fn idx_view(r: Result<usize, AttrError>) -> Result<int, SpecAttrError> {
    match r {
        Ok(p) => Ok(p as int),
        Err(e) => Err(e@),
    }
}

fn tok_is_kw(v: &Vec<Tok>, i: usize, end: usize, kw: &str) -> (r: bool)
    requires
        end <= v.len(),
    ensures
        r == (tok_at(vv(*v), i as int, end as int) == Some(id(kw))),
{
    i < end && v[i].is_ident(kw)
}

fn tok_accepted(v: &Vec<Tok>, i: usize, end: usize) -> (r: bool)
    requires
        end <= v.len(),
    ensures
        r == accepted(vv(*v), i as int, end as int),
{
    if i < end {
        match &v[i] {
            Tok::Ident(x) => syn_accepts_ident(x),
            _ => false,
        }
    } else {
        false
    }
}

fn tok_ident_error(v: &Vec<Tok>, i: usize, end: usize) -> (e: AttrError)
    requires
        end <= v.len(),
    ensures
        e@ == ident_error(vv(*v), i as int, end as int),
{
    if i < end {
        match &v[i] {
            Tok::Ident(x) => AttrError::FoundKeyword(x.clone()),
            _ => AttrError::ExpectedIdent,
        }
    } else {
        AttrError::ExpectedIdent
    }
}

fn tok_is_punct(v: &Vec<Tok>, i: usize, end: usize, c: char) -> (r: bool)
    requires
        end <= v.len(),
    ensures
        r == is_punct(vv(*v), i as int, end as int, c),
{
    if i < end {
        match &v[i] {
            Tok::Punct(x, _) => *x == c,
            _ => false,
        }
    } else {
        false
    }
}

fn tok_is_colon2(v: &Vec<Tok>, i: usize, end: usize) -> (r: bool)
    requires
        end <= v.len(),
    ensures
        r == is_colon2(vv(*v), i as int, end as int),
{
    if i < end {
        match &v[i] {
            Tok::Punct(x, j) => *x == ':' && *j && tok_is_punct(v, i + 1, end, ':'),
            _ => false,
        }
    } else {
        false
    }
}

/// The identifier at `i`.
fn ident_string(v: &Vec<Tok>, i: usize) -> (r: String)
    requires
        i < v.len(),
        v@[i as int] is Ident,
    ensures
        r@ == ident_text(vv(*v), i as int),
{
    match &v[i] {
        Tok::Ident(x) => x.clone(),
        _ => String::new(),
    }
}

/// The index of the token that closes the group whose content starts at `j0`.
pub fn find_close(v: &Vec<Tok>, j0: usize) -> (r: Option<usize>)
    ensures
        match match_close(vv(*v), j0 as int, 1) {
            Some(c) => r == Some(c as usize) && j0 <= c < v.len(),
            None => r is None,
        },
{
    let ghost s = vv(*v);
    let mut j = j0;
    let mut depth: u128 = 1;
    while j < v.len()
        invariant
            j0 <= j,
            1 <= depth <= j - j0 + 1,
            s == vv(*v),
            match_close(s, j0 as int, 1) == match_close(s, j as int, depth as nat),
        decreases v.len() - j,
    {
        proof {
            lemma_match_close_bounds(s, j as int, depth as nat);
        }
        match &v[j] {
            Tok::Open(_) => {
                depth = depth + 1;
            },
            Tok::Close(_) => {
                if depth <= 1 {
                    return Some(j);
                }
                depth = depth - 1;
            },
            _ => {},
        }
        j = j + 1;
    }
    None
}

fn tok_paren_close(v: &Vec<Tok>, i: usize, end: usize) -> (r: Option<usize>)
    requires
        end <= v.len(),
    ensures
        match paren_close(vv(*v), i as int, end as int) {
            Some(c) => r == Some(c as usize),
            None => r is None,
        },
        r matches Some(c) ==> i < c < end,
        paren_close(vv(*v), i as int, end as int) matches Some(c) ==> i < c < end,
{
    proof {
        lemma_match_close_bounds(vv(*v), i + 1, 1);
    }
    if i < end {
        match &v[i] {
            Tok::Open(Delim::Paren) => {
                match find_close(v, i + 1) {
                    Some(c) => if c < end {
                        Some(c)
                    } else {
                        None
                    },
                    None => None,
                }
            },
            _ => None,
        }
    } else {
        None
    }
}

fn tok_seg_ok(v: &Vec<Tok>, i: usize, end: usize) -> (r: bool)
    requires
        end <= v.len(),
    ensures
        r == seg_ok(vv(*v), i as int, end as int),
{
    tok_accepted(v, i, end) || tok_is_kw(v, i, end, "super") || tok_is_kw(v, i, end, "self")
        || tok_is_kw(v, i, end, "Self") || tok_is_kw(v, i, end, "crate")
}

fn parse_mod_path(v: &Vec<Tok>, i0: usize, end: usize) -> (r: Result<usize, AttrError>)
    requires
        end <= v.len(),
    ensures
        idx_view(r) == mod_path(vv(*v), i0 as int, end as int),
{
    let ghost s = vv(*v);
    let mut i = i0;
    if tok_is_colon2(v, i, end) {
        i = i + 2;
    }
    if !tok_seg_ok(v, i, end) {
        return Err(tok_ident_error(v, i, end));
    }
    loop
        invariant
            i < end <= v.len(),
            s == vv(*v),
            seg_ok(s, i as int, end as int),
            mod_path(s, i0 as int, end as int) == mod_path_segs(s, i as int, end as int),
        decreases end - i,
    {
        if tok_is_colon2(v, i + 1, end) {
            if tok_seg_ok(v, i + 3, end) {
                i = i + 3;
            } else {
                return Err(AttrError::ExpectedPathSegment);
            }
        } else {
            return Ok(i + 1);
        }
    }
}

/// The visibility at the start: the index after it, and whether a token
/// was left inside its parentheses.
fn parse_vis_toks(v: &Vec<Tok>) -> (r: Result<(usize, bool), AttrError>)
    ensures
        match r {
            Ok((i, b)) => parse_vis(vv(*v), v.len() as int) == Ok::<(int, bool), SpecAttrError>(
                (i as int, b),
            ),
            Err(e) => parse_vis(vv(*v), v.len() as int) == Err::<(int, bool), SpecAttrError>(e@),
        },
{
    let end = v.len();
    if tok_is_kw(v, 0, end, "pub") {
        match tok_paren_close(v, 1, end) {
            Some(c) => {
                if tok_is_kw(v, 2, c, "crate") || tok_is_kw(v, 2, c, "self") || tok_is_kw(
                    v,
                    2,
                    c,
                    "super",
                ) {
                    if c == 3 {
                        Ok((4, false))
                    } else {
                        Ok((1, false))
                    }
                } else if tok_is_kw(v, 2, c, "in") {
                    match parse_mod_path(v, 3, c) {
                        Ok(p) => Ok((c + 1, p != c)),
                        Err(e) => Err(e),
                    }
                } else {
                    Ok((1, false))
                }
            },
            None => Ok((1, false)),
        }
    } else {
        Ok((0, false))
    }
}

fn parse_bridge_toks(v: &Vec<Tok>, i: usize, end: usize) -> (r: Result<(Bridge, usize), AttrError>)
    requires
        end <= v.len(),
    ensures
        match r {
            Ok((b, p)) => parse_bridge(vv(*v), i as int, end as int) == Ok::<
                (Bridge, int),
                SpecAttrError,
            >((b, p as int)),
            Err(e) => parse_bridge(vv(*v), i as int, end as int) == Err::<
                (Bridge, int),
                SpecAttrError,
            >(e@),
        },
{
    if tok_is_kw(v, i, end, "dyn") {
        Ok((Bridge::Dyn, i + 1))
    } else if !tok_accepted(v, i, end) {
        Err(tok_ident_error(v, i, end))
    } else {
        let name = ident_string(v, i);
        if str_eq(&name, "blanket") {
            Ok((Bridge::Blanket, i + 1))
        } else if str_eq(&name, "none") {
            Ok((Bridge::Disabled, i + 1))
        } else {
            Err(AttrError::UnknownOption)
        }
    }
}

/// Parses the arguments of the attribute.
pub fn parse_attrs(v: &Vec<Tok>) -> (r: Result<Attrs, AttrError>)
    ensures
        match r {
            Ok(a) => spec_parse_attrs(vv(*v)) == Ok::<SpecAttrs, SpecAttrError>(a@),
            Err(e) => spec_parse_attrs(vv(*v)) == Err::<SpecAttrs, SpecAttrError>(e@),
        },
{
    let ghost s = vv(*v);
    let end = v.len();
    let (i, left_vis) = match parse_vis_toks(v) {
        Ok(x) => x,
        Err(e) => {
            return Err(e);
        },
    };
    if !tok_accepted(v, i, end) {
        return Err(tok_ident_error(v, i, end));
    }
    if !tok_is_punct(v, i + 1, end, '=') {
        return Err(AttrError::ExpectedEqDynBox);
    }
    if !tok_is_kw(v, i + 2, end, "dyn") {
        return Err(AttrError::ExpectedDyn);
    }
    let c1 = match tok_paren_close(v, i + 3, end) {
        Some(c) => c,
        None => {
            return Err(AttrError::ExpectedDynBox);
        },
    };
    if !tok_is_kw(v, i + 4, c1, "box") {
        return Err(AttrError::ExpectedBox);
    }
    if !tok_accepted(v, c1 + 1, end) {
        return Err(AttrError::ExpectedTraitName);
    }
    let left = left_vis || c1 != i + 5;
    let k = c1 + 2;
    let mut vis: Vec<Tok> = Vec::new();
    let mut j: usize = 0;
    while j < i
        invariant
            j <= i < end == v.len(),
            s == vv(*v),
            vv(vis) == s.subrange(0, j as int),
        decreases i - j,
    {
        let t = v[j].copy();
        proof {
            crate::tokens::lemma_sv_push(vis@, t);
        }
        vis.push(t);
        assert(vv(vis) =~= s.subrange(0, j + 1));
        j = j + 1;
    }
    let ident = ident_string(v, i);
    let trait_name = ident_string(v, c1 + 1);
    let ghost a = SpecAttrs {
        vis: s.subrange(0, i as int),
        ident: ident_text(s, i as int),
        trait_name: ident_text(s, c1 + 1),
        bridge: None,
    };
    if tok_is_punct(v, k, end, ',') {
        if !tok_accepted(v, k + 1, end) {
            return Err(tok_ident_error(v, k + 1, end));
        }
        let opt = ident_string(v, k + 1);
        if !str_eq(&opt, "bridge") {
            return Err(AttrError::UnknownOption);
        }
        let c2 = match tok_paren_close(v, k + 2, end) {
            Some(c) => c,
            None => {
                return Err(AttrError::ExpectedParens);
            },
        };
        let (b, p) = match parse_bridge_toks(v, k + 3, c2) {
            Ok(x) => x,
            Err(e) => {
                return Err(e);
            },
        };
        if left || p != c2 {
            Err(AttrError::UnexpectedToken(Some(Delim::Paren)))
        } else if c2 + 1 < end {
            Err(AttrError::UnexpectedToken(None))
        } else {
            Ok(Attrs { vis, ident, target: Target { trait_name }, bridge: Some(b) })
        }
    } else {
        if left {
            Err(AttrError::UnexpectedToken(Some(Delim::Paren)))
        } else if k < end {
            Err(AttrError::UnexpectedToken(None))
        } else {
            Ok(Attrs { vis, ident, target: Target { trait_name }, bridge: None })
        }
    }
}

/// The message that an error is reported with.
pub open spec fn error_message(e: SpecAttrError) -> Seq<char> {
    match e {
        SpecAttrError::ExpectedIdent => "expected identifier"@,
        SpecAttrError::FoundKeyword(k) => "expected identifier, found keyword `"@ + k + "`"@,
        SpecAttrError::ExpectedEqDynBox => "expected `= dyn(box) TraitName`; dynosaur 0.3 requires this"@,
        SpecAttrError::ExpectedDyn => "expected `dyn`"@,
        SpecAttrError::ExpectedDynBox => "expected `dyn(box)`"@,
        SpecAttrError::ExpectedBox => "expected `box`"@,
        SpecAttrError::ExpectedTraitName => "expected trait name after `dyn(box)`"@,
        SpecAttrError::UnknownOption => "unknown option"@,
        SpecAttrError::ExpectedParens => "expected parentheses"@,
        SpecAttrError::ExpectedPathSegment => "expected path segment after `::`"@,
        SpecAttrError::UnexpectedToken(_) => "unexpected token"@,
    }
}

impl AttrError {
    /// The message that the error is reported with.
    pub fn message(&self) -> (r: String)
        ensures
            r@ == error_message(self@),
    {
        match self {
            AttrError::ExpectedIdent => String::from_str("expected identifier"),
            AttrError::FoundKeyword(k) => {
                let mut m = String::from_str("expected identifier, found keyword `");
                m.append(k.as_str());
                m.append("`");
                m
            },
            AttrError::ExpectedEqDynBox => String::from_str(
                "expected `= dyn(box) TraitName`; dynosaur 0.3 requires this",
            ),
            AttrError::ExpectedDyn => String::from_str("expected `dyn`"),
            AttrError::ExpectedDynBox => String::from_str("expected `dyn(box)`"),
            AttrError::ExpectedBox => String::from_str("expected `box`"),
            AttrError::ExpectedTraitName => String::from_str("expected trait name after `dyn(box)`"),
            AttrError::UnknownOption => String::from_str("unknown option"),
            AttrError::ExpectedParens => String::from_str("expected parentheses"),
            AttrError::ExpectedPathSegment => String::from_str("expected path segment after `::`"),
            AttrError::UnexpectedToken(_) => String::from_str("unexpected token"),
        }
    }
}

} // verus!
