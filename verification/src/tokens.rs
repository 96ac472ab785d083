//! Flat token streams: groups are written as an opening and a closing
//! delimiter token, so that a stream is a plain sequence.

use vstd::prelude::*;

verus! {

/// The delimiter of a group.
#[derive(Debug, Clone, Copy, PartialEq, Eq, Structural)]
pub enum Delim {
    Paren,
    Brace,
    Bracket,
}

/// One token. A lifetime such as `'a` is a single token holding `a`.
#[derive(Debug, Clone, PartialEq, Eq)]
pub enum Tok {
    Ident(String),
    /// A punctuation character, and whether it is joined to the next one.
    Punct(char, bool),
    Lifetime(String),
    /// A literal, as it is written in the source.
    Lit(String),
    Open(Delim),
    Close(Delim),
    /// An error to report where the tokens are compiled, with its message.
    Error(String),
}

/// The mathematical value of a token.
pub enum SpecTok {
    Ident(Seq<char>),
    Punct(char, bool),
    Lifetime(Seq<char>),
    Lit(Seq<char>),
    Open(Delim),
    Close(Delim),
    Error(Seq<char>),
}

impl View for Tok {
    type V = SpecTok;

    open spec fn view(&self) -> SpecTok {
        match self {
            Tok::Ident(s) => SpecTok::Ident(s@),
            Tok::Punct(c, j) => SpecTok::Punct(*c, *j),
            Tok::Lifetime(s) => SpecTok::Lifetime(s@),
            Tok::Lit(s) => SpecTok::Lit(s@),
            Tok::Open(d) => SpecTok::Open(*d),
            Tok::Close(d) => SpecTok::Close(*d),
            Tok::Error(s) => SpecTok::Error(s@),
        }
    }
}

/// The value of a sequence of tokens.
pub open spec fn sv(v: Seq<Tok>) -> Seq<SpecTok> {
    v.map_values(|t: Tok| t@)
}

/// The value of a vector of tokens.
pub open spec fn vv(v: Vec<Tok>) -> Seq<SpecTok> {
    sv(v@)
}

pub open spec fn id(s: &str) -> SpecTok {
    SpecTok::Ident(s@)
}

pub open spec fn pu(c: char) -> SpecTok {
    SpecTok::Punct(c, false)
}

/// `::`
pub open spec fn colon2() -> Seq<SpecTok> {
    seq![SpecTok::Punct(':', true), SpecTok::Punct(':', false)]
}

/// A group with the given delimiter around `inner`.
pub open spec fn group(d: Delim, inner: Seq<SpecTok>) -> Seq<SpecTok> {
    seq![SpecTok::Open(d)] + inner + seq![SpecTok::Close(d)]
}

/// Whether `a` holds the characters of `b`.
pub fn str_eq(a: &String, b: &str) -> (r: bool)
    ensures
        r == (a@ == b@),
{
    let b2 = String::from_str(b);
    *a == b2
}

impl Tok {
    /// A copy of the token.
    pub fn copy(&self) -> (r: Tok)
        ensures
            r@ == self@,
    {
        match self {
            Tok::Ident(s) => Tok::Ident(s.clone()),
            Tok::Punct(c, j) => Tok::Punct(*c, *j),
            Tok::Lifetime(s) => Tok::Lifetime(s.clone()),
            Tok::Lit(s) => Tok::Lit(s.clone()),
            Tok::Open(d) => Tok::Open(*d),
            Tok::Close(d) => Tok::Close(*d),
            Tok::Error(s) => Tok::Error(s.clone()),
        }
    }

    /// Whether the token is the identifier `s`.
    pub fn is_ident(&self, s: &str) -> (r: bool)
        ensures
            r == (self@ == SpecTok::Ident(s@)),
    {
        match self {
            Tok::Ident(x) => str_eq(x, s),
            _ => false,
        }
    }
}

} // verus!

verus! {

pub proof fn lemma_sv_push(s: Seq<Tok>, t: Tok)
    ensures
        sv(s.push(t)) == sv(s).push(t@),
{
    assert(sv(s.push(t)) =~= sv(s).push(t@));
}

/// Appends one token.
pub fn push_tok(out: &mut Vec<Tok>, t: Tok)
    ensures
        vv(*final(out)) == vv(*old(out)).push(t@),
{
    proof {
        lemma_sv_push(out@, t);
    }
    out.push(t);
}

/// Appends the identifier `s`.
pub fn push_ident(out: &mut Vec<Tok>, s: &str)
    ensures
        vv(*final(out)) == vv(*old(out)).push(id(s)),
{
    push_tok(out, Tok::Ident(String::from_str(s)));
}

/// Appends the identifier held by `s`.
pub fn push_ident_string(out: &mut Vec<Tok>, s: &String)
    ensures
        vv(*final(out)) == vv(*old(out)).push(SpecTok::Ident(s@)),
{
    push_tok(out, Tok::Ident(s.clone()));
}

/// Appends a punctuation character that stands alone.
pub fn push_punct(out: &mut Vec<Tok>, c: char)
    ensures
        vv(*final(out)) == vv(*old(out)).push(pu(c)),
{
    push_tok(out, Tok::Punct(c, false));
}

/// Appends `::`.
pub fn push_colon2(out: &mut Vec<Tok>)
    ensures
        vv(*final(out)) == vv(*old(out)) + colon2(),
{
    push_tok(out, Tok::Punct(':', true));
    push_tok(out, Tok::Punct(':', false));
    assert(vv(*out) =~= vv(*old(out)) + colon2());
}

/// Appends an opening delimiter.
pub fn push_open(out: &mut Vec<Tok>, d: Delim)
    ensures
        vv(*final(out)) == vv(*old(out)).push(SpecTok::Open(d)),
{
    push_tok(out, Tok::Open(d));
}

/// Appends a closing delimiter.
pub fn push_close(out: &mut Vec<Tok>, d: Delim)
    ensures
        vv(*final(out)) == vv(*old(out)).push(SpecTok::Close(d)),
{
    push_tok(out, Tok::Close(d));
}

/// Appends copies of all tokens of `src`.
pub fn append_toks(out: &mut Vec<Tok>, src: &Vec<Tok>)
    ensures
        vv(*final(out)) == vv(*old(out)) + vv(*src),
{
    let ghost start = vv(*out);
    let mut i: usize = 0;
    while i < src.len()
        invariant
            0 <= i <= src.len(),
            vv(*out) == start + sv(src@.take(i as int)),
        decreases src.len() - i,
    {
        let t = src[i].copy();
        push_tok(out, t);
        proof {
            assert(src@.take(i + 1) == src@.take(i as int).push(src@[i as int]));
            lemma_sv_push(src@.take(i as int), src@[i as int]);
        }
        i = i + 1;
    }
    assert(src@.take(i as int) == src@);
}

/// A copy of a vector of tokens.
pub fn copy_toks(src: &Vec<Tok>) -> (r: Vec<Tok>)
    ensures
        vv(r) == vv(*src),
{
    let mut r: Vec<Tok> = Vec::new();
    append_toks(&mut r, src);
    assert(vv(*src) =~= Seq::<SpecTok>::empty() + vv(*src));
    r
}

} // verus!
