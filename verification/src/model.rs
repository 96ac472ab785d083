//! A model of the syntax of a trait, as plain values.
//!
//! Each node keeps what the generation reads of it as fields; the parts
//! that it only copies are kept as token sequences.

use vstd::prelude::*;
use crate::tokens::{Tok, SpecTok, vv, pu, push_punct, append_toks};

verus! {

/// One segment of a path: its identifier and, as tokens, its arguments.
pub struct PathSegment {
    pub ident: String,
    pub args: Vec<Tok>,
}

/// A path such as `::core::future::Future<Output = T>`.
pub struct PathModel {
    pub leading_colon: bool,
    pub segments: Vec<PathSegment>,
}

/// What kind of bound a bound is.
pub enum BoundKind {
    /// A trait bound, with the path of the trait.
    Trait(PathModel),
    /// A lifetime bound.
    Lifetime,
    /// Any other bound.
    Other,
}

/// A bound, such as `Send` or `'a`, with its tokens.
pub struct Bound {
    pub kind: BoundKind,
    pub toks: Vec<Tok>,
}

/// What kind of type a type is.
pub enum TypeKind {
    /// `impl Bounds`.
    ImplTrait(Vec<Bound>),
    /// `&T` or `&mut T`; the flag is `true` for `&mut`.
    Reference(bool),
    /// A path type (the path, leaving any qualified self aside).
    Path(PathModel),
    /// Any other type.
    Other,
}

/// A type with its tokens.
pub struct TypeModel {
    pub kind: TypeKind,
    pub toks: Vec<Tok>,
}

/// What kind of pattern a pattern is.
#[derive(PartialEq, Eq, Structural)]
pub enum PatKind {
    /// A binding such as `x` or `mut x`.
    Ident,
    /// `_`.
    Wild,
    /// Any other pattern.
    Other,
}

/// A pattern with its tokens.
pub struct PatModel {
    pub kind: PatKind,
    pub toks: Vec<Tok>,
}

/// A `self` receiver.
pub struct ReceiverModel {
    pub attrs: Vec<Tok>,
    /// `Some` for `&self` and `&mut self`, with the lifetime if one is written.
    pub reference: Option<Option<String>>,
    pub mutable: bool,
    /// Whether the type is written out, as in `self: Box<Self>`.
    pub colon_ty: bool,
    /// The type of `self`.
    pub ty: TypeModel,
}

/// An argument `pat: ty`.
pub struct TypedArg {
    pub attrs: Vec<Tok>,
    pub pat: PatModel,
    pub ty: TypeModel,
}

/// An argument of a function.
pub enum ArgModel {
    Receiver(ReceiverModel),
    Typed(TypedArg),
}

/// A generic parameter.
#[allow(inconsistent_fields)]
pub enum ParamModel {
    /// `'name: 'b1 + 'b2`; the names are written without the quote.
    Lifetime { attrs: Vec<Tok>, name: String, bounds: Vec<String> },
    /// `T: Bounds = Default`.
    Type { attrs: Vec<Tok>, ident: String, bounds: Vec<Bound>, default: Option<Vec<Tok>> },
    /// `const N: Ty = Default`.
    Const { attrs: Vec<Tok>, ident: String, ty: Vec<Tok>, default: Option<Vec<Tok>> },
}

/// What kind of predicate a where-predicate is.
pub enum PredKind {
    /// `Ty: Bounds`.
    Type { bounded: TypeModel, bounds: Vec<Bound> },
    /// Any other predicate.
    Other,
}

/// A where-predicate with its tokens.
pub struct Predicate {
    pub kind: PredKind,
    pub toks: Vec<Tok>,
}

/// Generic parameters and where clause.
pub struct GenericsModel {
    pub params: Vec<ParamModel>,
    pub where_clause: Option<Vec<Predicate>>,
}

/// A function signature.
pub struct Sig {
    pub constness: bool,
    pub asyncness: bool,
    pub unsafety: bool,
    pub abi: Vec<Tok>,
    pub ident: String,
    pub generics: GenericsModel,
    pub inputs: Vec<ArgModel>,
    pub output: Option<TypeModel>,
}

/// What kind of item an item of a trait is.
pub enum TraitItemKind {
    Const,
    /// A method; its default body is not kept.
    Fn(Sig),
    /// An associated type.
    Type { ident: String, generics: GenericsModel, bounds: Vec<Bound> },
    Other,
}

/// An item of a trait, with its outer attributes and its tokens.
pub struct ItemModel {
    pub attrs: Vec<Tok>,
    pub kind: TraitItemKind,
    pub toks: Vec<Tok>,
}

/// A trait definition.
pub struct TraitModel {
    /// Outer attributes, visibility, `unsafe`, `auto` and `trait`.
    pub head: Vec<Tok>,
    pub ident: String,
    pub generics: GenericsModel,
    pub supertraits: Vec<Bound>,
    pub inner_attrs: Vec<Tok>,
    pub items: Vec<ItemModel>,
    /// The tokens of the whole trait.
    pub toks: Vec<Tok>,
}

/// The values of a sequence of token vectors.
pub open spec fn vvs(v: Seq<Vec<Tok>>) -> Seq<Seq<SpecTok>> {
    v.map_values(|p: Vec<Tok>| vv(p))
}

/// The parts, separated by `sep`.
pub open spec fn join(parts: Seq<Seq<SpecTok>>, sep: SpecTok) -> Seq<SpecTok>
    decreases parts.len(),
{
    if parts.len() == 0 {
        seq![]
    } else if parts.len() == 1 {
        parts[0]
    } else {
        join(parts.drop_last(), sep).push(sep) + parts.last()
    }
}

/// Appends the parts, separated by the punctuation `sep`.
pub fn append_joined(out: &mut Vec<Tok>, parts: &Vec<Vec<Tok>>, sep: char)
    ensures
        vv(*final(out)) == vv(*old(out)) + join(vvs(parts@), pu(sep)),
{
    let ghost start = vv(*out);
    let mut i: usize = 0;
    while i < parts.len()
        invariant
            0 <= i <= parts.len(),
            vv(*out) == start + join(vvs(parts@.take(i as int)), pu(sep)),
        decreases parts.len() - i,
    {
        let ghost before = vv(*out);
        if i > 0 {
            push_punct(out, sep);
        }
        append_toks(out, &parts[i]);
        proof {
            let p = vvs(parts@.take(i + 1));
            assert(p.drop_last() =~= vvs(parts@.take(i as int)));
            assert(p.last() == vv(parts@[i as int]));
            if i == 0 {
                assert(vvs(parts@.take(0)) =~= Seq::<Seq<SpecTok>>::empty());
                assert(vv(*out) =~= start + join(p, pu(sep)));
            } else {
                assert(vv(*out) =~= start + join(p, pu(sep)));
            }
        }
        i = i + 1;
    }
    assert(parts@.take(i as int) =~= parts@);
}

/// The parts, one after the other.
pub open spec fn concat(parts: Seq<Seq<SpecTok>>) -> Seq<SpecTok>
    decreases parts.len(),
{
    if parts.len() == 0 {
        seq![]
    } else {
        concat(parts.drop_last()) + parts.last()
    }
}

/// Appends the parts, one after the other.
pub fn append_concat(out: &mut Vec<Tok>, parts: &Vec<Vec<Tok>>)
    ensures
        vv(*final(out)) == vv(*old(out)) + concat(vvs(parts@)),
{
    let ghost start = vv(*out);
    let mut i: usize = 0;
    while i < parts.len()
        invariant
            0 <= i <= parts.len(),
            vv(*out) == start + concat(vvs(parts@.take(i as int))),
        decreases parts.len() - i,
    {
        append_toks(out, &parts[i]);
        proof {
            let p = vvs(parts@.take(i + 1));
            assert(p.drop_last() =~= vvs(parts@.take(i as int)));
            assert(vv(*out) =~= start + concat(p));
        }
        i = i + 1;
    }
    assert(parts@.take(i as int) =~= parts@);
}

} // verus!
