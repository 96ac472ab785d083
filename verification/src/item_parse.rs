//! Reading the item that the attribute stands on: syn parses it as a trait,
//! and its syntax tree is converted to the model, node for node.

use vstd::prelude::*;
use quote::ToTokens;
use crate::tokens::{Tok, SpecTok, Delim, vv, group, push_tok, push_open, push_close, append_toks};
use crate::model::{
    PathSegment, PathModel, BoundKind, Bound, TypeKind, TypeModel, PatKind, PatModel,
    ReceiverModel, TypedArg, PredKind, Predicate, Sig, TraitItemKind, TraitModel,
};
use crate::attrs::ident_text;

verus! {

#[verifier::external_type_specification]
#[verifier::external_body]
pub struct ExTokenStream(proc_macro2::TokenStream);

#[verifier::external_type_specification]
#[verifier::external_body]
pub struct ExGroup(proc_macro2::Group);

#[verifier::external_type_specification]
#[verifier::external_body]
pub struct ExPath(syn::Path);

#[verifier::external_type_specification]
#[verifier::external_body]
pub struct ExTypeParamBound(syn::TypeParamBound);

#[verifier::external_type_specification]
#[verifier::external_body]
pub struct ExType(syn::Type);

#[verifier::external_type_specification]
#[verifier::external_body]
pub struct ExAttribute(syn::Attribute);

#[verifier::external_type_specification]
#[verifier::external_body]
pub struct ExLifetimeParam(syn::LifetimeParam);

#[verifier::external_type_specification]
#[verifier::external_body]
pub struct ExTypeParam(syn::TypeParam);

#[verifier::external_type_specification]
#[verifier::external_body]
pub struct ExConstParam(syn::ConstParam);

#[verifier::external_type_specification]
#[verifier::external_body]
pub struct ExGenericParam(syn::GenericParam);

#[verifier::external_type_specification]
#[verifier::external_body]
pub struct ExWherePredicate(syn::WherePredicate);

#[verifier::external_type_specification]
#[verifier::external_body]
pub struct ExGenerics(syn::Generics);

#[verifier::external_type_specification]
#[verifier::external_body]
pub struct ExPat(syn::Pat);

#[verifier::external_type_specification]
#[verifier::external_body]
pub struct ExFnArg(syn::FnArg);

#[verifier::external_type_specification]
#[verifier::external_body]
pub struct ExSignature(syn::Signature);

#[verifier::external_type_specification]
#[verifier::external_body]
pub struct ExTraitItem(syn::TraitItem);

#[verifier::external_type_specification]
#[verifier::external_body]
pub struct ExItemTrait(syn::ItemTrait);

/// The tokens with each `'` joined to the identifier after it written as
/// one lifetime token (a token stream writes a lifetime as those two).
pub open spec fn join_lifetimes(s: Seq<SpecTok>) -> Seq<SpecTok>
    decreases s.len(),
{
    if s.len() == 0 {
        seq![]
    } else if s.len() >= 2 && s[0] == SpecTok::Punct('\'', true) && s[1] is Ident {
        seq![SpecTok::Lifetime(ident_text(s, 1))] + join_lifetimes(s.skip(2))
    } else {
        seq![s[0]] + join_lifetimes(s.skip(1))
    }
}

/// Joins the lifetimes, as `join_lifetimes` says.
pub fn join_lifetime_toks(v: Vec<Tok>) -> (r: Vec<Tok>)
    ensures
        vv(r) == join_lifetimes(vv(v)),
{
    let ghost s = vv(v);
    let mut out: Vec<Tok> = Vec::new();
    assert(s.skip(0) =~= s);
    assert(vv(out) + join_lifetimes(s) =~= join_lifetimes(s));
    let mut i: usize = 0;
    while i < v.len()
        invariant
            s == vv(v),
            i <= v.len(),
            vv(out) + join_lifetimes(s.skip(i as int)) == join_lifetimes(s),
        decreases v.len() - i,
    {
        let ghost rest = s.skip(i as int);
        let ghost before = vv(out);
        let is_lt = i + 1 < v.len() && match (&v[i], &v[i + 1]) {
            (Tok::Punct(c, j), Tok::Ident(_)) => *c == '\'' && *j,
            _ => false,
        };
        if is_lt {
            match &v[i + 1] {
                Tok::Ident(x) => push_tok(&mut out, Tok::Lifetime(x.clone())),
                _ => {},
            }
            assert(rest.skip(2) =~= s.skip(i + 2));
            assert(vv(out) =~= before + seq![SpecTok::Lifetime(ident_text(rest, 1))]);
            i = i + 2;
        } else {
            push_tok(&mut out, v[i].copy());
            assert(rest.skip(1) =~= s.skip(i + 1));
            assert(vv(out) =~= before + seq![rest[0]]);
            i = i + 1;
        }
    }
    assert(s.skip(i as int) =~= Seq::<SpecTok>::empty());
    assert(vv(out) + Seq::<SpecTok>::empty() =~= vv(out));
    out
}

/// The tokens `inner` in a group with the delimiter `d`.
pub fn enclose(d: Delim, inner: Vec<Tok>) -> (r: Vec<Tok>)
    ensures
        vv(r) == group(d, vv(inner)),
{
    let mut out: Vec<Tok> = Vec::new();
    push_open(&mut out, d);
    append_toks(&mut out, &inner);
    push_close(&mut out, d);
    assert(vv(out) =~= group(d, vv(inner)));
    out
}

/// The tokens of a token stream, groups written as their delimiters around
/// their tokens (a group without delimiters as its tokens alone), before
/// lifetimes are joined.
#[verifier::external_body]
fn stream_toks(ts: proc_macro2::TokenStream) -> Vec<Tok> {
    let mut out: Vec<Tok> = Vec::new();
    for tt in ts {
        match tt {
            proc_macro2::TokenTree::Group(g) => out.append(&mut group_toks(&g)),
            proc_macro2::TokenTree::Ident(i) => out.push(Tok::Ident(i.to_string())),
            proc_macro2::TokenTree::Punct(p) => out.push(Tok::Punct(p.as_char(), p.spacing() == proc_macro2::Spacing::Joint)),
            proc_macro2::TokenTree::Literal(l) => out.push(Tok::Lit(l.to_string())),
        }
    }
    out
}

/// The tokens of a group, as `stream_toks` writes them.
#[verifier::external_body]
fn group_toks(g: &proc_macro2::Group) -> Vec<Tok> {
    let inner = stream_toks(g.stream());
    match g.delimiter() {
        proc_macro2::Delimiter::Parenthesis => enclose(Delim::Paren, inner),
        proc_macro2::Delimiter::Brace => enclose(Delim::Brace, inner),
        proc_macro2::Delimiter::Bracket => enclose(Delim::Bracket, inner),
        proc_macro2::Delimiter::None => inner,
    }
}

/// The tokens of a token stream, lifetimes joined.
fn flat(ts: proc_macro2::TokenStream) -> Vec<Tok> {
    join_lifetime_toks(stream_toks(ts))
}

/// The model of a path (syn's `Path`).
#[verifier::external_body]
fn path_model(p: &syn::Path) -> PathModel {
    PathModel {
        leading_colon: p.leading_colon.is_some(),
        segments: p.segments.iter().map(|s| PathSegment { ident: s.ident.to_string(), args: flat(s.arguments.to_token_stream()) }).collect(),
    }
}

/// The model of a bound (syn's `TypeParamBound`).
#[verifier::external_body]
fn bound_model(b: &syn::TypeParamBound) -> Bound {
    let kind = match b {
        syn::TypeParamBound::Trait(t) => BoundKind::Trait(path_model(&t.path)),
        syn::TypeParamBound::Lifetime(_) => BoundKind::Lifetime,
        _ => BoundKind::Other,
    };
    Bound { kind, toks: flat(b.to_token_stream()) }
}

/// The model of a type (syn's `Type`).
#[verifier::external_body]
fn type_model(t: &syn::Type) -> TypeModel {
    let kind = match t {
        syn::Type::ImplTrait(i) => TypeKind::ImplTrait(i.bounds.iter().map(bound_model).collect()),
        syn::Type::Reference(r) => TypeKind::Reference(r.mutability.is_some()),
        syn::Type::Path(p) => TypeKind::Path(path_model(&p.path)),
        _ => TypeKind::Other,
    };
    TypeModel { kind, toks: flat(t.to_token_stream()) }
}

/// The tokens of attributes.
#[verifier::external_body]
fn attrs_toks(attrs: &Vec<syn::Attribute>) -> Vec<Tok> {
    attrs.iter().flat_map(|a| flat(a.to_token_stream())).collect()
}

/// The model of a lifetime parameter.
#[verifier::external_body]
fn lifetime_param(l: &syn::LifetimeParam) -> crate::model::ParamModel {
    crate::model::ParamModel::Lifetime {
        attrs: attrs_toks(&l.attrs),
        name: l.lifetime.ident.to_string(),
        bounds: l.bounds.iter().map(|b| b.ident.to_string()).collect(),
    }
}

/// The model of a type parameter.
#[verifier::external_body]
fn type_param(t: &syn::TypeParam) -> crate::model::ParamModel {
    crate::model::ParamModel::Type {
        attrs: attrs_toks(&t.attrs),
        ident: t.ident.to_string(),
        bounds: t.bounds.iter().map(bound_model).collect(),
        default: t.default.as_ref().map(|d| flat(d.to_token_stream())),
    }
}

/// The model of a const parameter.
#[verifier::external_body]
fn const_param(c: &syn::ConstParam) -> crate::model::ParamModel {
    crate::model::ParamModel::Const {
        attrs: attrs_toks(&c.attrs),
        ident: c.ident.to_string(),
        ty: flat(c.ty.to_token_stream()),
        default: c.default.as_ref().map(|d| flat(d.to_token_stream())),
    }
}

/// The model of a generic parameter.
#[verifier::external_body]
fn param_model(p: &syn::GenericParam) -> crate::model::ParamModel {
    match p {
        syn::GenericParam::Lifetime(l) => lifetime_param(l),
        syn::GenericParam::Type(t) => type_param(t),
        syn::GenericParam::Const(c) => const_param(c),
    }
}

/// The model of a where-predicate.
#[verifier::external_body]
fn pred_model(p: &syn::WherePredicate) -> Predicate {
    let kind = match p {
        syn::WherePredicate::Type(t) => PredKind::Type { bounded: type_model(&t.bounded_ty), bounds: t.bounds.iter().map(bound_model).collect() },
        _ => PredKind::Other,
    };
    Predicate { kind, toks: flat(p.to_token_stream()) }
}

/// The model of generics.
#[verifier::external_body]
fn generics_model(g: &syn::Generics) -> crate::model::GenericsModel {
    crate::model::GenericsModel {
        params: g.params.iter().map(param_model).collect(),
        where_clause: g.where_clause.as_ref().map(|w| w.predicates.iter().map(pred_model).collect()),
    }
}

/// The model of a pattern.
#[verifier::external_body]
fn pat_model(p: &syn::Pat) -> PatModel {
    let kind = match p {
        syn::Pat::Ident(_) => PatKind::Ident,
        syn::Pat::Wild(_) => PatKind::Wild,
        _ => PatKind::Other,
    };
    PatModel { kind, toks: flat(p.to_token_stream()) }
}

/// The model of an argument.
#[verifier::external_body]
fn arg_model(a: &syn::FnArg) -> crate::model::ArgModel {
    match a {
        syn::FnArg::Receiver(r) => crate::model::ArgModel::Receiver(ReceiverModel {
            attrs: attrs_toks(&r.attrs),
            reference: r.reference.as_ref().map(|(_, l)| l.as_ref().map(|l| l.ident.to_string())),
            mutable: r.mutability.is_some(),
            colon_ty: r.colon_token.is_some(),
            ty: type_model(&r.ty),
        }),
        syn::FnArg::Typed(t) => crate::model::ArgModel::Typed(TypedArg { attrs: attrs_toks(&t.attrs), pat: pat_model(&t.pat), ty: type_model(&t.ty) }),
    }
}

/// The model of a signature.
#[verifier::external_body]
fn sig_model(s: &syn::Signature) -> Sig {
    Sig {
        constness: s.constness.is_some(),
        asyncness: s.asyncness.is_some(),
        unsafety: s.unsafety.is_some(),
        abi: flat(s.abi.to_token_stream()),
        ident: s.ident.to_string(),
        generics: generics_model(&s.generics),
        inputs: s.inputs.iter().map(arg_model).collect(),
        output: match &s.output { syn::ReturnType::Default => None, syn::ReturnType::Type(_, t) => Some(type_model(t)) },
    }
}

/// The model of an item of a trait.
#[verifier::external_body]
fn item_model(it: &syn::TraitItem) -> crate::model::ItemModel {
    let toks = flat(it.to_token_stream());
    match it {
        syn::TraitItem::Fn(f) => crate::model::ItemModel { attrs: attrs_toks(&f.attrs), kind: TraitItemKind::Fn(sig_model(&f.sig)), toks },
        syn::TraitItem::Type(t) => crate::model::ItemModel { attrs: attrs_toks(&t.attrs), kind: TraitItemKind::Type { ident: t.ident.to_string(), generics: generics_model(&t.generics), bounds: t.bounds.iter().map(bound_model).collect() }, toks },
        syn::TraitItem::Const(c) => crate::model::ItemModel { attrs: attrs_toks(&c.attrs), kind: TraitItemKind::Const, toks },
        _ => crate::model::ItemModel { attrs: Vec::new(), kind: TraitItemKind::Other, toks },
    }
}

/// The head of a trait: its outer attributes, visibility, `unsafe`, `auto`
/// and `trait`.
#[verifier::external_body]
fn head_toks(t: &syn::ItemTrait) -> Vec<Tok> {
    let outer: Vec<syn::Attribute> = t.attrs.iter().filter(|a| matches!(a.style, syn::AttrStyle::Outer)).cloned().collect();
    let mut ts = proc_macro2::TokenStream::new();
    t.vis.to_tokens(&mut ts);
    t.unsafety.to_tokens(&mut ts);
    t.auto_token.to_tokens(&mut ts);
    t.trait_token.to_tokens(&mut ts);
    let mut head = attrs_toks(&outer);
    head.append(&mut flat(ts));
    head
}

/// The model of a trait, its inner attributes apart from its head.
#[verifier::external_body]
fn trait_model(t: &syn::ItemTrait) -> TraitModel {
    let inner: Vec<syn::Attribute> = t.attrs.iter().filter(|a| !matches!(a.style, syn::AttrStyle::Outer)).cloned().collect();
    TraitModel {
        head: head_toks(t),
        ident: t.ident.to_string(),
        generics: generics_model(&t.generics),
        supertraits: t.supertraits.iter().map(bound_model).collect(),
        inner_attrs: attrs_toks(&inner),
        items: t.items.iter().map(item_model).collect(),
        toks: flat(t.to_token_stream()),
    }
}

/// What `syn::parse_str::<syn::ItemTrait>` gives for the item's text,
/// converted to the model: the trait, or the tokens of its error.
pub uninterp spec fn syn_item_trait(item: Seq<char>) -> Result<TraitModel, Seq<SpecTok>>;

/// Parses the item with `syn::parse_str::<syn::ItemTrait>` and converts the
/// syntax tree to the model, or the error to a single error token with
/// syn's message. The result is a function of the text alone, named
/// `syn_item_trait`; what syn accepts and how it reads it is not written out.
#[verifier::external_body]
pub(crate) fn parse_item_trait(item: &String) -> (r: Result<TraitModel, Vec<Tok>>)
    ensures
        match r {
            Ok(t) => syn_item_trait(item@) == Ok::<TraitModel, Seq<SpecTok>>(t),
            Err(e) => syn_item_trait(item@) == Err::<TraitModel, Seq<SpecTok>>(vv(e)),
        },
{
    match syn::parse_str::<syn::ItemTrait>(item.as_str()) {
        Ok(t) => Ok(trait_model(&t)),
        Err(e) => Err(vec![Tok::Error(e.to_string())]),
    }
}

} // verus!
