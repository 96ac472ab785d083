//! What the attribute expands to.

use vstd::prelude::*;
use crate::tokens::{
    Tok, SpecTok, Delim, vv, id, pu, colon2, group, push_tok, push_ident, push_ident_string,
    push_punct, push_colon2, push_open, push_close, append_toks, copy_toks,
};
use crate::model::TraitModel;
use crate::attrs::{Attrs, SpecAttrs, Bridge, parse_attrs, spec_parse_attrs, error_message};
use crate::expand::error_tok;
use crate::erased::{
    trait_fits, trait_fits_exec, erased_trait_toks, erased_blanket_impl_toks, mk_erased_trait,
    mk_erased_trait_blanket_impl,
};
use crate::dyn_struct::{
    dyn_struct_toks, dyn_impl_toks, inherent_impl_toks, mk_dyn_struct, mk_dyn_struct_impl_item,
    mk_struct_inherent_impl,
};
use crate::bridge::{bridge_impl_toks, mk_box_blanket_impl};
use crate::item_parse::{syn_item_trait, parse_item_trait};

verus! {

/// What `str::to_lowercase` gives for a string.
pub uninterp spec fn lowercase(s: Seq<char>) -> Seq<char>;

/// Calls `str::to_lowercase`, whose result is a function of the string
/// alone, named `lowercase` (the Unicode case mapping is not written out).
#[verifier::external_body]
fn to_lowercase(s: &String) -> (r: String)
    ensures
        r@ == lowercase(s@),
{
    s.to_lowercase()
}

/// The module that holds the generated items: `__dynosaur_macro_` and the
/// struct's name in lower case.
pub open spec fn module_name(lower: Seq<char>) -> Seq<char> {
    "__dynosaur_macro_"@ + lower
}

/// The bridge that the attribute asks for: `bridge(blanket)` where it names none.
pub open spec fn chosen_bridge(b: Option<Bridge>) -> Bridge {
    match b {
        Some(x) => x,
        None => Bridge::Blanket,
    }
}

/// The items of the generated module: `use super::*;`, the erased trait and
/// its blanket impl, the `Dyn` struct, its impl of the trait, its
/// constructors and the bridge impls.
pub open spec fn module_items_toks(a: SpecAttrs, t: TraitModel) -> Seq<SpecTok> {
    seq![id("use"), id("super")] + colon2() + seq![pu('*'), pu(';')] + erased_trait_toks(t)
        + erased_blanket_impl_toks(t) + dyn_struct_toks(a.ident, t) + dyn_impl_toks(a.ident, t)
        + inherent_impl_toks(a.ident, t) + bridge_impl_toks(a.ident, t, chosen_bridge(a.bridge))
}

/// The expansion for the trait, given the name `m` of the module: the
/// trait unchanged if the attribute names another trait; otherwise the
/// trait, `mod m { module items }` and `vis use m::Name;`.
pub open spec fn expansion_toks(a: SpecAttrs, t: TraitModel, m: Seq<char>) -> Seq<SpecTok> {
    if a.trait_name != t.ident@ {
        vv(t.toks)
    } else {
        vv(t.toks) + seq![id("mod"), SpecTok::Ident(m)] + group(
            Delim::Brace,
            module_items_toks(a, t),
        ) + a.vis + seq![id("use"), SpecTok::Ident(m)] + colon2() + seq![
            SpecTok::Ident(a.ident),
            pu(';'),
        ]
    }
}

#[verifier::rlimit(50)]
fn module_items(attrs: &Attrs, t: &TraitModel) -> (r: Vec<Tok>)
    requires
        trait_fits(*t),
    ensures
        vv(r) == module_items_toks(attrs@, *t),
{
    let s = &attrs.ident;
    let bridge = match attrs.bridge {
        Some(b) => b,
        None => Bridge::Blanket,
    };
    let erased_trait = mk_erased_trait(t);
    let erased_trait_blanket_impl = mk_erased_trait_blanket_impl(t);
    let dyn_struct = mk_dyn_struct(s, t);
    let dyn_struct_impl_item = mk_dyn_struct_impl_item(s, t);
    let struct_inherent_impl = mk_struct_inherent_impl(s, t);
    let box_blanket_impl = mk_box_blanket_impl(s, t, bridge);
    let mut out: Vec<Tok> = Vec::new();
    push_ident(&mut out, "use");
    push_ident(&mut out, "super");
    push_colon2(&mut out);
    push_punct(&mut out, '*');
    push_punct(&mut out, ';');
    append_toks(&mut out, &erased_trait);
    append_toks(&mut out, &erased_trait_blanket_impl);
    append_toks(&mut out, &dyn_struct);
    append_toks(&mut out, &dyn_struct_impl_item);
    append_toks(&mut out, &struct_inherent_impl);
    append_toks(&mut out, &box_blanket_impl);
    assert(vv(out) =~= module_items_toks(attrs@, *t));
    out
}

/// The expansion for the trait with the module named `module`, as
/// `expansion_toks` says.
#[verifier::rlimit(50)]
pub fn expand_trait(attrs: &Attrs, t: &TraitModel, module: &String) -> (r: Vec<Tok>)
    requires
        trait_fits(*t),
    ensures
        vv(r) == expansion_toks(attrs@, *t, module@),
{
    let mut out = copy_toks(&t.toks);
    if attrs.target.trait_name != t.ident {
        return out;
    }
    let items = module_items(attrs, t);
    push_ident(&mut out, "mod");
    push_ident_string(&mut out, module);
    push_open(&mut out, Delim::Brace);
    append_toks(&mut out, &items);
    push_close(&mut out, Delim::Brace);
    append_toks(&mut out, &attrs.vis);
    push_ident(&mut out, "use");
    push_ident_string(&mut out, module);
    push_colon2(&mut out);
    push_ident_string(&mut out, &attrs.ident);
    push_punct(&mut out, ';');
    assert(vv(out) =~= expansion_toks(attrs@, *t, module@));
    out
}

/// The error for a trait too large for the machine's counters.
pub open spec fn too_large_message() -> Seq<char> {
    "the trait is too large to expand"@
}

/// Expands the attribute, given its arguments and the text of the item it
/// stands on: the error of the arguments if they are refused; else syn's
/// error if the item is not a trait; else the expansion, with the module
/// named after the struct (or an error where the trait exceeds the
/// machine's limits, `trait_fits`).
pub fn dynosaur(attr: &Vec<Tok>, item: &String) -> (r: Vec<Tok>)
    ensures
        match spec_parse_attrs(vv(*attr)) {
            Err(e) => vv(r) == error_tok(error_message(e)),
            Ok(a) => match syn_item_trait(item@) {
                Err(x) => vv(r) == x,
                Ok(t) => if trait_fits(t) {
                    vv(r) == expansion_toks(a, t, module_name(lowercase(a.ident)))
                } else {
                    vv(r) == error_tok(too_large_message())
                },
            },
        },
{
    let attrs = match parse_attrs(attr) {
        Ok(a) => a,
        Err(e) => {
            let mut out: Vec<Tok> = Vec::new();
            push_tok(&mut out, Tok::Error(e.message()));
            assert(vv(out) =~= error_tok(error_message(e@)));
            return out;
        },
    };
    match parse_item_trait(item) {
        Err(x) => x,
        Ok(t) => {
            if !trait_fits_exec(&t) {
                let mut out: Vec<Tok> = Vec::new();
                push_tok(&mut out, Tok::Error(String::from_str("the trait is too large to expand")));
                assert(vv(out) =~= error_tok(too_large_message()));
                return out;
            }
            let mut module = String::from_str("__dynosaur_macro_");
            let lower = to_lowercase(&attrs.ident);
            module.append(lower.as_str());
            expand_trait(&attrs, &t, &module)
        },
    }
}

} // verus!
