use dynosaur::attrs::{parse_attrs, AttrError, Attrs, Bridge};
use dynosaur::tokens::{Delim, Tok};

/// Tokens from space-separated text: `'a` is a lifetime, brackets open and
/// close groups, `::` and `->` are joined punctuation.
fn toks(text: &str) -> Vec<Tok> {
    let mut out = Vec::new();
    for w in text.split_whitespace() {
        match w {
            "(" => out.push(Tok::Open(Delim::Paren)),
            ")" => out.push(Tok::Close(Delim::Paren)),
            "{" => out.push(Tok::Open(Delim::Brace)),
            "}" => out.push(Tok::Close(Delim::Brace)),
            "[" => out.push(Tok::Open(Delim::Bracket)),
            "]" => out.push(Tok::Close(Delim::Bracket)),
            "::" => {
                out.push(Tok::Punct(':', true));
                out.push(Tok::Punct(':', false));
            }
            _ if w.starts_with('\'') => out.push(Tok::Lifetime(w[1..].to_string())),
            _ if w.chars().all(|c| c.is_alphanumeric() || c == '_') => {
                out.push(Tok::Ident(w.to_string()))
            }
            _ => {
                for c in w.chars() {
                    out.push(Tok::Punct(c, false));
                }
            }
        }
    }
    out
}

fn ok(text: &str) -> Attrs {
    match parse_attrs(&toks(text)) {
        Ok(a) => a,
        Err(e) => panic!("refused {:?}: {}", text, e.message()),
    }
}

fn err(text: &str) -> AttrError {
    match parse_attrs(&toks(text)) {
        Ok(_) => panic!("accepted {:?}", text),
        Err(e) => e,
    }
}

#[test]
fn parses_public_struct() {
    let a = ok("pub DynNext = dyn ( box ) Next");
    assert_eq!(a.vis, toks("pub"));
    assert_eq!(a.ident, "DynNext");
    assert_eq!(a.target.trait_name, "Next");
    assert!(a.bridge.is_none());
}

#[test]
fn parses_private_struct() {
    let a = ok("DynNext = dyn ( box ) Next");
    assert!(a.vis.is_empty());
    assert_eq!(a.ident, "DynNext");
}

#[test]
fn parses_restricted_visibility() {
    let a = ok("pub ( crate ) DynNext = dyn ( box ) Next");
    assert_eq!(a.vis, toks("pub ( crate )"));
    let b = ok("pub ( in crate :: a ) DynNext = dyn ( box ) Next");
    assert_eq!(b.vis, toks("pub ( in crate :: a )"));
    assert_eq!(b.ident, "DynNext");
}

#[test]
fn parses_bridge_options() {
    assert_eq!(ok("D = dyn ( box ) T , bridge ( none )").bridge, Some(Bridge::Disabled));
    assert_eq!(ok("D = dyn ( box ) T , bridge ( blanket )").bridge, Some(Bridge::Blanket));
    assert_eq!(ok("D = dyn ( box ) T , bridge ( dyn )").bridge, Some(Bridge::Dyn));
}

#[test]
fn missing_strategy_is_refused() {
    let e = err("DynNext");
    assert_eq!(e, AttrError::ExpectedEqDynBox);
    assert_eq!(
        e.message(),
        "expected `= dyn(box) TraitName`; dynosaur 0.3 requires this"
    );
    assert_eq!(err("DynNext = Next"), AttrError::ExpectedDyn);
    assert_eq!(err("DynNext = dyn Next"), AttrError::ExpectedDynBox);
    assert_eq!(err("DynNext = dyn ( ) Next"), AttrError::ExpectedBox);
}

#[test]
fn missing_trait_name_is_refused() {
    let e = err("DynNext = dyn ( box )");
    assert_eq!(e, AttrError::ExpectedTraitName);
    assert_eq!(e.message(), "expected trait name after `dyn(box)`");
}

#[test]
fn keyword_as_name_is_refused() {
    let e = err("struct = dyn ( box ) Next");
    assert_eq!(e, AttrError::FoundKeyword("struct".to_string()));
    assert_eq!(e.message(), "expected identifier, found keyword `struct`");
    assert_eq!(err("= dyn ( box ) Next"), AttrError::ExpectedIdent);
    assert_eq!(err("DynNext = dyn ( box ) fn"), AttrError::ExpectedTraitName);
}

#[test]
fn unfinished_module_path_is_refused() {
    let e = err("pub ( in crate :: ) D = dyn ( box ) T");
    assert_eq!(e, AttrError::ExpectedPathSegment);
    assert_eq!(e.message(), "expected path segment after `::`");
}

#[test]
fn unknown_options_are_refused() {
    let e = err("D = dyn ( box ) T , blanket ( none )");
    assert_eq!(e, AttrError::UnknownOption);
    assert_eq!(e.message(), "unknown option");
    assert_eq!(err("D = dyn ( box ) T , bridge ( all )"), AttrError::UnknownOption);
    assert_eq!(err("D = dyn ( box ) T , bridge none"), AttrError::ExpectedParens);
}

#[test]
fn leftover_tokens_are_refused() {
    assert_eq!(err("D = dyn ( box ) T U"), AttrError::UnexpectedToken(None));
    assert_eq!(
        err("D = dyn ( box box ) T"),
        AttrError::UnexpectedToken(Some(Delim::Paren))
    );
    assert_eq!(
        err("D = dyn ( box ) T , bridge ( none none )"),
        AttrError::UnexpectedToken(Some(Delim::Paren))
    );
    assert_eq!(err("D = dyn ( box ) T U").message(), "unexpected token");
}
