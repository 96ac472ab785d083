use dynosaur::expand::{
    expand_arg_names, expand_bounds, expand_fn_sig, expand_invoke_args, expand_sig_ret_ty,
    expand_sig_ret_ty_to_rpit,
};
use dynosaur::model::{
    Bound, BoundKind, ArgModel, ParamModel, GenericsModel, PatKind, PatModel, PathModel, PathSegment,
    PredKind, Predicate, ReceiverModel, Sig, TypeKind, TypeModel, TypedArg,
};
use dynosaur::print::print_sig;
use dynosaur::receiver::{
    contains_fn, has_self_in_sig, has_self_in_token_stream, mut_pat, tokens_mention_self,
};
use dynosaur::sig::{is_async, is_rpit};
use dynosaur::tokens::{Delim, Tok};
use dynosaur::where_clauses::has_where_self_sized;

/// Tokens from space-separated text: `'a` is a lifetime, brackets open and
/// close groups, `::` and `->` are joined punctuation.
fn toks(text: &str) -> Vec<Tok> {
    let mut out = Vec::new();
    for w in text.split_whitespace() {
        match w {
            "(" => out.push(Tok::Open(Delim::Paren)),
            ")" => out.push(Tok::Close(Delim::Paren)),
            "{" => out.push(Tok::Open(Delim::Brace)),
            "}" => out.push(Tok::Close(Delim::Brace)),
            "[" => out.push(Tok::Open(Delim::Bracket)),
            "]" => out.push(Tok::Close(Delim::Bracket)),
            "::" => {
                out.push(Tok::Punct(':', true));
                out.push(Tok::Punct(':', false));
            }
            "->" => {
                out.push(Tok::Punct('-', true));
                out.push(Tok::Punct('>', false));
            }
            _ if w.starts_with('\'') => out.push(Tok::Lifetime(w[1..].to_string())),
            _ if w.chars().all(|c| c.is_alphanumeric() || c == '_') => {
                out.push(Tok::Ident(w.to_string()))
            }
            _ => {
                for c in w.chars() {
                    out.push(Tok::Punct(c, false));
                }
            }
        }
    }
    out
}

/// The tokens as text, separated by spaces except after joined punctuation.
fn render(ts: &[Tok]) -> String {
    let mut s = String::new();
    let mut glued = true;
    for t in ts {
        if !glued {
            s.push(' ');
        }
        glued = false;
        match t {
            Tok::Ident(x) | Tok::Lit(x) => s.push_str(x),
            Tok::Punct(c, joint) => {
                s.push(*c);
                glued = *joint;
            }
            Tok::Lifetime(x) => {
                s.push('\'');
                s.push_str(x);
            }
            Tok::Open(Delim::Paren) => s.push('('),
            Tok::Open(Delim::Brace) => s.push('{'),
            Tok::Open(Delim::Bracket) => s.push('['),
            Tok::Close(Delim::Paren) => s.push(')'),
            Tok::Close(Delim::Brace) => s.push('}'),
            Tok::Close(Delim::Bracket) => s.push(']'),
            Tok::Error(m) => s.push_str(&format!("ERROR({})", m)),
        }
    }
    s
}

fn path(segs: &[&str]) -> PathModel {
    PathModel {
        leading_colon: false,
        segments: segs
            .iter()
            .map(|s| PathSegment { ident: s.to_string(), args: Vec::new() })
            .collect(),
    }
}

fn other_ty(text: &str) -> TypeModel {
    TypeModel { kind: TypeKind::Other, toks: toks(text) }
}

fn path_ty(name: &str) -> TypeModel {
    TypeModel { kind: TypeKind::Path(path(&[name])), toks: toks(name) }
}

fn trait_bound(name: &str) -> Bound {
    Bound { kind: BoundKind::Trait(path(&[name])), toks: toks(name) }
}

fn future_bound(output: &str) -> Bound {
    let text = format!(":: core :: future :: Future < Output = {} >", output);
    let mut p = path(&["core", "future", "Future"]);
    p.leading_colon = true;
    p.segments[2].args = toks(&format!("< Output = {} >", output));
    Bound { kind: BoundKind::Trait(p), toks: toks(&text) }
}

fn impl_ty(bounds: Vec<Bound>) -> TypeModel {
    let mut t = toks("impl");
    for (i, b) in bounds.iter().enumerate() {
        if i > 0 {
            t.push(Tok::Punct('+', false));
        }
        t.extend(b.toks.iter().cloned());
    }
    TypeModel { kind: TypeKind::ImplTrait(bounds), toks: t }
}

fn recv(mutable: bool) -> ArgModel {
    let text = if mutable { "& mut Self" } else { "& Self" };
    ArgModel::Receiver(ReceiverModel {
        attrs: Vec::new(),
        reference: Some(None),
        mutable,
        colon_ty: false,
        ty: TypeModel { kind: TypeKind::Reference(mutable), toks: toks(text) },
    })
}

fn arg(name: &str, ty: TypeModel) -> ArgModel {
    ArgModel::Typed(TypedArg {
        attrs: Vec::new(),
        pat: PatModel { kind: PatKind::Ident, toks: toks(name) },
        ty,
    })
}

fn wild(ty: TypeModel) -> ArgModel {
    ArgModel::Typed(TypedArg {
        attrs: Vec::new(),
        pat: PatModel { kind: PatKind::Wild, toks: toks("_") },
        ty,
    })
}

fn sig(name: &str, asyncness: bool, inputs: Vec<ArgModel>, output: Option<TypeModel>) -> Sig {
    Sig {
        constness: false,
        asyncness,
        unsafety: false,
        abi: Vec::new(),
        ident: name.to_string(),
        generics: GenericsModel { params: Vec::new(), where_clause: None },
        inputs,
        output,
    }
}

fn no_generics() -> GenericsModel {
    GenericsModel { params: Vec::new(), where_clause: None }
}

fn printed(s: &Sig) -> String {
    let mut out = Vec::new();
    print_sig(&mut out, s);
    render(&out)
}

fn self_sized() -> Predicate {
    Predicate {
        kind: PredKind::Type { bounded: path_ty("Self"), bounds: vec![trait_bound("Sized")] },
        toks: toks("Self : Sized"),
    }
}

#[test]
fn async_method_returns_pinned_future() {
    let mut s = sig("foo", true, vec![recv(false)], Some(other_ty("i32")));
    expand_fn_sig(&no_generics(), &mut s);
    assert_eq!(
        printed(&s),
        "fn foo < 'life0 , 'dynosaur > ( & 'life0 self ) -> :: core :: pin :: Pin < Box < dyn \
         :: core :: future :: Future < Output = i32 > + 'dynosaur > > where 'life0 : 'dynosaur \
         , Self : 'dynosaur"
    );
    assert!(!s.asyncness);
}

#[test]
fn async_method_without_return_type_returns_unit_future() {
    let mut s = sig("run", true, vec![recv(true)], None);
    expand_fn_sig(&no_generics(), &mut s);
    assert_eq!(
        printed(&s),
        "fn run < 'life0 , 'dynosaur > ( & 'life0 mut self ) -> :: core :: pin :: Pin < Box < \
         dyn :: core :: future :: Future < Output = ( ) > + 'dynosaur > > where 'life0 : \
         'dynosaur , Self : 'dynosaur"
    );
}

#[test]
fn rpit_method_returns_box() {
    let mut s = sig("iter", false, vec![recv(false)], Some(impl_ty(vec![trait_bound("Display")])));
    expand_fn_sig(&no_generics(), &mut s);
    assert_eq!(
        printed(&s),
        "fn iter < 'life0 , 'dynosaur > ( & 'life0 self ) -> Box < dyn Display + 'dynosaur > \
         where 'life0 : 'dynosaur , Self : 'dynosaur"
    );
}

#[test]
fn plain_method_is_unchanged() {
    let mut s = sig("get", false, vec![recv(false), arg("x", other_ty("u32"))], Some(other_ty("u32")));
    let before = printed(&s);
    expand_fn_sig(&no_generics(), &mut s);
    assert_eq!(printed(&s), before);
    assert_eq!(before, "fn get ( & self , x : u32 ) -> u32");
}

#[test]
fn wildcard_arguments_are_named() {
    let mut s = sig(
        "f",
        false,
        vec![recv(false), wild(other_ty("u32")), arg("y", other_ty("u8")), wild(other_ty("i32"))],
        None,
    );
    expand_arg_names(&mut s);
    assert_eq!(
        printed(&s),
        "fn f ( & self , __dynosaur_arg1 : u32 , y : u8 , __dynosaur_arg2 : i32 )"
    );
    // Naming again changes nothing.
    expand_arg_names(&mut s);
    assert_eq!(
        printed(&s),
        "fn f ( & self , __dynosaur_arg1 : u32 , y : u8 , __dynosaur_arg2 : i32 )"
    );
}

#[test]
fn impl_trait_arguments_are_boxed() {
    let mut s = sig("foo", false, vec![recv(false), arg("x", impl_ty(vec![trait_bound("Foo")]))], Some(other_ty("i32")));
    expand_fn_sig(&no_generics(), &mut s);
    assert_eq!(printed(&s), "fn foo ( & self , x : Box < dyn Foo + '_ > ) -> i32");

    let mut a = sig("bar", true, vec![recv(false), arg("x", impl_ty(vec![future_bound("u8")]))], None);
    expand_fn_sig(&no_generics(), &mut a);
    assert_eq!(
        printed(&a),
        "fn bar < 'life0 , 'dynosaur > ( & 'life0 self , x : :: core :: pin :: Pin < Box < dyn \
         :: core :: future :: Future < Output = u8 > + 'dynosaur > > ) -> :: core :: pin :: Pin \
         < Box < dyn :: core :: future :: Future < Output = ( ) > + 'dynosaur > > where 'life0 : \
         'dynosaur , Self : 'dynosaur"
    );
}

#[test]
fn lifetimes_and_parameters_outlive_dynosaur() {
    let tg = GenericsModel {
        params: vec![ParamModel::Type {
            attrs: Vec::new(),
            ident: "T".to_string(),
            bounds: vec![trait_bound("Clone")],
            default: None,
        }],
        where_clause: None,
    };
    let mut s = sig("take", true, vec![recv(false), arg("t", other_ty("& T")), arg("u", other_ty("& '_ u8"))], None);
    expand_fn_sig(&tg, &mut s);
    assert_eq!(
        printed(&s),
        "fn take < 'life0 , 'life1 , 'life2 , 'dynosaur > ( & 'life0 self , t : & 'life1 T , u : \
         & 'life2 u8 ) -> :: core :: pin :: Pin < Box < dyn :: core :: future :: Future < Output \
         = ( ) > + 'dynosaur > > where T : Clone + 'dynosaur , 'life0 : 'dynosaur , 'life1 : \
         'dynosaur , 'life2 : 'dynosaur , Self : 'dynosaur"
    );
}

#[test]
fn method_lifetime_bounds_move_to_where_clause() {
    let mut s = sig("get", true, vec![arg("x", other_ty("& 'a u8"))], Some(other_ty("u8")));
    s.generics.params.push(ParamModel::Lifetime {
        attrs: Vec::new(),
        name: "a".to_string(),
        bounds: vec!["b".to_string()],
    });
    expand_fn_sig(&no_generics(), &mut s);
    assert_eq!(
        printed(&s),
        "fn get < 'a , 'dynosaur > ( x : & 'a u8 ) -> :: core :: pin :: Pin < Box < dyn :: core \
         :: future :: Future < Output = u8 > + 'dynosaur > > where 'a : 'b + 'dynosaur"
    );
}

#[test]
fn return_types_of_the_erased_trait() {
    let a = sig("a", true, vec![recv(false)], Some(other_ty("u8")));
    assert_eq!(
        render(&expand_sig_ret_ty(&a, "static")),
        ":: core :: pin :: Pin < Box < dyn :: core :: future :: Future < Output = u8 > + 'static > >"
    );
    assert_eq!(
        render(&expand_sig_ret_ty_to_rpit(&a)),
        "impl :: core :: future :: Future < Output = u8 >"
    );
    let b = sig("b", false, vec![recv(false)], Some(impl_ty(vec![trait_bound("Iterator"), Bound { kind: BoundKind::Lifetime, toks: toks("'a") }])));
    assert_eq!(render(&expand_sig_ret_ty(&b, "_")), "Box < dyn Iterator + '_ >");
    assert_eq!(render(&expand_sig_ret_ty_to_rpit(&b)), "impl Iterator");
    let c = sig("c", false, vec![recv(false)], None);
    assert_eq!(render(&expand_sig_ret_ty(&c, "_")), "( )");
}

#[test]
fn bounds_drop_lifetimes_and_add_one() {
    let bs = vec![trait_bound("Send"), Bound { kind: BoundKind::Lifetime, toks: toks("'a") }, trait_bound("Sync")];
    assert_eq!(render(&expand_bounds(&bs, Some("x"))), "Send + Sync + 'x");
    assert_eq!(render(&expand_bounds(&bs, None)), "Send + Sync");
}

#[test]
fn async_and_rpit_are_told_apart() {
    let a = sig("a", true, vec![recv(false)], Some(other_ty("u8")));
    assert!(is_async(&a) && !is_rpit(&a));
    let f = sig("f", false, vec![recv(false)], Some(impl_ty(vec![future_bound("u8")])));
    assert!(is_async(&f) && is_rpit(&f));
    let r = sig("r", false, vec![recv(false)], Some(impl_ty(vec![trait_bound("Send")])));
    assert!(!is_async(&r) && is_rpit(&r));
    let p = sig("p", false, vec![recv(false)], Some(other_ty("u8")));
    assert!(!is_async(&p) && !is_rpit(&p));
}

#[test]
fn bare_future_path_counts_as_future() {
    let mut p = path(&["Future"]);
    p.segments[0].args = toks("< Output = u8 >");
    let fut = Bound { kind: BoundKind::Trait(p), toks: toks("Future < Output = u8 >") };
    let f = sig("f", false, vec![recv(false)], Some(impl_ty(vec![fut])));
    assert!(is_async(&f) && is_rpit(&f));
    let mut q = path(&["Future"]);
    q.segments[0].args = toks("< Output = u8 >");
    let arg_fut = Bound { kind: BoundKind::Trait(q), toks: toks("Future < Output = u8 >") };
    let mut s = sig("g", false, vec![recv(false), arg("x", impl_ty(vec![arg_fut]))], Some(other_ty("i32")));
    let boxed: Vec<String> = expand_invoke_args(&s, true, true).iter().map(|a| render(a)).collect();
    assert_eq!(boxed, vec!["self", "Box :: pin ( x )"]);
    expand_fn_sig(&no_generics(), &mut s);
    assert_eq!(
        printed(&s),
        "fn g ( & self , x : :: core :: pin :: Pin < Box < dyn Future < Output = u8 > + '_ > > ) -> i32"
    );
}

#[test]
fn where_self_sized_is_found() {
    let mut s = sig("f", false, vec![recv(false)], None);
    assert!(!has_where_self_sized(&s));
    s.generics.where_clause = Some(vec![self_sized()]);
    assert!(has_where_self_sized(&s));
    let mut t = sig("g", false, vec![recv(false)], None);
    t.generics.where_clause = Some(vec![Predicate {
        kind: PredKind::Type { bounded: path_ty("T"), bounds: vec![trait_bound("Sized")] },
        toks: toks("T : Sized"),
    }]);
    assert!(!has_where_self_sized(&t));
}

#[test]
fn self_is_found_in_signatures() {
    assert!(has_self_in_sig(&sig("a", false, vec![recv(false)], None)));
    assert!(has_self_in_sig(&sig("b", false, Vec::new(), Some(path_ty("Self")))));
    assert!(has_self_in_sig(&sig("c", false, vec![arg("x", other_ty("Vec < Self :: Item >"))], None)));
    assert!(!has_self_in_sig(&sig("d", false, vec![arg("x", other_ty("u32"))], Some(other_ty("u8")))));
    assert!(has_self_in_sig(&sig("e", false, vec![arg("x", other_ty("m ! ( Self )"))], None)));
    assert!(!has_self_in_sig(&sig("f", false, vec![arg("x", other_ty("m ! ( fn ( ) -> Self )"))], None)));
    // An item nested in a block of the signature is not looked into.
    assert!(!has_self_in_sig(&sig(
        "g",
        false,
        Vec::new(),
        Some(other_ty("[ u8 ; { struct S ; impl S { fn g ( ) -> Self { S } } 1 } ]")),
    )));
    assert!(has_self_in_sig(&sig("h", false, Vec::new(), Some(other_ty("[ u8 ; { Self :: N } ]")))));
    assert!(has_self_in_sig(&sig(
        "k",
        false,
        Vec::new(),
        Some(other_ty("[ u8 ; { struct S ; Self :: N } ]")),
    )));
}

#[test]
fn macro_tokens_are_scanned() {
    assert!(contains_fn(&toks("a ( fn ( ) )")));
    assert!(!contains_fn(&toks("a ( b )")));
    assert!(has_self_in_token_stream(&toks("[ Self ]")));
    assert!(!has_self_in_token_stream(&toks("self")));
    assert!(tokens_mention_self(&toks("Vec < Self >")));
    assert!(!tokens_mention_self(&toks("m ! ( fn f ( ) -> Self )")));
    assert!(tokens_mention_self(&toks("m ! ( Self ) , n ! ( fn )")));
}

#[test]
fn mutable_bindings_are_found() {
    let p = |text: &str| PatModel { kind: PatKind::Other, toks: toks(text) };
    assert_eq!(mut_pat(&p("mut x")), Some(0));
    assert_eq!(mut_pat(&p("( a , mut b )")), Some(3));
    assert_eq!(mut_pat(&p("( mut a , mut b )")), Some(4));
    assert_eq!(mut_pat(&p("& mut x")), None);
    assert_eq!(mut_pat(&p("x")), None);
    assert_eq!(mut_pat(&p("m ! ( mut x )")), None);
    assert_eq!(mut_pat(&p("( mut a , m ! ( mut x ) )")), Some(1));
    assert_eq!(mut_pat(&p("ref mut x")), Some(1));
}

#[test]
fn forwarded_arguments() {
    let s = sig(
        "f",
        false,
        vec![recv(false), arg("a", other_ty("u32")), arg("b", impl_ty(vec![trait_bound("Foo")])), arg("c", impl_ty(vec![future_bound("u8")]))],
        None,
    );
    let boxed: Vec<String> = expand_invoke_args(&s, true, true).iter().map(|a| render(a)).collect();
    assert_eq!(boxed, vec!["self", "a", "Box :: new ( b )", "Box :: pin ( c )"]);
    let direct: Vec<String> = expand_invoke_args(&s, false, false).iter().map(|a| render(a)).collect();
    assert_eq!(direct, vec!["a", "b", "c"]);
    let p = sig("g", false, vec![ArgModel::Typed(TypedArg { attrs: Vec::new(), pat: PatModel { kind: PatKind::Other, toks: toks("( x , y )") }, ty: other_ty("( u8 , u8 )") })], None);
    let e: Vec<String> = expand_invoke_args(&p, true, true).iter().map(|a| render(a)).collect();
    assert_eq!(e, vec!["ERROR(patterns are not supported in arguments)"]);
}
