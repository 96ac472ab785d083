use dynosaur::attrs::Bridge;
use dynosaur::bridge::mk_box_blanket_impl;
use dynosaur::dyn_struct::{mk_dyn_struct, mk_dyn_struct_impl_item, mk_struct_inherent_impl};
use dynosaur::dynosaur;
use dynosaur::erased::{mk_erased_trait, mk_erased_trait_blanket_impl};
use dynosaur::forward::{expand_dyn_struct_fn, InvokeArgsMode};
use dynosaur::model::{
    Bound, BoundKind, ArgModel, ParamModel, GenericsModel, PatKind, PatModel, PathModel, PathSegment,
    PredKind, Predicate, ReceiverModel, Sig, ItemModel, TraitItemKind, TraitModel, TypeKind,
    TypeModel, TypedArg,
};
use dynosaur::traits::{
    dyn_compatible_items, self_receiver, struct_trait_params, trait_item_erased_name,
};
use dynosaur::tokens::{Delim, Tok};

/// Tokens from space-separated text: `'a` is a lifetime, brackets open and
/// close groups, `::` and `->` are joined punctuation.
fn toks(text: &str) -> Vec<Tok> {
    let mut out = Vec::new();
    for w in text.split_whitespace() {
        match w {
            "(" => out.push(Tok::Open(Delim::Paren)),
            ")" => out.push(Tok::Close(Delim::Paren)),
            "{" => out.push(Tok::Open(Delim::Brace)),
            "}" => out.push(Tok::Close(Delim::Brace)),
            "[" => out.push(Tok::Open(Delim::Bracket)),
            "]" => out.push(Tok::Close(Delim::Bracket)),
            "::" => {
                out.push(Tok::Punct(':', true));
                out.push(Tok::Punct(':', false));
            }
            "->" => {
                out.push(Tok::Punct('-', true));
                out.push(Tok::Punct('>', false));
            }
            _ if w.starts_with('\'') => out.push(Tok::Lifetime(w[1..].to_string())),
            _ if w.chars().all(|c| c.is_alphanumeric() || c == '_') => {
                out.push(Tok::Ident(w.to_string()))
            }
            _ => {
                for c in w.chars() {
                    out.push(Tok::Punct(c, false));
                }
            }
        }
    }
    out
}

/// The tokens as text, separated by spaces except after joined punctuation.
fn render(ts: &[Tok]) -> String {
    let mut s = String::new();
    let mut glued = true;
    for t in ts {
        if !glued {
            s.push(' ');
        }
        glued = false;
        match t {
            Tok::Ident(x) | Tok::Lit(x) => s.push_str(x),
            Tok::Punct(c, joint) => {
                s.push(*c);
                glued = *joint;
            }
            Tok::Lifetime(x) => {
                s.push('\'');
                s.push_str(x);
            }
            Tok::Open(Delim::Paren) => s.push('('),
            Tok::Open(Delim::Brace) => s.push('{'),
            Tok::Open(Delim::Bracket) => s.push('['),
            Tok::Close(Delim::Paren) => s.push(')'),
            Tok::Close(Delim::Brace) => s.push('}'),
            Tok::Close(Delim::Bracket) => s.push(']'),
            Tok::Error(m) => s.push_str(&format!("ERROR({})", m)),
        }
    }
    s
}

fn path(segs: &[&str]) -> PathModel {
    PathModel {
        leading_colon: false,
        segments: segs
            .iter()
            .map(|s| PathSegment { ident: s.to_string(), args: Vec::new() })
            .collect(),
    }
}

fn other_ty(text: &str) -> TypeModel {
    TypeModel { kind: TypeKind::Other, toks: toks(text) }
}

fn path_ty(name: &str) -> TypeModel {
    TypeModel { kind: TypeKind::Path(path(&[name])), toks: toks(name) }
}

fn trait_bound(name: &str) -> Bound {
    Bound { kind: BoundKind::Trait(path(&[name])), toks: toks(name) }
}

fn no_generics() -> GenericsModel {
    GenericsModel { params: Vec::new(), where_clause: None }
}

fn recv(mutable: bool) -> ArgModel {
    let text = if mutable { "& mut Self" } else { "& Self" };
    ArgModel::Receiver(ReceiverModel {
        attrs: Vec::new(),
        reference: Some(None),
        mutable,
        colon_ty: false,
        ty: TypeModel { kind: TypeKind::Reference(mutable), toks: toks(text) },
    })
}

/// `self` or `self: Ty`, with the type's path.
fn recv_typed(ty: &str, written: bool) -> ArgModel {
    let p = path(&[ty]);
    ArgModel::Receiver(ReceiverModel {
        attrs: Vec::new(),
        reference: None,
        mutable: false,
        colon_ty: written,
        ty: TypeModel { kind: TypeKind::Path(p), toks: toks(&format!("{} < Self >", ty)) },
    })
}

fn arg(name: &str, ty: TypeModel) -> ArgModel {
    ArgModel::Typed(TypedArg {
        attrs: Vec::new(),
        pat: PatModel { kind: PatKind::Ident, toks: toks(name) },
        ty,
    })
}

fn sig(name: &str, asyncness: bool, inputs: Vec<ArgModel>, output: Option<TypeModel>) -> Sig {
    Sig {
        constness: false,
        asyncness,
        unsafety: false,
        abi: Vec::new(),
        ident: name.to_string(),
        generics: no_generics(),
        inputs,
        output,
    }
}

fn method(s: Sig, text: &str) -> ItemModel {
    ItemModel { attrs: Vec::new(), kind: TraitItemKind::Fn(s), toks: toks(text) }
}

fn assoc(name: &str) -> ItemModel {
    ItemModel {
        attrs: Vec::new(),
        kind: TraitItemKind::Type { ident: name.to_string(), generics: no_generics(), bounds: Vec::new() },
        toks: toks(&format!("type {} ;", name)),
    }
}

fn trait_of(name: &str, items: Vec<ItemModel>) -> TraitModel {
    let mut all = toks(&format!("pub trait {} {{", name));
    for it in &items {
        all.extend(it.toks.iter().cloned());
    }
    all.push(Tok::Close(Delim::Brace));
    TraitModel {
        head: toks("pub trait"),
        ident: name.to_string(),
        generics: no_generics(),
        supertraits: Vec::new(),
        inner_attrs: Vec::new(),
        items,
        toks: all,
    }
}

/// `pub trait Next { type Item; async fn next(&self) -> Option<Self::Item>; }`
fn next_trait() -> TraitModel {
    trait_of(
        "Next",
        vec![
            assoc("Item"),
            method(
                sig("next", true, vec![recv(false)], Some(other_ty("Option < Self :: Item >"))),
                "async fn next ( & self ) -> Option < Self :: Item > ;",
            ),
        ],
    )
}

fn sized_method(name: &str) -> ItemModel {
    let mut s = sig(name, false, vec![recv(false)], None);
    s.generics.where_clause = Some(vec![Predicate {
        kind: PredKind::Type { bounded: path_ty("Self"), bounds: vec![trait_bound("Sized")] },
        toks: toks("Self : Sized"),
    }]);
    method(s, &format!("fn {} ( & self ) where Self : Sized ;", name))
}

const NEXT_RET: &str = ":: core :: pin :: Pin < Box < dyn :: core :: future :: Future < Output = Option < Self :: Item > > + 'dynosaur > >";

/// The text of `next_trait`.
const NEXT_TEXT: &str = "pub trait Next { type Item; async fn next(&self) -> Option<Self::Item>; }";

fn expand(attr: &str, item: &str) -> String {
    render(&dynosaur(&toks(attr), &item.to_string()))
}

#[test]
fn erased_name_prefixes_erased() {
    assert_eq!(trait_item_erased_name(&"Next".to_string()), "ErasedNext");
}

#[test]
fn struct_and_trait_parameters() {
    let p = struct_trait_params(&next_trait());
    assert_eq!(render(&p.struct_params), "< 'dynosaur_struct , Item >");
    assert_eq!(render(&p.struct_with_bounds_params), "< 'dynosaur_struct , Item : >");
    assert_eq!(render(&p.trait_params), "< Item = Item >");
    let mut g = trait_of("Plain", Vec::new());
    assert!(struct_trait_params(&g).trait_params.is_empty());
    g.generics.params.push(ParamModel::Type {
        attrs: Vec::new(),
        ident: "T".to_string(),
        bounds: vec![trait_bound("Clone")],
        default: None,
    });
    assert_eq!(render(&struct_trait_params(&g).trait_params), "< T : Clone >");
    assert_eq!(render(&struct_trait_params(&g).struct_params), "< 'dynosaur_struct , T : Clone >");
}

#[test]
fn erased_trait_of_next() {
    let e = render(&mk_erased_trait(&next_trait()));
    assert_eq!(
        e,
        format!(
            "pub trait ErasedNext {{ type Item ; fn next < 'life0 , 'dynosaur > ( & 'life0 self ) \
             -> {} where 'life0 : 'dynosaur , Self : 'dynosaur ; }}",
            NEXT_RET
        )
    );
}

#[test]
fn erased_blanket_impl_of_next() {
    let e = render(&mk_erased_trait_blanket_impl(&next_trait()));
    assert_eq!(
        e,
        format!(
            "impl < DYNOSAUR : Next > ErasedNext for DYNOSAUR {{ type Item = < Self as Next > :: \
             Item ; fn next < 'life0 , 'dynosaur > ( & 'life0 self ) -> {} where 'life0 : \
             'dynosaur , Self : 'dynosaur {{ Box :: pin ( < Self as Next > :: next ( self ) ) }} \
             }}",
            NEXT_RET
        )
    );
}

#[test]
fn dyn_struct_of_next() {
    let s = render(&mk_dyn_struct(&"DynNext".to_string(), &next_trait()));
    assert_eq!(
        s,
        "# [ doc = \"Stands for a `dyn` value of the trait; its methods box the futures and values that the trait's methods return.\" ] # [ repr ( transparent ) ] pub struct DynNext < 'dynosaur_struct , Item : > { ptr : dyn \
         ErasedNext < Item = Item > + 'dynosaur_struct }"
    );
}

#[test]
fn dyn_struct_impl_of_next() {
    let s = render(&mk_dyn_struct_impl_item(&"DynNext".to_string(), &next_trait()));
    let fut = ":: core :: future :: Future < Output = Option < Self :: Item > >";
    assert_eq!(
        s,
        format!(
            "impl < 'dynosaur_struct , Item : > Next for DynNext < 'dynosaur_struct , Item > {{ \
             type Item = Item ; fn next ( & self ) -> impl {fut} {{ let ret : :: core :: pin :: \
             Pin < Box < dyn {fut} + '_ > > = self . ptr . next ( ) ; let ret : :: core :: pin :: \
             Pin < Box < dyn {fut} + 'static > > = unsafe {{ :: core :: mem :: transmute ( ret ) \
             }} ; ret }} }}"
        )
    );
}

#[test]
fn constructors_of_next() {
    let s = render(&mk_struct_inherent_impl(&"DynNext".to_string(), &next_trait()));
    assert!(s.starts_with("impl < 'dynosaur_struct , Item : > DynNext < 'dynosaur_struct , Item > {"));
    assert!(s.contains(
        "pub fn new_box ( value : impl Next < Item = Item > + 'dynosaur_struct ) -> Box < DynNext \
         < 'dynosaur_struct , Item > > { let value = Box :: new ( value ) ; let value : Box < dyn \
         ErasedNext < Item = Item > + 'dynosaur_struct > = value ; unsafe { :: core :: mem :: \
         transmute ( value ) } }"
    ));
    assert!(s.contains("pub fn new_arc ( value : impl Next < Item = Item > + 'dynosaur_struct ) -> std :: sync :: Arc < DynNext < 'dynosaur_struct , Item > >"));
    assert!(s.contains("let value = std :: rc :: Rc :: new ( value ) ;"));
    assert!(s.contains(
        "pub const fn from_box ( value : Box < impl Next < Item = Item > + 'dynosaur_struct > ) -> \
         Box < DynNext < 'dynosaur_struct , Item > >"
    ));
    assert!(s.contains(
        "pub const fn from_ref ( value : & ( impl Next < Item = Item > + 'dynosaur_struct ) ) -> & \
         DynNext < 'dynosaur_struct , Item > { let value : & ( dyn ErasedNext < Item = Item > + \
         'dynosaur_struct ) = & * value ; unsafe { :: core :: mem :: transmute ( value ) } }"
    ));
    assert!(s.contains(
        "pub const fn from_mut ( value : & mut ( impl Next < Item = Item > + 'dynosaur_struct ) ) \
         -> & mut DynNext < 'dynosaur_struct , Item > { let value : & mut ( dyn ErasedNext < Item \
         = Item > + 'dynosaur_struct ) = & mut * value ;"
    ));
    assert_eq!(s.matches("pub fn").count(), 3);
    assert_eq!(s.matches("# [ doc = ").count(), 6);
    assert!(s.contains("# [ doc = \"Boxes the value and makes it this type.\" ] pub fn new_box"));
    assert!(s.contains("# [ doc = \"Makes a boxed value this type.\" ] pub const fn from_box"));
    assert_eq!(s.matches("pub const fn").count(), 3);
}

#[test]
fn blanket_bridges_of_next() {
    let s = render(&mk_box_blanket_impl(&"DynNext".to_string(), &next_trait(), Bridge::Blanket));
    let body = "{ type Item = < DYNOSAUR as Next > :: Item ; fn next ( & self ) -> impl :: core :: \
                future :: Future < Output = Option < Self :: Item > > { < DYNOSAUR as Next > :: \
                next ( self ) } }";
    assert_eq!(
        s,
        format!(
            "impl < DYNOSAUR : Next > Next for & DYNOSAUR where DYNOSAUR : ? Sized {body} impl < \
             DYNOSAUR : Next > Next for & mut DYNOSAUR where DYNOSAUR : ? Sized {body} impl < \
             DYNOSAUR : Next > Next for Box < DYNOSAUR > where DYNOSAUR : ? Sized {body}"
        )
    );
}

#[test]
fn dyn_bridges_of_next() {
    let s = render(&mk_box_blanket_impl(&"DynNext".to_string(), &next_trait(), Bridge::Dyn));
    assert!(s.starts_with(
        "impl < 'dynosaur_struct , Item : > Next for & DynNext < 'dynosaur_struct , Item > { type \
         Item = Item ; fn next ( & self ) -> impl :: core :: future :: Future < Output = Option < \
         Self :: Item > > { < DynNext < 'dynosaur_struct , Item > as Next > :: next ( self ) } }"
    ));
    assert!(s.contains("Next for & mut DynNext < 'dynosaur_struct , Item > {"));
    assert!(s.contains("Next for Box < DynNext < 'dynosaur_struct , Item > > {"));
}

#[test]
fn no_bridges_with_bridge_none() {
    assert!(mk_box_blanket_impl(&"DynNext".to_string(), &next_trait(), Bridge::Disabled).is_empty());
    let s = expand("DynNext = dyn ( box ) Next , bridge ( none )", NEXT_TEXT);
    assert!(!s.contains(" for & "));
    assert!(!s.contains(" for Box "));
}

#[test]
fn supertraits_go_to_the_bridge_where_clause() {
    let mut t = next_trait();
    t.supertraits.push(trait_bound("Send"));
    let b = render(&mk_box_blanket_impl(&"DynNext".to_string(), &t, Bridge::Blanket));
    assert!(b.contains("Next for & DYNOSAUR where DYNOSAUR : ? Sized , Self : Send {"));
    let d = render(&mk_box_blanket_impl(&"DynNext".to_string(), &t, Bridge::Dyn));
    assert!(d.contains("Next for & DynNext < 'dynosaur_struct , Item > where Self : Send {"));
    let e = render(&mk_erased_trait(&t));
    assert!(e.starts_with("pub trait ErasedNext : Send {"));
}

#[test]
fn trait_where_clause_joins_the_bridge_where_clause() {
    let mut t = next_trait();
    t.generics.params.push(ParamModel::Type {
        attrs: Vec::new(),
        ident: "T".to_string(),
        bounds: Vec::new(),
        default: None,
    });
    t.generics.where_clause = Some(vec![Predicate {
        kind: PredKind::Type { bounded: path_ty("T"), bounds: vec![trait_bound("Clone")] },
        toks: toks("T : Clone"),
    }]);
    t.supertraits.push(trait_bound("Send"));
    let b = render(&mk_box_blanket_impl(&"DynNext".to_string(), &t, Bridge::Blanket));
    assert!(b.contains(
        "impl < T , DYNOSAUR : Next < T > > Next < T > for & DYNOSAUR where T : Clone , DYNOSAUR \
         : ? Sized , Self : Send {"
    ));
    assert!(b.contains(
        "Next < T > for Box < DYNOSAUR > where T : Clone , DYNOSAUR : ? Sized , Self : Send {"
    ));
    assert_eq!(b.matches("where").count(), 3);
    let d = render(&mk_box_blanket_impl(&"DynNext".to_string(), &t, Bridge::Dyn));
    assert!(d.contains(
        "Next < T > for Box < DynNext < 'dynosaur_struct , T , Item > > where T : Clone , Self : \
         Send {"
    ));
    assert_eq!(d.matches("where").count(), 3);
}

#[test]
fn whole_expansion_of_next() {
    let trait_text = render(&next_trait().toks);
    let s = expand("pub DynNext = dyn ( box ) Next", NEXT_TEXT);
    assert!(s.starts_with(&format!("{} mod __dynosaur_macro_dynnext {{ use super :: * ; pub trait ErasedNext {{", trait_text)));
    assert!(s.ends_with("} pub use __dynosaur_macro_dynnext :: DynNext ;"));
    assert!(s.contains("impl < DYNOSAUR : Next > ErasedNext for DYNOSAUR {"));
    assert!(s.contains("pub struct DynNext < 'dynosaur_struct , Item : >"));
    assert!(s.contains("Next for DynNext < 'dynosaur_struct , Item > {"));
    assert!(s.contains("pub fn new_box"));
    assert!(s.contains("Next for & DYNOSAUR where DYNOSAUR : ? Sized {"));
    let private = expand("DynNext = dyn ( box ) Next", NEXT_TEXT);
    assert!(private.ends_with("} use __dynosaur_macro_dynnext :: DynNext ;"));
}

#[test]
fn other_trait_is_left_alone() {
    let trait_text = render(&next_trait().toks);
    assert_eq!(expand("DynSendNext = dyn ( box ) SendNext", NEXT_TEXT), trait_text);
}

#[test]
fn refused_arguments_give_their_error() {
    assert_eq!(expand("DynNext", NEXT_TEXT), "ERROR(expected `= dyn(box) TraitName`; dynosaur 0.3 requires this)");
    assert_eq!(expand("D = dyn ( box ) Next , bridge ( all )", NEXT_TEXT), "ERROR(unknown option)");
}

#[test]
fn unreadable_item_gives_its_error() {
    let out = dynosaur(&toks("D = dyn ( box ) Next"), &"fn f() {}".to_string());
    assert_eq!(out.len(), 1);
    assert!(matches!(&out[0], Tok::Error(_)));
    // The arguments are read first.
    assert_eq!(
        expand("D", "fn f() {}"),
        "ERROR(expected `= dyn(box) TraitName`; dynosaur 0.3 requires this)"
    );
}

#[test]
fn parsed_trait_matches_its_model() {
    // syn reads the text into the same model the other tests build by hand.
    let by_text = expand("pub DynNext = dyn ( box ) Next", NEXT_TEXT);
    let by_model = render(&dynosaur::expansion::expand_trait(
        &dynosaur::attrs::parse_attrs(&toks("pub DynNext = dyn ( box ) Next")).unwrap_or_else(|_| panic!("refused")),
        &next_trait(),
        &"__dynosaur_macro_dynnext".to_string(),
    ));
    assert_eq!(by_text, by_model);
    let generic = expand(
        "DynT = dyn ( box ) T",
        "trait T<'a, U: Clone> where U: Send { fn f(&'a self, u: U) -> impl Iterator<Item = U>; }",
    );
    assert!(generic.contains("fn f < 'dynosaur > ( & 'a self , u : U ) -> Box < dyn Iterator < Item = U > + 'dynosaur > where 'a : 'dynosaur , U : Clone + 'dynosaur , Self : 'dynosaur ;"));
}

#[test]
fn where_self_sized_methods() {
    let t = trait_of("T", vec![sized_method("f"), method(sig("g", false, vec![recv(false)], Some(other_ty("u8"))), "fn g ( & self ) -> u8 ;")]);
    assert_eq!(dyn_compatible_items(&t.items), vec![1]);
    assert_eq!(render(&mk_erased_trait(&t)), "pub trait ErasedT { fn g ( & self ) -> u8 ; }");
    assert_eq!(render(&mk_erased_trait_blanket_impl(&t)), "ERROR(where Self: Sized is unsupported)");
    let i = render(&mk_dyn_struct_impl_item(&"DynT".to_string(), &t));
    assert_eq!(
        i,
        "impl < 'dynosaur_struct > T for DynT < 'dynosaur_struct > { fn f ( & self ) where Self : \
         Sized { unreachable ! ( ) } fn g ( & self ) -> u8 { self . ptr . g ( ) } }"
    );
}

#[test]
fn erased_trait_keeps_every_associated_type() {
    let t = trait_of("T", vec![assoc("A"), sized_method("f"), assoc("B")]);
    assert_eq!(render(&mk_erased_trait(&t)), "pub trait ErasedT { type A ; type B ; }");
    assert_eq!(
        render(&mk_dyn_struct(&"DynT".to_string(), &t)),
        "# [ doc = \"Stands for a `dyn` value of the trait; its methods box the futures and values that the trait's methods return.\" ] # [ repr ( transparent ) ] pub struct DynT < 'dynosaur_struct , A : , B : > { ptr : dyn \
         ErasedT < A = A , B = B > + 'dynosaur_struct }"
    );
}

#[test]
fn where_self_sized_rpit_method_casts_unreachable() {
    let mut s = sig("it", false, vec![recv(false)], Some(TypeModel { kind: TypeKind::ImplTrait(vec![trait_bound("Iterator")]), toks: toks("impl Iterator") }));
    s.generics.where_clause = Some(vec![Predicate {
        kind: PredKind::Type { bounded: path_ty("Self"), bounds: vec![trait_bound("Sized")] },
        toks: toks("Self : Sized"),
    }]);
    let out = render(&expand_dyn_struct_fn(&s, &InvokeArgsMode::MaybeBoxedNonUfcs));
    assert_eq!(
        out,
        "# [ allow ( unreachable_code ) ] fn it ( & self ) -> impl Iterator where Self : Sized { \
         unreachable ! ( ) as Box < dyn Iterator + 'static > }"
    );
}

#[test]
fn rpit_method_of_dyn_struct_keeps_its_signature() {
    let s = sig("it", false, vec![recv(false)], Some(TypeModel { kind: TypeKind::ImplTrait(vec![trait_bound("Iterator")]), toks: toks("impl Iterator") }));
    let out = render(&expand_dyn_struct_fn(&s, &InvokeArgsMode::MaybeBoxedNonUfcs));
    assert_eq!(
        out,
        "fn it ( & self ) -> impl Iterator { let ret : Box < dyn Iterator + '_ > = self . ptr . it \
         ( ) ; let ret : Box < dyn Iterator + '_ > = unsafe { :: core :: mem :: transmute ( ret ) \
         } ; ret }"
    );
}

#[test]
fn wildcard_arguments_are_forwarded_by_name() {
    let s = sig("f", false, vec![recv(false), ArgModel::Typed(TypedArg { attrs: Vec::new(), pat: PatModel { kind: PatKind::Wild, toks: toks("_") }, ty: other_ty("u8") })], None);
    let out = render(&expand_dyn_struct_fn(&s, &InvokeArgsMode::DirectUfcs(toks("< D as T >"))));
    assert_eq!(out, "fn f ( & self , __dynosaur_arg1 : u8 ) { < D as T > :: f ( self , __dynosaur_arg1 ) }");
}

#[test]
fn bare_future_return_is_async() {
    let mut p = path(&["Future"]);
    p.segments[0].args = toks("< Output = i32 >");
    let fut = Bound { kind: BoundKind::Trait(p), toks: toks("Future < Output = i32 >") };
    let s = sig("foo", false, vec![recv(false)], Some(TypeModel { kind: TypeKind::ImplTrait(vec![fut]), toks: toks("impl Future < Output = i32 >") }));
    let out = render(&expand_dyn_struct_fn(&s, &InvokeArgsMode::MaybeBoxedNonUfcs));
    assert_eq!(
        out,
        "fn foo ( & self ) -> impl Future < Output = i32 > { let ret : :: core :: pin :: Pin < Box \
         < dyn Future < Output = i32 > + '_ > > = self . ptr . foo ( ) ; let ret : :: core :: pin \
         :: Pin < Box < dyn Future < Output = i32 > + 'static > > = unsafe { :: core :: mem :: \
         transmute ( ret ) } ; ret }"
    );
}

#[test]
fn receivers_decide_the_bridges() {
    let shared = trait_of("A", vec![method(sig("f", false, vec![recv(false)], None), "fn f ( & self ) ;")]);
    let r = self_receiver(&shared);
    assert!(r.should_gen_ref() && r.should_gen_mut_ref() && r.should_gen_box_self());

    let mutable = trait_of("B", vec![method(sig("f", false, vec![recv(true)], None), "fn f ( & mut self ) ;")]);
    let r = self_receiver(&mutable);
    assert!(!r.should_gen_ref() && r.should_gen_mut_ref() && r.should_gen_box_self());
    let s = render(&mk_box_blanket_impl(&"DynB".to_string(), &mutable, Bridge::Blanket));
    assert!(!s.contains("for & DYNOSAUR"));
    assert!(s.contains("for & mut DYNOSAUR"));
    assert!(s.contains("for Box < DYNOSAUR >"));

    let owned = trait_of("C", vec![method(sig("f", false, vec![recv_typed("Self", false)], None), "fn f ( self ) ;")]);
    let r = self_receiver(&owned);
    assert!(r.owned && !r.should_gen_ref() && !r.should_gen_mut_ref() && r.should_gen_box_self());
    let s = render(&mk_box_blanket_impl(&"DynC".to_string(), &owned, Bridge::Blanket));
    assert!(s.starts_with("ERROR(By value Self is not supported) impl"));

    let boxed = trait_of("D", vec![method(sig("f", false, vec![recv_typed("Box", true)], None), "fn f ( self : Box < Self > ) ;")]);
    let s = render(&mk_box_blanket_impl(&"DynD".to_string(), &boxed, Bridge::Blanket));
    assert!(s.starts_with("ERROR(Box<Self> is not supported) impl"));
    assert!(!s.contains("for & "));

    let rc = trait_of("E", vec![method(sig("f", false, vec![recv_typed("Rc", true)], None), "fn f ( self : Rc < Self > ) ;")]);
    let r = self_receiver(&rc);
    assert!(r.other && !r.should_gen_box_self());
    assert_eq!(render(&mk_box_blanket_impl(&"DynE".to_string(), &rc, Bridge::Blanket)), "ERROR(unsupported self type)");
}

#[test]
fn consts_are_refused() {
    let t = trait_of("K", vec![ItemModel { attrs: Vec::new(), kind: TraitItemKind::Const, toks: toks("const N : u8 ;") }]);
    assert_eq!(render(&mk_erased_trait(&t)), "pub trait ErasedK { const N : u8 ; }");
    assert!(render(&mk_erased_trait_blanket_impl(&t)).contains("ERROR(consts make the trait not dyn compatible)"));
    assert!(render(&mk_dyn_struct_impl_item(&"DynK".to_string(), &t)).contains("ERROR(consts make the trait not dyn compatible)"));
}
