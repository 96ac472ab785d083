//! The tokens of the nodes of the syntax model.

use vstd::prelude::*;
use crate::tokens::{
    Tok, SpecTok, Delim, vv, id, pu, push_tok, push_ident, push_ident_string, push_punct,
    push_open, push_close, append_toks,
};
use crate::model::{
    Bound, TypeModel, TypeKind, PatKind, ReceiverModel, ArgModel, ParamModel, Predicate, Sig, vvs,
    join, append_joined,
};

verus! {

/// The value of a generic parameter.
#[allow(inconsistent_fields)]
pub enum ParamView {
    Lifetime { attrs: Seq<SpecTok>, name: Seq<char>, bounds: Seq<Seq<char>> },
    Type {
        attrs: Seq<SpecTok>,
        ident: Seq<char>,
        bounds: Seq<Seq<SpecTok>>,
        default: Option<Seq<SpecTok>>,
    },
    Const { attrs: Seq<SpecTok>, ident: Seq<char>, ty: Seq<SpecTok>, default: Option<Seq<SpecTok>> },
}

/// The value of a bound: whether it is a lifetime, whether it names
/// `Future`, and its tokens.
pub struct BoundView {
    pub lifetime: bool,
    pub future: bool,
    pub toks: Seq<SpecTok>,
}

/// What the generation reads of a type's kind: the bounds of `impl Trait`.
pub enum TyView {
    Impl(Seq<BoundView>),
    Other,
}

pub open spec fn bound_view(b: Bound) -> BoundView {
    BoundView {
        lifetime: b.kind is Lifetime,
        future: crate::sig::is_future_bound(b),
        toks: vv(b.toks),
    }
}

/// The values of bounds.
pub open spec fn bvs(bs: Seq<Bound>) -> Seq<BoundView> {
    bs.map_values(|b: Bound| bound_view(b))
}

pub open spec fn ty_view(k: TypeKind) -> TyView {
    match k {
        TypeKind::ImplTrait(bs) => TyView::Impl(bvs(bs@)),
        _ => TyView::Other,
    }
}

/// The value of an argument.
pub enum ArgView {
    Receiver {
        attrs: Seq<SpecTok>,
        reference: Option<Option<Seq<char>>>,
        mutable: bool,
        colon_ty: bool,
        ty: Seq<SpecTok>,
    },
    Typed {
        attrs: Seq<SpecTok>,
        pat_kind: PatKind,
        pat: Seq<SpecTok>,
        ty_kind: TyView,
        ty: Seq<SpecTok>,
    },
}

/// The value of a signature.
pub struct SigView {
    pub constness: bool,
    pub asyncness: bool,
    pub unsafety: bool,
    pub abi: Seq<SpecTok>,
    pub ident: Seq<char>,
    pub params: Seq<ParamView>,
    pub where_clause: Option<Seq<Seq<SpecTok>>>,
    pub inputs: Seq<ArgView>,
    pub output: Option<Seq<SpecTok>>,
    /// The kind of the return type, if there is one.
    pub output_kind: Option<TyView>,
}

/// The tokens of each bound.
pub open spec fn bound_parts(bs: Seq<Bound>) -> Seq<Seq<SpecTok>> {
    bs.map_values(|b: Bound| vv(b.toks))
}

/// The value of an optional token vector.
pub open spec fn opt_view(d: Option<Vec<Tok>>) -> Option<Seq<SpecTok>> {
    match d {
        Some(t) => Some(vv(t)),
        None => None,
    }
}

/// The value of a lifetime reference of a receiver.
pub open spec fn ref_view(r: Option<Option<String>>) -> Option<Option<Seq<char>>> {
    match r {
        Some(l) => match l {
            Some(x) => Some(Some(x@)),
            None => Some(None),
        },
        None => None,
    }
}

pub open spec fn param_view(p: ParamModel) -> ParamView {
    match p {
        ParamModel::Lifetime { attrs, name, bounds } => ParamView::Lifetime {
            attrs: vv(attrs),
            name: name@,
            bounds: bounds@.map_values(|l: String| l@),
        },
        ParamModel::Type { attrs, ident, bounds, default } => ParamView::Type {
            attrs: vv(attrs),
            ident: ident@,
            bounds: bound_parts(bounds@),
            default: opt_view(default),
        },
        ParamModel::Const { attrs, ident, ty, default } => ParamView::Const {
            attrs: vv(attrs),
            ident: ident@,
            ty: vv(ty),
            default: opt_view(default),
        },
    }
}

pub open spec fn arg_view(a: ArgModel) -> ArgView {
    match a {
        ArgModel::Receiver(r) => ArgView::Receiver {
            attrs: vv(r.attrs),
            reference: ref_view(r.reference),
            mutable: r.mutable,
            colon_ty: r.colon_ty,
            ty: vv(r.ty.toks),
        },
        ArgModel::Typed(t) => ArgView::Typed {
            attrs: vv(t.attrs),
            pat_kind: t.pat.kind,
            pat: vv(t.pat.toks),
            ty_kind: ty_view(t.ty.kind),
            ty: vv(t.ty.toks),
        },
    }
}

/// The tokens of each where-predicate.
pub open spec fn pred_parts(ps: Seq<Predicate>) -> Seq<Seq<SpecTok>> {
    ps.map_values(|p: Predicate| vv(p.toks))
}

pub open spec fn where_view(w: Option<Vec<Predicate>>) -> Option<Seq<Seq<SpecTok>>> {
    match w {
        Some(ps) => Some(pred_parts(ps@)),
        None => None,
    }
}

pub open spec fn output_view(o: Option<TypeModel>) -> Option<Seq<SpecTok>> {
    match o {
        Some(t) => Some(vv(t.toks)),
        None => None,
    }
}

pub open spec fn output_kind_view(o: Option<TypeModel>) -> Option<TyView> {
    match o {
        Some(t) => Some(ty_view(t.kind)),
        None => None,
    }
}

pub open spec fn sig_view(s: Sig) -> SigView {
    SigView {
        constness: s.constness,
        asyncness: s.asyncness,
        unsafety: s.unsafety,
        abi: vv(s.abi),
        ident: s.ident@,
        params: pvs(s.generics.params@),
        where_clause: where_view(s.generics.where_clause),
        inputs: s.inputs@.map_values(|a: ArgModel| arg_view(a)),
        output: output_view(s.output),
        output_kind: output_kind_view(s.output),
    }
}

/// The tokens of a receiver.
pub open spec fn receiver_toks(r: ReceiverModel) -> Seq<SpecTok> {
    arg_view_toks(arg_view(ArgModel::Receiver(r)))
}

/// `'name`
pub open spec fn lt(name: Seq<char>) -> SpecTok {
    SpecTok::Lifetime(name)
}

/// The bounds, separated by `+`.
pub open spec fn bounds_toks(bs: Seq<Bound>) -> Seq<SpecTok> {
    join(bound_parts(bs), pu('+'))
}

/// The lifetimes, separated by `+`.
pub open spec fn lifetime_names_toks(ls: Seq<Seq<char>>) -> Seq<SpecTok> {
    join(ls.map_values(|l: Seq<char>| seq![lt(l)]), pu('+'))
}

/// The lifetimes, separated by `+`.
pub open spec fn lifetimes_toks(ls: Seq<String>) -> Seq<SpecTok> {
    lifetime_names_toks(ls.map_values(|l: String| l@))
}

/// `= default`, if there is a default.
pub open spec fn default_view_toks(d: Option<Seq<SpecTok>>) -> Seq<SpecTok> {
    match d {
        Some(t) => seq![pu('=')] + t,
        None => seq![],
    }
}

pub open spec fn default_toks(d: Option<Vec<Tok>>) -> Seq<SpecTok> {
    default_view_toks(opt_view(d))
}

/// The tokens of a generic parameter.
pub open spec fn param_view_toks(p: ParamView) -> Seq<SpecTok> {
    match p {
        ParamView::Lifetime { attrs, name, bounds } => attrs + seq![lt(name)] + (if bounds.len()
            == 0 {
            seq![]
        } else {
            seq![pu(':')] + lifetime_names_toks(bounds)
        }),
        ParamView::Type { attrs, ident, bounds, default } => attrs + seq![SpecTok::Ident(ident)] + (
        if bounds.len() == 0 {
            seq![]
        } else {
            seq![pu(':')] + join(bounds, pu('+'))
        }) + default_view_toks(default),
        ParamView::Const { attrs, ident, ty, default } => attrs + seq![
            id("const"),
            SpecTok::Ident(ident),
            pu(':'),
        ] + ty + default_view_toks(default),
    }
}

pub open spec fn param_toks(p: ParamModel) -> Seq<SpecTok> {
    param_view_toks(param_view(p))
}

/// The printed parameters that are lifetimes (`lts`) or that are not, in order.
pub open spec fn printed_params(ps: Seq<ParamView>, lts: bool) -> Seq<Seq<SpecTok>>
    decreases ps.len(),
{
    if ps.len() == 0 {
        seq![]
    } else {
        let r = printed_params(ps.drop_last(), lts);
        if (ps.last() is Lifetime) == lts {
            r.push(param_view_toks(ps.last()))
        } else {
            r
        }
    }
}

/// `<params>`, lifetimes first, or nothing if there are no parameters.
pub open spec fn params_view_toks(ps: Seq<ParamView>) -> Seq<SpecTok> {
    if ps.len() == 0 {
        seq![]
    } else {
        seq![pu('<')] + join(printed_params(ps, true) + printed_params(ps, false), pu(','))
            + seq![pu('>')]
    }
}

/// The values of generic parameters.
pub open spec fn pvs(ps: Seq<ParamModel>) -> Seq<ParamView> {
    ps.map_values(|p: ParamModel| param_view(p))
}

pub open spec fn params_toks(ps: Seq<ParamModel>) -> Seq<SpecTok> {
    params_view_toks(pvs(ps))
}

/// The tokens of an argument.
pub open spec fn arg_view_toks(a: ArgView) -> Seq<SpecTok> {
    match a {
        ArgView::Receiver { attrs, reference, mutable, colon_ty, ty } => attrs + match reference {
            Some(l) => seq![pu('&')] + match l {
                Some(n) => seq![lt(n)],
                None => seq![],
            },
            None => seq![],
        } + (if mutable {
            seq![id("mut")]
        } else {
            seq![]
        }) + seq![id("self")] + (if colon_ty {
            seq![pu(':')] + ty
        } else {
            seq![]
        }),
        ArgView::Typed { attrs, pat, ty, .. } => attrs + pat + seq![pu(':')] + ty,
    }
}

pub open spec fn arg_toks(a: ArgModel) -> Seq<SpecTok> {
    arg_view_toks(arg_view(a))
}

/// The arguments, separated by commas.
pub open spec fn inputs_view_toks(args: Seq<ArgView>) -> Seq<SpecTok> {
    join(args.map_values(|a: ArgView| arg_view_toks(a)), pu(','))
}

pub open spec fn inputs_toks(args: Seq<ArgModel>) -> Seq<SpecTok> {
    inputs_view_toks(args.map_values(|a: ArgModel| arg_view(a)))
}

/// `where p1, p2`, or nothing if there are no predicates.
pub open spec fn where_view_toks(w: Option<Seq<Seq<SpecTok>>>) -> Seq<SpecTok> {
    match w {
        Some(ps) => if ps.len() == 0 {
            seq![]
        } else {
            seq![id("where")] + join(ps, pu(','))
        },
        None => seq![],
    }
}

pub open spec fn where_toks(w: Option<Vec<Predicate>>) -> Seq<SpecTok> {
    where_view_toks(where_view(w))
}

/// `->`
pub open spec fn arrow() -> Seq<SpecTok> {
    seq![SpecTok::Punct('-', true), pu('>')]
}

/// `-> Ty`, or nothing.
pub open spec fn output_view_toks(o: Option<Seq<SpecTok>>) -> Seq<SpecTok> {
    match o {
        Some(t) => arrow() + t,
        None => seq![],
    }
}

pub open spec fn output_toks(o: Option<TypeModel>) -> Seq<SpecTok> {
    output_view_toks(output_view(o))
}

/// The tokens of a signature up to and including its name.
pub open spec fn sig_head_view_toks(s: SigView) -> Seq<SpecTok> {
    (if s.constness {
        seq![id("const")]
    } else {
        seq![]
    }) + (if s.asyncness {
        seq![id("async")]
    } else {
        seq![]
    }) + (if s.unsafety {
        seq![id("unsafe")]
    } else {
        seq![]
    }) + s.abi + seq![id("fn"), SpecTok::Ident(s.ident)]
}

/// The parameters and arguments of a signature.
pub open spec fn sig_mid_view_toks(s: SigView) -> Seq<SpecTok> {
    params_view_toks(s.params) + seq![SpecTok::Open(Delim::Paren)] + inputs_view_toks(s.inputs)
        + seq![SpecTok::Close(Delim::Paren)]
}

/// The tokens of a signature.
pub open spec fn sig_view_toks(s: SigView) -> Seq<SpecTok> {
    sig_head_view_toks(s) + sig_mid_view_toks(s) + output_view_toks(s.output) + where_view_toks(
        s.where_clause,
    )
}

pub open spec fn sig_toks(s: Sig) -> Seq<SpecTok> {
    sig_view_toks(sig_view(s))
}

/// Appends the bounds, separated by `+`.
pub fn print_bounds(out: &mut Vec<Tok>, bs: &Vec<Bound>)
    ensures
        vv(*final(out)) == vv(*old(out)) + bounds_toks(bs@),
{
    let mut parts: Vec<Vec<Tok>> = Vec::new();
    let mut i: usize = 0;
    while i < bs.len()
        invariant
            0 <= i <= bs.len(),
            parts@.len() == i,
            forall|j: int| 0 <= j < i ==> #[trigger] vv(parts@[j]) == vv(bs@[j].toks),
        decreases bs.len() - i,
    {
        let mut p: Vec<Tok> = Vec::new();
        append_toks(&mut p, &bs[i].toks);
        assert(vv(p) =~= vv(bs@[i as int].toks));
        parts.push(p);
        i = i + 1;
    }
    assert(vvs(parts@) =~= bs@.map_values(|b: Bound| vv(b.toks)));
    append_joined(out, &parts, '+');
}

/// Appends the lifetimes, separated by `+`.
pub fn print_lifetimes(out: &mut Vec<Tok>, ls: &Vec<String>)
    ensures
        vv(*final(out)) == vv(*old(out)) + lifetimes_toks(ls@),
{
    let mut parts: Vec<Vec<Tok>> = Vec::new();
    let mut i: usize = 0;
    while i < ls.len()
        invariant
            0 <= i <= ls.len(),
            parts@.len() == i,
            forall|j: int| 0 <= j < i ==> #[trigger] vv(parts@[j]) == seq![lt(ls@[j]@)],
        decreases ls.len() - i,
    {
        let mut p: Vec<Tok> = Vec::new();
        push_tok(&mut p, Tok::Lifetime(ls[i].clone()));
        assert(vv(p) =~= seq![lt(ls@[i as int]@)]);
        parts.push(p);
        i = i + 1;
    }
    assert(vvs(parts@) =~= ls@.map_values(|l: String| l@).map_values(
        |l: Seq<char>| seq![lt(l)],
    ));
    append_joined(out, &parts, '+');
}

/// Appends the tokens of a receiver.
pub fn print_receiver(out: &mut Vec<Tok>, r: &ReceiverModel)
    ensures
        vv(*final(out)) == vv(*old(out)) + receiver_toks(*r),
{
    let ghost start = vv(*out);
    append_toks(out, &r.attrs);
    match &r.reference {
        Some(l) => {
            push_punct(out, '&');
            match l {
                Some(n) => push_tok(out, Tok::Lifetime(n.clone())),
                None => {},
            }
        },
        None => {},
    }
    if r.mutable {
        push_ident(out, "mut");
    }
    push_ident(out, "self");
    if r.colon_ty {
        push_punct(out, ':');
        append_toks(out, &r.ty.toks);
    }
    assert(vv(*out) =~= start + receiver_toks(*r));
}

/// Appends the tokens of an argument.
pub fn print_arg(out: &mut Vec<Tok>, a: &ArgModel)
    ensures
        vv(*final(out)) == vv(*old(out)) + arg_toks(*a),
{
    let ghost start = vv(*out);
    match a {
        ArgModel::Receiver(r) => print_receiver(out, r),
        ArgModel::Typed(t) => {
            append_toks(out, &t.attrs);
            append_toks(out, &t.pat.toks);
            push_punct(out, ':');
            append_toks(out, &t.ty.toks);
        },
    }
    assert(vv(*out) =~= start + arg_toks(*a));
}

/// Appends the arguments, separated by commas.
pub fn print_inputs(out: &mut Vec<Tok>, args: &Vec<ArgModel>)
    ensures
        vv(*final(out)) == vv(*old(out)) + inputs_toks(args@),
{
    let mut parts: Vec<Vec<Tok>> = Vec::new();
    let mut i: usize = 0;
    while i < args.len()
        invariant
            0 <= i <= args.len(),
            parts@.len() == i,
            forall|j: int| 0 <= j < i ==> #[trigger] vv(parts@[j]) == arg_toks(args@[j]),
        decreases args.len() - i,
    {
        let mut p: Vec<Tok> = Vec::new();
        print_arg(&mut p, &args[i]);
        assert(vv(p) =~= arg_toks(args@[i as int]));
        parts.push(p);
        i = i + 1;
    }
    assert(vvs(parts@) =~= args@.map_values(|a: ArgModel| arg_view(a)).map_values(
        |a: ArgView| arg_view_toks(a),
    ));
    append_joined(out, &parts, ',');
}

/// Appends `= default`, if there is a default.
pub fn print_default(out: &mut Vec<Tok>, d: &Option<Vec<Tok>>)
    ensures
        vv(*final(out)) == vv(*old(out)) + default_toks(*d),
{
    let ghost start = vv(*out);
    match d {
        Some(t) => {
            push_punct(out, '=');
            append_toks(out, t);
        },
        None => {},
    }
    assert(vv(*out) =~= start + default_toks(*d));
}

/// Appends the tokens of a generic parameter.
pub fn print_param(out: &mut Vec<Tok>, p: &ParamModel)
    ensures
        vv(*final(out)) == vv(*old(out)) + param_toks(*p),
{
    let ghost start = vv(*out);
    match p {
        ParamModel::Lifetime { attrs, name, bounds } => {
            append_toks(out, attrs);
            push_tok(out, Tok::Lifetime(name.clone()));
            if bounds.len() > 0 {
                push_punct(out, ':');
                print_lifetimes(out, bounds);
            }
        },
        ParamModel::Type { attrs, ident, bounds, default } => {
            append_toks(out, attrs);
            push_ident_string(out, ident);
            if bounds.len() > 0 {
                push_punct(out, ':');
                print_bounds(out, bounds);
            }
            print_default(out, default);
        },
        ParamModel::Const { attrs, ident, ty, default } => {
            append_toks(out, attrs);
            push_ident(out, "const");
            push_ident_string(out, ident);
            push_punct(out, ':');
            append_toks(out, ty);
            print_default(out, default);
        },
    }
    assert(vv(*out) =~= start + param_toks(*p));
}

/// Appends `<params>`, lifetimes first, or nothing if there are no parameters.
pub fn print_params(out: &mut Vec<Tok>, ps: &Vec<ParamModel>)
    ensures
        vv(*final(out)) == vv(*old(out)) + params_toks(ps@),
{
    if ps.len() == 0 {
        assert(vv(*out) =~= vv(*old(out)) + params_toks(ps@));
        return;
    }
    let ghost start = vv(*out);
    let mut parts: Vec<Vec<Tok>> = Vec::new();
    let mut i: usize = 0;
    while i < ps.len()
        invariant
            0 <= i <= ps.len(),
            vvs(parts@) == printed_params(pvs(ps@.take(i as int)), true),
        decreases ps.len() - i,
    {
        let ghost before = parts@;
        assert(pvs(ps@.take(i + 1)).drop_last() =~= pvs(ps@.take(i as int)));
        if let ParamModel::Lifetime { .. } = &ps[i] {
            let mut p: Vec<Tok> = Vec::new();
            print_param(&mut p, &ps[i]);
            assert(vv(p) =~= param_toks(ps@[i as int]));
            parts.push(p);
            assert(vvs(parts@) =~= vvs(before).push(vv(p)));
        }
        i = i + 1;
    }
    let ghost nlts = parts@.len();
    assert(ps@.take(ps.len() as int) =~= ps@);
    assert(printed_params(pvs(ps@.take(0)), false) =~= Seq::<Seq<SpecTok>>::empty());
    assert(vvs(parts@) =~= printed_params(pvs(ps@), true) + printed_params(pvs(ps@.take(0)), false));
    i = 0;
    while i < ps.len()
        invariant
            0 <= i <= ps.len(),
            nlts <= parts@.len(),
            vvs(parts@) == printed_params(pvs(ps@), true) + printed_params(pvs(ps@.take(i as int)), false),
        decreases ps.len() - i,
    {
        let ghost before = parts@;
        assert(pvs(ps@.take(i + 1)).drop_last() =~= pvs(ps@.take(i as int)));
        match &ps[i] {
            ParamModel::Lifetime { .. } => {},
            _ => {
                let mut p: Vec<Tok> = Vec::new();
                print_param(&mut p, &ps[i]);
                assert(vv(p) =~= param_toks(ps@[i as int]));
                parts.push(p);
                assert(vvs(parts@) =~= vvs(before).push(vv(p)));
            },
        }
        i = i + 1;
    }
    push_punct(out, '<');
    append_joined(out, &parts, ',');
    push_punct(out, '>');
    assert(vv(*out) =~= start + params_toks(ps@));
}

/// Appends `where p1, p2`, or nothing if there are no predicates.
pub fn print_where(out: &mut Vec<Tok>, w: &Option<Vec<Predicate>>)
    ensures
        vv(*final(out)) == vv(*old(out)) + where_toks(*w),
{
    let ghost start = vv(*out);
    match w {
        Some(ps) => {
            if ps.len() > 0 {
                push_ident(out, "where");
                let mut parts: Vec<Vec<Tok>> = Vec::new();
                let mut i: usize = 0;
                while i < ps.len()
                    invariant
                        0 <= i <= ps.len(),
                        parts@.len() == i,
                        forall|j: int|
                            0 <= j < i ==> #[trigger] vv(parts@[j]) == vv(ps@[j].toks),
                    decreases ps.len() - i,
                {
                    let mut p: Vec<Tok> = Vec::new();
                    append_toks(&mut p, &ps[i].toks);
                    assert(vv(p) =~= vv(ps@[i as int].toks));
                    parts.push(p);
                    i = i + 1;
                }
                assert(vvs(parts@) =~= ps@.map_values(|p: Predicate| vv(p.toks)));
                append_joined(out, &parts, ',');
            }
        },
        None => {},
    }
    assert(vv(*out) =~= start + where_toks(*w));
}

/// Appends `-> Ty`, or nothing.
pub fn print_output(out: &mut Vec<Tok>, o: &Option<TypeModel>)
    ensures
        vv(*final(out)) == vv(*old(out)) + output_toks(*o),
{
    let ghost start = vv(*out);
    match o {
        Some(t) => {
            push_tok(out, Tok::Punct('-', true));
            push_punct(out, '>');
            append_toks(out, &t.toks);
        },
        None => {},
    }
    assert(vv(*out) =~= start + output_toks(*o));
}

fn print_sig_head(out: &mut Vec<Tok>, s: &Sig)
    ensures
        vv(*final(out)) == vv(*old(out)) + sig_head_view_toks(sig_view(*s)),
{
    let ghost start = vv(*out);
    if s.constness {
        push_ident(out, "const");
    }
    if s.asyncness {
        push_ident(out, "async");
    }
    if s.unsafety {
        push_ident(out, "unsafe");
    }
    append_toks(out, &s.abi);
    push_ident(out, "fn");
    push_ident_string(out, &s.ident);
    assert(vv(*out) =~= start + sig_head_view_toks(sig_view(*s)));
}

fn print_sig_mid(out: &mut Vec<Tok>, s: &Sig)
    ensures
        vv(*final(out)) == vv(*old(out)) + sig_mid_view_toks(sig_view(*s)),
{
    let ghost start = vv(*out);
    print_params(out, &s.generics.params);
    push_open(out, Delim::Paren);
    print_inputs(out, &s.inputs);
    push_close(out, Delim::Paren);
    assert(vv(*out) =~= start + sig_mid_view_toks(sig_view(*s)));
}

/// Appends the tokens of a signature.
pub fn print_sig(out: &mut Vec<Tok>, s: &Sig)
    ensures
        vv(*final(out)) == vv(*old(out)) + sig_toks(*s),
{
    let ghost start = vv(*out);
    print_sig_head(out, s);
    print_sig_mid(out, s);
    print_output(out, &s.output);
    print_where(out, &s.generics.where_clause);
    assert(vv(*out) =~= start + sig_toks(*s));
}

} // verus!
