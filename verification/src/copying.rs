//! Copies of the nodes of the syntax model that keep their values.

use vstd::prelude::*;
use crate::tokens::{Tok, vv, copy_toks};
use crate::model::{
    PathSegment, PathModel, BoundKind, Bound, TypeKind, TypeModel, PatKind, PatModel,
    ReceiverModel, TypedArg, ArgModel, ParamModel, PredKind, Predicate, GenericsModel, Sig,
};
use crate::print::{
    bound_view, bvs, bound_parts, ty_view, arg_view, param_view, pvs, where_view, pred_parts,
    sig_view, opt_view, ref_view,
};
use crate::sig::{is_future_path, is_future_bound};

verus! {

fn copy_opt_toks(d: &Option<Vec<Tok>>) -> (r: Option<Vec<Tok>>)
    ensures
        opt_view(r) == opt_view(*d),
{
    match d {
        Some(t) => Some(copy_toks(t)),
        None => None,
    }
}

fn copy_strings(v: &Vec<String>) -> (r: Vec<String>)
    ensures
        r@.map_values(|l: String| l@) == v@.map_values(|l: String| l@),
{
    let mut r: Vec<String> = Vec::new();
    let mut i: usize = 0;
    while i < v.len()
        invariant
            i <= v.len(),
            r@.len() == i,
            forall|j: int| 0 <= j < i ==> #[trigger] r@[j]@ == v@[j]@,
        decreases v.len() - i,
    {
        r.push(v[i].clone());
        i = i + 1;
    }
    assert(r@.map_values(|l: String| l@) =~= v@.map_values(|l: String| l@));
    r
}

impl PathModel {
    /// A copy of the path.
    pub fn copy(&self) -> (r: PathModel)
        ensures
            r.leading_colon == self.leading_colon,
            r.segments.len() == self.segments.len(),
            forall|j: int|
                0 <= j < self.segments.len() ==> #[trigger] r.segments@[j].ident@
                    == self.segments@[j].ident@ && vv(r.segments@[j].args) == vv(
                    self.segments@[j].args,
                ),
            is_future_path(r) == is_future_path(*self),
    {
        let mut segments: Vec<PathSegment> = Vec::new();
        let mut i: usize = 0;
        while i < self.segments.len()
            invariant
                i <= self.segments.len(),
                segments@.len() == i,
                forall|j: int|
                    0 <= j < i ==> #[trigger] segments@[j].ident@ == self.segments@[j].ident@
                        && vv(segments@[j].args) == vv(self.segments@[j].args),
            decreases self.segments.len() - i,
        {
            let s = &self.segments[i];
            segments.push(PathSegment { ident: s.ident.clone(), args: copy_toks(&s.args) });
            i = i + 1;
        }
        let r = PathModel { leading_colon: self.leading_colon, segments };
        if r.segments.len() == 1 {
            assert(r.segments@[0].ident@ == self.segments@[0].ident@);
        }
        if r.segments.len() == 3 {
            assert(r.segments@[0].ident@ == self.segments@[0].ident@);
            assert(r.segments@[1].ident@ == self.segments@[1].ident@);
            assert(r.segments@[2].ident@ == self.segments@[2].ident@);
        }
        r
    }
}

impl Bound {
    /// A copy of the bound.
    pub fn copy(&self) -> (r: Bound)
        ensures
            bound_view(r) == bound_view(*self),
    {
        let kind = match &self.kind {
            BoundKind::Trait(p) => BoundKind::Trait(p.copy()),
            BoundKind::Lifetime => BoundKind::Lifetime,
            BoundKind::Other => BoundKind::Other,
        };
        let r = Bound { kind, toks: copy_toks(&self.toks) };
        assert(is_future_bound(r) == is_future_bound(*self));
        r
    }
}

/// A copy of the bounds.
pub fn copy_bounds(bs: &Vec<Bound>) -> (r: Vec<Bound>)
    ensures
        bvs(r@) == bvs(bs@),
        bound_parts(r@) == bound_parts(bs@),
{
    let mut r: Vec<Bound> = Vec::new();
    let mut i: usize = 0;
    while i < bs.len()
        invariant
            i <= bs.len(),
            r@.len() == i,
            forall|j: int| 0 <= j < i ==> #[trigger] bound_view(r@[j]) == bound_view(bs@[j]),
        decreases bs.len() - i,
    {
        r.push(bs[i].copy());
        i = i + 1;
    }
    assert(bvs(r@) =~= bvs(bs@));
    assert forall|j: int| 0 <= j < r@.len() implies #[trigger] vv(r@[j].toks) == vv(
        bs@[j].toks,
    ) by {
        assert(bound_view(r@[j]) == bound_view(bs@[j]));
    }
    assert(bound_parts(r@) =~= bound_parts(bs@));
    r
}

impl TypeModel {
    /// A copy of the type.
    pub fn copy(&self) -> (r: TypeModel)
        ensures
            ty_view(r.kind) == ty_view(self.kind),
            vv(r.toks) == vv(self.toks),
    {
        let kind = match &self.kind {
            TypeKind::ImplTrait(bs) => TypeKind::ImplTrait(copy_bounds(bs)),
            TypeKind::Reference(m) => TypeKind::Reference(*m),
            TypeKind::Path(p) => TypeKind::Path(p.copy()),
            TypeKind::Other => TypeKind::Other,
        };
        TypeModel { kind, toks: copy_toks(&self.toks) }
    }
}

impl PatModel {
    /// A copy of the pattern.
    pub fn copy(&self) -> (r: PatModel)
        ensures
            r.kind == self.kind,
            vv(r.toks) == vv(self.toks),
    {
        let kind = match &self.kind {
            PatKind::Ident => PatKind::Ident,
            PatKind::Wild => PatKind::Wild,
            PatKind::Other => PatKind::Other,
        };
        PatModel { kind, toks: copy_toks(&self.toks) }
    }
}

impl ArgModel {
    /// A copy of the argument.
    pub fn copy(&self) -> (r: ArgModel)
        ensures
            arg_view(r) == arg_view(*self),
    {
        match self {
            ArgModel::Receiver(rc) => {
                let reference = match &rc.reference {
                    Some(l) => Some(
                        match l {
                            Some(x) => Some(x.clone()),
                            None => None,
                        },
                    ),
                    None => None,
                };
                assert(ref_view(reference) == ref_view(rc.reference));
                ArgModel::Receiver(
                    ReceiverModel {
                        attrs: copy_toks(&rc.attrs),
                        reference,
                        mutable: rc.mutable,
                        colon_ty: rc.colon_ty,
                        ty: rc.ty.copy(),
                    },
                )
            },
            ArgModel::Typed(t) => ArgModel::Typed(
                TypedArg { attrs: copy_toks(&t.attrs), pat: t.pat.copy(), ty: t.ty.copy() },
            ),
        }
    }
}

impl ParamModel {
    /// A copy of the parameter.
    pub fn copy(&self) -> (r: ParamModel)
        ensures
            param_view(r) == param_view(*self),
    {
        match self {
            ParamModel::Lifetime { attrs, name, bounds } => ParamModel::Lifetime {
                attrs: copy_toks(attrs),
                name: name.clone(),
                bounds: copy_strings(bounds),
            },
            ParamModel::Type { attrs, ident, bounds, default } => ParamModel::Type {
                attrs: copy_toks(attrs),
                ident: ident.clone(),
                bounds: copy_bounds(bounds),
                default: copy_opt_toks(default),
            },
            ParamModel::Const { attrs, ident, ty, default } => ParamModel::Const {
                attrs: copy_toks(attrs),
                ident: ident.clone(),
                ty: copy_toks(ty),
                default: copy_opt_toks(default),
            },
        }
    }
}

impl Predicate {
    /// A copy of the predicate.
    pub fn copy(&self) -> (r: Predicate)
        ensures
            vv(r.toks) == vv(self.toks),
    {
        let kind = match &self.kind {
            PredKind::Type { bounded, bounds } => PredKind::Type {
                bounded: bounded.copy(),
                bounds: copy_bounds(bounds),
            },
            PredKind::Other => PredKind::Other,
        };
        Predicate { kind, toks: copy_toks(&self.toks) }
    }
}

impl GenericsModel {
    /// A copy of the generics.
    pub fn copy(&self) -> (r: GenericsModel)
        ensures
            pvs(r.params@) == pvs(self.params@),
            where_view(r.where_clause) == where_view(self.where_clause),
    {
        let mut params: Vec<ParamModel> = Vec::new();
        let mut i: usize = 0;
        while i < self.params.len()
            invariant
                i <= self.params.len(),
                params@.len() == i,
                forall|j: int|
                    0 <= j < i ==> #[trigger] param_view(params@[j]) == param_view(
                        self.params@[j],
                    ),
            decreases self.params.len() - i,
        {
            params.push(self.params[i].copy());
            i = i + 1;
        }
        assert(pvs(params@) =~= pvs(self.params@));
        let where_clause = match &self.where_clause {
            Some(ps) => {
                let mut w: Vec<Predicate> = Vec::new();
                let mut k: usize = 0;
                while k < ps.len()
                    invariant
                        k <= ps.len(),
                        w@.len() == k,
                        forall|j: int| 0 <= j < k ==> #[trigger] vv(w@[j].toks) == vv(ps@[j].toks),
                    decreases ps.len() - k,
                {
                    w.push(ps[k].copy());
                    k = k + 1;
                }
                assert(pred_parts(w@) =~= pred_parts(ps@));
                Some(w)
            },
            None => None,
        };
        GenericsModel { params, where_clause }
    }
}

impl Sig {
    /// A copy of the signature.
    pub fn copy(&self) -> (r: Sig)
        ensures
            sig_view(r) == sig_view(*self),
            r.inputs.len() == self.inputs.len(),
    {
        let mut inputs: Vec<ArgModel> = Vec::new();
        let mut i: usize = 0;
        while i < self.inputs.len()
            invariant
                i <= self.inputs.len(),
                inputs@.len() == i,
                forall|j: int|
                    0 <= j < i ==> #[trigger] arg_view(inputs@[j]) == arg_view(self.inputs@[j]),
            decreases self.inputs.len() - i,
        {
            inputs.push(self.inputs[i].copy());
            i = i + 1;
        }
        let output = match &self.output {
            Some(t) => Some(t.copy()),
            None => None,
        };
        let r = Sig {
            constness: self.constness,
            asyncness: self.asyncness,
            unsafety: self.unsafety,
            abi: copy_toks(&self.abi),
            ident: self.ident.clone(),
            generics: self.generics.copy(),
            inputs,
            output,
        };
        assert(sig_view(r).inputs =~= sig_view(*self).inputs);
        r
    }
}

} // verus!
