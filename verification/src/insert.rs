use vstd::prelude::*;

use crate::errors::{bare_only_msg, receiver_msg, TransformError};
use crate::model::{
    bare_of, BareParam, BareParamV, Decl, DeclV, FnPtrSig, FnPtrSigV, FreeFn, FreeFnV, Param,
    ParamV, StaticBinding, StaticBindingV, TypeAlias, TypeAliasV, TypeExpr, TypeExprV,
};
use crate::parse::{fn_ptr_sig_parse, parse_fn_ptr_sig};

verus! {

// ---------------------------------------------------------------------------
// What inserting a leading parameter does, shape by shape
// ---------------------------------------------------------------------------

/// A bare function-pointer signature with `b` inserted at the front of its
/// parameter list; nothing else changes.
pub open spec fn sig_with_leading(g: FnPtrSigV, b: BareParamV) -> FnPtrSigV {
    FnPtrSigV { head: g.head, params: seq![b] + g.params, variadic: g.variadic, tail: g.tail }
}

/// The result of inserting the parameter `p` at the front of declaration `d`:
/// the mutated declaration, or the guidance text of the invalid-shape error
/// that rejects the insertion.
///
/// A free function takes `p` unchanged. A bare signature takes the unnamed
/// projection of `p`, and rejects a receiver. A static binding requires its
/// value type to already be a bare function-pointer signature. A type alias
/// re-reads its printed target type under the function-pointer grammar first,
/// and rejects the insertion where that re-parse fails.
pub open spec fn insert_result(d: DeclV, p: ParamV) -> Result<DeclV, Seq<char>> {
    match d {
        DeclV::FreeFn(f) => Ok(
            DeclV::FreeFn(
                FreeFnV {
                    head: f.head,
                    params: seq![p] + f.params,
                    variadic: f.variadic,
                    tail: f.tail,
                },
            ),
        ),
        DeclV::FnPtrSig(g) => match p {
            ParamV::Receiver(_) => Err(receiver_msg()),
            ParamV::Typed(t) => Ok(DeclV::FnPtrSig(sig_with_leading(g, bare_of(t)))),
        },
        DeclV::StaticBinding(st) => match st.ty {
            TypeExprV::FnPtr(g) => match p {
                ParamV::Receiver(_) => Err(receiver_msg()),
                ParamV::Typed(t) => Ok(
                    DeclV::StaticBinding(
                        StaticBindingV {
                            head: st.head,
                            ty: TypeExprV::FnPtr(sig_with_leading(g, bare_of(t))),
                            tail: st.tail,
                        },
                    ),
                ),
            },
            TypeExprV::Other(_) => Err(bare_only_msg()),
        },
        DeclV::TypeAlias(a) => match a.ty {
            TypeExprV::Other(txt) => match fn_ptr_sig_parse(txt) {
                None => Err(bare_only_msg()),
                Some(g) => match p {
                    ParamV::Receiver(_) => Err(receiver_msg()),
                    ParamV::Typed(t) => Ok(
                        DeclV::TypeAlias(
                            TypeAliasV {
                                head: a.head,
                                ty: TypeExprV::FnPtr(sig_with_leading(g, bare_of(t))),
                                tail: a.tail,
                            },
                        ),
                    ),
                },
            },
            TypeExprV::FnPtr(g) => match p {
                ParamV::Receiver(_) => Err(receiver_msg()),
                ParamV::Typed(t) => Ok(
                    DeclV::TypeAlias(
                        TypeAliasV {
                            head: a.head,
                            ty: TypeExprV::FnPtr(sig_with_leading(g, bare_of(t))),
                            tail: a.tail,
                        },
                    ),
                ),
            },
        },
    }
}

// ---------------------------------------------------------------------------
// Executable insertion
// ---------------------------------------------------------------------------

/// Returns a vector holding `first` followed by everything in `rest`.
fn prepend<T>(first: T, rest: Vec<T>) -> (r: Vec<T>)
    ensures
        r@ == seq![first] + rest@,
{
    let ghost rest_v = rest@;
    let mut r: Vec<T> = Vec::new();
    r.push(first);
    let mut rest = rest;
    r.append(&mut rest);
    proof {
        assert(r@ =~= seq![first] + rest_v);
    }
    r
}

/// Mapping a view over a prepended sequence prepends the view of the head.
proof fn lemma_view_prepend<T: View>(first: T, rest: Seq<T>)
    ensures
        (seq![first] + rest).map_values(|x: T| x@) == seq![first@] + rest.map_values(|x: T| x@),
{
    assert((seq![first] + rest).map_values(|x: T| x@) =~= seq![first@] + rest.map_values(
        |x: T| x@,
    ));
}

impl FreeFn {
    /// Inserts `p` unchanged at the front of the parameter list. Always
    /// succeeds, and nothing besides the parameter list changes.
    pub fn insert_leading(self, p: Param) -> (r: FreeFn)
        ensures
            r@ == (FreeFnV {
                head: self@.head,
                params: seq![p@] + self@.params,
                variadic: self@.variadic,
                tail: self@.tail,
            }),
    {
        let ghost p_v = p@;
        let ghost params_v = self.params@;
        let FreeFn { head, params, variadic, tail } = self;
        let params = prepend(p, params);
        proof {
            lemma_view_prepend(p, params_v);
            assert(params@.map_values(|x: Param| x@) =~= seq![p_v] + params_v.map_values(
                |x: Param| x@,
            ));
        }
        FreeFn { head, params, variadic, tail }
    }
}

impl FnPtrSig {
    /// Inserts the unnamed projection of `p` at the front of the parameter
    /// list. A receiver cannot stand in a bare signature and is rejected with
    /// an invalid-shape error; nothing besides the parameter list changes.
    pub fn insert_leading(self, p: Param) -> (r: Result<FnPtrSig, TransformError>)
        ensures
            match p {
                Param::Receiver(_) => r matches Err(e) && e matches TransformError::InvalidShape(m)
                    && m@ == receiver_msg(),
                Param::Typed(t) => r matches Ok(g) && g@ == sig_with_leading(self@, bare_of(t@)),
            },
    {
        match p {
            Param::Receiver(_) => Err(
                TransformError::InvalidShape(
                    String::from_str("`self` parameter is only allowed in associated functions"),
                ),
            ),
            Param::Typed(t) => {
                let b = t.into_bare();
                let ghost b_v = b@;
                let ghost params_v = self.params@;
                let FnPtrSig { head, params, variadic, tail } = self;
                let params = prepend(b, params);
                proof {
                    lemma_view_prepend(b, params_v);
                    assert(params@.map_values(|x: BareParam| x@) =~= seq![b_v]
                        + params_v.map_values(|x: BareParam| x@));
                }
                Ok(FnPtrSig { head, params, variadic, tail })
            },
        }
    }
}

/// The invalid-shape error that rejects a value type which is no bare
/// function-pointer signature.
fn bare_only_error() -> (r: TransformError)
    ensures
        r matches TransformError::InvalidShape(m) && m@ == bare_only_msg(),
{
    TransformError::InvalidShape(
        String::from_str(
            "Only bare function types are supported, please use the macro on a type alias instead",
        ),
    )
}

impl StaticBinding {
    /// Requires the value type to already be a bare function-pointer
    /// signature and delegates the insertion to it; any other value type is
    /// rejected with guidance to use a type alias instead.
    pub fn insert_leading(self, p: Param) -> (r: Result<StaticBinding, TransformError>)
        ensures
            match insert_result(DeclV::StaticBinding(self@), p@) {
                Ok(d) => r matches Ok(st) && DeclV::StaticBinding(st@) == d,
                Err(msg) => r matches Err(e) && e matches TransformError::InvalidShape(m) && m@
                    == msg,
            },
    {
        let StaticBinding { head, ty, tail } = self;
        match ty {
            TypeExpr::FnPtr(g) => match g.insert_leading(p) {
                Ok(g2) => Ok(StaticBinding { head, ty: TypeExpr::FnPtr(g2), tail }),
                Err(e) => Err(e),
            },
            TypeExpr::Other(_) => Err(bare_only_error()),
        }
    }
}

impl TypeAlias {
    /// Re-reads the printed target type under the function-pointer grammar;
    /// where that re-parse fails the insertion is rejected with the same
    /// guidance as for a static binding, and otherwise the insertion is
    /// performed on the re-read signature, which is stored back as the
    /// target type.
    pub fn insert_leading(self, p: Param) -> (r: Result<TypeAlias, TransformError>)
        ensures
            match insert_result(DeclV::TypeAlias(self@), p@) {
                Ok(d) => r matches Ok(a) && DeclV::TypeAlias(a@) == d,
                Err(msg) => r matches Err(e) && e matches TransformError::InvalidShape(m) && m@
                    == msg,
            },
    {
        let TypeAlias { head, ty, tail } = self;
        let sig = match ty {
            TypeExpr::Other(txt) => match parse_fn_ptr_sig(txt.as_str()) {
                Some(g) => g,
                None => {
                    return Err(bare_only_error());
                },
            },
            TypeExpr::FnPtr(g) => g,
        };
        match sig.insert_leading(p) {
            Ok(g2) => Ok(TypeAlias { head, ty: TypeExpr::FnPtr(g2), tail }),
            Err(e) => Err(e),
        }
    }
}

impl Decl {
    /// Inserts one leading parameter into this declaration, whatever its
    /// shape: the capability every shape implements in its own way.
    pub fn insert_leading(self, p: Param) -> (r: Result<Decl, TransformError>)
        ensures
            match insert_result(self@, p@) {
                Ok(d) => r matches Ok(dd) && dd@ == d,
                Err(msg) => r matches Err(e) && e matches TransformError::InvalidShape(m) && m@
                    == msg,
            },
    {
        match self {
            Decl::FreeFn(f) => Ok(Decl::FreeFn(f.insert_leading(p))),
            Decl::FnPtrSig(g) => match g.insert_leading(p) {
                Ok(g2) => Ok(Decl::FnPtrSig(g2)),
                Err(e) => Err(e),
            },
            Decl::StaticBinding(st) => match st.insert_leading(p) {
                Ok(st2) => Ok(Decl::StaticBinding(st2)),
                Err(e) => Err(e),
            },
            Decl::TypeAlias(a) => match a.insert_leading(p) {
                Ok(a2) => Ok(Decl::TypeAlias(a2)),
                Err(e) => Err(e),
            },
        }
    }
}

} // verus!
