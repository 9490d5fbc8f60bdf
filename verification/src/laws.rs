use vstd::prelude::*;

use crate::dispatch::decl_parse;
use crate::errors::{bare_only_msg, receiver_msg};
use crate::insert::{insert_result, sig_with_leading};
use crate::model::{
    bare_of, BareParamV, DeclV, FreeFnV, ParamV, StaticBindingV, TypeAliasV, TypeExprV,
    TypedParamV,
};
use crate::parse::{
    free_fn_parse, fn_ptr_sig_parse, static_binding_parse, type_alias_parse,
};

verus! {

/// Insertion is pure prepending: for every shape, a successful insertion
/// yields the same shape with the new parameter (for a bare signature, its
/// unnamed projection) at the front of the parameter list, and nothing else
/// in the declaration changes — head, variadic argument and tail are kept
/// byte for byte.
pub proof fn lemma_insert_prepends(d: DeclV, p: ParamV)
    ensures
        match insert_result(d, p) {
            Ok(d2) => match (d, d2) {
                (DeclV::FreeFn(f), DeclV::FreeFn(f2)) => f2.params == seq![p] + f.params
                    && f2.head == f.head && f2.variadic == f.variadic && f2.tail == f.tail,
                (DeclV::FnPtrSig(g), DeclV::FnPtrSig(g2)) => p matches ParamV::Typed(t)
                    && g2.params == seq![bare_of(t)] + g.params && g2.head == g.head
                    && g2.variadic == g.variadic && g2.tail == g.tail,
                (DeclV::StaticBinding(st), DeclV::StaticBinding(st2)) => st.ty matches
                    TypeExprV::FnPtr(g) && p matches ParamV::Typed(t) && st2.head == st.head
                    && st2.tail == st.tail && st2.ty == TypeExprV::FnPtr(sig_with_leading(
                    g,
                    bare_of(t),
                )),
                (DeclV::TypeAlias(a), DeclV::TypeAlias(a2)) => p matches ParamV::Typed(t)
                    && a2.head == a.head && a2.tail == a.tail && match a.ty {
                    TypeExprV::Other(txt) => fn_ptr_sig_parse(txt) matches Some(g) && a2.ty
                        == TypeExprV::FnPtr(sig_with_leading(g, bare_of(t))),
                    TypeExprV::FnPtr(g) => a2.ty == TypeExprV::FnPtr(sig_with_leading(
                        g,
                        bare_of(t),
                    )),
                },
                _ => false,
            },
            Err(_) => true,
        },
{
}

/// The projection of a named parameter into a bare signature drops the name
/// and keeps type and attributes; a receiver is never projected silently:
/// inserting one into a bare function-pointer signature fails with the
/// invalid-shape guidance, whether the signature stands alone, in a static
/// binding, or behind a type alias.
pub proof fn lemma_receiver_never_projected(d: DeclV, s: Seq<char>, t: TypedParamV)
    ensures
        bare_of(t) == (BareParamV { attrs: t.attrs, name: None::<Seq<char>>, ty: t.ty }),
        d matches DeclV::FnPtrSig(_) ==> insert_result(d, ParamV::Receiver(s)) == Err::<
            DeclV,
            Seq<char>,
        >(receiver_msg()),
        (d matches DeclV::StaticBinding(st) && st.ty is FnPtr) ==> insert_result(
            d,
            ParamV::Receiver(s),
        ) == Err::<DeclV, Seq<char>>(receiver_msg()),
        (d matches DeclV::TypeAlias(a) && match a.ty {
            TypeExprV::Other(txt) => fn_ptr_sig_parse(txt) is Some,
            TypeExprV::FnPtr(_) => true,
        }) ==> insert_result(d, ParamV::Receiver(s)) == Err::<DeclV, Seq<char>>(receiver_msg()),
{
}

/// A static binding or type alias whose underlying type is no bare
/// function-pointer signature rejects every insertion with the invalid-shape
/// guidance to use a type alias — it never mutates and never crashes.
pub proof fn lemma_non_fn_ptr_rejected(st: StaticBindingV, a: TypeAliasV, p: ParamV)
    ensures
        st.ty is Other ==> insert_result(DeclV::StaticBinding(st), p) == Err::<DeclV, Seq<char>>(
            bare_only_msg(),
        ),
        (a.ty matches TypeExprV::Other(txt) && fn_ptr_sig_parse(txt) is None) ==> insert_result(
            DeclV::TypeAlias(a),
            p,
        ) == Err::<DeclV, Seq<char>>(bare_only_msg()),
{
}

/// Dispatch order is deterministic: text that parses under more than one of
/// the four grammars is always read as the earlier shape in the fixed order
/// free function, function-pointer signature, static binding, type alias.
pub proof fn lemma_dispatch_order(s: Seq<char>)
    ensures
        free_fn_parse(s) matches Some(f) ==> decl_parse(s) == Some(DeclV::FreeFn(f)),
        free_fn_parse(s) is None ==> (fn_ptr_sig_parse(s) matches Some(g) ==> decl_parse(s)
            == Some(DeclV::FnPtrSig(g))),
        (free_fn_parse(s) is None && fn_ptr_sig_parse(s) is None) ==> (static_binding_parse(s)
            matches Some(st) ==> decl_parse(s) == Some(DeclV::StaticBinding(st))),
        (free_fn_parse(s) is None && fn_ptr_sig_parse(s) is None && static_binding_parse(s)
            is None) ==> (type_alias_parse(s) matches Some(a) ==> decl_parse(s) == Some(
            DeclV::TypeAlias(a),
        )),
        free_fn_parse(s) is None && fn_ptr_sig_parse(s) is None && static_binding_parse(s) is None
            && type_alias_parse(s) is None ==> decl_parse(s) is None,
{
}

/// A free function accepts every parameter, a receiver included: insertion
/// on it never fails.
pub proof fn lemma_free_fn_total(f: FreeFnV, p: ParamV)
    ensures
        insert_result(DeclV::FreeFn(f), p) == Ok::<DeclV, Seq<char>>(
            DeclV::FreeFn(
                FreeFnV { head: f.head, params: seq![p] + f.params, variadic: f.variadic, tail: f.tail },
            ),
        ),
{
}

} // verus!
