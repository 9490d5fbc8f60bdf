use vstd::prelude::*;

use crate::errors::TransformError;
use crate::model::{Param, ParamV, TypedParam, TypedParamV};
use crate::parse::{bare_fn_arg_parse, fn_arg_parse, parse_bare_fn_arg, parse_fn_arg};

verus! {

/// Which parameter a spec text denotes: the text must parse under exactly one
/// of two grammars, tried in order. First a full function parameter (pattern,
/// colon, type — or a receiver); failing that, a bare signature parameter (a
/// type alone, at most preceded by a plain name), whose binding name defaults
/// to the literal `this`. Text that matches neither grammar denotes no
/// parameter.
pub open spec fn param_spec_parse(s: Seq<char>) -> Option<ParamV> {
    match fn_arg_parse(s) {
        Some(p) => Some(p),
        None => match bare_fn_arg_parse(s) {
            Some(b) => Some(
                ParamV::Typed(TypedParamV { attrs: b.attrs, name: "this"@, ty: b.ty }),
            ),
            None => None,
        },
    }
}

/// Turns one textual configuration argument into a parameter, trying the two
/// grammars in order; text matching neither fails with a parse error that
/// carries both grammars' diagnostics, never a silent default.
pub fn parse_param_spec(text: &str) -> (r: Result<Param, TransformError>)
    ensures
        match param_spec_parse(text@) {
            Some(p) => r matches Ok(pp) && pp@ == p,
            None => r matches Err(e) && e is Parse,
        },
{
    match parse_fn_arg(text) {
        Ok(p) => Ok(p),
        Err(first_diag) => match parse_bare_fn_arg(text) {
            Ok(b) => Ok(
                Param::Typed(
                    TypedParam { attrs: b.attrs, name: String::from_str("this"), ty: b.ty },
                ),
            ),
            Err(second_diag) => Err(TransformError::Parse(first_diag, second_diag)),
        },
    }
}

} // verus!
