use vstd::prelude::*;

use crate::errors::{unsupported_msg, TransformError};
use crate::model::{Decl, DeclV};
use crate::parse::{
    free_fn_parse, fn_ptr_sig_parse, parse_free_fn, parse_fn_ptr_sig, parse_static_binding,
    parse_type_alias, static_binding_parse, type_alias_parse,
};

verus! {

/// Which declaration the dispatch yields for given text: the four grammars
/// are tried in the fixed order free function, function-pointer signature,
/// static binding, type alias, and the first that parses wins. No further
/// disambiguation and no backtracking happen once a grammar has matched.
pub open spec fn decl_parse(s: Seq<char>) -> Option<DeclV> {
    match free_fn_parse(s) {
        Some(f) => Some(DeclV::FreeFn(f)),
        None => match fn_ptr_sig_parse(s) {
            Some(g) => Some(DeclV::FnPtrSig(g)),
            None => match static_binding_parse(s) {
                Some(st) => Some(DeclV::StaticBinding(st)),
                None => match type_alias_parse(s) {
                    Some(a) => Some(DeclV::TypeAlias(a)),
                    None => None,
                },
            },
        },
    }
}

/// Reads declaration text as the first of the four shapes whose grammar
/// matches, in the fixed declared order; text that matches none of them is
/// rejected with an unsupported-shape error.
pub fn dispatch(text: &str) -> (r: Result<Decl, TransformError>)
    ensures
        match decl_parse(text@) {
            Some(d) => r matches Ok(dd) && dd@ == d,
            None => r matches Err(e) && e matches TransformError::UnsupportedShape(m) && m@
                == unsupported_msg(),
        },
{
    if let Some(f) = parse_free_fn(text) {
        return Ok(Decl::FreeFn(f));
    }
    if let Some(g) = parse_fn_ptr_sig(text) {
        return Ok(Decl::FnPtrSig(g));
    }
    if let Some(st) = parse_static_binding(text) {
        return Ok(Decl::StaticBinding(st));
    }
    if let Some(a) = parse_type_alias(text) {
        return Ok(Decl::TypeAlias(a));
    }
    Err(TransformError::UnsupportedShape(String::from_str("`has_this` is not supported on this item")))
}

} // verus!
