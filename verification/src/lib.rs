//! Inserts one new leading parameter into a callable declaration.
//!
//! Given the text of a free function, a bare function-pointer type signature,
//! a static binding of function-pointer type, or a type alias for one, the
//! library splices one parameter at the front of that callable's parameter
//! list and prints the declaration back to text. Recognizing Rust syntax and
//! printing syntax-tree nodes is delegated to the `syn` and `quote` crates;
//! every decision the library itself makes is specified and verified.

pub mod dispatch;
pub mod errors;
pub mod insert;
pub mod laws;
pub mod model;
pub mod param_spec;
pub mod parse;
pub mod render;

use vstd::prelude::*;

use crate::dispatch::{decl_parse, dispatch};
use crate::errors::{unsupported_msg, usage_many_msg, usage_zero_msg, TransformError};
use crate::insert::insert_result;
use crate::param_spec::{param_spec_parse, parse_param_spec};
use crate::render::{print_decl, render_decl};

verus! {

/// The whole operation: validate the configuration arguments, read one
/// parameter from them, read the declaration text as the first matching
/// shape, insert the parameter at the front of its parameter list, and print
/// the mutated declaration back to text. Any failure aborts the operation;
/// no partial output is ever produced.
pub fn has_this(args: &Vec<String>, input: &str) -> (r: Result<String, TransformError>)
    ensures
        args@.len() == 0 ==> (r matches Err(e) && e matches TransformError::Usage(m) && m@
            == usage_zero_msg()),
        args@.len() > 1 ==> (r matches Err(e) && e matches TransformError::Usage(m) && m@
            == usage_many_msg()),
        args@.len() == 1 ==> match param_spec_parse(args@[0]@) {
            None => r matches Err(e) && e is Parse,
            Some(p) => match decl_parse(input@) {
                None => r matches Err(e) && e matches TransformError::UnsupportedShape(m) && m@
                    == unsupported_msg(),
                Some(d) => match insert_result(d, p) {
                    Err(msg) => r matches Err(e) && e matches TransformError::InvalidShape(m)
                        && m@ == msg,
                    Ok(d2) => r matches Ok(out) && out@ == render_decl(d2),
                },
            },
        },
{
    if args.len() == 0 {
        return Err(
            TransformError::Usage(
                String::from_str("exactly one configuration argument is required"),
            ),
        );
    }
    if args.len() > 1 {
        return Err(
            TransformError::Usage(
                String::from_str("at most one configuration argument is permitted"),
            ),
        );
    }
    let param = match parse_param_spec(args[0].as_str()) {
        Ok(p) => p,
        Err(e) => {
            return Err(e);
        },
    };
    let decl = match dispatch(input) {
        Ok(d) => d,
        Err(e) => {
            return Err(e);
        },
    };
    let mutated = match decl.insert_leading(param) {
        Ok(d) => d,
        Err(e) => {
            return Err(e);
        },
    };
    Ok(print_decl(&mutated))
}

} // verus!
