use has_this::dispatch::dispatch;
use has_this::model::{Decl, Param};
use has_this::param_spec::parse_param_spec;
use has_this::render::print_decl;

// Lexes the text (proving it still is a valid token stream) and drops the
// spacing the printer chose: the comparison is equivalence modulo whitespace.
fn norm(s: &str) -> String {
    s.parse::<proc_macro2::TokenStream>().unwrap().to_string().replace(' ', "")
}

fn reprint(s: &str) -> String {
    print_decl(&dispatch(s).unwrap())
}

#[test]
fn reprint_free_fn_is_token_equivalent() {
    let input = "pub fn add<T>(a: T, b: u32) -> u32 where T: Into<u32> { a.into() + b }";
    assert_eq!(norm(&reprint(input)), norm(input));
}

#[test]
fn reprint_attributed_fn_is_token_equivalent() {
    let input = "#[inline] unsafe extern \"C\" fn cb(x: *mut i32) { *x = 0; }";
    assert_eq!(norm(&reprint(input)), norm(input));
}

#[test]
fn reprint_fn_ptr_sig_is_token_equivalent() {
    let input = "unsafe extern \"C\" fn(x: i32, ...) -> bool";
    assert_eq!(norm(&reprint(input)), norm(input));
}

#[test]
fn reprint_static_is_token_equivalent() {
    let input = "pub static mut HANDLER: fn(i32) -> i32 = dflt;";
    assert_eq!(norm(&reprint(input)), norm(input));
}

#[test]
fn reprint_static_with_plain_type_is_token_equivalent() {
    let input = "static LIMIT: usize = 10;";
    assert_eq!(norm(&reprint(input)), norm(input));
}

#[test]
fn reprint_alias_is_token_equivalent() {
    let input = "pub type Callback = fn(i32) -> bool;";
    assert_eq!(norm(&reprint(input)), norm(input));
}

#[test]
fn reprint_alias_with_plain_type_is_token_equivalent() {
    let input = "type P = *mut i32;";
    assert_eq!(norm(&reprint(input)), norm(input));
}

#[test]
fn reprint_keeps_inner_attributes_of_a_body() {
    let input = "fn f() { #![allow(dead_code)] let x = 1; }";
    assert_eq!(norm(&reprint(input)), norm(input));
}

#[test]
fn dispatch_reads_each_shape_as_its_own_variant() {
    assert!(matches!(dispatch("fn f() {}").unwrap(), Decl::FreeFn(_)));
    assert!(matches!(dispatch("fn(i32)").unwrap(), Decl::FnPtrSig(_)));
    assert!(matches!(dispatch("static F: fn(i32) = f;").unwrap(), Decl::StaticBinding(_)));
    assert!(matches!(dispatch("type F = fn(i32);").unwrap(), Decl::TypeAlias(_)));
}

#[test]
fn spec_with_name_keeps_the_name() {
    match parse_param_spec("ctx: *mut c_void").unwrap() {
        Param::Typed(t) => {
            assert_eq!(t.name, "ctx");
            assert_eq!(t.ty, "* mut c_void");
            assert!(t.attrs.is_empty());
        }
        Param::Receiver(_) => panic!("expected a typed parameter"),
    }
}

#[test]
fn spec_without_name_defaults_to_this() {
    match parse_param_spec("*mut c_void").unwrap() {
        Param::Typed(t) => {
            assert_eq!(t.name, "this");
            assert_eq!(t.ty, "* mut c_void");
        }
        Param::Receiver(_) => panic!("expected a typed parameter"),
    }
}

#[test]
fn spec_reading_a_receiver_yields_a_receiver() {
    match parse_param_spec("&mut self").unwrap() {
        Param::Receiver(text) => assert_eq!(text, "& mut self"),
        Param::Typed(_) => panic!("expected a receiver"),
    }
}
