use has_this::errors::TransformError;

fn args(xs: &[&str]) -> Vec<String> {
    xs.iter().map(|s| s.to_string()).collect()
}

#[test]
fn free_fn_insert_named_param() {
    let r = has_this::has_this(&args(&["this: *mut c_void"]), "fn f(x: i32) {}");
    assert_eq!(r.unwrap(), "fn f(this: * mut c_void, x: i32) { }");
}

#[test]
fn free_fn_insert_into_empty_list() {
    let r = has_this::has_this(&args(&["t: i32"]), "fn f() {}");
    assert_eq!(r.unwrap(), "fn f(t: i32) { }");
}

#[test]
fn free_fn_accepts_receiver() {
    let r = has_this::has_this(&args(&["&mut self"]), "fn f(x: i32) {}");
    assert_eq!(r.unwrap(), "fn f(& mut self, x: i32) { }");
}

#[test]
fn free_fn_body_and_return_type_unchanged() {
    let r = has_this::has_this(
        &args(&["this: *mut c_void"]),
        "pub fn add(a: u32, b: u32) -> u32 { a + b }",
    );
    assert_eq!(r.unwrap(), "pub fn add(this: * mut c_void, a: u32, b: u32) -> u32 { a + b }");
}

#[test]
fn sig_insert_drops_defaulted_name() {
    let r = has_this::has_this(&args(&["*mut c_void"]), "fn(i32) -> bool");
    assert_eq!(r.unwrap(), "fn(* mut c_void, i32) -> bool");
}

#[test]
fn sig_insert_drops_given_name() {
    let r = has_this::has_this(&args(&["this: *mut c_void"]), "fn(i32) -> bool");
    assert_eq!(r.unwrap(), "fn(* mut c_void, i32) -> bool");
}

#[test]
fn sig_keeps_existing_parameter_names() {
    let r = has_this::has_this(&args(&["*mut c_void"]), "fn(x: i32)");
    assert_eq!(r.unwrap(), "fn(* mut c_void, x: i32)");
}

#[test]
fn sig_keeps_variadic_argument() {
    let r = has_this::has_this(&args(&["*mut c_void"]), "fn(i32, ...)");
    assert_eq!(r.unwrap(), "fn(* mut c_void, i32, ...)");
}

#[test]
fn sig_keeps_attributes_of_projected_param() {
    let r = has_this::has_this(&args(&["#[cfg(test)] y: i32"]), "fn(i32)");
    assert_eq!(r.unwrap(), "fn(# [cfg (test)] i32, i32)");
}

#[test]
fn sig_rejects_receiver() {
    let e = has_this::has_this(&args(&["self"]), "fn(i32)").unwrap_err();
    match &e {
        TransformError::InvalidShape(_) => {}
        other => panic!("expected InvalidShape, got {:?}", other),
    }
    assert_eq!(e.message(), "`self` parameter is only allowed in associated functions");
}

#[test]
fn static_insert_into_fn_ptr_type() {
    let r = has_this::has_this(&args(&["*mut c_void"]), "static F: fn(i32) = f;");
    assert_eq!(r.unwrap(), "static F : fn(* mut c_void, i32) = f ;");
}

#[test]
fn static_rejects_receiver() {
    let e = has_this::has_this(&args(&["self"]), "static F: fn(i32) = f;").unwrap_err();
    assert_eq!(e.message(), "`self` parameter is only allowed in associated functions");
}

#[test]
fn static_rejects_plain_pointer_type() {
    let e = has_this::has_this(&args(&["*mut c_void"]), "static X: *mut i32 = p;").unwrap_err();
    match &e {
        TransformError::InvalidShape(_) => {}
        other => panic!("expected InvalidShape, got {:?}", other),
    }
    assert_eq!(
        e.message(),
        "Only bare function types are supported, please use the macro on a type alias instead"
    );
}

#[test]
fn alias_insert_drops_name_in_signature() {
    let r = has_this::has_this(&args(&["this: *mut c_void"]), "type F = fn(i32);");
    assert_eq!(r.unwrap(), "type F = fn(* mut c_void, i32) ;");
}

#[test]
fn alias_rejects_receiver() {
    let e = has_this::has_this(&args(&["self"]), "type F = fn(i32);").unwrap_err();
    assert_eq!(e.message(), "`self` parameter is only allowed in associated functions");
}

#[test]
fn alias_rejects_plain_pointer_type() {
    let e = has_this::has_this(&args(&["*mut c_void"]), "type P = *mut i32;").unwrap_err();
    assert_eq!(
        e.message(),
        "Only bare function types are supported, please use the macro on a type alias instead"
    );
}

#[test]
fn two_arguments_are_a_usage_error() {
    let e = has_this::has_this(&args(&["a: i32", "b: i32"]), "fn f(x: i32) {}").unwrap_err();
    match &e {
        TransformError::Usage(_) => {}
        other => panic!("expected Usage, got {:?}", other),
    }
    assert_eq!(e.message(), "at most one configuration argument is permitted");
}

#[test]
fn zero_arguments_are_a_usage_error() {
    let e = has_this::has_this(&args(&[]), "fn f(x: i32) {}").unwrap_err();
    match &e {
        TransformError::Usage(_) => {}
        other => panic!("expected Usage, got {:?}", other),
    }
    assert_eq!(e.message(), "exactly one configuration argument is required");
}

#[test]
fn bad_spec_is_a_parse_error_with_both_diagnostics() {
    let e = has_this::has_this(&args(&["???"]), "fn f(x: i32) {}").unwrap_err();
    match &e {
        TransformError::Parse(first, second) => {
            assert!(!first.is_empty());
            assert!(!second.is_empty());
            assert_eq!(e.message(), format!("{}\n{}", first, second));
        }
        other => panic!("expected Parse, got {:?}", other),
    }
}

#[test]
fn unsupported_text_is_rejected() {
    let e = has_this::has_this(&args(&["t: i32"]), "struct S;").unwrap_err();
    match &e {
        TransformError::UnsupportedShape(_) => {}
        other => panic!("expected UnsupportedShape, got {:?}", other),
    }
    assert_eq!(e.message(), "`has_this` is not supported on this item");
}

#[test]
fn fn_without_body_is_unsupported() {
    let e = has_this::has_this(&args(&["t: i32"]), "fn f(x: i32)").unwrap_err();
    match &e {
        TransformError::UnsupportedShape(_) => {}
        other => panic!("expected UnsupportedShape, got {:?}", other),
    }
}
