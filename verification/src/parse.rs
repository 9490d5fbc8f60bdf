use vstd::prelude::*;

use quote::ToTokens;

use crate::model::{
    BareParam, BareParamV, FnPtrSig, FnPtrSigV, FreeFn, FreeFnV, Param, ParamV, StaticBinding,
    StaticBindingV, TypeAlias, TypeAliasV, TypeExpr, TypedParam,
};

verus! {

// ---------------------------------------------------------------------------
// The syntax-tree types of `syn` that the trusted items mention
// ---------------------------------------------------------------------------

#[verifier::external_type_specification]
#[verifier::external_body]
pub struct ExItemFn(syn::ItemFn);

#[verifier::external_type_specification]
#[verifier::external_body]
pub struct ExTypeBareFn(syn::TypeBareFn);

#[verifier::external_type_specification]
#[verifier::external_body]
pub struct ExItemStatic(syn::ItemStatic);

#[verifier::external_type_specification]
#[verifier::external_body]
pub struct ExItemType(syn::ItemType);

#[verifier::external_type_specification]
#[verifier::external_body]
pub struct ExFnArg(syn::FnArg);

#[verifier::external_type_specification]
#[verifier::external_body]
pub struct ExBareFnArg(syn::BareFnArg);

// ---------------------------------------------------------------------------
// Names for what the parses return
// ---------------------------------------------------------------------------

/// What parsing text under the free-function grammar yields: the model of
/// the declaration, or `None` where the text is no free function.
pub uninterp spec fn free_fn_parse(s: Seq<char>) -> Option<FreeFnV>;

/// What parsing text under the bare function-pointer grammar yields.
pub uninterp spec fn fn_ptr_sig_parse(s: Seq<char>) -> Option<FnPtrSigV>;

/// What parsing text under the static-binding grammar yields.
pub uninterp spec fn static_binding_parse(s: Seq<char>) -> Option<StaticBindingV>;

/// What parsing text under the type-alias grammar yields.
pub uninterp spec fn type_alias_parse(s: Seq<char>) -> Option<TypeAliasV>;

/// What parsing a parameter spec under the first grammar (a full function
/// parameter: pattern, colon, type, or a receiver) yields.
pub uninterp spec fn fn_arg_parse(s: Seq<char>) -> Option<ParamV>;

/// What parsing a parameter spec under the second grammar (a bare signature
/// parameter: a type, at most preceded by a plain name) yields.
pub uninterp spec fn bare_fn_arg_parse(s: Seq<char>) -> Option<BareParamV>;

// ---------------------------------------------------------------------------
// Trusted wrappers around `syn` parsing and `quote` printing
// ---------------------------------------------------------------------------

/// Relies on `syn::parse_str::<syn::ItemFn>` to recognize a free function;
/// the pieces around the parameter list are printed with `quote`.
#[verifier::external_body]
pub(crate) fn parse_free_fn(text: &str) -> (r: Option<FreeFn>)
    ensures
        match r {
            Some(f) => free_fn_parse(text@) == Some(f@),
            None => free_fn_parse(text@) is None,
        },
{
    let f: syn::ItemFn = match syn::parse_str(text) {
        Ok(v) => v,
        Err(_) => return None,
    };
    let params: Vec<Param> = f.sig.inputs.iter().map(param_of_arg).collect();
    let variadic = f.sig.variadic.as_ref().map(|v| v.to_token_stream().to_string());
    Some(FreeFn { head: fn_head_text(&f), params, variadic, tail: fn_tail_text(&f) })
}

/// Relies on `syn::parse_str::<syn::TypeBareFn>` to recognize a bare
/// function-pointer signature; the pieces are printed with `quote`.
#[verifier::external_body]
pub(crate) fn parse_fn_ptr_sig(text: &str) -> (r: Option<FnPtrSig>)
    ensures
        match r {
            Some(g) => fn_ptr_sig_parse(text@) == Some(g@),
            None => fn_ptr_sig_parse(text@) is None,
        },
{
    let g: syn::TypeBareFn = match syn::parse_str(text) {
        Ok(v) => v,
        Err(_) => return None,
    };
    Some(sig_of_bare_fn(&g))
}

/// Relies on `syn::parse_str::<syn::ItemStatic>` to recognize a static
/// binding; its value type is told apart by `syn::Type`'s variants, and the
/// pieces are printed with `quote`.
#[verifier::external_body]
pub(crate) fn parse_static_binding(text: &str) -> (r: Option<StaticBinding>)
    ensures
        match r {
            Some(st) => static_binding_parse(text@) == Some(st@),
            None => static_binding_parse(text@) is None,
        },
{
    let st: syn::ItemStatic = match syn::parse_str(text) {
        Ok(v) => v,
        Err(_) => return None,
    };
    let ty = match *st.ty {
        syn::Type::BareFn(ref bf) => TypeExpr::FnPtr(sig_of_bare_fn(bf)),
        ref other => TypeExpr::Other(other.to_token_stream().to_string()),
    };
    Some(StaticBinding { head: static_head_text(&st), ty, tail: static_tail_text(&st) })
}

/// Relies on `syn::parse_str::<syn::ItemType>` to recognize a type alias;
/// the target type is kept as printed text, to be re-read as a
/// function-pointer signature only at insertion time.
#[verifier::external_body]
pub(crate) fn parse_type_alias(text: &str) -> (r: Option<TypeAlias>)
    ensures
        match r {
            Some(a) => type_alias_parse(text@) == Some(a@),
            None => type_alias_parse(text@) is None,
        },
{
    let a: syn::ItemType = match syn::parse_str(text) {
        Ok(v) => v,
        Err(_) => return None,
    };
    let ty = TypeExpr::Other(a.ty.to_token_stream().to_string());
    Some(TypeAlias { head: alias_head_text(&a), ty, tail: a.semi_token.to_token_stream().to_string() })
}

/// Relies on `syn::parse_str::<syn::FnArg>`: the first parameter-spec
/// grammar. A failure carries syn's own diagnostic.
#[verifier::external_body]
pub(crate) fn parse_fn_arg(text: &str) -> (r: Result<Param, String>)
    ensures
        match r {
            Ok(p) => fn_arg_parse(text@) == Some(p@),
            Err(_) => fn_arg_parse(text@) is None,
        },
{
    match syn::parse_str::<syn::FnArg>(text) {
        Ok(a) => Ok(param_of_arg(&a)),
        Err(e) => Err(e.to_string()),
    }
}

/// Relies on `syn::parse_str::<syn::BareFnArg>`: the second parameter-spec
/// grammar. A failure carries syn's own diagnostic.
#[verifier::external_body]
pub(crate) fn parse_bare_fn_arg(text: &str) -> (r: Result<BareParam, String>)
    ensures
        match r {
            Ok(b) => bare_fn_arg_parse(text@) == Some(b@),
            Err(_) => bare_fn_arg_parse(text@) is None,
        },
{
    match syn::parse_str::<syn::BareFnArg>(text) {
        Ok(b) => Ok(bare_param_of_arg(&b)),
        Err(e) => Err(e.to_string()),
    }
}

// ---------------------------------------------------------------------------
// Trusted converters from syntax-tree nodes to the plain-value model
// ---------------------------------------------------------------------------

/// Prints everything of a free function that stands before the parameter
/// parentheses, in the order of syn's own `ItemFn` printing: outer
/// attributes, visibility, constness, asyncness, unsafety, ABI, `fn`, name,
/// generic parameters.
#[verifier::external_body]
fn fn_head_text(f: &syn::ItemFn) -> String {
    let mut ts = proc_macro2::TokenStream::new();
    for a in &f.attrs {
        if matches!(a.style, syn::AttrStyle::Outer) {
            a.to_tokens(&mut ts);
        }
    }
    f.vis.to_tokens(&mut ts);
    f.sig.constness.to_tokens(&mut ts);
    f.sig.asyncness.to_tokens(&mut ts);
    f.sig.unsafety.to_tokens(&mut ts);
    f.sig.abi.to_tokens(&mut ts);
    f.sig.fn_token.to_tokens(&mut ts);
    f.sig.ident.to_tokens(&mut ts);
    f.sig.generics.to_tokens(&mut ts);
    ts.to_string()
}

/// Prints everything of a free function that stands after the closing
/// parenthesis, in the order of syn's own `ItemFn` printing: return type,
/// where clause, and the body block with its inner attributes.
#[verifier::external_body]
fn fn_tail_text(f: &syn::ItemFn) -> String {
    let mut ts = proc_macro2::TokenStream::new();
    f.sig.output.to_tokens(&mut ts);
    f.sig.generics.where_clause.to_tokens(&mut ts);
    f.block.brace_token.surround(&mut ts, |t| {
        for a in &f.attrs {
            if !matches!(a.style, syn::AttrStyle::Outer) {
                a.to_tokens(t);
            }
        }
        for s in &f.block.stmts {
            s.to_tokens(t);
        }
    });
    ts.to_string()
}

/// Converts one parsed parameter of a free function into the model: a
/// receiver keeps its printed text whole; a typed parameter is split into
/// printed attributes, pattern, and type.
#[verifier::external_body]
fn param_of_arg(a: &syn::FnArg) -> Param {
    match a {
        syn::FnArg::Receiver(r) => Param::Receiver(r.to_token_stream().to_string()),
        syn::FnArg::Typed(pt) => Param::Typed(TypedParam {
            attrs: pt.attrs.iter().map(|at| at.to_token_stream().to_string()).collect(),
            name: pt.pat.to_token_stream().to_string(),
            ty: pt.ty.to_token_stream().to_string(),
        }),
    }
}

/// Converts one parsed parameter of a bare function signature into the
/// model: printed attributes, the optional plain name, and the printed type.
#[verifier::external_body]
fn bare_param_of_arg(b: &syn::BareFnArg) -> BareParam {
    BareParam {
        attrs: b.attrs.iter().map(|at| at.to_token_stream().to_string()).collect(),
        name: b.name.as_ref().map(|(id, _)| id.to_string()),
        ty: b.ty.to_token_stream().to_string(),
    }
}

/// Converts a parsed bare function-pointer signature into the model, in the
/// order of syn's own `TypeBareFn` printing: lifetimes, unsafety, ABI and
/// `fn` before the parentheses, the return type after them.
#[verifier::external_body]
fn sig_of_bare_fn(g: &syn::TypeBareFn) -> FnPtrSig {
    let mut head = proc_macro2::TokenStream::new();
    g.lifetimes.to_tokens(&mut head);
    g.unsafety.to_tokens(&mut head);
    g.abi.to_tokens(&mut head);
    g.fn_token.to_tokens(&mut head);
    FnPtrSig {
        head: head.to_string(),
        params: g.inputs.iter().map(bare_param_of_arg).collect(),
        variadic: g.variadic.as_ref().map(|v| v.to_token_stream().to_string()),
        tail: g.output.to_token_stream().to_string(),
    }
}

/// Prints everything of a static binding up to and including the colon, in
/// the order of syn's own `ItemStatic` printing: outer attributes,
/// visibility, `static`, mutability, name, colon.
#[verifier::external_body]
fn static_head_text(st: &syn::ItemStatic) -> String {
    let mut ts = proc_macro2::TokenStream::new();
    for a in &st.attrs {
        if matches!(a.style, syn::AttrStyle::Outer) {
            a.to_tokens(&mut ts);
        }
    }
    st.vis.to_tokens(&mut ts);
    st.static_token.to_tokens(&mut ts);
    st.mutability.to_tokens(&mut ts);
    st.ident.to_tokens(&mut ts);
    st.colon_token.to_tokens(&mut ts);
    ts.to_string()
}

/// Prints everything of a static binding after its value type: the equals
/// sign, the initializer expression, and the semicolon.
#[verifier::external_body]
fn static_tail_text(st: &syn::ItemStatic) -> String {
    let mut ts = proc_macro2::TokenStream::new();
    st.eq_token.to_tokens(&mut ts);
    st.expr.to_tokens(&mut ts);
    st.semi_token.to_tokens(&mut ts);
    ts.to_string()
}

/// Prints everything of a type alias up to and including the equals sign, in
/// the order of syn's own `ItemType` printing: outer attributes, visibility,
/// `type`, name, generic parameters, where clause, equals sign.
#[verifier::external_body]
fn alias_head_text(a: &syn::ItemType) -> String {
    let mut ts = proc_macro2::TokenStream::new();
    for at in &a.attrs {
        if matches!(at.style, syn::AttrStyle::Outer) {
            at.to_tokens(&mut ts);
        }
    }
    a.vis.to_tokens(&mut ts);
    a.type_token.to_tokens(&mut ts);
    a.ident.to_tokens(&mut ts);
    a.generics.to_tokens(&mut ts);
    a.generics.where_clause.to_tokens(&mut ts);
    a.eq_token.to_tokens(&mut ts);
    ts.to_string()
}

} // verus!
