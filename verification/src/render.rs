use vstd::prelude::*;

use crate::model::{
    BareParam, BareParamV, Decl, DeclV, FnPtrSig, FnPtrSigV, FreeFn, FreeFnV, Param, ParamV,
    StaticBinding, StaticBindingV, TypeAlias, TypeAliasV, TypeExpr, TypeExprV, TypedParamV,
};

verus! {

// ---------------------------------------------------------------------------
// What the printed text of each model is
// ---------------------------------------------------------------------------

/// The printed attributes of a parameter: each attribute text followed by one
/// space.
pub open spec fn render_attrs(attrs: Seq<Seq<char>>) -> Seq<char>
    decreases attrs.len(),
{
    if attrs.len() == 0 {
        Seq::<char>::empty()
    } else {
        render_attrs(attrs.drop_last()) + attrs.last() + " "@
    }
}

/// The printed form of a named parameter: attributes, name, `: `, type.
pub open spec fn render_typed(t: TypedParamV) -> Seq<char> {
    render_attrs(t.attrs) + t.name + ": "@ + t.ty
}

/// The printed form of one parameter of a free function.
pub open spec fn render_param(p: ParamV) -> Seq<char> {
    match p {
        ParamV::Receiver(s) => s,
        ParamV::Typed(t) => render_typed(t),
    }
}

/// The printed form of one parameter of a bare function signature:
/// attributes, the optional name followed by `: `, and the type.
pub open spec fn render_bare_param(b: BareParamV) -> Seq<char> {
    render_attrs(b.attrs) + (match b.name {
        Some(n) => n + ": "@,
        None => Seq::<char>::empty(),
    }) + b.ty
}

/// The parameters of a free function, separated by `, `.
pub open spec fn render_params(ps: Seq<ParamV>) -> Seq<char>
    decreases ps.len(),
{
    if ps.len() == 0 {
        Seq::<char>::empty()
    } else if ps.len() == 1 {
        render_param(ps[0])
    } else {
        render_params(ps.drop_last()) + ", "@ + render_param(ps.last())
    }
}

/// The parameters of a bare function signature, separated by `, `.
pub open spec fn render_bare_params(ps: Seq<BareParamV>) -> Seq<char>
    decreases ps.len(),
{
    if ps.len() == 0 {
        Seq::<char>::empty()
    } else if ps.len() == 1 {
        render_bare_param(ps[0])
    } else {
        render_bare_params(ps.drop_last()) + ", "@ + render_bare_param(ps.last())
    }
}

/// A parenthesized argument list: the rendered parameters, then the variadic
/// argument if there is one, preceded by `, ` unless it stands alone.
pub open spec fn render_arg_list(
    params: Seq<char>,
    params_empty: bool,
    variadic: Option<Seq<char>>,
) -> Seq<char> {
    "("@ + params + (match variadic {
        Some(v) => if params_empty {
            v
        } else {
            ", "@ + v
        },
        None => Seq::<char>::empty(),
    }) + ")"@
}

/// A declaration tail, separated from the closing parenthesis by one space
/// unless it is empty.
pub open spec fn render_tail(t: Seq<char>) -> Seq<char> {
    if t.len() == 0 {
        t
    } else {
        " "@ + t
    }
}

/// The printed form of a free function.
pub open spec fn render_free_fn(f: FreeFnV) -> Seq<char> {
    f.head + render_arg_list(render_params(f.params), f.params.len() == 0, f.variadic)
        + render_tail(f.tail)
}

/// The printed form of a bare function-pointer signature.
pub open spec fn render_sig(g: FnPtrSigV) -> Seq<char> {
    g.head + render_arg_list(render_bare_params(g.params), g.params.len() == 0, g.variadic)
        + render_tail(g.tail)
}

/// The printed form of a type expression.
pub open spec fn render_type_expr(te: TypeExprV) -> Seq<char> {
    match te {
        TypeExprV::FnPtr(g) => render_sig(g),
        TypeExprV::Other(t) => t,
    }
}

/// The printed form of a static binding.
pub open spec fn render_static(st: StaticBindingV) -> Seq<char> {
    st.head + " "@ + render_type_expr(st.ty) + " "@ + st.tail
}

/// The printed form of a type alias.
pub open spec fn render_alias(a: TypeAliasV) -> Seq<char> {
    a.head + " "@ + render_type_expr(a.ty) + " "@ + a.tail
}

/// The printed form of a declaration.
pub open spec fn render_decl(d: DeclV) -> Seq<char> {
    match d {
        DeclV::FreeFn(f) => render_free_fn(f),
        DeclV::FnPtrSig(g) => render_sig(g),
        DeclV::StaticBinding(st) => render_static(st),
        DeclV::TypeAlias(a) => render_alias(a),
    }
}

// ---------------------------------------------------------------------------
// Executable printing
// ---------------------------------------------------------------------------

/// Prints the attributes of a parameter, each followed by one space.
pub fn print_attrs(attrs: &Vec<String>) -> (r: String)
    ensures
        r@ == render_attrs(attrs@.map_values(|a: String| a@)),
{
    let ghost attrs_v = attrs@.map_values(|a: String| a@);
    let mut r = String::new();
    for i in 0..attrs.len()
        invariant
            attrs_v.len() == attrs@.len(),
            forall|j: int| 0 <= j < attrs@.len() ==> attrs_v[j] == attrs@[j]@,
            r@ == render_attrs(attrs_v.take(i as int)),
    {
        r.append(attrs[i].as_str());
        r.append(" ");
        proof {
            assert(attrs_v.take(i + 1 as int).drop_last() =~= attrs_v.take(i as int));
        }
    }
    proof {
        assert(attrs_v.take(attrs@.len() as int) =~= attrs_v);
    }
    r
}

/// Prints one parameter of a free function.
pub fn print_param(p: &Param) -> (r: String)
    ensures
        r@ == render_param(p@),
{
    match p {
        Param::Receiver(s) => String::from_str(s.as_str()),
        Param::Typed(t) => {
            let mut r = print_attrs(&t.attrs);
            r.append(t.name.as_str());
            r.append(": ");
            r.append(t.ty.as_str());
            r
        },
    }
}

/// Prints one parameter of a bare function signature.
pub fn print_bare_param(b: &BareParam) -> (r: String)
    ensures
        r@ == render_bare_param(b@),
{
    let mut r = print_attrs(&b.attrs);
    match b.name {
        Some(ref n) => {
            r.append(n.as_str());
            r.append(": ");
        },
        None => {},
    }
    r.append(b.ty.as_str());
    r
}

/// Prints the parameters of a free function, separated by `, `.
pub fn print_params(ps: &Vec<Param>) -> (r: String)
    ensures
        r@ == render_params(ps@.map_values(|p: Param| p@)),
{
    let ghost ps_v = ps@.map_values(|p: Param| p@);
    let mut r = String::new();
    for i in 0..ps.len()
        invariant
            ps_v.len() == ps@.len(),
            forall|j: int| 0 <= j < ps@.len() ==> ps_v[j] == ps@[j]@,
            r@ == render_params(ps_v.take(i as int)),
    {
        if i != 0 {
            r.append(", ");
        }
        let t = print_param(&ps[i]);
        r.append(t.as_str());
        proof {
            assert(ps_v.take(i + 1 as int).drop_last() =~= ps_v.take(i as int));
        }
    }
    proof {
        assert(ps_v.take(ps@.len() as int) =~= ps_v);
    }
    r
}

/// Prints the parameters of a bare function signature, separated by `, `.
pub fn print_bare_params(ps: &Vec<BareParam>) -> (r: String)
    ensures
        r@ == render_bare_params(ps@.map_values(|p: BareParam| p@)),
{
    let ghost ps_v = ps@.map_values(|p: BareParam| p@);
    let mut r = String::new();
    for i in 0..ps.len()
        invariant
            ps_v.len() == ps@.len(),
            forall|j: int| 0 <= j < ps@.len() ==> ps_v[j] == ps@[j]@,
            r@ == render_bare_params(ps_v.take(i as int)),
    {
        if i != 0 {
            r.append(", ");
        }
        let t = print_bare_param(&ps[i]);
        r.append(t.as_str());
        proof {
            assert(ps_v.take(i + 1 as int).drop_last() =~= ps_v.take(i as int));
        }
    }
    proof {
        assert(ps_v.take(ps@.len() as int) =~= ps_v);
    }
    r
}

/// Appends a parenthesized argument list to `r`.
fn append_arg_list(r: &mut String, params: &String, params_empty: bool, variadic: &Option<String>)
    ensures
        final(r)@ == old(r)@ + render_arg_list(
            params@,
            params_empty,
            match *variadic {
                Some(ref v) => Some(v@),
                None => None::<Seq<char>>,
            },
        ),
{
    r.append("(");
    r.append(params.as_str());
    match variadic {
        Some(v) => {
            if !params_empty {
                r.append(", ");
            }
            r.append(v.as_str());
        },
        None => {},
    }
    r.append(")");
}

/// Appends a declaration tail to `r`, separated by one space unless empty.
fn append_tail(r: &mut String, tail: &String)
    ensures
        final(r)@ == old(r)@ + render_tail(tail@),
{
    if tail.unicode_len() != 0 {
        r.append(" ");
        r.append(tail.as_str());
    }
}

/// Prints a free function back to text.
pub fn print_free_fn(f: &FreeFn) -> (r: String)
    ensures
        r@ == render_free_fn(f@),
{
    let mut r = String::from_str(f.head.as_str());
    let params = print_params(&f.params);
    append_arg_list(&mut r, &params, f.params.len() == 0, &f.variadic);
    append_tail(&mut r, &f.tail);
    r
}

/// Prints a bare function-pointer signature back to text.
pub fn print_sig(g: &FnPtrSig) -> (r: String)
    ensures
        r@ == render_sig(g@),
{
    let mut r = String::from_str(g.head.as_str());
    let params = print_bare_params(&g.params);
    append_arg_list(&mut r, &params, g.params.len() == 0, &g.variadic);
    append_tail(&mut r, &g.tail);
    r
}

/// Prints a type expression back to text.
pub fn print_type_expr(te: &TypeExpr) -> (r: String)
    ensures
        r@ == render_type_expr(te@),
{
    match te {
        TypeExpr::FnPtr(g) => print_sig(g),
        TypeExpr::Other(t) => String::from_str(t.as_str()),
    }
}

/// Prints a static binding back to text.
pub fn print_static(st: &StaticBinding) -> (r: String)
    ensures
        r@ == render_static(st@),
{
    let mut r = String::from_str(st.head.as_str());
    r.append(" ");
    let ty = print_type_expr(&st.ty);
    r.append(ty.as_str());
    r.append(" ");
    r.append(st.tail.as_str());
    r
}

/// Prints a type alias back to text.
pub fn print_alias(a: &TypeAlias) -> (r: String)
    ensures
        r@ == render_alias(a@),
{
    let mut r = String::from_str(a.head.as_str());
    r.append(" ");
    let ty = print_type_expr(&a.ty);
    r.append(ty.as_str());
    r.append(" ");
    r.append(a.tail.as_str());
    r
}

/// Prints a declaration back to text.
pub fn print_decl(d: &Decl) -> (r: String)
    ensures
        r@ == render_decl(d@),
{
    match d {
        Decl::FreeFn(f) => print_free_fn(f),
        Decl::FnPtrSig(g) => print_sig(g),
        Decl::StaticBinding(st) => print_static(st),
        Decl::TypeAlias(a) => print_alias(a),
    }
}

} // verus!
