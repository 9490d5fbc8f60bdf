use vstd::prelude::*;

verus! {

// ---------------------------------------------------------------------------
// The parameter model
// ---------------------------------------------------------------------------

/// A parameter with a binding name: printed attribute texts, the printed
/// binding pattern, and the printed type. A type is always present; a
/// parameter without one is not constructible.
pub struct TypedParam {
    pub attrs: Vec<String>,
    pub name: String,
    pub ty: String,
}

/// Mathematical model of `TypedParam`.
pub struct TypedParamV {
    pub attrs: Seq<Seq<char>>,
    pub name: Seq<char>,
    pub ty: Seq<char>,
}

impl View for TypedParam {
    type V = TypedParamV;

    open spec fn view(&self) -> TypedParamV {
        TypedParamV {
            attrs: self.attrs@.map_values(|a: String| a@),
            name: self.name@,
            ty: self.ty@,
        }
    }
}

/// One parameter of a free function: either a receiver (`self` in one of its
/// printed forms, kept whole) or a named, typed parameter.
pub enum Param {
    Receiver(String),
    Typed(TypedParam),
}

/// Mathematical model of `Param`.
pub enum ParamV {
    Receiver(Seq<char>),
    Typed(TypedParamV),
}

impl View for Param {
    type V = ParamV;

    open spec fn view(&self) -> ParamV {
        match *self {
            Param::Receiver(ref s) => ParamV::Receiver(s@),
            Param::Typed(ref t) => ParamV::Typed(t@),
        }
    }
}

/// A parameter of a bare function signature: no binding pattern can stand
/// here, only an optional plain name next to the type.
pub struct BareParam {
    pub attrs: Vec<String>,
    pub name: Option<String>,
    pub ty: String,
}

/// Mathematical model of `BareParam`.
pub struct BareParamV {
    pub attrs: Seq<Seq<char>>,
    pub name: Option<Seq<char>>,
    pub ty: Seq<char>,
}

impl View for BareParam {
    type V = BareParamV;

    open spec fn view(&self) -> BareParamV {
        BareParamV {
            attrs: self.attrs@.map_values(|a: String| a@),
            name: match self.name {
                Some(ref n) => Some(n@),
                None => None,
            },
            ty: self.ty@,
        }
    }
}

/// The lossy projection of a named parameter into the unnamed form required
/// inside a bare function signature: the binding name is dropped, type and
/// attributes are kept.
pub open spec fn bare_of(t: TypedParamV) -> BareParamV {
    BareParamV { attrs: t.attrs, name: None, ty: t.ty }
}

impl TypedParam {
    /// Projects this parameter into the unnamed form of a bare function
    /// signature, dropping the name and keeping type and attributes.
    pub fn into_bare(self) -> (r: BareParam)
        ensures
            r@ == bare_of(self@),
    {
        BareParam { attrs: self.attrs, name: None, ty: self.ty }
    }
}

// ---------------------------------------------------------------------------
// The four declaration shapes
// ---------------------------------------------------------------------------

/// A free function: the printed text before the parameter parentheses, the
/// parameters, an optional printed variadic argument, and the printed text
/// after the closing parenthesis (return type, where clause, body).
pub struct FreeFn {
    pub head: String,
    pub params: Vec<Param>,
    pub variadic: Option<String>,
    pub tail: String,
}

/// Mathematical model of `FreeFn`.
pub struct FreeFnV {
    pub head: Seq<char>,
    pub params: Seq<ParamV>,
    pub variadic: Option<Seq<char>>,
    pub tail: Seq<char>,
}

impl View for FreeFn {
    type V = FreeFnV;

    open spec fn view(&self) -> FreeFnV {
        FreeFnV {
            head: self.head@,
            params: self.params@.map_values(|p: Param| p@),
            variadic: match self.variadic {
                Some(ref v) => Some(v@),
                None => None,
            },
            tail: self.tail@,
        }
    }
}

/// A bare function-pointer type signature, such as `fn(i32) -> bool`: the
/// printed text before the parentheses (lifetimes, unsafety, ABI, `fn`), the
/// unnamed-capable parameters, an optional printed variadic argument, and the
/// printed return type.
pub struct FnPtrSig {
    pub head: String,
    pub params: Vec<BareParam>,
    pub variadic: Option<String>,
    pub tail: String,
}

/// Mathematical model of `FnPtrSig`.
pub struct FnPtrSigV {
    pub head: Seq<char>,
    pub params: Seq<BareParamV>,
    pub variadic: Option<Seq<char>>,
    pub tail: Seq<char>,
}

impl View for FnPtrSig {
    type V = FnPtrSigV;

    open spec fn view(&self) -> FnPtrSigV {
        FnPtrSigV {
            head: self.head@,
            params: self.params@.map_values(|p: BareParam| p@),
            variadic: match self.variadic {
                Some(ref v) => Some(v@),
                None => None,
            },
            tail: self.tail@,
        }
    }
}

/// A type expression as it stands in a static binding or a type alias:
/// either a bare function-pointer signature, or any other type kept as its
/// printed text.
pub enum TypeExpr {
    FnPtr(FnPtrSig),
    Other(String),
}

/// Mathematical model of `TypeExpr`.
pub enum TypeExprV {
    FnPtr(FnPtrSigV),
    Other(Seq<char>),
}

impl View for TypeExpr {
    type V = TypeExprV;

    open spec fn view(&self) -> TypeExprV {
        match *self {
            TypeExpr::FnPtr(ref s) => TypeExprV::FnPtr(s@),
            TypeExpr::Other(ref t) => TypeExprV::Other(t@),
        }
    }
}

/// A static binding: the printed text up to and including the colon, the
/// value type, and the printed text from the equals sign on.
pub struct StaticBinding {
    pub head: String,
    pub ty: TypeExpr,
    pub tail: String,
}

/// Mathematical model of `StaticBinding`.
pub struct StaticBindingV {
    pub head: Seq<char>,
    pub ty: TypeExprV,
    pub tail: Seq<char>,
}

impl View for StaticBinding {
    type V = StaticBindingV;

    open spec fn view(&self) -> StaticBindingV {
        StaticBindingV { head: self.head@, ty: self.ty@, tail: self.tail@ }
    }
}

/// A type alias: the printed text up to and including the equals sign, the
/// target type, and the closing semicolon. The target type arrives parsed
/// generically and is re-read as a function-pointer signature only at
/// insertion time.
pub struct TypeAlias {
    pub head: String,
    pub ty: TypeExpr,
    pub tail: String,
}

/// Mathematical model of `TypeAlias`.
pub struct TypeAliasV {
    pub head: Seq<char>,
    pub ty: TypeExprV,
    pub tail: Seq<char>,
}

impl View for TypeAlias {
    type V = TypeAliasV;

    open spec fn view(&self) -> TypeAliasV {
        TypeAliasV { head: self.head@, ty: self.ty@, tail: self.tail@ }
    }
}

/// The closed union of the four supported declaration shapes, selected once
/// per invocation from the input text.
pub enum Decl {
    FreeFn(FreeFn),
    FnPtrSig(FnPtrSig),
    StaticBinding(StaticBinding),
    TypeAlias(TypeAlias),
}

/// Mathematical model of `Decl`.
pub enum DeclV {
    FreeFn(FreeFnV),
    FnPtrSig(FnPtrSigV),
    StaticBinding(StaticBindingV),
    TypeAlias(TypeAliasV),
}

impl View for Decl {
    type V = DeclV;

    open spec fn view(&self) -> DeclV {
        match *self {
            Decl::FreeFn(ref f) => DeclV::FreeFn(f@),
            Decl::FnPtrSig(ref s) => DeclV::FnPtrSig(s@),
            Decl::StaticBinding(ref st) => DeclV::StaticBinding(st@),
            Decl::TypeAlias(ref a) => DeclV::TypeAlias(a@),
        }
    }
}

} // verus!
