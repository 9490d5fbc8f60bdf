use vstd::prelude::*;

verus! {

/// Message of the usage error reported when no configuration argument is
/// supplied.
pub open spec fn usage_zero_msg() -> Seq<char> {
    "exactly one configuration argument is required"@
}

/// Message of the usage error reported when more than one configuration
/// argument is supplied.
pub open spec fn usage_many_msg() -> Seq<char> {
    "at most one configuration argument is permitted"@
}

/// Message reported when the declaration text matches none of the four
/// supported shapes.
pub open spec fn unsupported_msg() -> Seq<char> {
    "`has_this` is not supported on this item"@
}

/// Guidance reported when a parameter denoting a receiver (`self`) would
/// have to appear inside a bare function signature, where it has no meaning.
pub open spec fn receiver_msg() -> Seq<char> {
    "`self` parameter is only allowed in associated functions"@
}

/// Guidance reported when a static binding or type alias does not carry a
/// bare function-pointer type.
pub open spec fn bare_only_msg() -> Seq<char> {
    "Only bare function types are supported, please use the macro on a type alias instead"@
}

/// A fatal failure of the transformation. Every failure aborts the whole
/// operation; no partial output is ever produced.
#[derive(Debug)]
pub enum TransformError {
    /// Wrong number of configuration arguments.
    Usage(String),
    /// The configuration text matches neither parameter grammar; carries the
    /// diagnostics of both attempts, in the order they were tried.
    Parse(String, String),
    /// The declaration text matches none of the four supported shapes.
    UnsupportedShape(String),
    /// The declaration matched a shape syntactically but fails a semantic
    /// precondition; carries actionable guidance.
    InvalidShape(String),
}

impl TransformError {
    /// The human-readable message carried by the error; for a parse error,
    /// both grammar diagnostics separated by a newline.
    pub fn message(&self) -> (r: String)
        ensures
            match *self {
                TransformError::Usage(ref m) => r@ == m@,
                TransformError::Parse(ref a, ref b) => r@ == a@ + "\n"@ + b@,
                TransformError::UnsupportedShape(ref m) => r@ == m@,
                TransformError::InvalidShape(ref m) => r@ == m@,
            },
    {
        match self {
            TransformError::Usage(m) => String::from_str(m.as_str()),
            TransformError::Parse(a, b) => {
                let mut r = String::from_str(a.as_str());
                r.append("\n");
                r.append(b.as_str());
                r
            },
            TransformError::UnsupportedShape(m) => String::from_str(m.as_str()),
            TransformError::InvalidShape(m) => String::from_str(m.as_str()),
        }
    }
}

} // verus!
