use vstd::prelude::*;

verus! {

/// An input value as handed over by the embedding environment, reduced to
/// the shapes this validator distinguishes. `Str` is a genuine string.
/// `CoercedStr` is a value that is string-shaped only through the permissive
/// path of the shared string-coercion layer (for example a string-like
/// wrapper coerced upstream); strict mode disables that path. The remaining
/// shapes are never string-coercible here, since this validator disallows
/// numeric-to-string coercion.
#[derive(Debug, Clone, PartialEq, Eq)]
pub enum InputValue {
    Str(String),
    CoercedStr(String),
    Int(i64),
    Bool(bool),
    Null,
}

/// The string the shared coercion layer yields for `input` under the
/// strictness `strict`, with numeric-to-string coercion disallowed: a
/// genuine string always coerces to itself, a loosely string-shaped value
/// only in lax mode, and nothing else is string-coercible.
pub open spec fn spec_coerced_str(input: InputValue, strict: bool) -> Option<Seq<char>> {
    match input {
        InputValue::Str(s) => Option::Some(s@),
        InputValue::CoercedStr(s) => if strict {
            Option::None
        } else {
            Option::Some(s@)
        },
        _ => Option::None,
    }
}

impl InputValue {
    /// Coerce this value to a string under `strict`, exactly as
    /// `spec_coerced_str` states it.
    pub fn validate_str(&self, strict: bool) -> (r: Option<&String>)
        ensures
            match r {
                Option::Some(s) => spec_coerced_str(*self, strict) == Option::Some(s@),
                Option::None => spec_coerced_str(*self, strict) matches Option::None,
            },
    {
        match self {
            InputValue::Str(s) => Option::Some(s),
            InputValue::CoercedStr(s) => if strict {
                Option::None
            } else {
                Option::Some(s)
            },
            _ => Option::None,
        }
    }
}

} // verus!
