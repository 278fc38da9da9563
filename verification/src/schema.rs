use vstd::prelude::*;

verus! {

/// A value attached to a key of a declarative schema or of the ambient
/// configuration.
#[derive(Debug, Clone, PartialEq, Eq)]
pub enum ConfigValue {
    Bool(bool),
    Int(i64),
    Str(String),
}

/// The error a schema build surfaces: a key this validator reads held a
/// value of the wrong type.
#[derive(Debug, Clone, Copy, PartialEq, Eq)]
pub enum SchemaError {
    WrongType,
}

/// The slice of a declarative schema (or of the ambient configuration) that
/// this validator reads: each field holds the value found under the key of
/// the same name, or `None` where the key is absent. Keys this validator
/// does not read are not represented.
#[derive(Debug, Clone, PartialEq, Eq)]
pub struct Schema {
    pub strict: Option<ConfigValue>,
    pub allow_smtputf8: Option<ConfigValue>,
    pub allow_empty_local: Option<ConfigValue>,
    pub allow_quoted_local: Option<ConfigValue>,
    pub allow_domain_literal: Option<ConfigValue>,
    pub deliverable_address: Option<ConfigValue>,
}

impl Schema {
    /// A schema slice with every key absent.
    pub fn empty() -> (s: Schema)
        ensures
            s.strict matches Option::None,
            s.allow_smtputf8 matches Option::None,
            s.allow_empty_local matches Option::None,
            s.allow_quoted_local matches Option::None,
            s.allow_domain_literal matches Option::None,
            s.deliverable_address matches Option::None,
    {
        Schema {
            strict: Option::None,
            allow_smtputf8: Option::None,
            allow_empty_local: Option::None,
            allow_quoted_local: Option::None,
            allow_domain_literal: Option::None,
            deliverable_address: Option::None,
        }
    }
}

/// Whether an entry can be read as an optional boolean flag: the key is
/// absent, or its value is a boolean.
pub open spec fn entry_is_bool(entry: Option<ConfigValue>) -> bool {
    match entry {
        Option::None => true,
        Option::Some(v) => v matches ConfigValue::Bool(_),
    }
}

/// The flag an optional boolean entry denotes: an absent key defaults to
/// `false`.
pub open spec fn spec_flag(entry: Option<ConfigValue>) -> bool {
    match entry {
        Option::Some(ConfigValue::Bool(b)) => b,
        _ => false,
    }
}

/// The ambient configuration as a spec value: `None` where none was given.
pub open spec fn spec_config(config: Option<&Schema>) -> Option<Schema> {
    match config {
        Option::Some(c) => Option::Some(*c),
        Option::None => Option::None,
    }
}

/// Whether reading the strictness policy cannot fail: the schema's own
/// `strict` value, where present, is a boolean; where absent, the ambient
/// configuration's `strict` entry is absent or a boolean.
pub open spec fn strict_entries_well_typed(schema: Schema, config: Option<Schema>) -> bool {
    match schema.strict {
        Option::Some(v) => v matches ConfigValue::Bool(_),
        Option::None => match config {
            Option::Some(c) => entry_is_bool(c.strict),
            Option::None => true,
        },
    }
}

/// Whether this validator is strict: the schema's own `strict` key wins;
/// absent that, the ambient configuration's; absent both, validation is
/// lax.
pub open spec fn spec_is_strict(schema: Schema, config: Option<Schema>) -> bool {
    match schema.strict {
        Option::Some(ConfigValue::Bool(b)) => b,
        _ => match config {
            Option::Some(c) => spec_flag(c.strict),
            Option::None => false,
        },
    }
}

/// Read an optional boolean flag from a configuration entry: an absent key
/// defaults to `false`, and a value of any other type is a schema-build
/// error.
pub fn get_bool_entry(entry: &Option<ConfigValue>) -> (r: Result<bool, SchemaError>)
    ensures
        match r {
            Result::Ok(b) => entry_is_bool(*entry) && b == spec_flag(*entry),
            Result::Err(e) => !entry_is_bool(*entry) && e == SchemaError::WrongType,
        },
{
    match entry {
        Option::None => Result::Ok(false),
        Option::Some(ConfigValue::Bool(b)) => Result::Ok(*b),
        Option::Some(_) => Result::Err(SchemaError::WrongType),
    }
}

/// Resolve the strictness policy: the schema's explicit `strict` flag
/// overrides the ambient configuration's, and both default to lax. A
/// non-boolean value under a `strict` key that is read is a schema-build
/// error.
pub fn is_strict(schema: &Schema, config: Option<&Schema>) -> (r: Result<bool, SchemaError>)
    ensures
        match r {
            Result::Ok(b) => strict_entries_well_typed(*schema, spec_config(config))
                && b == spec_is_strict(*schema, spec_config(config)),
            Result::Err(e) => !strict_entries_well_typed(*schema, spec_config(config))
                && e == SchemaError::WrongType,
        },
{
    match &schema.strict {
        Option::Some(ConfigValue::Bool(b)) => Result::Ok(*b),
        Option::Some(_) => Result::Err(SchemaError::WrongType),
        Option::None => match config {
            Option::Some(c) => get_bool_entry(&c.strict),
            Option::None => Result::Ok(false),
        },
    }
}

} // verus!
