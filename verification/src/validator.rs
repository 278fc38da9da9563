use vstd::prelude::*;

use crate::engine::engine_outcome;
use crate::engine::engine_validate;
use crate::engine::lone_quote_local;
use crate::input::spec_coerced_str;
use crate::input::InputValue;
use crate::schema::get_bool_entry;
use crate::schema::is_strict;
use crate::schema::entry_is_bool;
use crate::schema::spec_config;
use crate::schema::spec_flag;
use crate::schema::spec_is_strict;
use crate::schema::strict_entries_well_typed;
use crate::schema::Schema;
use crate::schema::SchemaError;
use crate::state::spec_floor;
use crate::state::Exactness;
use crate::state::ValidationState;

verus! {

/// A successfully validated email address: the canonical form the grammar
/// engine produced (domain lowered to its Unicode form, local part
/// normalized, unnecessary quoting removed).
#[derive(Debug, Clone, PartialEq, Eq)]
pub struct ValidatedEmail {
    pub normalized: String,
}

/// The two error kinds this validator reports, both fatal to the single
/// validation attempt.
#[derive(Debug, Clone, PartialEq, Eq)]
pub enum ErrorKind {
    /// The input is not string-shaped under the active strictness policy.
    StrType,
    /// The input is string-shaped but violates email syntax or policy; the
    /// grammar engine's diagnostic message is forwarded verbatim, with no
    /// additional structured context.
    EmailParsing { error: String, context: Option<String> },
}

/// Whether every schema entry this validator reads is well-typed, so that a
/// build succeeds.
pub open spec fn spec_build_ok(schema: Schema, config: Option<Schema>) -> bool {
    &&& strict_entries_well_typed(schema, config)
    &&& entry_is_bool(schema.allow_smtputf8)
    &&& entry_is_bool(schema.allow_empty_local)
    &&& entry_is_bool(schema.allow_quoted_local)
    &&& entry_is_bool(schema.allow_domain_literal)
    &&& entry_is_bool(schema.deliverable_address)
}

/// An immutable email validator instance. Once built, no validation call
/// mutates it, so one instance may serve many concurrent calls.
#[derive(Debug, Clone)]
pub struct EmailValidator {
    pub strict: bool,
    pub allow_smtputf8: bool,
    pub allow_empty_local: bool,
    pub allow_quoted_local: bool,
    pub allow_domain_literal: bool,
    pub deliverable_address: bool,
    pub name: String,
}

impl EmailValidator {
    /// Build a validator from the schema slice, an optional ambient
    /// configuration, and the name the schema-compilation framework
    /// assigned to this instance. Strictness resolves via the shared
    /// policy; each policy flag is read under its own key and defaults to
    /// `false`; a wrongly typed value under a key that is read fails the
    /// build.
    pub fn build(schema: &Schema, config: Option<&Schema>, name: String) -> (r: Result<
        EmailValidator,
        SchemaError,
    >)
        ensures
            (r matches Result::Ok(_)) <==> spec_build_ok(*schema, spec_config(config)),
            r matches Result::Ok(v) ==> {
                &&& v.strict == spec_is_strict(*schema, spec_config(config))
                &&& v.allow_smtputf8 == spec_flag(schema.allow_smtputf8)
                &&& v.allow_empty_local == spec_flag(schema.allow_empty_local)
                &&& v.allow_quoted_local == spec_flag(schema.allow_quoted_local)
                &&& v.allow_domain_literal == spec_flag(schema.allow_domain_literal)
                &&& v.deliverable_address == spec_flag(schema.deliverable_address)
                &&& v.name@ == name@
            },
            r matches Result::Err(e) ==> e == SchemaError::WrongType,
    {
        let strict = is_strict(schema, config)?;
        let allow_smtputf8 = get_bool_entry(&schema.allow_smtputf8)?;
        let allow_empty_local = get_bool_entry(&schema.allow_empty_local)?;
        let allow_quoted_local = get_bool_entry(&schema.allow_quoted_local)?;
        let allow_domain_literal = get_bool_entry(&schema.allow_domain_literal)?;
        let deliverable_address = get_bool_entry(&schema.deliverable_address)?;
        Result::Ok(
            EmailValidator {
                strict,
                allow_smtputf8,
                allow_empty_local,
                allow_quoted_local,
                allow_domain_literal,
                deliverable_address,
                name,
            },
        )
    }

    /// The engine's decision for the coerced string under this validator's
    /// syntax flags.
    pub open spec fn spec_engine_outcome(self, email: Seq<char>) -> Result<Seq<char>, Seq<char>> {
        engine_outcome(
            email,
            self.allow_smtputf8,
            self.allow_empty_local,
            self.allow_quoted_local,
            self.allow_domain_literal,
        )
    }

    /// Validate one input value against this validator.
    ///
    /// The input is first coerced to a string under the effective
    /// strictness (the state's override wins over the instance's own flag),
    /// with numeric-to-string coercion disallowed; a value that is not
    /// string-coercible fails with `StrType` at once, the grammar engine is
    /// never consulted, and the state is left untouched. A coerced string
    /// goes to the grammar engine under the five configured policy flags.
    /// On success the state's accumulated exactness is lowered to `Lax` —
    /// never raised, so that a plain-string match can outrank an email
    /// match when a union is resolved — and the normalized address is
    /// returned. On engine failure the call fails with `EmailParsing`
    /// carrying the engine's message verbatim, and the state is left
    /// untouched. With the deliverability check off, the call succeeds
    /// exactly where the engine accepts the coerced string.
    ///
    /// One degenerate shape is excluded up front: where quoted local parts
    /// are allowed, a coerced string whose part before the last `@` sign is
    /// a lone double-quote is an input on which the grammar engine does not
    /// return.
    pub fn validate(&self, input: &InputValue, state: &mut ValidationState) -> (r: Result<
        ValidatedEmail,
        ErrorKind,
    >)
        requires
            match spec_coerced_str(*input, old(state).spec_strict_or(self.strict)) {
                Option::Some(email) => !(self.allow_quoted_local && lone_quote_local(email)),
                Option::None => true,
            },
        ensures
            final(state).strict_override == old(state).strict_override,
            (match spec_coerced_str(*input, old(state).spec_strict_or(self.strict)) {
                Option::None => r == Result::<ValidatedEmail, ErrorKind>::Err(ErrorKind::StrType)
                    && *final(state) == *old(state),
                Option::Some(email) => ({
                    let out = self.spec_engine_outcome(email);
                    match r {
                        Result::Ok(v) => out == Result::<Seq<char>, Seq<char>>::Ok(v.normalized@)
                            && final(state).exactness == spec_floor(
                            old(state).exactness,
                            Exactness::Lax,
                        ),
                        Result::Err(e) => *final(state) == *old(state) && (e matches
                            ErrorKind::EmailParsing { error, context } && context matches
                            Option::None && (self.deliverable_address || out == Result::<
                            Seq<char>,
                            Seq<char>,
                        >::Err(error@))),
                    }
                }),
            }),
            !self.deliverable_address ==> ((r matches Result::Ok(_)) <==> (match spec_coerced_str(
                *input,
                old(state).spec_strict_or(self.strict),
            ) {
                Option::Some(email) => self.spec_engine_outcome(email) matches Result::Ok(_),
                Option::None => false,
            })),
    {
        let strict = state.strict_or(self.strict);
        let email_str = match input.validate_str(strict) {
            Option::Some(s) => s,
            Option::None => {
                return Result::Err(ErrorKind::StrType);
            },
        };
        match engine_validate(
            email_str.as_str(),
            self.allow_smtputf8,
            self.allow_empty_local,
            self.allow_quoted_local,
            self.allow_domain_literal,
            self.deliverable_address,
        ) {
            Result::Ok(normalized) => {
                state.floor_exactness(Exactness::Lax);
                Result::Ok(ValidatedEmail { normalized })
            },
            Result::Err(error) => Result::Err(
                ErrorKind::EmailParsing { error, context: Option::None },
            ),
        }
    }

    /// The human-readable name of this validator instance.
    pub fn get_name(&self) -> (r: &str)
        ensures
            r@ == self.name@,
    {
        self.name.as_str()
    }
}

} // verus!
