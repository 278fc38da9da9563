//! A leaf email-address validator for a schema-driven validation engine.
//!
//! The validator is built once from a declarative schema slice plus an
//! optional ambient configuration, and is then an immutable instance. At
//! validation time it coerces an arbitrary input value to a string under the
//! active strictness policy, hands the string to the `emval` grammar engine
//! together with the configured policy flags, and maps the engine's outcome
//! into the validation engine's result and error vocabulary, lowering the
//! per-call exactness accumulator on success.

pub mod engine;
pub mod input;
pub mod schema;
pub mod state;
pub mod validator;
