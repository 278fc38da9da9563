use vstd::prelude::*;

verus! {

/// What the `emval` grammar engine decides for an address string under the
/// four syntax-policy flags, with the deliverability check switched off:
/// `Ok` carries the normalized address, `Err` the engine's diagnostic
/// message. With that check off the engine is a pure function of these
/// arguments: splitting, syntax checks and normalization alone.
pub uninterp spec fn engine_outcome(
    email: Seq<char>,
    allow_smtputf8: bool,
    allow_empty_local: bool,
    allow_quoted_local: bool,
    allow_domain_literal: bool,
) -> Result<Seq<char>, Seq<char>>;

/// The one address shape on which the engine's quoted-local handling does
/// not return when quoted local parts are allowed: the part before the last
/// `@` sign is a single double-quote character, so stripping the surrounding
/// quotes has nothing to strip them from.
pub open spec fn lone_quote_local(email: Seq<char>) -> bool {
    &&& email.len() >= 2
    &&& email[0] == '"'
    &&& email[1] == '@'
    &&& forall|j: int| 2 <= j < email.len() ==> email[j] != '@'
}

/// Relies on `emval::EmailValidator::validate_email`. With
/// `deliverable_address` false, the outcome is decided by the address and
/// the four syntax flags alone, and the diagnostic message is the engine's
/// own, verbatim. With it true, the engine runs every check of the
/// syntax-only outcome and adds deliverability policy on top (a dotted,
/// TLD-shaped domain, then a DNS lookup): a success still carries the same
/// normalized address, and everything the syntax-only outcome rejects stays
/// rejected, though possibly under a deliverability message. A lone-quote
/// local part is excluded where quoted local parts are allowed: on that
/// shape the engine does not return.
#[verifier::external_body]
pub(crate) fn engine_validate(
    email: &str,
    allow_smtputf8: bool,
    allow_empty_local: bool,
    allow_quoted_local: bool,
    allow_domain_literal: bool,
    deliverable_address: bool,
) -> (r: Result<String, String>)
    requires
        !(allow_quoted_local && lone_quote_local(email@)),
    ensures
        ({
            let out = engine_outcome(
                email@,
                allow_smtputf8,
                allow_empty_local,
                allow_quoted_local,
                allow_domain_literal,
            );
            match r {
                Result::Ok(n) => out == Result::<Seq<char>, Seq<char>>::Ok(n@),
                Result::Err(e) => deliverable_address || out == Result::<Seq<char>, Seq<char>>::Err(
                    e@,
                ),
            }
        }),
{
    let engine = emval::EmailValidator {
        allow_smtputf8,
        allow_empty_local,
        allow_quoted_local,
        allow_domain_literal,
        deliverable_address,
        allowed_special_domains: Vec::new(),
    };
    match engine.validate_email(email) {
        Ok(validated) => Ok(validated.normalized),
        Err(error) => Err(error.to_string()),
    }
}

} // verus!
