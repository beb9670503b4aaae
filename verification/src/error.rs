use cosmwasm_std::StdError;
use vstd::prelude::*;

verus! {

/// The error type of the host's standard library: opaque here, and only
/// passed on.
#[verifier::external_type_specification]
#[verifier::external_body]
pub struct ExStdError(StdError);

/// Why an operation of the vault was refused.
#[derive(Debug, PartialEq)]
pub enum ContractError {
    /// The host could not load the configuration or answer a query, or an
    /// amount left 128 bits.
    Std(StdError),
    /// The caller may not perform the operation.
    Unauthorized {},
    /// The request is not acceptable; the text says why.
    Generic(String),
}

/// A refusal as contracts speak of it.
pub enum Refusal {
    /// The host could not load the configuration or answer a query; its error
    /// is passed on unchanged.
    Host(StdError),
    /// An amount left 128 bits.
    Overflow,
    /// The caller may not perform the operation.
    Unauthorized,
    /// The request is not acceptable, for the reason that the text gives.
    Generic(Seq<char>),
}

/// Whether the error `e` of the host's kind reports `refusal`.
pub open spec fn std_reports(e: StdError, refusal: Refusal) -> bool {
    match refusal {
        Refusal::Host(passed_on) => e == passed_on,
        Refusal::Overflow => true,
        _ => false,
    }
}

impl ContractError {
    /// Whether this error reports `refusal`.
    pub open spec fn reports(self, refusal: Refusal) -> bool {
        match self {
            ContractError::Std(e) => std_reports(e, refusal),
            ContractError::Unauthorized {  } => refusal is Unauthorized,
            ContractError::Generic(text) => refusal == Refusal::Generic(text@),
        }
    }
}

/// Whether a computation that can fail as the host's queries do ended as
/// `expected`: with that value, or with an error that reports that refusal.
pub open spec fn answers_as<T>(r: Result<T, StdError>, expected: Result<T, Refusal>) -> bool {
    match (r, expected) {
        (Ok(value), Ok(wanted)) => value == wanted,
        (Err(e), Err(refusal)) => std_reports(e, refusal),
        _ => false,
    }
}

} // verus!
