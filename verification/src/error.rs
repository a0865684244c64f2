//! The errors of the contract.

use vstd::prelude::*;

verus! {

/// Why a call was refused.
#[derive(Copy, Clone, Debug, Eq, PartialEq, Structural)]
pub enum ExecError {
    NotInitialized,
    AlreadyInitialized,
    InvalidQuotePrefix,
    InvalidRequestPrefix,
    QuoteExpired,
    QuoteChainMismatch,
    RequestDstMismatch,
    EmptyQuote,
    EmptyRequest,
    BadLengths,
}

/// The number under which callers of the contract see an error.
pub open spec fn error_code(e: ExecError) -> u32 {
    match e {
        ExecError::NotInitialized => 1,
        ExecError::AlreadyInitialized => 2,
        ExecError::InvalidQuotePrefix => 10,
        ExecError::InvalidRequestPrefix => 11,
        ExecError::QuoteExpired => 12,
        ExecError::QuoteChainMismatch => 13,
        ExecError::RequestDstMismatch => 14,
        ExecError::EmptyQuote => 15,
        ExecError::EmptyRequest => 16,
        ExecError::BadLengths => 17,
    }
}

/// A caller can tell any two errors apart by their numbers.
pub proof fn law_error_codes_distinct(a: ExecError, b: ExecError)
    requires
        error_code(a) == error_code(b),
    ensures
        a == b,
{
}

/// The same of what `code` answers.
pub proof fn law_codes_tell_errors_apart(a: ExecError, b: ExecError, n: u32)
    requires
        call_ensures(ExecError::code, (a,), n),
        call_ensures(ExecError::code, (b,), n),
    ensures
        a == b,
{
}

impl ExecError {
    /// The number under which callers of the contract see this error.
    pub fn code(self) -> (r: u32)
        ensures
            r == error_code(self),
    {
        match self {
            ExecError::NotInitialized => 1,
            ExecError::AlreadyInitialized => 2,
            ExecError::InvalidQuotePrefix => 10,
            ExecError::InvalidRequestPrefix => 11,
            ExecError::QuoteExpired => 12,
            ExecError::QuoteChainMismatch => 13,
            ExecError::RequestDstMismatch => 14,
            ExecError::EmptyQuote => 15,
            ExecError::EmptyRequest => 16,
            ExecError::BadLengths => 17,
        }
    }
}

} // verus!
