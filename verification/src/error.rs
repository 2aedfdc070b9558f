//! Typed failures of the transition engine. Every precondition violation is
//! terminal: the record is unchanged and no effects are queued.

use vstd::prelude::*;

use crate::state::{funds_of, Coin, CoinV};

verus! {

/// Why a transition was refused.
#[derive(Debug, PartialEq)]
pub enum Error {
    /// Creation requested with an expiry not strictly after the current height.
    InvalidExpiry,
    /// Caller is not the owner, for transfer or execute.
    Unauthorized,
    /// Execute attempted at or after the expiry height.
    Expired,
    /// Burn attempted before the expiry height.
    NotYetExpired,
    /// Execute funds do not exactly equal the counter-offer; carries the
    /// expected counter-offer for diagnostics.
    FundMismatch { expected: Vec<Coin> },
    /// Burn attempted with nonzero attached funds.
    UnexpectedFunds,
    /// Transition or query attempted with no existing record.
    NotFound,
}

/// Mathematical image of an [`Error`].
#[verifier::ext_equal]
pub enum ErrV {
    InvalidExpiry,
    Unauthorized,
    Expired,
    NotYetExpired,
    FundMismatch { expected: Seq<CoinV> },
    UnexpectedFunds,
    NotFound,
}

impl View for Error {
    type V = ErrV;

    open spec fn view(&self) -> ErrV {
        match self {
            Error::InvalidExpiry => ErrV::InvalidExpiry,
            Error::Unauthorized => ErrV::Unauthorized,
            Error::Expired => ErrV::Expired,
            Error::NotYetExpired => ErrV::NotYetExpired,
            Error::FundMismatch { expected } => ErrV::FundMismatch {
                expected: funds_of(expected@),
            },
            Error::UnexpectedFunds => ErrV::UnexpectedFunds,
            Error::NotFound => ErrV::NotFound,
        }
    }
}

} // verus!
