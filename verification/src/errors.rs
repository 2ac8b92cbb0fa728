//! The ways an operation of the treasury can fail, and the numbers they are
//! reported under.

use vstd::prelude::*;

verus! {

/// The ways an operation of the treasury can fail.
#[derive(Clone, Copy, Debug, PartialEq, Eq, Structural)]
pub enum BackstopManagerErrors {
    InternalError,
    /// The instance was initialized before.
    AlreadyInitializedError,
    /// The caller is neither the owner nor a manager of sufficient scope.
    UnauthorizedError,
    /// The caller did not sign the invocation.
    UnauthenticatedError,
    NegativeAmountError,
    AllowanceError,
    BalanceError,
    /// A computed amount or ledger number does not fit its type.
    OverflowError,
    /// A list of approved contracts is longer than the registry allows.
    ContractListOverMax,
    /// A named backstop or pool is not on its list of approved contracts.
    InvalidContractAddress,
    /// A manager scope is outside the legal range.
    InvalidScope,
    /// A token index names no token of the liquidity pool.
    InvalidTokenIndex,
    /// The unlock time is not in the future at initialization, or has not
    /// come yet at release.
    InvalidUnlockTime,
    /// The instance has not been initialized.
    UninitializedError,
}

impl BackstopManagerErrors {
    /// The number under which the error is reported to a caller.
    pub open spec fn spec_code(self) -> u32 {
        match self {
            BackstopManagerErrors::InternalError => 1,
            BackstopManagerErrors::AlreadyInitializedError => 3,
            BackstopManagerErrors::UnauthorizedError => 4,
            BackstopManagerErrors::UnauthenticatedError => 5,
            BackstopManagerErrors::NegativeAmountError => 8,
            BackstopManagerErrors::AllowanceError => 9,
            BackstopManagerErrors::BalanceError => 10,
            BackstopManagerErrors::OverflowError => 12,
            BackstopManagerErrors::ContractListOverMax => 100,
            BackstopManagerErrors::InvalidContractAddress => 101,
            BackstopManagerErrors::InvalidScope => 102,
            BackstopManagerErrors::InvalidTokenIndex => 103,
            BackstopManagerErrors::InvalidUnlockTime => 104,
            BackstopManagerErrors::UninitializedError => 105,
        }
    }

    /// The number under which the error is reported to a caller.
    #[verifier::when_used_as_spec(spec_code)]
    pub fn code(self) -> (code: u32)
        ensures
            code == self.spec_code(),
    {
        match self {
            BackstopManagerErrors::InternalError => 1,
            BackstopManagerErrors::AlreadyInitializedError => 3,
            BackstopManagerErrors::UnauthorizedError => 4,
            BackstopManagerErrors::UnauthenticatedError => 5,
            BackstopManagerErrors::NegativeAmountError => 8,
            BackstopManagerErrors::AllowanceError => 9,
            BackstopManagerErrors::BalanceError => 10,
            BackstopManagerErrors::OverflowError => 12,
            BackstopManagerErrors::ContractListOverMax => 100,
            BackstopManagerErrors::InvalidContractAddress => 101,
            BackstopManagerErrors::InvalidScope => 102,
            BackstopManagerErrors::InvalidTokenIndex => 103,
            BackstopManagerErrors::InvalidUnlockTime => 104,
            BackstopManagerErrors::UninitializedError => 105,
        }
    }

    /// The error reported under `code`, if there is one.
    pub fn from_code(code: u32) -> (error: Option<BackstopManagerErrors>)
        ensures
            match error {
                Some(e) => e.spec_code() == code,
                None => forall|e: BackstopManagerErrors| e.spec_code() != code,
            },
    {
        match code {
            1 => Some(BackstopManagerErrors::InternalError),
            3 => Some(BackstopManagerErrors::AlreadyInitializedError),
            4 => Some(BackstopManagerErrors::UnauthorizedError),
            5 => Some(BackstopManagerErrors::UnauthenticatedError),
            8 => Some(BackstopManagerErrors::NegativeAmountError),
            9 => Some(BackstopManagerErrors::AllowanceError),
            10 => Some(BackstopManagerErrors::BalanceError),
            12 => Some(BackstopManagerErrors::OverflowError),
            100 => Some(BackstopManagerErrors::ContractListOverMax),
            101 => Some(BackstopManagerErrors::InvalidContractAddress),
            102 => Some(BackstopManagerErrors::InvalidScope),
            103 => Some(BackstopManagerErrors::InvalidTokenIndex),
            104 => Some(BackstopManagerErrors::InvalidUnlockTime),
            105 => Some(BackstopManagerErrors::UninitializedError),
            _ => None,
        }
    }
}

/// No two errors are reported under the same number.
pub proof fn lemma_code_identifies_error(a: BackstopManagerErrors, b: BackstopManagerErrors)
    requires
        a.spec_code() == b.spec_code(),
    ensures
        a == b,
{
}

} // verus!
