//! Why an operation was rejected.

use vstd::prelude::*;

verus! {

/// The four classes of rejection.
#[derive(Clone, Copy, Debug, PartialEq, Eq, Structural, Hash)]
pub enum ErrorKind {
    /// The caller lacks the role or the delegation that the operation asks for.
    Authorization,
    /// The operation is not valid in the record's current state.
    State,
    /// A counter would overflow, or a balance does not cover the amount.
    Arithmetic,
    /// A supplied account is malformed, or is not the one that was expected.
    Constraint,
}

/// A rejected operation. A rejection leaves every record as it was.
#[derive(Clone, Copy, Debug, PartialEq, Eq, Structural, Hash)]
pub enum ErrorCode {
    /// No delegation record stands for the creator at the creator's delegation address.
    InvalidAuthAccount,
    /// The caller is not the identity that holds the required role.
    Unauthorized,
    /// The fund is already bound to a vault.
    VaultAlreadySet,
    /// The fund's status does not admit the operation.
    InvalidRBFStatus,
    /// A record already stands at the address where one was to be created.
    AccountAlreadyInUse,
    /// The deposit falls outside the vault's funding schedule.
    OutsideFundingWindow,
    /// A counter or a total would exceed its range.
    NumericalOverflow,
    /// The balance drawn upon holds less than the amount.
    InsufficientFunds,
    /// The supplied address is not the one derived from the operation's seeds.
    ConstraintSeeds,
    /// No record stands at an address where the operation needs one.
    AccountNotInitialized,
    /// A referenced account is empty, unfunded, or of the wrong mint or fund.
    InvalidAccount,
    /// The deposit is below the vault's minimum.
    DepositTooSmall,
}

impl ErrorCode {
    /// The class of each rejection.
    pub open spec fn spec_kind(self) -> ErrorKind {
        match self {
            ErrorCode::InvalidAuthAccount | ErrorCode::Unauthorized => ErrorKind::Authorization,
            ErrorCode::VaultAlreadySet
            | ErrorCode::InvalidRBFStatus
            | ErrorCode::AccountAlreadyInUse
            | ErrorCode::OutsideFundingWindow => ErrorKind::State,
            ErrorCode::NumericalOverflow | ErrorCode::InsufficientFunds => ErrorKind::Arithmetic,
            ErrorCode::ConstraintSeeds
            | ErrorCode::AccountNotInitialized
            | ErrorCode::InvalidAccount
            | ErrorCode::DepositTooSmall => ErrorKind::Constraint,
        }
    }

    /// The class that the rejection belongs to.
    #[verifier::when_used_as_spec(spec_kind)]
    pub fn kind(self) -> (kind: ErrorKind)
        ensures
            kind == self.spec_kind(),
    {
        match self {
            ErrorCode::InvalidAuthAccount | ErrorCode::Unauthorized => ErrorKind::Authorization,
            ErrorCode::VaultAlreadySet
            | ErrorCode::InvalidRBFStatus
            | ErrorCode::AccountAlreadyInUse
            | ErrorCode::OutsideFundingWindow => ErrorKind::State,
            ErrorCode::NumericalOverflow | ErrorCode::InsufficientFunds => ErrorKind::Arithmetic,
            ErrorCode::ConstraintSeeds
            | ErrorCode::AccountNotInitialized
            | ErrorCode::InvalidAccount
            | ErrorCode::DepositTooSmall => ErrorKind::Constraint,
        }
    }

    /// The text shown for each rejection.
    pub open spec fn spec_message(self) -> Seq<char> {
        match self {
            ErrorCode::InvalidAuthAccount => "Invalid RBF authorization account."@,
            ErrorCode::Unauthorized => "The caller does not hold the required role."@,
            ErrorCode::VaultAlreadySet => "The fund is already bound to a vault."@,
            ErrorCode::InvalidRBFStatus => "The fund's status does not admit this operation."@,
            ErrorCode::AccountAlreadyInUse => "A record already exists at this address."@,
            ErrorCode::OutsideFundingWindow => "The deposit is outside the funding schedule."@,
            ErrorCode::NumericalOverflow => "Numerical overflow."@,
            ErrorCode::InsufficientFunds => "Insufficient funds."@,
            ErrorCode::ConstraintSeeds => "The address does not match its seeds."@,
            ErrorCode::AccountNotInitialized => "No record exists at this address."@,
            ErrorCode::InvalidAccount => "A referenced account is empty, unfunded or mismatched."@,
            ErrorCode::DepositTooSmall => "The deposit is below the minimum."@,
        }
    }

    /// The text to show for the rejection.
    pub fn message(self) -> (text: &'static str)
        ensures
            text@ == self.spec_message(),
    {
        match self {
            ErrorCode::InvalidAuthAccount => "Invalid RBF authorization account.",
            ErrorCode::Unauthorized => "The caller does not hold the required role.",
            ErrorCode::VaultAlreadySet => "The fund is already bound to a vault.",
            ErrorCode::InvalidRBFStatus => "The fund's status does not admit this operation.",
            ErrorCode::AccountAlreadyInUse => "A record already exists at this address.",
            ErrorCode::OutsideFundingWindow => "The deposit is outside the funding schedule.",
            ErrorCode::NumericalOverflow => "Numerical overflow.",
            ErrorCode::InsufficientFunds => "Insufficient funds.",
            ErrorCode::ConstraintSeeds => "The address does not match its seeds.",
            ErrorCode::AccountNotInitialized => "No record exists at this address.",
            ErrorCode::InvalidAccount => "A referenced account is empty, unfunded or mismatched.",
            ErrorCode::DepositTooSmall => "The deposit is below the minimum.",
        }
    }
}

/// Whether a call that answered `answer` and turned `pre` into `post` did what
/// `expected` lays down: on success the state is the expected one, and on a
/// rejection the error is the expected one and the state is untouched.
pub open spec fn committed<C>(pre: C, post: C, answer: Result<(), ErrorCode>, expected: Result<C, ErrorCode>) -> bool {
    match expected {
        Ok(next) => answer is Ok && post == next,
        Err(code) => answer == Err::<(), ErrorCode>(code) && post == pre,
    }
}

/// The same for a call that gives a value on success: the value is the
/// expected one too.
pub open spec fn committed_with<C, R>(pre: C, post: C, answer: Result<R, ErrorCode>, expected: Result<(C, R), ErrorCode>) -> bool {
    match expected {
        Ok((next, value)) => answer == Ok::<R, ErrorCode>(value) && post == next,
        Err(code) => answer == Err::<R, ErrorCode>(code) && post == pre,
    }
}

} // verus!
