//! Error types

use vstd::prelude::*;

verus! {

/// Errors that may be returned by the SinglePool program.
///
/// Each variant carries a stable numeric code (its position, starting at 0)
/// that callers branch on; codes are never reassigned.
#[derive(Clone, Copy, Debug, PartialEq, Eq, Structural)]
pub enum SinglePoolError {
    /// Provided pool stake account does not match stake account derived for validator vote account.
    InvalidPoolStakeAccount,
    /// Provided pool authority does not match authority derived for validator vote account.
    InvalidPoolAuthority,
    /// Provided pool mint does not match mint derived for validator vote account.
    InvalidPoolMint,
    /// Provided metadata account does not match metadata account derived for pool mint.
    InvalidMetadataAccount,
    /// Authorized withdrawer provided for metadata update does not match the vote account.
    InvalidMetadataSigner,
    /// Not enough lamports provided for deposit to result in one pool token.
    DepositTooSmall,
    /// Not enough pool tokens provided to withdraw stake worth one lamport.
    WithdrawalTooSmall,
    /// Required signature is missing.
    SignatureMissing,
    /// Stake account is not in the state expected by the program.
    WrongStakeState,
    /// Unsigned subtraction crossed the zero.
    ArithmeticOverflow,
    /// A calculation failed unexpectedly.
    /// (This error should never be surfaced; it stands in for failure conditions that should never be reached.)
    UnexpectedMathError,
    /// The V0_23_5 vote account type is unsupported and should be upgraded via `convert_to_current()`.
    LegacyVoteAccount,
    /// Failed to parse vote account.
    UnparseableVoteAccount,
    /// Incorrect number of lamports provided for rent-exemption when initializing.
    WrongRentAmount,
}

/// Number of error codes in use; codes run from 0 to one below this.
pub const ERROR_CODE_COUNT: u32 = 14;

/// The wire code of each error.
pub open spec fn error_code(e: SinglePoolError) -> u32 {
    match e {
        SinglePoolError::InvalidPoolStakeAccount => 0,
        SinglePoolError::InvalidPoolAuthority => 1,
        SinglePoolError::InvalidPoolMint => 2,
        SinglePoolError::InvalidMetadataAccount => 3,
        SinglePoolError::InvalidMetadataSigner => 4,
        SinglePoolError::DepositTooSmall => 5,
        SinglePoolError::WithdrawalTooSmall => 6,
        SinglePoolError::SignatureMissing => 7,
        SinglePoolError::WrongStakeState => 8,
        SinglePoolError::ArithmeticOverflow => 9,
        SinglePoolError::UnexpectedMathError => 10,
        SinglePoolError::LegacyVoteAccount => 11,
        SinglePoolError::UnparseableVoteAccount => 12,
        SinglePoolError::WrongRentAmount => 13,
    }
}

/// The diagnostic line printed for each error.
pub open spec fn error_message(e: SinglePoolError) -> Seq<char> {
    match e {
        SinglePoolError::InvalidPoolStakeAccount =>
            "Error: Provided pool stake account does not match stake account derived for validator vote account."@,
        SinglePoolError::InvalidPoolAuthority =>
            "Error: Provided pool authority does not match authority derived for validator vote account."@,
        SinglePoolError::InvalidPoolMint =>
            "Error: Provided pool mint does not match mint derived for validator vote account."@,
        SinglePoolError::InvalidMetadataAccount =>
            "Error: Provided metadata account does not match metadata account derived for pool mint."@,
        SinglePoolError::InvalidMetadataSigner =>
            "Error: Authorized withdrawer provided for metadata update does not match the vote account."@,
        SinglePoolError::DepositTooSmall =>
            "Error: Not enough lamports provided for deposit to result in one pool token."@,
        SinglePoolError::WithdrawalTooSmall =>
            "Error: Not enough pool tokens provided to withdraw stake worth one lamport."@,
        SinglePoolError::SignatureMissing => "Error: Required signature is missing."@,
        SinglePoolError::WrongStakeState =>
            "Error: Stake account is not in the state expected by the program."@,
        SinglePoolError::ArithmeticOverflow => "Error: Unsigned subtraction crossed the zero."@,
        SinglePoolError::UnexpectedMathError =>
            "Error: A calculation failed unexpectedly. (This error should never be surfaced; it stands in for failure conditions that should never be reached.)"@,
        SinglePoolError::LegacyVoteAccount =>
            "Error: The V0_23_5 vote account type is unsupported and should be upgraded via `convert_to_current()`."@,
        SinglePoolError::UnparseableVoteAccount => "Error: Failed to parse vote account."@,
        SinglePoolError::WrongRentAmount =>
            "Error: Incorrect number of lamports provided for rent-exemption when initializing."@,
    }
}

impl SinglePoolError {
    /// The stable numeric code that stands for this error on the wire.
    pub fn code(&self) -> (r: u32)
        ensures
            r == error_code(*self),
            r < ERROR_CODE_COUNT,
    {
        match self {
            SinglePoolError::InvalidPoolStakeAccount => 0,
            SinglePoolError::InvalidPoolAuthority => 1,
            SinglePoolError::InvalidPoolMint => 2,
            SinglePoolError::InvalidMetadataAccount => 3,
            SinglePoolError::InvalidMetadataSigner => 4,
            SinglePoolError::DepositTooSmall => 5,
            SinglePoolError::WithdrawalTooSmall => 6,
            SinglePoolError::SignatureMissing => 7,
            SinglePoolError::WrongStakeState => 8,
            SinglePoolError::ArithmeticOverflow => 9,
            SinglePoolError::UnexpectedMathError => 10,
            SinglePoolError::LegacyVoteAccount => 11,
            SinglePoolError::UnparseableVoteAccount => 12,
            SinglePoolError::WrongRentAmount => 13,
        }
    }

    /// The error whose code is `code`, if there is one.
    pub fn from_code(code: u32) -> (r: Option<SinglePoolError>)
        ensures
            r is Some <==> code < ERROR_CODE_COUNT,
            r matches Some(e) ==> error_code(e) == code,
    {
        match code {
            0 => Some(SinglePoolError::InvalidPoolStakeAccount),
            1 => Some(SinglePoolError::InvalidPoolAuthority),
            2 => Some(SinglePoolError::InvalidPoolMint),
            3 => Some(SinglePoolError::InvalidMetadataAccount),
            4 => Some(SinglePoolError::InvalidMetadataSigner),
            5 => Some(SinglePoolError::DepositTooSmall),
            6 => Some(SinglePoolError::WithdrawalTooSmall),
            7 => Some(SinglePoolError::SignatureMissing),
            8 => Some(SinglePoolError::WrongStakeState),
            9 => Some(SinglePoolError::ArithmeticOverflow),
            10 => Some(SinglePoolError::UnexpectedMathError),
            11 => Some(SinglePoolError::LegacyVoteAccount),
            12 => Some(SinglePoolError::UnparseableVoteAccount),
            13 => Some(SinglePoolError::WrongRentAmount),
            _ => None,
        }
    }

    /// Name of this family of errors, as shown by error decoders.
    pub fn type_of() -> (r: &'static str)
        ensures
            r@ == "Single-Validator Stake Pool Error"@,
    {
        proof {
            reveal_strlit("Single-Validator Stake Pool Error");
        }
        "Single-Validator Stake Pool Error"
    }

    /// The diagnostic line for this error; the caller decides where it goes.
    pub fn print(&self) -> (r: &'static str)
        ensures
            r@ == error_message(*self),
    {
        match self {
            SinglePoolError::InvalidPoolStakeAccount =>
                "Error: Provided pool stake account does not match stake account derived for validator vote account.",
            SinglePoolError::InvalidPoolAuthority =>
                "Error: Provided pool authority does not match authority derived for validator vote account.",
            SinglePoolError::InvalidPoolMint =>
                "Error: Provided pool mint does not match mint derived for validator vote account.",
            SinglePoolError::InvalidMetadataAccount =>
                "Error: Provided metadata account does not match metadata account derived for pool mint.",
            SinglePoolError::InvalidMetadataSigner =>
                "Error: Authorized withdrawer provided for metadata update does not match the vote account.",
            SinglePoolError::DepositTooSmall =>
                "Error: Not enough lamports provided for deposit to result in one pool token.",
            SinglePoolError::WithdrawalTooSmall =>
                "Error: Not enough pool tokens provided to withdraw stake worth one lamport.",
            SinglePoolError::SignatureMissing => "Error: Required signature is missing.",
            SinglePoolError::WrongStakeState =>
                "Error: Stake account is not in the state expected by the program.",
            SinglePoolError::ArithmeticOverflow => "Error: Unsigned subtraction crossed the zero.",
            SinglePoolError::UnexpectedMathError =>
                "Error: A calculation failed unexpectedly. (This error should never be surfaced; it stands in for failure conditions that should never be reached.)",
            SinglePoolError::LegacyVoteAccount =>
                "Error: The V0_23_5 vote account type is unsupported and should be upgraded via `convert_to_current()`.",
            SinglePoolError::UnparseableVoteAccount => "Error: Failed to parse vote account.",
            SinglePoolError::WrongRentAmount =>
                "Error: Incorrect number of lamports provided for rent-exemption when initializing.",
        }
    }
}

/// Decoding a code gives back the error it came from: codes are a faithful
/// wire form of the errors.
pub proof fn lemma_code_round_trip(e: SinglePoolError)
    ensures
        error_code(e) < ERROR_CODE_COUNT,
        forall|f: SinglePoolError| error_code(f) == error_code(e) ==> f == e,
{
}

} // verus!
