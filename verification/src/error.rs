//! Errors reported to the caller.

use vstd::prelude::*;

verus! {

/// Reasons for which an operation of this library is refused.
#[derive(Clone, Copy, Debug, PartialEq, Eq, Structural)]
pub enum ProgramError {
    /// A borrow conflict: the lamports or the data are held in a way that
    /// excludes the access that was asked for.
    AccountBorrowFailed,
    /// A resize was rejected: the data would grow too far beyond the length
    /// it had when the record was handed over.
    InvalidRealloc,
    /// An argument does not fit the instruction.
    InvalidArgument,
    /// The instruction data cannot be read as asked.
    InvalidInstructionData,
    /// The instruction names more accounts than were supplied.
    NotEnoughAccountKeys,
    /// The account is not the system variable that was expected.
    UnsupportedSysvar,
    /// A seed is longer than an address derivation accepts.
    MaxSeedLengthExceeded,
    /// The seeds do not give a valid address.
    InvalidSeeds,
    /// The owner is not allowed for a derived address.
    IllegalOwner,
}

/// Reasons for which an address cannot be derived.
#[derive(Clone, Copy, Debug, PartialEq, Eq, Structural)]
pub enum PubkeyError {
    /// Length of the seed is too long for address generation.
    MaxSeedLengthExceeded,
    /// The seeds do not result in a valid address.
    InvalidSeeds,
    /// The owner is not allowed.
    IllegalOwner,
}

impl PubkeyError {
    /// The number that stands for the error.
    pub open spec fn code(self) -> int {
        match self {
            PubkeyError::MaxSeedLengthExceeded => 0,
            PubkeyError::InvalidSeeds => 1,
            PubkeyError::IllegalOwner => 2,
        }
    }

    /// The error that a number stands for, if it stands for one.
    pub open spec fn of_code(n: int) -> Option<PubkeyError> {
        if n == 0 {
            Some(PubkeyError::MaxSeedLengthExceeded)
        } else if n == 1 {
            Some(PubkeyError::InvalidSeeds)
        } else if n == 2 {
            Some(PubkeyError::IllegalOwner)
        } else {
            None
        }
    }

    /// The number that stands for the error.
    pub fn to_i64(&self) -> (n: Option<i64>)
        ensures
            n == Some(self.code() as i64),
    {
        Some(
            match *self {
                PubkeyError::MaxSeedLengthExceeded => 0,
                PubkeyError::InvalidSeeds => 1,
                PubkeyError::IllegalOwner => 2,
            },
        )
    }

    /// The number that stands for the error.
    pub fn to_u64(&self) -> (n: Option<u64>)
        ensures
            n == Some(self.code() as u64),
    {
        match self.to_i64() {
            Some(x) => Some(x as u64),
            None => None,
        }
    }

    /// The error that `n` stands for, if it stands for one.
    pub fn from_i64(n: i64) -> (error: Option<PubkeyError>)
        ensures
            error == PubkeyError::of_code(n as int),
    {
        if n == 0 {
            Some(PubkeyError::MaxSeedLengthExceeded)
        } else if n == 1 {
            Some(PubkeyError::InvalidSeeds)
        } else if n == 2 {
            Some(PubkeyError::IllegalOwner)
        } else {
            None
        }
    }

    /// The error that `n` stands for, if it stands for one.
    pub fn from_u64(n: u64) -> (error: Option<PubkeyError>)
        ensures
            error == PubkeyError::of_code(n as int),
    {
        if n > 2 {
            None
        } else {
            PubkeyError::from_i64(n as i64)
        }
    }

    /// The error that `error` stands for; only the numbers of the three
    /// errors are taken.
    pub fn from(error: u64) -> (e: PubkeyError)
        requires
            error <= 2,
        ensures
            e.code() == error,
    {
        if error == 0 {
            PubkeyError::MaxSeedLengthExceeded
        } else if error == 1 {
            PubkeyError::InvalidSeeds
        } else {
            PubkeyError::IllegalOwner
        }
    }

    /// The error in words.
    pub fn to_string(&self) -> (text: String)
        ensures
            text@ == match *self {
                PubkeyError::MaxSeedLengthExceeded => {
                    "Length of the seed is too long for address generation"@
                },
                PubkeyError::InvalidSeeds => "Provided seeds do not result in a valid address"@,
                PubkeyError::IllegalOwner => "Provided owner is not allowed"@,
            },
    {
        match self {
            PubkeyError::MaxSeedLengthExceeded => {
                "Length of the seed is too long for address generation".to_owned()
            },
            PubkeyError::InvalidSeeds => {
                "Provided seeds do not result in a valid address".to_owned()
            },
            PubkeyError::IllegalOwner => "Provided owner is not allowed".to_owned(),
        }
    }

    /// The error as one of those that an operation is refused with.
    pub fn to_program_error(self) -> (e: ProgramError)
        ensures
            e == match self {
                PubkeyError::MaxSeedLengthExceeded => ProgramError::MaxSeedLengthExceeded,
                PubkeyError::InvalidSeeds => ProgramError::InvalidSeeds,
                PubkeyError::IllegalOwner => ProgramError::IllegalOwner,
            },
    {
        match self {
            PubkeyError::MaxSeedLengthExceeded => ProgramError::MaxSeedLengthExceeded,
            PubkeyError::InvalidSeeds => ProgramError::InvalidSeeds,
            PubkeyError::IllegalOwner => ProgramError::IllegalOwner,
        }
    }
}

/// Reasons for which a text is not an address.
#[derive(Clone, Copy, Debug, PartialEq, Eq, Structural)]
pub enum ParsePubkeyError {
    /// The text is of the wrong size.
    WrongSize,
    /// The text is not valid Base58.
    Invalid,
}

impl ParsePubkeyError {
    /// The number that stands for the error.
    pub open spec fn code(self) -> int {
        match self {
            ParsePubkeyError::WrongSize => 0,
            ParsePubkeyError::Invalid => 1,
        }
    }

    /// The error that a number stands for, if it stands for one.
    pub open spec fn of_code(n: int) -> Option<ParsePubkeyError> {
        if n == 0 {
            Some(ParsePubkeyError::WrongSize)
        } else if n == 1 {
            Some(ParsePubkeyError::Invalid)
        } else {
            None
        }
    }

    /// The number that stands for the error.
    pub fn to_i64(&self) -> (n: Option<i64>)
        ensures
            n == Some(self.code() as i64),
    {
        Some(
            match *self {
                ParsePubkeyError::WrongSize => 0,
                ParsePubkeyError::Invalid => 1,
            },
        )
    }

    /// The number that stands for the error.
    pub fn to_u64(&self) -> (n: Option<u64>)
        ensures
            n == Some(self.code() as u64),
    {
        match self.to_i64() {
            Some(x) => Some(x as u64),
            None => None,
        }
    }

    /// The error that `n` stands for, if it stands for one.
    pub fn from_i64(n: i64) -> (error: Option<ParsePubkeyError>)
        ensures
            error == ParsePubkeyError::of_code(n as int),
    {
        if n == 0 {
            Some(ParsePubkeyError::WrongSize)
        } else if n == 1 {
            Some(ParsePubkeyError::Invalid)
        } else {
            None
        }
    }

    /// The error that `n` stands for, if it stands for one.
    pub fn from_u64(n: u64) -> (error: Option<ParsePubkeyError>)
        ensures
            error == ParsePubkeyError::of_code(n as int),
    {
        if n > 1 {
            None
        } else {
            ParsePubkeyError::from_i64(n as i64)
        }
    }

    /// The error in words.
    pub fn to_string(&self) -> (text: String)
        ensures
            text@ == match *self {
                ParsePubkeyError::WrongSize => "String is the wrong size"@,
                ParsePubkeyError::Invalid => "Invalid Base58 string"@,
            },
    {
        match self {
            ParsePubkeyError::WrongSize => "String is the wrong size".to_owned(),
            ParsePubkeyError::Invalid => "Invalid Base58 string".to_owned(),
        }
    }
}

/// A number stands for at most one error, and every error is found again
/// from its number.
pub proof fn lemma_error_codes(pubkey: PubkeyError, parse: ParsePubkeyError, n: int)
    ensures
        PubkeyError::of_code(pubkey.code()) == Some(pubkey),
        ParsePubkeyError::of_code(parse.code()) == Some(parse),
        PubkeyError::of_code(n) matches Some(e) ==> e.code() == n,
        ParsePubkeyError::of_code(n) matches Some(e) ==> e.code() == n,
{
}

} // verus!
