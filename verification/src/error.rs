use vstd::prelude::*;

verus! {

/// The errors the program reports, in the order that fixes their numbers.
#[derive(Clone, Copy, Debug, PartialEq, Eq, Structural)]
pub enum ErrorCode {
    Unauthorized,
    BetClosed,
    BetOpen,
    InvalidSide,
    LostBet,
    InvalidVault,
    MathOverflow,
    MaxBetExceeded,
    InvalidDelegate,
}

/// Custom program errors are numbered from this offset upwards.
pub const ERROR_CODE_OFFSET: u32 = 6000;

/// Position of a variant in the declaration order.
pub open spec fn error_index(e: ErrorCode) -> nat {
    match e {
        ErrorCode::Unauthorized => 0,
        ErrorCode::BetClosed => 1,
        ErrorCode::BetOpen => 2,
        ErrorCode::InvalidSide => 3,
        ErrorCode::LostBet => 4,
        ErrorCode::InvalidVault => 5,
        ErrorCode::MathOverflow => 6,
        ErrorCode::MaxBetExceeded => 7,
        ErrorCode::InvalidDelegate => 8,
    }
}

impl ErrorCode {
    /// The number under which a client sees this error.
    pub fn code(&self) -> (c: u32)
        ensures
            c == ERROR_CODE_OFFSET + error_index(*self),
    {
        match self {
            ErrorCode::Unauthorized => 6000,
            ErrorCode::BetClosed => 6001,
            ErrorCode::BetOpen => 6002,
            ErrorCode::InvalidSide => 6003,
            ErrorCode::LostBet => 6004,
            ErrorCode::InvalidVault => 6005,
            ErrorCode::MathOverflow => 6006,
            ErrorCode::MaxBetExceeded => 6007,
            ErrorCode::InvalidDelegate => 6008,
        }
    }

    /// The human-readable message attached to this error.
    pub fn message(&self) -> (m: &'static str)
        ensures
            *self == ErrorCode::Unauthorized ==> m@ == "Only the admin can perform this action."@,
            *self == ErrorCode::BetClosed ==> m@ == "Bet is closed."@,
            *self == ErrorCode::BetOpen ==> m@ == "Bet is open."@,
            *self == ErrorCode::InvalidSide ==> m@ == "Invalid side. Must be 0 (home) or 1 (away)."@,
            *self == ErrorCode::LostBet ==> m@ == "LostBet"@,
            *self == ErrorCode::InvalidVault ==> m@ == "Invalid vault."@,
            *self == ErrorCode::MathOverflow ==> m@ == "MathOverflow."@,
            *self == ErrorCode::MaxBetExceeded ==> m@ == "MaxBetExceeded."@,
            *self == ErrorCode::InvalidDelegate ==> m@ == "InvalidDelegate."@,
    {
        match self {
            ErrorCode::Unauthorized => "Only the admin can perform this action.",
            ErrorCode::BetClosed => "Bet is closed.",
            ErrorCode::BetOpen => "Bet is open.",
            ErrorCode::InvalidSide => "Invalid side. Must be 0 (home) or 1 (away).",
            ErrorCode::LostBet => "LostBet",
            ErrorCode::InvalidVault => "Invalid vault.",
            ErrorCode::MathOverflow => "MathOverflow.",
            ErrorCode::MaxBetExceeded => "MaxBetExceeded.",
            ErrorCode::InvalidDelegate => "InvalidDelegate.",
        }
    }
}

} // verus!
