use vstd::prelude::*;

verus! {

/// Decimal places of the betting token; every transfer is checked against it.
pub const TOKEN_DECIMALS: u8 = 6;

/// One whole token in base units (ten to the power of `TOKEN_DECIMALS`).
pub const SFLOW_DECIMALS: u64 = 1_000_000;

/// Size in bytes of the vault token account that `initialize` creates.
pub const SFLOW_MINT_LEN: usize = 165;

/// Payout per 100 units staked on the winning side.
pub const PAYOUT_PERCENT: u64 = 205;

} // verus!
