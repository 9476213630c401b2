use vstd::prelude::*;
use crate::pubkey::Pubkey;

verus! {

/// Program-wide settings, held in the single account seeded by `"state"`.
#[derive(Clone, Copy, Debug)]
pub struct State {
    pub admin: Pubkey,
    pub vault: Pubkey,
    pub max_bet: u64,
    pub reward_multiplier: u16,
    pub delegated_admin_role: Pubkey,
}

impl State {
    /// Serialized size of the fields.
    pub const LEN: usize = 32 + 32 + 8 + 2 + 32;

    /// The record a freshly created account holds: every field zero.
    pub fn zeroed() -> (s: State)
        ensures
            s == State::spec_zeroed(),
    {
        State {
            admin: Pubkey::default_key(),
            vault: Pubkey::default_key(),
            max_bet: 0,
            reward_multiplier: 0,
            delegated_admin_role: Pubkey::default_key(),
        }
    }

    pub open spec fn spec_zeroed() -> State {
        State {
            admin: Pubkey::spec_zero(),
            vault: Pubkey::spec_zero(),
            max_bet: 0,
            reward_multiplier: 0,
            delegated_admin_role: Pubkey::spec_zero(),
        }
    }
}

/// One betting market, held in the account seeded by `"bet"` and its id.
#[derive(Clone, Copy, Debug)]
pub struct Bet {
    pub id: u64,
    pub open: bool,
    pub side: u8,
    pub total_pot: u64,
}

impl Bet {
    pub const LEN: usize = 8 + 1 + 1 + 8;

    pub fn zeroed() -> (b: Bet)
        ensures
            b == Bet::spec_zeroed(),
    {
        Bet { id: 0, open: false, side: 0, total_pot: 0 }
    }

    pub open spec fn spec_zeroed() -> Bet {
        Bet { id: 0, open: false, side: 0, total_pot: 0 }
    }
}

/// One user's stake in one market, seeded by `"user_bet"`, the bet id and the user.
#[derive(Clone, Copy, Debug)]
pub struct UserBet {
    pub user: Pubkey,
    pub bet: Pubkey,
    pub amount: u64,
    /// 0 = home, 1 = away
    pub side: u8,
}

impl UserBet {
    pub const LEN: usize = 32 + 32 + 8 + 1;

    pub fn zeroed() -> (u: UserBet)
        ensures
            u == UserBet::spec_zeroed(),
    {
        UserBet { user: Pubkey::default_key(), bet: Pubkey::default_key(), amount: 0, side: 0 }
    }

    pub open spec fn spec_zeroed() -> UserBet {
        UserBet { user: Pubkey::spec_zero(), bet: Pubkey::spec_zero(), amount: 0, side: 0 }
    }
}

} // verus!
