use vstd::prelude::*;
use crate::error::ErrorCode;
use crate::pubkey::{Pubkey, same_key};
use crate::state::{Bet, State, UserBet};

verus! {

/// Accounts of `initialize`: the settings account (freshly created), the
/// payer, the vault token account to create, the vault authority with its
/// bump, the mint and the token program.
pub struct Initialize {
    pub state: State,
    pub payer: Pubkey,
    pub vault: Pubkey,
    pub vault_authority: Pubkey,
    pub vault_authority_bump: u8,
    pub mint: Pubkey,
    pub token_program: Pubkey,
}

/// Accounts of the settings instructions; only the stored admin may sign.
pub struct SetSettings {
    pub state: State,
    pub admin: Pubkey,
}

/// Accounts of `accept_admin_role`; only the delegated key may sign.
pub struct AcceptAdminRole {
    pub state: State,
    pub new_admin: Pubkey,
}

/// Accounts of `register_bet`: the signer and the freshly created bet.
pub struct RegisterBet {
    pub admin: Pubkey,
    pub bet: Bet,
}

/// Accounts of `fund_vault`; `vault_data` is the vault's raw data as it
/// stands when the instruction starts.
pub struct FundVault {
    pub state: State,
    pub admin: Pubkey,
    pub admin_token_account: Pubkey,
    pub vault: Pubkey,
    pub vault_data: Vec<u8>,
    pub mint: Pubkey,
    pub token_program: Pubkey,
}

/// Accounts of `set_winner`.
pub struct SetWinner {
    pub admin: Pubkey,
    pub state: State,
    pub bet: Bet,
}

/// Accounts of `place_bet`; `bet_key` is the address of the bet account,
/// `user_bet` is freshly created and `vault_data` is the vault's raw data
/// as it stands when the instruction starts.
pub struct PlaceBet {
    pub user_token_account: Pubkey,
    pub mint: Pubkey,
    pub state: State,
    pub user: Pubkey,
    pub token_program: Pubkey,
    pub bet_key: Pubkey,
    pub bet: Bet,
    pub user_bet: UserBet,
    pub vault: Pubkey,
    pub vault_data: Vec<u8>,
}

/// Accounts of `claim_winnings`.
pub struct ClaimWinnings {
    pub user_token_account: Pubkey,
    pub mint: Pubkey,
    pub state: State,
    pub user: Pubkey,
    pub token_program: Pubkey,
    pub bet: Bet,
    pub user_bet: UserBet,
    pub vault: Pubkey,
    pub vault_authority: Pubkey,
    pub vault_authority_bump: u8,
}

impl SetSettings {
    /// The account constraint: the signer is the stored admin.
    pub open spec fn authorized(&self) -> bool {
        same_key(self.admin, self.state.admin)
    }

    pub fn validate(&self) -> (res: Result<(), ErrorCode>)
        ensures
            res == (if self.authorized() { Ok(()) } else { Err(ErrorCode::Unauthorized) }),
    {
        if self.admin.key_eq(&self.state.admin) {
            Ok(())
        } else {
            Err(ErrorCode::Unauthorized)
        }
    }
}

impl AcceptAdminRole {
    /// The account constraint: the signer is the delegated admin.
    pub open spec fn authorized(&self) -> bool {
        same_key(self.new_admin, self.state.delegated_admin_role)
    }

    pub fn validate(&self) -> (res: Result<(), ErrorCode>)
        ensures
            res == (if self.authorized() { Ok(()) } else { Err(ErrorCode::Unauthorized) }),
    {
        if self.new_admin.key_eq(&self.state.delegated_admin_role) {
            Ok(())
        } else {
            Err(ErrorCode::Unauthorized)
        }
    }
}

} // verus!
