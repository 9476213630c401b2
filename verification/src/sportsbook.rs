use vstd::prelude::*;
use crate::consts::{PAYOUT_PERCENT, SFLOW_DECIMALS, SFLOW_MINT_LEN, TOKEN_DECIMALS};
use crate::contexts::{
    AcceptAdminRole, ClaimWinnings, FundVault, Initialize, PlaceBet, RegisterBet, SetSettings,
    SetWinner,
};
use crate::error::ErrorCode;
use crate::pubkey::{Pubkey, same_key};
use crate::state::{Bet, State, UserBet};
use crate::token::{
    AMOUNT_END, TokenTransfer, VaultSetup, token_account_amount, token_amount_spec,
};

verus! {

// ---------------------------------------------------------------------
// Specifications of the instructions
// ---------------------------------------------------------------------

/// Maximum stake that `initialize` sets: one million whole tokens.
pub open spec fn initial_max_bet() -> u64 {
    (1_000_000 * SFLOW_DECIMALS) as u64
}

/// Settings after `initialize(admin)` with `vault` as the vault account.
pub open spec fn initialize_spec(st: State, vault: Pubkey, admin: Pubkey) -> State {
    State { admin: admin, vault: vault, reward_multiplier: 205, max_bet: initial_max_bet(), ..st }
}

/// What `initialize` asks the runtime to set up.
pub open spec fn vault_setup_spec(ctx: Initialize) -> VaultSetup {
    VaultSetup {
        payer: ctx.payer,
        vault: ctx.vault,
        space: SFLOW_MINT_LEN as u64,
        owner: ctx.token_program,
        mint: ctx.mint,
        authority: ctx.vault_authority,
        authority_bump: ctx.vault_authority_bump,
    }
}

/// A freshly registered bet: open, home side, with the given id.
pub open spec fn register_bet_spec(bet: Bet, bet_id: u64) -> Bet {
    Bet { id: bet_id, open: true, side: 0, ..bet }
}

pub open spec fn set_max_bet_spec(st: State, signer: Pubkey, max_bet: u64) -> (Result<(), ErrorCode>, State) {
    if !same_key(signer, st.admin) {
        (Err(ErrorCode::Unauthorized), st)
    } else {
        (Ok(()), State { max_bet: max_bet, ..st })
    }
}

pub open spec fn set_reward_multiplier_spec(st: State, signer: Pubkey, reward_multiplier: u16) -> (Result<(), ErrorCode>, State) {
    if !same_key(signer, st.admin) {
        (Err(ErrorCode::Unauthorized), st)
    } else {
        (Ok(()), State { reward_multiplier: reward_multiplier, ..st })
    }
}

pub open spec fn delegate_admin_spec(st: State, signer: Pubkey, new_admin: Pubkey) -> (Result<(), ErrorCode>, State) {
    if !same_key(signer, st.admin) {
        (Err(ErrorCode::Unauthorized), st)
    } else if same_key(new_admin, st.admin) {
        (Err(ErrorCode::InvalidDelegate), st)
    } else {
        (Ok(()), State { delegated_admin_role: new_admin, ..st })
    }
}

pub open spec fn accept_admin_role_spec(st: State, signer: Pubkey) -> (Result<(), ErrorCode>, State) {
    if !same_key(signer, st.delegated_admin_role) {
        (Err(ErrorCode::Unauthorized), st)
    } else {
        (Ok(()), State { admin: signer, ..st })
    }
}

pub open spec fn set_winner_spec(st: State, signer: Pubkey, bet: Bet, side: u8) -> (Result<(), ErrorCode>, Bet) {
    if !same_key(signer, st.admin) {
        (Err(ErrorCode::Unauthorized), bet)
    } else if !bet.open {
        (Err(ErrorCode::BetClosed), bet)
    } else if side > 1 {
        (Err(ErrorCode::InvalidSide), bet)
    } else {
        (Ok(()), Bet { open: false, side: side, total_pot: 0, ..bet })
    }
}

/// The transfer that funds the vault, or the check that refuses it.
pub open spec fn fund_vault_spec(ctx: FundVault, amount: u64) -> Result<TokenTransfer, ErrorCode> {
    if !same_key(ctx.state.admin, ctx.admin) {
        Err(ErrorCode::Unauthorized)
    } else if !same_key(ctx.vault, ctx.state.vault) {
        Err(ErrorCode::InvalidVault)
    } else {
        Ok(TokenTransfer {
            token_program: ctx.token_program,
            from: ctx.admin_token_account,
            mint: ctx.mint,
            to: ctx.vault,
            authority: ctx.admin,
            amount: amount,
            decimals: TOKEN_DECIMALS,
            vault_signer_bump: None,
        })
    }
}

/// What the vault received between the start of the instruction and
/// `after`, or `MathOverflow` when its balance went down.
pub open spec fn received_spec(before: Seq<u8>, after: Seq<u8>) -> Result<u64, ErrorCode> {
    if token_amount_spec(after) < token_amount_spec(before) {
        Err(ErrorCode::MathOverflow)
    } else {
        Ok((token_amount_spec(after) - token_amount_spec(before)) as u64)
    }
}

/// The stake transfer of `place_bet`, or the first check that refuses it.
pub open spec fn place_bet_spec(ctx: PlaceBet, amount: u64, side: u8) -> Result<TokenTransfer, ErrorCode> {
    if !ctx.bet.open {
        Err(ErrorCode::BetClosed)
    } else if !(side == 0 || side == 1) {
        Err(ErrorCode::InvalidSide)
    } else if !same_key(ctx.vault, ctx.state.vault) {
        Err(ErrorCode::InvalidVault)
    } else if amount > ctx.state.max_bet {
        Err(ErrorCode::MaxBetExceeded)
    } else {
        Ok(TokenTransfer {
            token_program: ctx.token_program,
            from: ctx.user_token_account,
            mint: ctx.mint,
            to: ctx.vault,
            authority: ctx.user,
            amount: amount,
            decimals: TOKEN_DECIMALS,
            vault_signer_bump: None,
        })
    }
}

/// `place_bet` on `side` after the transfer is done and the vault's data
/// reads `after`: the stake actually received and the chosen side are
/// recorded, and the stake is added to the pot.
pub open spec fn place_bet_finish_spec(ctx: PlaceBet, side: u8, after: Seq<u8>) -> (Result<(), ErrorCode>, Bet, UserBet) {
    match received_spec(ctx.vault_data@, after) {
        Err(e) => (Err(e), ctx.bet, ctx.user_bet),
        Ok(received) => (
            Ok(()),
            Bet { total_pot: (ctx.bet.total_pot + received) as u64, ..ctx.bet },
            UserBet { amount: received, bet: ctx.bet_key, side: side, ..ctx.user_bet },
        ),
    }
}

/// `place_bet_finish` is defined on `after`: both data are long enough to
/// hold a balance and the pot does not pass `u64::MAX`.
pub open spec fn place_bet_finish_defined(ctx: PlaceBet, after: Seq<u8>) -> bool {
    &&& ctx.vault_data@.len() >= AMOUNT_END
    &&& after.len() >= AMOUNT_END
    &&& received_spec(ctx.vault_data@, after) matches Ok(received)
        ==> ctx.bet.total_pot + received <= u64::MAX
}

/// Payout of a winning stake: 205 per 100 staked, rounded down.
pub open spec fn winnings_spec(amount: u64) -> int {
    (amount * PAYOUT_PERCENT) / 100
}

/// The checks of `claim_winnings`, in order.
pub open spec fn claim_check_spec(ctx: ClaimWinnings) -> Result<(), ErrorCode> {
    if ctx.bet.open {
        Err(ErrorCode::BetOpen)
    } else if !same_key(ctx.vault, ctx.state.vault) {
        Err(ErrorCode::InvalidVault)
    } else if ctx.bet.side != ctx.user_bet.side {
        Err(ErrorCode::LostBet)
    } else {
        Ok(())
    }
}

/// `claim_winnings` is defined: where the checks pass, the payout
/// computation does not pass `u64::MAX`.
pub open spec fn claim_winnings_defined(ctx: ClaimWinnings) -> bool {
    claim_check_spec(ctx) is Ok ==> ctx.user_bet.amount * PAYOUT_PERCENT <= u64::MAX
}

/// The payout transfer of `claim_winnings` and the stake record after it.
pub open spec fn claim_winnings_spec(ctx: ClaimWinnings) -> (Result<TokenTransfer, ErrorCode>, UserBet) {
    match claim_check_spec(ctx) {
        Err(e) => (Err(e), ctx.user_bet),
        Ok(_) => (
            Ok(TokenTransfer {
                token_program: ctx.token_program,
                from: ctx.vault,
                mint: ctx.mint,
                to: ctx.user_token_account,
                authority: ctx.vault_authority,
                amount: winnings_spec(ctx.user_bet.amount) as u64,
                decimals: TOKEN_DECIMALS,
                vault_signer_bump: Some(ctx.vault_authority_bump),
            }),
            UserBet { amount: 0, ..ctx.user_bet },
        ),
    }
}

// ---------------------------------------------------------------------
// Instructions
// ---------------------------------------------------------------------

/// Writes the initial settings: `admin`, the vault address, a reward
/// multiplier of 205 and a maximum stake of one million tokens. Returns the
/// vault account the runtime has to create and initialise.
pub fn initialize(ctx: &mut Initialize, admin: Pubkey) -> (setup: VaultSetup)
    ensures
        final(ctx).state == initialize_spec(old(ctx).state, old(ctx).vault, admin),
        setup == vault_setup_spec(*old(ctx)),
        final(ctx).payer == old(ctx).payer,
        final(ctx).vault == old(ctx).vault,
        final(ctx).vault_authority == old(ctx).vault_authority,
        final(ctx).vault_authority_bump == old(ctx).vault_authority_bump,
        final(ctx).mint == old(ctx).mint,
        final(ctx).token_program == old(ctx).token_program,
{
    let vault_key = ctx.vault;
    let setup = VaultSetup {
        payer: ctx.payer,
        vault: vault_key,
        space: SFLOW_MINT_LEN as u64,
        owner: ctx.token_program,
        mint: ctx.mint,
        authority: ctx.vault_authority,
        authority_bump: ctx.vault_authority_bump,
    };
    ctx.state.admin = admin;
    ctx.state.vault = vault_key;
    ctx.state.reward_multiplier = 205;
    ctx.state.max_bet = 1_000_000 * SFLOW_DECIMALS;
    setup
}

/// Opens a new bet with the given id; the home side is preset.
pub fn register_bet(ctx: &mut RegisterBet, bet_id: u64) -> (res: Result<(), ErrorCode>)
    ensures
        res == Ok::<(), ErrorCode>(()),
        final(ctx).bet == register_bet_spec(old(ctx).bet, bet_id),
        final(ctx).admin == old(ctx).admin,
{
    ctx.bet.id = bet_id;
    ctx.bet.open = true;
    ctx.bet.side = 0;
    Ok(())
}

/// Checks that the admin funds the configured vault and returns the
/// transfer of `amount` from the admin's token account into the vault.
/// The balance check that follows the transfer is `fund_vault_finish`.
pub fn fund_vault(ctx: &FundVault, amount: u64) -> (res: Result<TokenTransfer, ErrorCode>)
    ensures
        res == fund_vault_spec(*ctx, amount),
{
    if !ctx.state.admin.key_eq(&ctx.admin) {
        return Err(ErrorCode::Unauthorized);
    }
    if !ctx.vault.key_eq(&ctx.state.vault) {
        return Err(ErrorCode::InvalidVault);
    }
    Ok(TokenTransfer {
        token_program: ctx.token_program,
        from: ctx.admin_token_account,
        mint: ctx.mint,
        to: ctx.vault,
        authority: ctx.admin,
        amount,
        decimals: TOKEN_DECIMALS,
        vault_signer_bump: None,
    })
}

/// The vault balance gained between the start of `fund_vault` and
/// `vault_data_after`, the vault's data once the transfer is done.
pub fn fund_vault_finish(ctx: &FundVault, vault_data_after: &[u8]) -> (res: Result<u64, ErrorCode>)
    requires
        ctx.vault_data@.len() >= AMOUNT_END,
        vault_data_after@.len() >= AMOUNT_END,
    ensures
        res == received_spec(ctx.vault_data@, vault_data_after@),
{
    received(ctx.vault_data.as_slice(), vault_data_after)
}

fn received(before: &[u8], after: &[u8]) -> (res: Result<u64, ErrorCode>)
    requires
        before@.len() >= AMOUNT_END,
        after@.len() >= AMOUNT_END,
    ensures
        res == received_spec(before@, after@),
{
    let vault_before = token_account_amount(before);
    let vault_after = token_account_amount(after);
    match vault_after.checked_sub(vault_before) {
        Some(r) => Ok(r),
        None => Err(ErrorCode::MathOverflow),
    }
}

/// Closes an open bet and records the winning side, 0 (home) or 1 (away);
/// the pot is reset.
pub fn set_winner(ctx: &mut SetWinner, bet_id: u64, side: u8) -> (res: Result<(), ErrorCode>)
    ensures
        (res, final(ctx).bet) == set_winner_spec(old(ctx).state, old(ctx).admin, old(ctx).bet, side),
        final(ctx).state == old(ctx).state,
        final(ctx).admin == old(ctx).admin,
{
    if !ctx.admin.key_eq(&ctx.state.admin) {
        return Err(ErrorCode::Unauthorized);
    }
    if !ctx.bet.open {
        return Err(ErrorCode::BetClosed);
    }
    if side > 1 {
        return Err(ErrorCode::InvalidSide);
    }
    ctx.bet.open = false;
    ctx.bet.side = side;
    ctx.bet.total_pot = 0;
    Ok(())
}

/// Checks a stake of `amount` on `side` and returns the transfer from the
/// user's token account into the vault. Recording what the vault received
/// is `place_bet_finish`.
pub fn place_bet(ctx: &PlaceBet, bet_id: u64, amount: u64, side: u8) -> (res: Result<TokenTransfer, ErrorCode>)
    ensures
        res == place_bet_spec(*ctx, amount, side),
{
    if !ctx.bet.open {
        return Err(ErrorCode::BetClosed);
    }
    if !(side == 0 || side == 1) {
        return Err(ErrorCode::InvalidSide);
    }
    if !ctx.vault.key_eq(&ctx.state.vault) {
        return Err(ErrorCode::InvalidVault);
    }
    if amount > ctx.state.max_bet {
        return Err(ErrorCode::MaxBetExceeded);
    }
    Ok(TokenTransfer {
        token_program: ctx.token_program,
        from: ctx.user_token_account,
        mint: ctx.mint,
        to: ctx.vault,
        authority: ctx.user,
        amount,
        decimals: TOKEN_DECIMALS,
        vault_signer_bump: None,
    })
}

/// Whether `place_bet_finish` may be called with `vault_data_after`.
pub fn place_bet_finish_allowed(ctx: &PlaceBet, vault_data_after: &[u8]) -> (ok: bool)
    ensures
        ok == place_bet_finish_defined(*ctx, vault_data_after@),
{
    if ctx.vault_data.len() < AMOUNT_END || vault_data_after.len() < AMOUNT_END {
        return false;
    }
    match received(ctx.vault_data.as_slice(), vault_data_after) {
        Ok(r) => r <= u64::MAX - ctx.bet.total_pot,
        Err(_) => true,
    }
}

/// Records the stake the vault actually received once the transfer of
/// `place_bet` on `side` is done: the user's stake, side and bet address are
/// written and the pot grows by the same amount.
pub fn place_bet_finish(ctx: &mut PlaceBet, side: u8, vault_data_after: &[u8]) -> (res: Result<(), ErrorCode>)
    requires
        place_bet_finish_defined(*old(ctx), vault_data_after@),
    ensures
        (res, final(ctx).bet, final(ctx).user_bet) == place_bet_finish_spec(*old(ctx), side, vault_data_after@),
        final(ctx).state == old(ctx).state,
        final(ctx).vault_data == old(ctx).vault_data,
        final(ctx).bet_key == old(ctx).bet_key,
        final(ctx).vault == old(ctx).vault,
        final(ctx).user == old(ctx).user,
        final(ctx).user_token_account == old(ctx).user_token_account,
        final(ctx).mint == old(ctx).mint,
        final(ctx).token_program == old(ctx).token_program,
{
    let received = match received(ctx.vault_data.as_slice(), vault_data_after) {
        Ok(r) => r,
        Err(e) => return Err(e),
    };
    ctx.user_bet.amount = received;
    ctx.user_bet.bet = ctx.bet_key;
    ctx.user_bet.side = side;
    ctx.bet.total_pot = ctx.bet.total_pot + received;
    Ok(())
}

/// Whether `claim_winnings` may be called on `ctx`.
pub fn claim_winnings_allowed(ctx: &ClaimWinnings) -> (ok: bool)
    ensures
        ok == claim_winnings_defined(*ctx),
{
    match claim_check(ctx) {
        Err(_) => true,
        Ok(()) => ctx.user_bet.amount <= u64::MAX / PAYOUT_PERCENT,
    }
}

fn claim_check(ctx: &ClaimWinnings) -> (res: Result<(), ErrorCode>)
    ensures
        res == claim_check_spec(*ctx),
{
    if ctx.bet.open {
        return Err(ErrorCode::BetOpen);
    }
    if !ctx.vault.key_eq(&ctx.state.vault) {
        return Err(ErrorCode::InvalidVault);
    }
    if ctx.bet.side != ctx.user_bet.side {
        return Err(ErrorCode::LostBet);
    }
    Ok(())
}

/// Pays a winning stake out of the vault: returns the transfer of 205 per
/// 100 staked (signed by the vault authority) and clears the stake.
pub fn claim_winnings(ctx: &mut ClaimWinnings, bet_id: u64) -> (res: Result<TokenTransfer, ErrorCode>)
    requires
        claim_winnings_defined(*old(ctx)),
    ensures
        (res, final(ctx).user_bet) == claim_winnings_spec(*old(ctx)),
        final(ctx).state == old(ctx).state,
        final(ctx).bet == old(ctx).bet,
        final(ctx).vault == old(ctx).vault,
        final(ctx).user == old(ctx).user,
        final(ctx).user_token_account == old(ctx).user_token_account,
        final(ctx).mint == old(ctx).mint,
        final(ctx).token_program == old(ctx).token_program,
        final(ctx).vault_authority == old(ctx).vault_authority,
        final(ctx).vault_authority_bump == old(ctx).vault_authority_bump,
{
    match claim_check(ctx) {
        Err(e) => return Err(e),
        Ok(()) => {},
    }
    let base = ctx.user_bet.amount;
    let winnings = (base * PAYOUT_PERCENT) / 100;
    let transfer = TokenTransfer {
        token_program: ctx.token_program,
        from: ctx.vault,
        mint: ctx.mint,
        to: ctx.user_token_account,
        authority: ctx.vault_authority,
        amount: winnings,
        decimals: TOKEN_DECIMALS,
        vault_signer_bump: Some(ctx.vault_authority_bump),
    };
    ctx.user_bet.amount = 0;
    Ok(transfer)
}

/// Sets the maximum stake; only the admin may.
pub fn set_max_bet(ctx: &mut SetSettings, max_bet: u64) -> (res: Result<(), ErrorCode>)
    ensures
        (res, final(ctx).state) == set_max_bet_spec(old(ctx).state, old(ctx).admin, max_bet),
        final(ctx).admin == old(ctx).admin,
{
    match ctx.validate() {
        Err(e) => return Err(e),
        Ok(()) => {},
    }
    ctx.state.max_bet = max_bet;
    Ok(())
}

/// Sets the reward multiplier; only the admin may.
pub fn set_reward_multiplier(ctx: &mut SetSettings, reward_multiplier: u16) -> (res: Result<(), ErrorCode>)
    ensures
        (res, final(ctx).state) == set_reward_multiplier_spec(old(ctx).state, old(ctx).admin, reward_multiplier),
        final(ctx).admin == old(ctx).admin,
{
    match ctx.validate() {
        Err(e) => return Err(e),
        Ok(()) => {},
    }
    ctx.state.reward_multiplier = reward_multiplier;
    Ok(())
}

/// Names `new_admin` as the key that may take over the admin role; only the
/// admin may, and not in favour of itself.
pub fn delegate_admin(ctx: &mut SetSettings, new_admin: Pubkey) -> (res: Result<(), ErrorCode>)
    ensures
        (res, final(ctx).state) == delegate_admin_spec(old(ctx).state, old(ctx).admin, new_admin),
        final(ctx).admin == old(ctx).admin,
{
    match ctx.validate() {
        Err(e) => return Err(e),
        Ok(()) => {},
    }
    if new_admin.key_eq(&ctx.state.admin) {
        return Err(ErrorCode::InvalidDelegate);
    }
    ctx.state.delegated_admin_role = new_admin;
    Ok(())
}

/// The delegated key takes over the admin role.
pub fn accept_admin_role(ctx: &mut AcceptAdminRole) -> (res: Result<(), ErrorCode>)
    ensures
        (res, final(ctx).state) == accept_admin_role_spec(old(ctx).state, old(ctx).new_admin),
        final(ctx).new_admin == old(ctx).new_admin,
{
    match ctx.validate() {
        Err(e) => return Err(e),
        Ok(()) => {},
    }
    ctx.state.admin = ctx.new_admin;
    Ok(())
}

} // verus!
