use sportsbook::consts::{SFLOW_DECIMALS, SFLOW_MINT_LEN, TOKEN_DECIMALS};
use sportsbook::contexts::{
    AcceptAdminRole, ClaimWinnings, FundVault, Initialize, PlaceBet, RegisterBet, SetSettings,
    SetWinner,
};
use sportsbook::error::ErrorCode;
use sportsbook::pubkey::Pubkey;
use sportsbook::sportsbook::{
    accept_admin_role, claim_winnings, claim_winnings_allowed, delegate_admin, fund_vault,
    fund_vault_finish, initialize, place_bet, place_bet_finish, place_bet_finish_allowed,
    register_bet, set_max_bet, set_reward_multiplier, set_winner,
};
use sportsbook::state::{Bet, State, UserBet};
use sportsbook::token::token_account_amount;

fn key(n: u8) -> Pubkey {
    Pubkey::new_from_array([n; 32])
}

const ADMIN: u8 = 1;
const VAULT: u8 = 2;
const USER: u8 = 3;
const OTHER: u8 = 4;
const MINT: u8 = 5;
const TOKEN_PROGRAM: u8 = 6;
const BET_ACCOUNT: u8 = 7;
const USER_TOKEN: u8 = 8;
const VAULT_AUTHORITY: u8 = 9;

fn vault_data(amount: u64) -> Vec<u8> {
    let mut data = vec![0xAAu8; 165];
    data[64..72].copy_from_slice(&amount.to_le_bytes());
    data
}

fn settings() -> State {
    State {
        admin: key(ADMIN),
        vault: key(VAULT),
        max_bet: 1_000,
        reward_multiplier: 205,
        delegated_admin_role: Pubkey::default_key(),
    }
}

fn open_bet() -> Bet {
    Bet { id: 42, open: true, side: 0, total_pot: 0 }
}

fn place_ctx(bet: Bet, vault: u8, before: u64) -> PlaceBet {
    PlaceBet {
        user_token_account: key(USER_TOKEN),
        mint: key(MINT),
        state: settings(),
        user: key(USER),
        token_program: key(TOKEN_PROGRAM),
        bet_key: key(BET_ACCOUNT),
        bet,
        user_bet: UserBet::zeroed(),
        vault: key(vault),
        vault_data: vault_data(before),
    }
}

fn claim_ctx(bet: Bet, user_side: u8, amount: u64, vault: u8) -> ClaimWinnings {
    ClaimWinnings {
        user_token_account: key(USER_TOKEN),
        mint: key(MINT),
        state: settings(),
        user: key(USER),
        token_program: key(TOKEN_PROGRAM),
        bet,
        user_bet: UserBet { user: key(USER), bet: key(BET_ACCOUNT), amount, side: user_side },
        vault: key(vault),
        vault_authority: key(VAULT_AUTHORITY),
        vault_authority_bump: 254,
    }
}

fn fund_ctx(signer: u8, vault: u8, before: u64) -> FundVault {
    FundVault {
        state: settings(),
        admin: key(signer),
        admin_token_account: key(USER_TOKEN),
        vault: key(vault),
        vault_data: vault_data(before),
        mint: key(MINT),
        token_program: key(TOKEN_PROGRAM),
    }
}

#[test]
fn keys_compare_by_bytes() {
    assert!(key(1).key_eq(&key(1)));
    assert!(!key(1).key_eq(&key(2)));
    let mut b = [1u8; 32];
    b[31] = 0;
    assert!(!key(1).key_eq(&Pubkey::new_from_array(b)));
    assert_eq!(key(9).to_bytes(), [9u8; 32]);
    assert_eq!(Pubkey::default_key().to_bytes(), [0u8; 32]);
}

#[test]
fn account_sizes() {
    assert_eq!(State::LEN, 106);
    assert_eq!(Bet::LEN, 18);
    assert_eq!(UserBet::LEN, 73);
}

#[test]
fn token_amount_is_read_little_endian_at_offset_64() {
    assert_eq!(token_account_amount(&vault_data(0)), 0);
    assert_eq!(token_account_amount(&vault_data(513)), 513);
    assert_eq!(token_account_amount(&vault_data(u64::MAX)), u64::MAX);
    let mut data = vec![0u8; 72];
    data[64] = 1;
    data[65] = 2;
    data[71] = 0x80;
    assert_eq!(token_account_amount(&data), 0x8000_0000_0000_0201);
}

#[test]
fn initialize_writes_settings_and_plans_vault() {
    let mut ctx = Initialize {
        state: State::zeroed(),
        payer: key(OTHER),
        vault: key(VAULT),
        vault_authority: key(VAULT_AUTHORITY),
        vault_authority_bump: 253,
        mint: key(MINT),
        token_program: key(TOKEN_PROGRAM),
    };
    let setup = initialize(&mut ctx, key(ADMIN));
    assert!(ctx.state.admin.key_eq(&key(ADMIN)));
    assert!(ctx.state.vault.key_eq(&key(VAULT)));
    assert_eq!(ctx.state.reward_multiplier, 205);
    assert_eq!(ctx.state.max_bet, 1_000_000 * SFLOW_DECIMALS);
    assert_eq!(ctx.state.max_bet, 1_000_000_000_000);
    assert!(ctx.state.delegated_admin_role.key_eq(&Pubkey::default_key()));
    assert!(setup.payer.key_eq(&key(OTHER)));
    assert!(setup.vault.key_eq(&key(VAULT)));
    assert_eq!(setup.space, SFLOW_MINT_LEN as u64);
    assert_eq!(setup.space, 165);
    assert!(setup.owner.key_eq(&key(TOKEN_PROGRAM)));
    assert!(setup.mint.key_eq(&key(MINT)));
    assert!(setup.authority.key_eq(&key(VAULT_AUTHORITY)));
    assert_eq!(setup.authority_bump, 253);
}

#[test]
fn register_bet_opens_on_home_side() {
    let mut ctx = RegisterBet { admin: key(ADMIN), bet: Bet::zeroed() };
    assert_eq!(register_bet(&mut ctx, 77), Ok(()));
    assert_eq!(ctx.bet.id, 77);
    assert!(ctx.bet.open);
    assert_eq!(ctx.bet.side, 0);
    assert_eq!(ctx.bet.total_pot, 0);
}

#[test]
fn set_winner_checks_admin_then_open() {
    let mut ctx = SetWinner { admin: key(OTHER), state: settings(), bet: open_bet() };
    assert_eq!(set_winner(&mut ctx, 42, 1), Err(ErrorCode::Unauthorized));
    assert!(ctx.bet.open);

    let mut ctx = SetWinner { admin: key(ADMIN), state: settings(), bet: Bet { total_pot: 500, ..open_bet() } };
    assert_eq!(set_winner(&mut ctx, 42, 1), Ok(()));
    assert!(!ctx.bet.open);
    assert_eq!(ctx.bet.side, 1);
    assert_eq!(ctx.bet.total_pot, 0);
    assert_eq!(ctx.bet.id, 42);

    assert_eq!(set_winner(&mut ctx, 42, 0), Err(ErrorCode::BetClosed));
    assert_eq!(ctx.bet.side, 1);

    let mut ctx = SetWinner { admin: key(OTHER), state: settings(), bet: Bet { open: false, ..open_bet() } };
    assert_eq!(set_winner(&mut ctx, 42, 0), Err(ErrorCode::Unauthorized));
}

#[test]
fn set_winner_accepts_only_home_or_away() {
    let mut ctx = SetWinner { admin: key(ADMIN), state: settings(), bet: open_bet() };
    assert_eq!(set_winner(&mut ctx, 42, 2), Err(ErrorCode::InvalidSide));
    assert_eq!(set_winner(&mut ctx, 42, 255), Err(ErrorCode::InvalidSide));
    assert!(ctx.bet.open);
    assert_eq!(set_winner(&mut ctx, 42, 0), Ok(()));
    assert!(!ctx.bet.open);
    // a closed bet is refused as closed, whatever the side
    assert_eq!(set_winner(&mut ctx, 42, 7), Err(ErrorCode::BetClosed));
}

#[test]
fn fund_vault_checks_and_transfer() {
    assert_eq!(fund_vault(&fund_ctx(OTHER, VAULT, 0), 10).err(), Some(ErrorCode::Unauthorized));
    assert_eq!(fund_vault(&fund_ctx(OTHER, OTHER, 0), 10).err(), Some(ErrorCode::Unauthorized));
    assert_eq!(fund_vault(&fund_ctx(ADMIN, OTHER, 0), 10).err(), Some(ErrorCode::InvalidVault));
    let t = fund_vault(&fund_ctx(ADMIN, VAULT, 0), 10).unwrap();
    assert!(t.from.key_eq(&key(USER_TOKEN)));
    assert!(t.to.key_eq(&key(VAULT)));
    assert!(t.authority.key_eq(&key(ADMIN)));
    assert!(t.mint.key_eq(&key(MINT)));
    assert!(t.token_program.key_eq(&key(TOKEN_PROGRAM)));
    assert_eq!(t.amount, 10);
    assert_eq!(t.decimals, TOKEN_DECIMALS);
    assert_eq!(t.decimals, 6);
    assert_eq!(t.vault_signer_bump, None);
}

#[test]
fn fund_vault_finish_reports_received() {
    let ctx = fund_ctx(ADMIN, VAULT, 100);
    assert_eq!(fund_vault_finish(&ctx, &vault_data(130)), Ok(30));
    assert_eq!(fund_vault_finish(&ctx, &vault_data(100)), Ok(0));
    assert_eq!(fund_vault_finish(&ctx, &vault_data(99)), Err(ErrorCode::MathOverflow));
}

#[test]
fn place_bet_checks_in_order() {
    let closed = Bet { open: false, ..open_bet() };
    assert_eq!(place_bet(&place_ctx(closed, OTHER, 0), 42, 5_000, 7).err(), Some(ErrorCode::BetClosed));
    assert_eq!(place_bet(&place_ctx(open_bet(), OTHER, 0), 42, 5_000, 2).err(), Some(ErrorCode::InvalidSide));
    assert_eq!(place_bet(&place_ctx(open_bet(), OTHER, 0), 42, 5_000, 1).err(), Some(ErrorCode::InvalidVault));
    assert_eq!(place_bet(&place_ctx(open_bet(), VAULT, 0), 42, 1_001, 1).err(), Some(ErrorCode::MaxBetExceeded));
    let t = place_bet(&place_ctx(open_bet(), VAULT, 0), 42, 1_000, 1).unwrap();
    assert_eq!(t.amount, 1_000);
    assert!(t.from.key_eq(&key(USER_TOKEN)));
    assert!(t.to.key_eq(&key(VAULT)));
    assert!(t.authority.key_eq(&key(USER)));
    assert_eq!(t.decimals, 6);
    assert_eq!(t.vault_signer_bump, None);
    assert!(place_bet(&place_ctx(open_bet(), VAULT, 0), 42, 0, 0).is_ok());
}

#[test]
fn place_bet_finish_records_what_the_vault_received() {
    let mut ctx = place_ctx(Bet { total_pot: 50, ..open_bet() }, VAULT, 1_000);
    let after = vault_data(1_400);
    assert!(place_bet_finish_allowed(&ctx, &after));
    assert_eq!(place_bet_finish(&mut ctx, 1, &after), Ok(()));
    assert_eq!(ctx.user_bet.amount, 400);
    assert!(ctx.user_bet.bet.key_eq(&key(BET_ACCOUNT)));
    assert_eq!(ctx.bet.total_pot, 450);
    assert_eq!(ctx.user_bet.side, 1);
}

#[test]
fn stake_on_away_wins_when_away_wins() {
    let mut pctx = place_ctx(open_bet(), VAULT, 0);
    place_bet(&pctx, 42, 100, 1).unwrap();
    place_bet_finish(&mut pctx, 1, &vault_data(100)).unwrap();
    let away_won = Bet { open: false, side: 1, ..open_bet() };
    let mut c = ClaimWinnings { user_bet: pctx.user_bet, ..claim_ctx(away_won, 0, 0, VAULT) };
    assert_eq!(claim_winnings(&mut c, 42).unwrap().amount, 205);
    let home_won = Bet { open: false, side: 0, ..open_bet() };
    let mut c = ClaimWinnings { user_bet: pctx.user_bet, ..claim_ctx(home_won, 0, 0, VAULT) };
    assert_eq!(claim_winnings(&mut c, 42).err(), Some(ErrorCode::LostBet));
}

#[test]
fn place_bet_finish_refuses_a_shrinking_vault() {
    let mut ctx = place_ctx(Bet { total_pot: 50, ..open_bet() }, VAULT, 1_000);
    let after = vault_data(999);
    assert!(place_bet_finish_allowed(&ctx, &after));
    assert_eq!(place_bet_finish(&mut ctx, 1, &after), Err(ErrorCode::MathOverflow));
    assert_eq!(ctx.user_bet.side, 0);
    assert_eq!(ctx.user_bet.amount, 0);
    assert_eq!(ctx.bet.total_pot, 50);
}

#[test]
fn place_bet_finish_allowed_detects_undefined_cases() {
    let ctx = place_ctx(Bet { total_pot: u64::MAX - 5, ..open_bet() }, VAULT, 0);
    assert!(place_bet_finish_allowed(&ctx, &vault_data(5)));
    assert!(!place_bet_finish_allowed(&ctx, &vault_data(6)));
    assert!(!place_bet_finish_allowed(&ctx, &vec![0u8; 71]));
    let mut short = place_ctx(open_bet(), VAULT, 0);
    short.vault_data = vec![0u8; 10];
    assert!(!place_bet_finish_allowed(&short, &vault_data(6)));
}

#[test]
fn claim_winnings_checks_in_order() {
    let mut c = claim_ctx(open_bet(), 0, 100, OTHER);
    assert_eq!(claim_winnings(&mut c, 42).err(), Some(ErrorCode::BetOpen));
    assert_eq!(c.user_bet.amount, 100);
    let settled = Bet { open: false, side: 1, ..open_bet() };
    let mut c = claim_ctx(settled, 0, 100, OTHER);
    assert_eq!(claim_winnings(&mut c, 42).err(), Some(ErrorCode::InvalidVault));
    let mut c = claim_ctx(settled, 0, 100, VAULT);
    assert_eq!(claim_winnings(&mut c, 42).err(), Some(ErrorCode::LostBet));
    assert_eq!(c.user_bet.amount, 100);
}

#[test]
fn claim_winnings_pays_205_percent_once() {
    let settled = Bet { open: false, side: 1, ..open_bet() };
    let mut c = claim_ctx(settled, 1, 100, VAULT);
    assert!(claim_winnings_allowed(&c));
    let t = claim_winnings(&mut c, 42).unwrap();
    assert_eq!(t.amount, 205);
    assert!(t.from.key_eq(&key(VAULT)));
    assert!(t.to.key_eq(&key(USER_TOKEN)));
    assert!(t.authority.key_eq(&key(VAULT_AUTHORITY)));
    assert_eq!(t.vault_signer_bump, Some(254));
    assert_eq!(t.decimals, 6);
    assert_eq!(c.user_bet.amount, 0);
    let t2 = claim_winnings(&mut c, 42).unwrap();
    assert_eq!(t2.amount, 0);

    let mut c = claim_ctx(settled, 1, 1, VAULT);
    assert_eq!(claim_winnings(&mut c, 42).unwrap().amount, 2);
    let mut c = claim_ctx(settled, 1, 999, VAULT);
    assert_eq!(claim_winnings(&mut c, 42).unwrap().amount, 2047);
}

#[test]
fn claim_winnings_ignores_reward_multiplier() {
    let settled = Bet { open: false, side: 0, ..open_bet() };
    let mut c = claim_ctx(settled, 0, 1_000, VAULT);
    c.state.reward_multiplier = 100;
    assert_eq!(claim_winnings(&mut c, 42).unwrap().amount, 2_050);
}

#[test]
fn claim_winnings_allowed_detects_overflow() {
    let settled = Bet { open: false, side: 0, ..open_bet() };
    assert!(claim_winnings_allowed(&claim_ctx(settled, 0, u64::MAX / 205, VAULT)));
    assert!(!claim_winnings_allowed(&claim_ctx(settled, 0, u64::MAX / 205 + 1, VAULT)));
    // refused claims never compute a payout
    assert!(claim_winnings_allowed(&claim_ctx(settled, 1, u64::MAX, VAULT)));
}

#[test]
fn settings_only_by_admin() {
    let mut ctx = SetSettings { state: settings(), admin: key(OTHER) };
    assert_eq!(ctx.validate(), Err(ErrorCode::Unauthorized));
    assert_eq!(set_max_bet(&mut ctx, 5), Err(ErrorCode::Unauthorized));
    assert_eq!(set_reward_multiplier(&mut ctx, 5), Err(ErrorCode::Unauthorized));
    assert_eq!(delegate_admin(&mut ctx, key(USER)), Err(ErrorCode::Unauthorized));
    assert_eq!(ctx.state.max_bet, 1_000);
    assert_eq!(ctx.state.reward_multiplier, 205);

    let mut ctx = SetSettings { state: settings(), admin: key(ADMIN) };
    assert_eq!(ctx.validate(), Ok(()));
    assert_eq!(set_max_bet(&mut ctx, 5), Ok(()));
    assert_eq!(ctx.state.max_bet, 5);
    assert_eq!(set_reward_multiplier(&mut ctx, 300), Ok(()));
    assert_eq!(ctx.state.reward_multiplier, 300);
}

#[test]
fn delegate_admin_refuses_current_admin() {
    let mut ctx = SetSettings { state: settings(), admin: key(ADMIN) };
    assert_eq!(delegate_admin(&mut ctx, key(ADMIN)), Err(ErrorCode::InvalidDelegate));
    assert!(ctx.state.delegated_admin_role.key_eq(&Pubkey::default_key()));
    assert_eq!(delegate_admin(&mut ctx, key(USER)), Ok(()));
    assert!(ctx.state.delegated_admin_role.key_eq(&key(USER)));
}

#[test]
fn admin_handover() {
    let mut settings_ctx = SetSettings { state: settings(), admin: key(ADMIN) };
    assert_eq!(delegate_admin(&mut settings_ctx, key(USER)), Ok(()));

    let mut wrong = AcceptAdminRole { state: settings_ctx.state, new_admin: key(OTHER) };
    assert_eq!(wrong.validate(), Err(ErrorCode::Unauthorized));
    assert_eq!(accept_admin_role(&mut wrong), Err(ErrorCode::Unauthorized));
    assert!(wrong.state.admin.key_eq(&key(ADMIN)));

    let mut accept = AcceptAdminRole { state: settings_ctx.state, new_admin: key(USER) };
    assert_eq!(accept.validate(), Ok(()));
    assert_eq!(accept_admin_role(&mut accept), Ok(()));
    assert!(accept.state.admin.key_eq(&key(USER)));

    let mut old_admin = SetSettings { state: accept.state, admin: key(ADMIN) };
    assert_eq!(set_max_bet(&mut old_admin, 1), Err(ErrorCode::Unauthorized));
    let mut new_admin = SetSettings { state: accept.state, admin: key(USER) };
    assert_eq!(set_max_bet(&mut new_admin, 1), Ok(()));
    assert_eq!(new_admin.state.max_bet, 1);
}

#[test]
fn accept_admin_role_without_delegation_is_refused() {
    let mut ctx = AcceptAdminRole { state: settings(), new_admin: key(USER) };
    assert_eq!(accept_admin_role(&mut ctx), Err(ErrorCode::Unauthorized));
}

#[test]
fn error_codes_and_messages() {
    assert_eq!(ErrorCode::Unauthorized.code(), 6000);
    assert_eq!(ErrorCode::BetClosed.code(), 6001);
    assert_eq!(ErrorCode::BetOpen.code(), 6002);
    assert_eq!(ErrorCode::InvalidSide.code(), 6003);
    assert_eq!(ErrorCode::LostBet.code(), 6004);
    assert_eq!(ErrorCode::InvalidVault.code(), 6005);
    assert_eq!(ErrorCode::MathOverflow.code(), 6006);
    assert_eq!(ErrorCode::MaxBetExceeded.code(), 6007);
    assert_eq!(ErrorCode::InvalidDelegate.code(), 6008);
    assert_eq!(ErrorCode::Unauthorized.message(), "Only the admin can perform this action.");
    assert_eq!(ErrorCode::BetClosed.message(), "Bet is closed.");
    assert_eq!(ErrorCode::BetOpen.message(), "Bet is open.");
    assert_eq!(ErrorCode::InvalidSide.message(), "Invalid side. Must be 0 (home) or 1 (away).");
    assert_eq!(ErrorCode::LostBet.message(), "LostBet");
    assert_eq!(ErrorCode::InvalidVault.message(), "Invalid vault.");
    assert_eq!(ErrorCode::MathOverflow.message(), "MathOverflow.");
    assert_eq!(ErrorCode::MaxBetExceeded.message(), "MaxBetExceeded.");
    assert_eq!(ErrorCode::InvalidDelegate.message(), "InvalidDelegate.");
}

#[test]
fn full_bet_round() {
    let mut reg = RegisterBet { admin: key(ADMIN), bet: Bet::zeroed() };
    register_bet(&mut reg, 42).unwrap();

    let mut pctx = place_ctx(reg.bet, VAULT, 0);
    let t = place_bet(&pctx, 42, 500, 0).unwrap();
    assert_eq!(t.amount, 500);
    place_bet_finish(&mut pctx, 0, &vault_data(500)).unwrap();
    assert_eq!(pctx.bet.total_pot, 500);

    let mut w = SetWinner { admin: key(ADMIN), state: settings(), bet: pctx.bet };
    set_winner(&mut w, 42, 0).unwrap();

    let late = place_ctx(w.bet, VAULT, 500);
    assert_eq!(place_bet(&late, 42, 10, 0).err(), Some(ErrorCode::BetClosed));

    let mut c = ClaimWinnings { bet: w.bet, user_bet: pctx.user_bet, ..claim_ctx(w.bet, 0, 0, VAULT) };
    let payout = claim_winnings(&mut c, 42).unwrap();
    assert_eq!(payout.amount, 1_025);
    assert_eq!(c.user_bet.amount, 0);
}
