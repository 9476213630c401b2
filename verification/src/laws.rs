use vstd::prelude::*;
use crate::consts::TOKEN_DECIMALS;
use crate::contexts::{ClaimWinnings, FundVault, Initialize, PlaceBet};
use crate::error::ErrorCode;
use crate::pubkey::{Pubkey, same_key};
use crate::sportsbook::{
    accept_admin_role_spec, claim_check_spec, claim_winnings_defined, claim_winnings_spec,
    delegate_admin_spec, fund_vault_spec, initialize_spec, received_spec, vault_setup_spec, place_bet_finish_defined, place_bet_finish_spec,
    place_bet_spec, register_bet_spec, set_max_bet_spec, set_reward_multiplier_spec,
    set_winner_spec, winnings_spec,
};
use crate::state::{Bet, State};
use crate::token::{TokenTransfer, le_value, lemma_token_amount_fits, token_amount_spec};

verus! {

/// Only the stored admin changes settings: every settings instruction
/// signed by another key is refused with `Unauthorized` and leaves the
/// settings as they were.
pub proof fn lemma_settings_need_admin(st: State, signer: Pubkey, max_bet: u64, reward_multiplier: u16, new_admin: Pubkey)
    requires
        !same_key(signer, st.admin),
    ensures
        set_max_bet_spec(st, signer, max_bet) == (Err::<(), ErrorCode>(ErrorCode::Unauthorized), st),
        set_reward_multiplier_spec(st, signer, reward_multiplier) == (Err::<(), ErrorCode>(ErrorCode::Unauthorized), st),
        delegate_admin_spec(st, signer, new_admin) == (Err::<(), ErrorCode>(ErrorCode::Unauthorized), st),
{
}

/// Only the stored admin settles a bet or funds the vault: another signer
/// is refused with `Unauthorized`, and the bet stays as it was.
pub proof fn lemma_admin_only_settles_and_funds(st: State, signer: Pubkey, bet: Bet, side: u8, ctx: FundVault, amount: u64)
    requires
        !same_key(signer, st.admin),
        !same_key(ctx.admin, ctx.state.admin),
    ensures
        set_winner_spec(st, signer, bet, side) == (Err::<(), ErrorCode>(ErrorCode::Unauthorized), bet),
        fund_vault_spec(ctx, amount) == Err::<TokenTransfer, ErrorCode>(ErrorCode::Unauthorized),
{
}

/// A bet is settled on one of the two sides: the admin settling an open bet
/// on any other side is refused with `InvalidSide` and the bet stays open; a
/// closed bet is refused with `BetClosed` whatever the side.
pub proof fn lemma_settles_on_two_sides(st: State, admin: Pubkey, bet: Bet, side: u8)
    requires
        same_key(admin, st.admin),
    ensures
        bet.open && side > 1 ==> set_winner_spec(st, admin, bet, side) == (Err::<(), ErrorCode>(ErrorCode::InvalidSide), bet),
        !bet.open ==> set_winner_spec(st, admin, bet, side) == (Err::<(), ErrorCode>(ErrorCode::BetClosed), bet),
{
}

/// A stake names one of two sides, 0 (home) or 1 (away); on an open bet any
/// other side is refused with `InvalidSide`.
pub proof fn lemma_two_sides(ctx: PlaceBet, amount: u64, side: u8)
    requires
        ctx.bet.open,
        side > 1,
    ensures
        place_bet_spec(ctx, amount, side) == Err::<TokenTransfer, ErrorCode>(ErrorCode::InvalidSide),
{
}

/// The admin cannot name itself as the delegate.
pub proof fn lemma_no_self_delegation(st: State, admin: Pubkey, new_admin: Pubkey)
    requires
        same_key(admin, st.admin),
        same_key(new_admin, st.admin),
    ensures
        delegate_admin_spec(st, admin, new_admin) == (Err::<(), ErrorCode>(ErrorCode::InvalidDelegate), st),
{
}

/// Handing over the admin role: once the admin delegates to another key,
/// that key's acceptance makes it the admin, any other key's acceptance is
/// refused, the former admin can no longer change settings and the new one
/// can.
pub proof fn lemma_admin_handover(st: State, admin: Pubkey, new_admin: Pubkey, other: Pubkey, max_bet: u64)
    requires
        same_key(admin, st.admin),
        !same_key(new_admin, st.admin),
    ensures
        ({
            let (r1, st1) = delegate_admin_spec(st, admin, new_admin);
            let (r2, st2) = accept_admin_role_spec(st1, new_admin);
            &&& r1 == Ok::<(), ErrorCode>(())
            &&& r2 == Ok::<(), ErrorCode>(())
            &&& st2.admin == new_admin
            &&& st2.vault == st.vault
            &&& st2.max_bet == st.max_bet
            &&& st2.reward_multiplier == st.reward_multiplier
            &&& (!same_key(other, new_admin) ==> accept_admin_role_spec(st1, other)
                == (Err::<(), ErrorCode>(ErrorCode::Unauthorized), st1))
            &&& set_max_bet_spec(st2, admin, max_bet).0 == Err::<(), ErrorCode>(ErrorCode::Unauthorized)
            &&& set_max_bet_spec(st2, new_admin, max_bet).0 == Ok::<(), ErrorCode>(())
        }),
{
}

/// The key named by `initialize` controls the settings, and the settings
/// start with a reward multiplier of 205 and a maximum stake of one million
/// tokens.
pub proof fn lemma_initialize_installs_admin(st: State, vault: Pubkey, admin: Pubkey, other: Pubkey, max_bet: u64)
    ensures
        ({
            let st1 = initialize_spec(st, vault, admin);
            &&& st1.admin == admin
            &&& st1.vault == vault
            &&& st1.reward_multiplier == 205
            &&& st1.max_bet == 1_000_000_000_000u64
            &&& set_max_bet_spec(st1, admin, max_bet).0 == Ok::<(), ErrorCode>(())
            &&& (!same_key(other, admin) ==> set_max_bet_spec(st1, other, max_bet).0
                == Err::<(), ErrorCode>(ErrorCode::Unauthorized))
        }),
{
}

/// A registered bet is open on the home side; the admin can then settle it
/// once: settling closes it with the chosen side and an empty pot, and a
/// second settlement is refused with `BetClosed`.
pub proof fn lemma_bet_settles_once(bet: Bet, bet_id: u64, st: State, admin: Pubkey, side: u8, side2: u8)
    requires
        same_key(admin, st.admin),
        side <= 1,
    ensures
        ({
            let b1 = register_bet_spec(bet, bet_id);
            let (r2, b2) = set_winner_spec(st, admin, b1, side);
            &&& b1.open && b1.id == bet_id && b1.side == 0
            &&& r2 == Ok::<(), ErrorCode>(())
            &&& !b2.open && b2.side == side && b2.total_pot == 0 && b2.id == bet_id
            &&& set_winner_spec(st, admin, b2, side2) == (Err::<(), ErrorCode>(ErrorCode::BetClosed), b2)
        }),
{
}

/// No stake is taken on a settled bet.
pub proof fn lemma_closed_bet_takes_no_stakes(ctx: PlaceBet, amount: u64, side: u8)
    requires
        !ctx.bet.open,
    ensures
        place_bet_spec(ctx, amount, side) == Err::<TokenTransfer, ErrorCode>(ErrorCode::BetClosed),
{
}

/// Nothing is paid out of a bet that is still open.
pub proof fn lemma_open_bet_pays_nothing(ctx: ClaimWinnings)
    requires
        ctx.bet.open,
    ensures
        claim_winnings_spec(ctx) == (Err::<TokenTransfer, ErrorCode>(ErrorCode::BetOpen), ctx.user_bet),
{
}

/// A stake above the maximum is refused; up to it, on an open bet, a valid
/// side and the configured vault, the transfer moves exactly the stake into
/// the vault on behalf of the user.
pub proof fn lemma_stake_limit(ctx: PlaceBet, amount: u64, side: u8)
    requires
        ctx.bet.open,
        side == 0 || side == 1,
        same_key(ctx.vault, ctx.state.vault),
    ensures
        amount > ctx.state.max_bet ==> place_bet_spec(ctx, amount, side)
            == Err::<TokenTransfer, ErrorCode>(ErrorCode::MaxBetExceeded),
        amount <= ctx.state.max_bet ==> (place_bet_spec(ctx, amount, side) matches Ok(t)
            && t.amount == amount && t.to == ctx.vault && t.from == ctx.user_token_account
            && t.authority == ctx.user && t.decimals == TOKEN_DECIMALS && t.vault_signer_bump is None),
{
}

/// The pot and the user's stake grow by exactly what the vault received:
/// the difference of the vault's balance after and before the transfer; the
/// stake record holds the side the user chose.
pub proof fn lemma_pot_tracks_vault(ctx: PlaceBet, side: u8, after: Seq<u8>)
    requires
        place_bet_finish_defined(ctx, after),
        token_amount_spec(after) >= token_amount_spec(ctx.vault_data@),
    ensures
        ({
            let (r, b, ub) = place_bet_finish_spec(ctx, side, after);
            let gained = token_amount_spec(after) - token_amount_spec(ctx.vault_data@);
            &&& r == Ok::<(), ErrorCode>(())
            &&& ub.amount == gained
            &&& b.total_pot == ctx.bet.total_pot + gained
            &&& b.total_pot - ub.amount == ctx.bet.total_pot
            &&& ub.bet == ctx.bet_key
            &&& ub.side == side
            &&& b.open == ctx.bet.open && b.side == ctx.bet.side && b.id == ctx.bet.id
        }),
{
    lemma_token_amount_fits(after);
    lemma_token_amount_fits(ctx.vault_data@);
}

/// A stake pays out on the side it was placed on: once the stake is
/// recorded and the bet is settled, a claim against the configured vault
/// passes its checks when the winning side is the chosen one, and is refused
/// with `LostBet` otherwise.
pub proof fn lemma_stake_wins_on_its_side(ctx: PlaceBet, side: u8, after: Seq<u8>, claim: ClaimWinnings)
    requires
        place_bet_finish_defined(ctx, after),
        token_amount_spec(after) >= token_amount_spec(ctx.vault_data@),
        claim.user_bet == place_bet_finish_spec(ctx, side, after).2,
        !claim.bet.open,
        same_key(claim.vault, claim.state.vault),
    ensures
        claim.bet.side == side ==> claim_check_spec(claim) == Ok::<(), ErrorCode>(()),
        claim.bet.side != side ==> claim_check_spec(claim) == Err::<(), ErrorCode>(ErrorCode::LostBet),
{
}

/// A vault balance that went down is reported as `MathOverflow` and
/// nothing is recorded.
pub proof fn lemma_shrinking_vault_refused(ctx: PlaceBet, side: u8, after: Seq<u8>)
    requires
        token_amount_spec(after) < token_amount_spec(ctx.vault_data@),
    ensures
        place_bet_finish_spec(ctx, side, after) == (Err::<(), ErrorCode>(ErrorCode::MathOverflow), ctx.bet, ctx.user_bet),
{
}

/// A winner is paid at least twice the stake (205 per 100, rounded down).
pub proof fn lemma_payout_at_least_double(amount: u64)
    ensures
        winnings_spec(amount) >= 2 * amount,
        winnings_spec(amount) <= 3 * amount,
{
}

/// A successful claim pays 205 per 100 staked and clears the stake record
/// it was given; a claim against the cleared record transfers nothing.
/// This speaks of the record the instruction hands back. The claim's
/// account set does not mark the stake account writable, so on chain the
/// cleared record is not saved and a repeated claim pays again.
pub proof fn lemma_claim_clears_stake(ctx: ClaimWinnings)
    requires
        claim_winnings_defined(ctx),
        claim_check_spec(ctx) is Ok,
    ensures
        ({
            let (r1, ub1) = claim_winnings_spec(ctx);
            let ctx2 = ClaimWinnings { user_bet: ub1, ..ctx };
            let (r2, ub2) = claim_winnings_spec(ctx2);
            &&& r1 matches Ok(t) && t.amount == winnings_spec(ctx.user_bet.amount)
            &&& ub1.amount == 0
            &&& claim_winnings_defined(ctx2)
            &&& r2 matches Ok(t2) && t2.amount == 0
            &&& ub2 == ub1
        }),
{
}

/// The payout does not depend on the stored reward multiplier.
pub proof fn lemma_payout_ignores_multiplier(ctx: ClaimWinnings, reward_multiplier: u16)
    ensures
        claim_winnings_spec(ctx) == claim_winnings_spec(
            ClaimWinnings { state: State { reward_multiplier: reward_multiplier, ..ctx.state }, ..ctx },
        ),
{
}


/// A claim that passes its checks pays exactly 205 per 100 staked, rounded
/// down, for every stake: out of the configured vault, into the user's
/// token account, signed by the vault authority with its bump, at six
/// decimals; and the stake record it hands back holds 0.
pub proof fn lemma_claim_pays_exactly(ctx: ClaimWinnings)
    requires
        claim_winnings_defined(ctx),
        !ctx.bet.open,
        same_key(ctx.vault, ctx.state.vault),
        ctx.bet.side == ctx.user_bet.side,
    ensures
        ({
            let (r, ub) = claim_winnings_spec(ctx);
            &&& r matches Ok(t)
            &&& t.amount as int == (ctx.user_bet.amount as int * 205) / 100
            &&& t.from == ctx.vault
            &&& t.to == ctx.user_token_account
            &&& t.mint == ctx.mint
            &&& t.authority == ctx.vault_authority
            &&& t.token_program == ctx.token_program
            &&& t.decimals == 6
            &&& t.vault_signer_bump == Some(ctx.vault_authority_bump)
            &&& ub.amount == 0
            &&& ub.side == ctx.user_bet.side
            &&& ub.bet == ctx.user_bet.bet
            &&& ub.user == ctx.user_bet.user
        }),
{
}

/// Funding by the stored admin into the configured vault always succeeds,
/// whatever the amount and the stored maximum stake, with a transfer of
/// exactly that amount from the admin's token account into the vault,
/// authorised by the admin, at six decimals and without a vault signature.
pub proof fn lemma_funding_moves_requested_amount(ctx: FundVault, amount: u64)
    requires
        same_key(ctx.admin, ctx.state.admin),
        same_key(ctx.vault, ctx.state.vault),
    ensures
        fund_vault_spec(ctx, amount) matches Ok(t)
            && t.amount == amount
            && t.from == ctx.admin_token_account
            && t.to == ctx.vault
            && t.mint == ctx.mint
            && t.authority == ctx.admin
            && t.token_program == ctx.token_program
            && t.decimals == 6
            && t.vault_signer_bump is None,
{
}

/// What the vault received, as seen by `fund_vault_finish`, is the balance
/// after minus the balance before whenever the balance did not fall.
pub proof fn lemma_funding_receipt(before: Seq<u8>, after: Seq<u8>)
    requires
        before.len() >= 72,
        after.len() >= 72,
        token_amount_spec(after) >= token_amount_spec(before),
    ensures
        received_spec(before, after) matches Ok(r)
            && r as int == token_amount_spec(after) - token_amount_spec(before),
{
    lemma_token_amount_fits(after);
}

/// The stored admin sets the maximum stake to any value, up or down; only
/// that field changes.
pub proof fn lemma_max_bet_is_set(st: State, admin: Pubkey, m: u64)
    requires
        same_key(admin, st.admin),
    ensures
        ({
            let (r, st1) = set_max_bet_spec(st, admin, m);
            &&& r == Ok::<(), ErrorCode>(())
            &&& st1.max_bet == m
            &&& st1.admin == st.admin
            &&& st1.vault == st.vault
            &&& st1.reward_multiplier == st.reward_multiplier
            &&& st1.delegated_admin_role == st.delegated_admin_role
        }),
{
}

/// The stored admin sets the reward multiplier to any value, up or down;
/// only that field changes.
pub proof fn lemma_reward_multiplier_is_set(st: State, admin: Pubkey, r: u16)
    requires
        same_key(admin, st.admin),
    ensures
        ({
            let (res, st1) = set_reward_multiplier_spec(st, admin, r);
            &&& res == Ok::<(), ErrorCode>(())
            &&& st1.reward_multiplier == r
            &&& st1.admin == st.admin
            &&& st1.vault == st.vault
            &&& st1.max_bet == st.max_bet
            &&& st1.delegated_admin_role == st.delegated_admin_role
        }),
{
}

/// Delegating only names the pending delegate: for every starting settings,
/// including one where the key is already pending, a delegation by the
/// stored admin to another key succeeds, sets the pending delegate to that
/// key and leaves the admin and every other field as they were.
pub proof fn lemma_delegation_only_names_delegate(st: State, admin: Pubkey, new_admin: Pubkey)
    requires
        same_key(admin, st.admin),
        !same_key(new_admin, st.admin),
    ensures
        ({
            let (r, st1) = delegate_admin_spec(st, admin, new_admin);
            &&& r == Ok::<(), ErrorCode>(())
            &&& st1.delegated_admin_role == new_admin
            &&& st1.admin == st.admin
            &&& st1.vault == st.vault
            &&& st1.max_bet == st.max_bet
            &&& st1.reward_multiplier == st.reward_multiplier
        }),
{
}

/// Accepting by the pending delegate makes it the admin and changes
/// nothing else; the delegate stays recorded.
pub proof fn lemma_acceptance_only_changes_admin(st: State, signer: Pubkey)
    requires
        same_key(signer, st.delegated_admin_role),
    ensures
        ({
            let (r, st1) = accept_admin_role_spec(st, signer);
            &&& r == Ok::<(), ErrorCode>(())
            &&& st1.admin == signer
            &&& st1.vault == st.vault
            &&& st1.max_bet == st.max_bet
            &&& st1.reward_multiplier == st.reward_multiplier
            &&& st1.delegated_admin_role == st.delegated_admin_role
        }),
{
}

/// Settling an open bet by the stored admin on side 0 or 1 closes it with
/// that side and an empty pot, keeping its id.
pub proof fn lemma_settlement_fields(st: State, admin: Pubkey, bet: Bet, side: u8)
    requires
        same_key(admin, st.admin),
        bet.open,
        side <= 1,
    ensures
        ({
            let (r, b) = set_winner_spec(st, admin, bet, side);
            &&& r == Ok::<(), ErrorCode>(())
            &&& !b.open && b.side == side && b.total_pot == 0 && b.id == bet.id
        }),
{
}

/// Registering writes the id, opens the bet and presets the home side,
/// leaving the pot of the fresh account as it was.
pub proof fn lemma_registration_fields(bet: Bet, bet_id: u64)
    ensures
        ({
            let b = register_bet_spec(bet, bet_id);
            b.id == bet_id && b.open && b.side == 0 && b.total_pot == bet.total_pot
        }),
{
}

/// `initialize` plans a vault account of the configured size, paid by the
/// payer, owned by the token program, for the mint, with the vault
/// authority as its authority and that authority's bump.
pub proof fn lemma_vault_plan(ctx: Initialize)
    ensures
        ({
            let v = vault_setup_spec(ctx);
            &&& v.payer == ctx.payer && v.vault == ctx.vault && v.space == 165
            &&& v.owner == ctx.token_program && v.mint == ctx.mint
            &&& v.authority == ctx.vault_authority && v.authority_bump == ctx.vault_authority_bump
        }),
{
}

/// The balance read from a token account is the little-endian value of its
/// bytes 64 to 71.
pub proof fn lemma_balance_is_le_bytes(data: Seq<u8>)
    requires
        data.len() >= 72,
    ensures
        token_amount_spec(data) == data[64] as int + 256 * data[65] + 65536 * data[66]
            + 16777216 * data[67] + 4294967296 * data[68] + 1099511627776 * data[69]
            + 281474976710656 * data[70] + 72057594037927936 * data[71],
{
    let s = data.subrange(64, 72);
    reveal_with_fuel(le_value, 9);
    assert(s.drop_first() =~= data.subrange(65, 72));
    assert(s.drop_first().drop_first() =~= data.subrange(66, 72));
    assert(data.subrange(66, 72).drop_first() =~= data.subrange(67, 72));
    assert(data.subrange(67, 72).drop_first() =~= data.subrange(68, 72));
    assert(data.subrange(68, 72).drop_first() =~= data.subrange(69, 72));
    assert(data.subrange(69, 72).drop_first() =~= data.subrange(70, 72));
    assert(data.subrange(70, 72).drop_first() =~= data.subrange(71, 72));
    assert(data.subrange(71, 72).drop_first() =~= data.subrange(72, 72));
}

} // verus!
