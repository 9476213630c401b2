use vstd::prelude::*;
use crate::pubkey::Pubkey;

verus! {

/// Byte range of the balance inside a token account: it follows the
/// mint (32 bytes) and the owner (32 bytes) and is 8 bytes long.
pub const AMOUNT_OFFSET: usize = 64;

pub const AMOUNT_END: usize = 72;

/// 256 to the power `n`.
pub open spec fn pow256(n: nat) -> nat
    decreases n,
{
    if n == 0 {
        1
    } else {
        256 * pow256((n - 1) as nat)
    }
}

/// The number that the bytes `s` spell in little-endian order.
pub open spec fn le_value(s: Seq<u8>) -> nat
    decreases s.len(),
{
    if s.len() == 0 {
        0
    } else {
        s[0] as nat + 256 * le_value(s.drop_first())
    }
}

/// The balance recorded in the raw data of a token account.
pub open spec fn token_amount_spec(data: Seq<u8>) -> nat {
    le_value(data.subrange(AMOUNT_OFFSET as int, AMOUNT_END as int))
}

proof fn lemma_pow256_bounded(k: nat)
    requires
        k <= 8,
    ensures
        pow256(k) <= pow256(8),
        pow256(8) == 0x1_0000_0000_0000_0000,
    decreases 8 - k,
{
    reveal_with_fuel(pow256, 9);
    if k < 8 {
        lemma_pow256_bounded(k + 1);
    }
}

/// `n` bytes spell a number below 256 to the power `n`.
pub proof fn lemma_le_value_bound(s: Seq<u8>)
    ensures
        le_value(s) < pow256(s.len()),
    decreases s.len(),
{
    if s.len() > 0 {
        lemma_le_value_bound(s.drop_first());
        assert(pow256(s.len()) == 256 * pow256(s.drop_first().len()));
    }
}

/// A recorded balance fits in a `u64`.
pub proof fn lemma_token_amount_fits(data: Seq<u8>)
    requires
        data.len() >= AMOUNT_END,
    ensures
        token_amount_spec(data) <= u64::MAX,
{
    let s = data.subrange(AMOUNT_OFFSET as int, AMOUNT_END as int);
    lemma_le_value_bound(s);
    lemma_pow256_bounded(8);
}

/// Reads the balance of a token account from its raw data.
pub fn token_account_amount(data: &[u8]) -> (amount: u64)
    requires
        data@.len() >= AMOUNT_END,
    ensures
        amount == token_amount_spec(data@),
{
    let mut acc: u64 = 0;
    let mut i: usize = AMOUNT_END;
    proof {
        assert(data@.subrange(AMOUNT_END as int, AMOUNT_END as int) =~= Seq::<u8>::empty());
    }
    while i > AMOUNT_OFFSET
        invariant
            AMOUNT_OFFSET <= i <= AMOUNT_END,
            data@.len() >= AMOUNT_END,
            acc == le_value(data@.subrange(i as int, AMOUNT_END as int)),
            acc < pow256((AMOUNT_END - i) as nat),
        decreases i,
    {
        let ghost k: nat = (AMOUNT_END - i) as nat;
        proof {
            lemma_pow256_bounded(k + 1);
            assert(pow256(k + 1) == 256 * pow256(k));
        }
        i = i - 1;
        let byte = data[i];
        proof {
            let s = data@.subrange(i as int, AMOUNT_END as int);
            assert(s.drop_first() =~= data@.subrange(i + 1, AMOUNT_END as int));
            assert(s[0] == byte);
        }
        acc = byte as u64 + 256 * acc;
    }
    acc
}

/// A checked token transfer the program asks the token program to make.
#[derive(Clone, Copy, Debug)]
pub struct TokenTransfer {
    pub token_program: Pubkey,
    pub from: Pubkey,
    pub mint: Pubkey,
    pub to: Pubkey,
    pub authority: Pubkey,
    pub amount: u64,
    pub decimals: u8,
    /// `Some(bump)` when the vault authority signs with the seeds `["vault", bump]`.
    pub vault_signer_bump: Option<u8>,
}

/// What `initialize` asks the runtime to do before the settings are
/// written: create the vault account with `space` bytes owned by the
/// token program, then initialise it as a token account of `mint` whose
/// authority is the vault authority (signing with `["vault", bump]`).
#[derive(Clone, Copy, Debug)]
pub struct VaultSetup {
    pub payer: Pubkey,
    pub vault: Pubkey,
    pub space: u64,
    pub owner: Pubkey,
    pub mint: Pubkey,
    pub authority: Pubkey,
    pub authority_bump: u8,
}

} // verus!
