//! Sealing a new pool's liquidity in two lock escrows.
use vstd::prelude::*;
use crate::curve::Pubkey;
use crate::error::ContractError;
use crate::migration::same_key;

verus! {

/// What a lock reads: the pool module called and the liquidity balance that
/// migration left in custody.
#[derive(Clone, Copy, Debug)]
pub struct LockPool {
    pub meteora_program: Pubkey,
    pub lp_balance: u64,
}

/// Liquidity units each escrow receives: the launch authority's first, then
/// the treasury's.
#[derive(Clone, Copy, Debug, PartialEq, Eq, Structural)]
pub struct LockPlan {
    pub first_escrow_amount: u64,
    pub second_escrow_amount: u64,
}

/// Half of the balance, rounded down, for each escrow.
pub open spec fn lock_split(lp_balance: u64) -> LockPlan {
    LockPlan { first_escrow_amount: lp_balance / 2, second_escrow_amount: lp_balance / 2 }
}

/// Checks a lock and splits the liquidity balance between the two escrows.
pub fn lock_pool(accounts: &LockPool, pool_program: &Pubkey) -> (r: Result<LockPlan, ContractError>)
    ensures
        !same_key(accounts.meteora_program, *pool_program) ==> r == Err::<LockPlan, ContractError>(
            ContractError::InvalidMeteoraProgram,
        ),
        same_key(accounts.meteora_program, *pool_program) ==> r == Ok::<LockPlan, ContractError>(
            lock_split(accounts.lp_balance),
        ),
{
    if !(accounts.meteora_program == *pool_program) {
        return Err(ContractError::InvalidMeteoraProgram);
    }
    let amount_per_escrow = accounts.lp_balance / 2;
    Ok(LockPlan { first_escrow_amount: amount_per_escrow, second_escrow_amount: amount_per_escrow })
}

/// Both escrows receive the same amount, together never more than the
/// balance, and at most one unit stays unlocked.
pub proof fn lemma_lock_split(lp_balance: u64)
    ensures
        lock_split(lp_balance).first_escrow_amount == lock_split(lp_balance).second_escrow_amount,
        lock_split(lp_balance).first_escrow_amount * 2 <= lp_balance,
        lp_balance - lock_split(lp_balance).first_escrow_amount * 2 <= 1,
{
}

} // verus!
