//! Moving an exhausted curve's liquidity into an external pool: the checks
//! that gate it and the amounts that each step moves.
use vstd::prelude::*;
use crate::curve::{BondingCurve, Pubkey};
use crate::error::ContractError;

verus! {

/// Base units paid to the treasury on migration.
pub const PROTOCOL_FEE: u64 = 2_000_000_000;

/// Base units kept back in custody to pay for account rent.
pub const RENT_BUFFER: u64 = 40_000_000;

/// The keys that a migration names.
#[derive(Clone, Copy, Debug)]
pub struct InitializePoolWithConfig {
    /// The pool's first asset: must be the base currency.
    pub token_a_mint: Pubkey,
    /// The pool's second asset: must be the curve's token.
    pub token_b_mint: Pubkey,
    /// The pool module called.
    pub meteora_program: Pubkey,
}

/// The fixed values a migration is checked and sized against.
#[derive(Clone, Copy, Debug)]
pub struct MigrationConfig {
    /// The wrapped base currency.
    pub quote_mint: Pubkey,
    /// The one pool module that may be called.
    pub pool_program: Pubkey,
    /// Tokens that seed the pool.
    pub initial_token_reserves: u64,
}

/// The amounts a migration moves, in the order it moves them: the token
/// contribution into staging, the base contribution into staging, both into
/// the new pool, then the protocol fee to the treasury.
#[derive(Clone, Copy, Debug, PartialEq, Eq, Structural)]
pub struct MigrationPlan {
    pub token_a_amount: u64,
    pub token_b_amount: u64,
    pub protocol_fee: u64,
}

/// Whether two keys are the same address.
pub open spec fn same_key(a: Pubkey, b: Pubkey) -> bool {
    a.bytes@ == b.bytes@
}

/// The base units a migration puts into the pool: the real base reserve less
/// the protocol fee and the rent buffer; none when the reserve falls short.
pub open spec fn base_contribution(real_sol_reserves: u64) -> Option<u64> {
    if real_sol_reserves >= PROTOCOL_FEE + RENT_BUFFER {
        Some((real_sol_reserves - PROTOCOL_FEE - RENT_BUFFER) as u64)
    } else {
        None
    }
}

/// The base units a migration puts into the pool.
pub fn pool_base_contribution(real_sol_reserves: u64) -> (r: Result<u64, ContractError>)
    ensures
        match base_contribution(real_sol_reserves) {
            Some(a) => r == Ok::<u64, ContractError>(a),
            None => r == Err::<u64, ContractError>(ContractError::ArithmeticError),
        },
{
    if real_sol_reserves < PROTOCOL_FEE {
        return Err(ContractError::ArithmeticError);
    }
    let rest = real_sol_reserves - PROTOCOL_FEE;
    if rest < RENT_BUFFER {
        return Err(ContractError::ArithmeticError);
    }
    Ok(rest - RENT_BUFFER)
}

/// The outcome of a migration of `curve` named by `accounts`: the first
/// failed check, in order, or the amounts to move.
pub open spec fn migration_outcome(
    curve: BondingCurve,
    accounts: InitializePoolWithConfig,
    config: MigrationConfig,
) -> Result<MigrationPlan, ContractError> {
    if !same_key(curve.token_mint, accounts.token_b_mint) {
        Err(ContractError::NotBondingCurveMint)
    } else if !same_key(config.quote_mint, accounts.token_a_mint) {
        Err(ContractError::NotSOL)
    } else if !curve.is_completed {
        Err(ContractError::NotCompleted)
    } else if !same_key(accounts.meteora_program, config.pool_program) {
        Err(ContractError::InvalidMeteoraProgram)
    } else {
        match base_contribution(curve.real_sol_reserves) {
            None => Err(ContractError::ArithmeticError),
            Some(a) => Ok(
                MigrationPlan {
                    token_a_amount: a,
                    token_b_amount: config.initial_token_reserves,
                    protocol_fee: PROTOCOL_FEE,
                },
            ),
        }
    }
}

/// Checks a migration of `curve` and sizes the amounts it moves.
pub fn initialize_pool_with_config(
    curve: &BondingCurve,
    accounts: &InitializePoolWithConfig,
    config: &MigrationConfig,
) -> (r: Result<MigrationPlan, ContractError>)
    ensures
        r == migration_outcome(*curve, *accounts, *config),
{
    if !(curve.token_mint == accounts.token_b_mint) {
        return Err(ContractError::NotBondingCurveMint);
    }
    if !(config.quote_mint == accounts.token_a_mint) {
        return Err(ContractError::NotSOL);
    }
    if !curve.is_completed {
        return Err(ContractError::NotCompleted);
    }
    if !(accounts.meteora_program == config.pool_program) {
        return Err(ContractError::InvalidMeteoraProgram);
    }
    let token_a_amount = match pool_base_contribution(curve.real_sol_reserves) {
        Err(e) => return Err(e),
        Ok(a) => a,
    };
    Ok(
        MigrationPlan {
            token_a_amount,
            token_b_amount: config.initial_token_reserves,
            protocol_fee: PROTOCOL_FEE,
        },
    )
}

/// The base contribution is the real base reserve less 2,040,000,000
/// exactly, and a reserve below that fails with an arithmetic error.
pub proof fn lemma_migration_contribution(real_sol_reserves: u64)
    ensures
        real_sol_reserves >= 2_040_000_000 ==> base_contribution(real_sol_reserves) == Some(
            (real_sol_reserves - 2_040_000_000) as u64,
        ),
        real_sol_reserves < 2_040_000_000 ==> base_contribution(real_sol_reserves) is None,
{
}

} // verus!
