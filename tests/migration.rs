use pump_meteora::curve::{BondingCurve, Pubkey};
use pump_meteora::error::ContractError;
use pump_meteora::migration::{
    initialize_pool_with_config, pool_base_contribution, InitializePoolWithConfig, MigrationConfig,
    MigrationPlan, PROTOCOL_FEE,
};

fn key(b: u8) -> Pubkey {
    Pubkey { bytes: [b; 32] }
}

fn completed_curve(real_sol_reserves: u64) -> BondingCurve {
    BondingCurve {
        token_mint: key(3),
        creator: key(4),
        init_lamport: 0,
        virtual_sol_reserves: 115_005_359_056,
        virtual_token_reserves: 279_900_000,
        real_sol_reserves,
        real_token_reserves: 0,
        is_completed: true,
    }
}

fn migration_config() -> MigrationConfig {
    MigrationConfig { quote_mint: key(5), pool_program: key(6), initial_token_reserves: 206_900_000 }
}

fn migration_accounts() -> InitializePoolWithConfig {
    InitializePoolWithConfig { token_a_mint: key(5), token_b_mint: key(3), meteora_program: key(6) }
}

#[test]
fn base_contribution_is_reserve_less_fee_and_rent() {
    assert_eq!(pool_base_contribution(85_005_359_056), Ok(85_005_359_056 - 2_040_000_000));
    assert_eq!(pool_base_contribution(2_040_000_000), Ok(0));
    assert_eq!(pool_base_contribution(2_039_999_999), Err(ContractError::ArithmeticError));
    assert_eq!(pool_base_contribution(1_000), Err(ContractError::ArithmeticError));
}

#[test]
fn migration_plan_of_completed_curve() {
    let r = initialize_pool_with_config(&completed_curve(85_005_359_056), &migration_accounts(), &migration_config());
    assert_eq!(
        r,
        Ok(MigrationPlan {
            token_a_amount: 82_965_359_056,
            token_b_amount: 206_900_000,
            protocol_fee: PROTOCOL_FEE,
        })
    );
}

#[test]
fn migration_checks_come_in_order() {
    let cfg = migration_config();
    let mut acc = migration_accounts();
    acc.token_b_mint = key(8);
    acc.token_a_mint = key(8);
    assert_eq!(
        initialize_pool_with_config(&completed_curve(85_005_359_056), &acc, &cfg),
        Err(ContractError::NotBondingCurveMint)
    );
    let mut acc = migration_accounts();
    acc.token_a_mint = key(8);
    assert_eq!(
        initialize_pool_with_config(&completed_curve(85_005_359_056), &acc, &cfg),
        Err(ContractError::NotSOL)
    );
    let mut open = completed_curve(85_005_359_056);
    open.is_completed = false;
    assert_eq!(
        initialize_pool_with_config(&open, &migration_accounts(), &cfg),
        Err(ContractError::NotCompleted)
    );
    let mut acc = migration_accounts();
    acc.meteora_program = key(8);
    assert_eq!(
        initialize_pool_with_config(&completed_curve(85_005_359_056), &acc, &cfg),
        Err(ContractError::InvalidMeteoraProgram)
    );
}

#[test]
fn migration_short_reserve_is_arithmetic_error() {
    assert_eq!(
        initialize_pool_with_config(&completed_curve(2_000_000_000), &migration_accounts(), &migration_config()),
        Err(ContractError::ArithmeticError)
    );
}
