use pump_meteora::curve::Pubkey;
use pump_meteora::error::ContractError;
use pump_meteora::lock::{lock_pool, LockPlan, LockPool};

#[test]
fn lock_splits_even_balance() {
    let program = Pubkey { bytes: [6u8; 32] };
    let r = lock_pool(&LockPool { meteora_program: program, lp_balance: 1_000 }, &program);
    assert_eq!(r, Ok(LockPlan { first_escrow_amount: 500, second_escrow_amount: 500 }));
}

#[test]
fn lock_leaves_odd_unit() {
    let program = Pubkey { bytes: [6u8; 32] };
    let plan = lock_pool(&LockPool { meteora_program: program, lp_balance: 1_001 }, &program).unwrap();
    assert_eq!(plan.first_escrow_amount, plan.second_escrow_amount);
    assert_eq!(plan.first_escrow_amount, 500);
    assert!(plan.first_escrow_amount * 2 <= 1_001);
}

#[test]
fn lock_of_zero_or_one_locks_nothing() {
    let program = Pubkey { bytes: [6u8; 32] };
    let plan = lock_pool(&LockPool { meteora_program: program, lp_balance: 1 }, &program).unwrap();
    assert_eq!(plan, LockPlan { first_escrow_amount: 0, second_escrow_amount: 0 });
}

#[test]
fn lock_refuses_other_program() {
    let r = lock_pool(
        &LockPool { meteora_program: Pubkey { bytes: [1u8; 32] }, lp_balance: 10 },
        &Pubkey { bytes: [6u8; 32] },
    );
    assert_eq!(r, Err(ContractError::InvalidMeteoraProgram));
}
