use pump_meteora::curve::{BondingCurve, Pubkey};
use pump_meteora::error::ContractError;
use pump_meteora::swap::{deduct_fee, SwapPlan, SELL_DIRECTION};

fn swap_curve(real_token_reserves: u64) -> BondingCurve {
    BondingCurve {
        token_mint: Pubkey { bytes: [1u8; 32] },
        creator: Pubkey { bytes: [2u8; 32] },
        init_lamport: 0,
        virtual_sol_reserves: 30_000_000_000,
        virtual_token_reserves: 1_073_000_000,
        real_sol_reserves: 2_000_000_000,
        real_token_reserves,
        is_completed: false,
    }
}

#[test]
fn fee_is_taken_rounding_down() {
    assert_eq!(deduct_fee(1_000_000_000, 100), 990_000_000);
    assert_eq!(deduct_fee(999, 100), 989);
    assert_eq!(deduct_fee(5, 0), 5);
    assert_eq!(deduct_fee(5, 10_000), 0);
}

#[test]
fn zero_swap_is_invalid() {
    let mut c = swap_curve(793_100_000);
    assert_eq!(c.swap(0, 0, 0, 100), Err(ContractError::InvalidAmount));
    assert_eq!(c.swap(0, SELL_DIRECTION, 0, 100), Err(ContractError::InvalidAmount));
    assert_eq!(c.virtual_sol_reserves, 30_000_000_000);
}

#[test]
fn fee_above_whole_is_invalid() {
    let mut c = swap_curve(793_100_000);
    assert_eq!(c.swap(10, 0, 0, 10_001), Err(ContractError::InvalidFee));
}

#[test]
fn buy_takes_fee_from_input() {
    let mut c = swap_curve(793_100_000);
    let plan = c.swap(1_000_000_000, 0, 0, 100).unwrap();
    assert_eq!(
        plan,
        SwapPlan {
            token_amount: 34_277_831,
            sol_amount: 990_000_000,
            fee_amount: 10_000_000,
            completed: false,
            amount_out: 990_000_000,
        }
    );
    assert_eq!(c.virtual_sol_reserves, 30_990_000_000);
}

#[test]
fn sell_takes_fee_from_payout() {
    let mut c = swap_curve(793_100_000);
    let plan = c.swap(1_000_000, SELL_DIRECTION, 0, 100).unwrap();
    assert_eq!(plan.token_amount, 1_000_000);
    assert_eq!(plan.sol_amount, 27_653_631);
    assert_eq!(plan.fee_amount, 27_932_961 - 27_653_631);
    assert_eq!(plan.amount_out, 1_000_000);
    assert!(!plan.completed);
    assert_eq!(c.real_sol_reserves, 2_000_000_000 - 27_932_961);
}

#[test]
fn final_buy_is_announced_once() {
    let mut c = swap_curve(5_000);
    let plan = c.swap(1_000_000_000, 0, 0, 100).unwrap();
    assert!(plan.completed);
    assert_eq!(plan.token_amount, 5_000);
    assert_eq!(plan.sol_amount, 535_906);
    assert_eq!(plan.fee_amount, 10_000_000);
    assert!(c.is_completed);
    c.swap(100, SELL_DIRECTION, 0, 100).unwrap();
    let again = c.swap(10_000, 0, 0, 100).unwrap();
    assert!(!again.completed);
}

#[test]
fn failed_sell_leaves_curve() {
    let mut c = swap_curve(793_100_000);
    c.real_sol_reserves = 0;
    assert_eq!(c.swap(1_000_000, SELL_DIRECTION, 0, 100), Err(ContractError::SellFailed));
    assert_eq!(c.real_token_reserves, 793_100_000);
}

#[test]
fn failed_buy_is_reported() {
    let mut c = swap_curve(793_100_000);
    // the whole input goes to the fee, leaving nothing to price
    assert_eq!(c.swap(50, 0, 0, 10_000), Err(ContractError::BuyFailed));
}
