use vstd::prelude::*;
use crate::curve::{BondingCurve, buy_outcome, sell_outcome};
use crate::error::ContractError;

verus! {

/// The direction code of a sell; every other code buys.
pub const SELL_DIRECTION: u8 = 1;

/// Fee rates are given in hundredths of a percent.
pub const FEE_DENOMINATOR: u64 = 10_000;

/// The fund movements that one trade asks for.
#[derive(Clone, Copy, Debug, PartialEq, Eq, Structural)]
pub struct SwapPlan {
    /// Tokens moved: from the trader into custody on a sell, from custody to
    /// the trader on a buy.
    pub token_amount: u64,
    /// Base units moved: from custody to the trader on a sell, from the
    /// trader into custody on a buy.
    pub sol_amount: u64,
    /// Base units paid to the treasury: out of custody on a sell, by the
    /// trader on a buy.
    pub fee_amount: u64,
    /// Whether this trade completed the curve, which is then announced.
    pub completed: bool,
    /// What the trade reports back: the tokens sold, or the base units paid.
    pub amount_out: u64,
}

/// `amount` less a fee of `fee_bps` hundredths of a percent, rounded down.
pub open spec fn after_fee(amount: u64, fee_bps: u64) -> u64 {
    (amount * (FEE_DENOMINATOR - fee_bps) / FEE_DENOMINATOR as int) as u64
}

/// `amount` less a fee of `fee_bps` hundredths of a percent, rounded down.
pub fn deduct_fee(amount: u64, fee_bps: u64) -> (r: u64)
    requires
        fee_bps <= FEE_DENOMINATOR,
    ensures
        r == after_fee(amount, fee_bps),
        r <= amount,
{
    let keep = (FEE_DENOMINATOR - fee_bps) as u128;
    assert(amount * keep <= u64::MAX * 10000) by (nonlinear_arith)
        requires
            keep <= 10000,
    {}
    let scaled = amount as u128 * keep;
    let r = scaled / FEE_DENOMINATOR as u128;
    assert(r <= amount) by (nonlinear_arith)
        requires
            r == scaled / 10000,
            scaled == amount * keep,
            keep <= 10000,
    {}
    r as u64
}

impl BondingCurve {
    /// Trades `amount` against the curve: tokens for a sell
    /// (`direction == SELL_DIRECTION`), base units for a buy. A sell's fee is
    /// taken from its payout, a buy's from its input before pricing. The
    /// minimum to receive is accepted and not enforced. On an error the curve
    /// is unchanged.
    pub fn swap(
        &mut self,
        amount: u64,
        direction: u8,
        minimum_receive_amount: u64,
        fee_bps: u64,
    ) -> (r: Result<SwapPlan, ContractError>)
        ensures
            fee_bps > FEE_DENOMINATOR ==> r == Err::<SwapPlan, ContractError>(
                ContractError::InvalidFee,
            ) && *final(self) == *old(self),
            fee_bps <= FEE_DENOMINATOR && amount == 0 ==> r == Err::<SwapPlan, ContractError>(
                ContractError::InvalidAmount,
            ) && *final(self) == *old(self),
            fee_bps <= FEE_DENOMINATOR && amount > 0 && direction == SELL_DIRECTION ==> match sell_outcome(*old(self), amount) {
                None => r == Err::<SwapPlan, ContractError>(ContractError::SellFailed)
                    && *final(self) == *old(self),
                Some((c, s)) => *final(self) == c && r == Ok::<SwapPlan, ContractError>(
                    SwapPlan {
                        token_amount: amount,
                        sol_amount: after_fee(s.sol_amount, fee_bps),
                        fee_amount: (s.sol_amount - after_fee(s.sol_amount, fee_bps)) as u64,
                        completed: false,
                        amount_out: amount,
                    },
                ),
            },
            fee_bps <= FEE_DENOMINATOR && amount > 0 && direction != SELL_DIRECTION ==> match buy_outcome(*old(self), after_fee(amount, fee_bps)) {
                None => r == Err::<SwapPlan, ContractError>(ContractError::BuyFailed)
                    && *final(self) == *old(self),
                Some((c, b)) => *final(self) == c && r == Ok::<SwapPlan, ContractError>(
                    SwapPlan {
                        token_amount: b.token_amount,
                        sol_amount: b.sol_amount,
                        fee_amount: (amount - after_fee(amount, fee_bps)) as u64,
                        completed: c.is_completed && !old(self).is_completed,
                        amount_out: b.sol_amount,
                    },
                ),
            },
    {
        if fee_bps > FEE_DENOMINATOR {
            return Err(ContractError::InvalidFee);
        }
        if amount == 0 {
            return Err(ContractError::InvalidAmount);
        }
        if direction == SELL_DIRECTION {
            let sold = match self.apply_sell(amount) {
                None => return Err(ContractError::SellFailed),
                Some(s) => s,
            };
            let payout = deduct_fee(sold.sol_amount, fee_bps);
            Ok(
                SwapPlan {
                    token_amount: sold.token_amount,
                    sol_amount: payout,
                    fee_amount: sold.sol_amount - payout,
                    completed: false,
                    amount_out: sold.token_amount,
                },
            )
        } else {
            let was_completed = self.is_completed;
            let adjusted = deduct_fee(amount, fee_bps);
            let bought = match self.apply_buy(adjusted) {
                None => return Err(ContractError::BuyFailed),
                Some(b) => b,
            };
            Ok(
                SwapPlan {
                    token_amount: bought.token_amount,
                    sol_amount: bought.sol_amount,
                    fee_amount: amount - adjusted,
                    completed: self.is_completed && !was_completed,
                    amount_out: bought.sol_amount,
                },
            )
        }
    }
}

} // verus!
