use vstd::prelude::*;

verus! {

/// Why an operation on a curve, a migration or a lock was refused.
#[derive(Clone, Copy, Debug, PartialEq, Eq, Structural)]
pub enum ContractError {
    /// A trade of zero.
    InvalidAmount,
    /// The pricing engine gave no result for a sell.
    SellFailed,
    /// The pricing engine gave no result for a buy.
    BuyFailed,
    /// A fee rate above one hundred percent.
    InvalidFee,
    /// A checked subtraction went below zero.
    ArithmeticError,
    /// The pool's second asset is not the curve's token.
    NotBondingCurveMint,
    /// The pool's first asset is not the base currency.
    NotSOL,
    /// The curve has not been exhausted yet.
    NotCompleted,
    /// The pool module is not the allowed one.
    InvalidMeteoraProgram,
}

} // verus!
