use vstd::prelude::*;

verus! {

/// Token reserves carry six fractional digits and base-asset reserves nine:
/// token amounts are multiplied by this factor before they meet base amounts.
pub const TOKEN_SCALE: u128 = 1000;

/// The virtual base-asset reserve the curve holds once it is exhausted.
pub const FINAL_VIRTUAL_SOL_RESERVES: u64 = 115_005_359_056;

/// A 32-byte account address.
#[derive(Clone, Copy, Debug)]
pub struct Pubkey {
    pub bytes: [u8; 32],
}

impl PartialEq for Pubkey {
    fn eq(&self, o: &Pubkey) -> (r: bool) {
        let mut i: usize = 0;
        while i < 32
            invariant
                0 <= i <= 32,
                self.bytes@.len() == 32,
                o.bytes@.len() == 32,
                forall|j: int| 0 <= j < i ==> self.bytes@[j] == o.bytes@[j],
            decreases 32 - i,
        {
            if self.bytes[i] != o.bytes[i] {
                return false;
            }
            i = i + 1;
        }
        assert(self.bytes@ =~= o.bytes@);
        true
    }
}

impl vstd::std_specs::cmp::PartialEqSpecImpl for Pubkey {
    open spec fn obeys_eq_spec() -> bool {
        true
    }

    open spec fn eq_spec(&self, o: &Pubkey) -> bool {
        self.bytes@ == o.bytes@
    }
}

impl Eq for Pubkey {
}

/// The reserve record of one launched token.
#[derive(Clone, Copy, Debug)]
pub struct BondingCurve {
    pub token_mint: Pubkey,
    pub creator: Pubkey,
    pub init_lamport: u64,
    pub virtual_sol_reserves: u64,
    pub virtual_token_reserves: u64,
    pub real_sol_reserves: u64,
    pub real_token_reserves: u64,
    pub is_completed: bool,
}

/// What one sell moved: tokens in, base asset out.
#[derive(Clone, Copy, Debug, PartialEq, Eq, Structural)]
pub struct SellResult {
    pub token_amount: u64,
    pub sol_amount: u64,
}

/// What one buy moved: base asset in, tokens out.
#[derive(Clone, Copy, Debug, PartialEq, Eq, Structural)]
pub struct BuyResult {
    pub token_amount: u64,
    pub sol_amount: u64,
}

/// Tokens handed out for `sol` base units on virtual reserves `vs` / `vt`:
/// the token reserve after the trade is the floor of `vs * vt / (vs + sol)`
/// in the nine-digit basis, and the difference is floored back to six digits.
/// No result for a zero input or when the reserve product leaves 128 bits.
pub open spec fn tokens_for_buy(vs: u64, vt: u64, sol: u64) -> Option<u64> {
    let ct = vt * 1000int;
    if sol == 0 || vs * ct > u128::MAX {
        None
    } else {
        let nt = (vs * ct) / (vs + sol);
        Some(((ct - nt) / 1000) as u64)
    }
}

/// Base units paid out for `tokens` on virtual reserves `vs` / `vt`: the
/// base reserve after the trade is the floor of `vs * vt / (vt + tokens)` in
/// the nine-digit basis. No result for a zero input or when the reserve
/// product leaves 128 bits.
pub open spec fn sol_for_sell(vs: u64, vt: u64, tokens: u64) -> Option<u64> {
    let ct = vt * 1000int;
    if tokens == 0 || vs * ct > u128::MAX {
        None
    } else {
        let ns = (vs * ct) / (ct + tokens * 1000int);
        Some((vs - ns) as u64)
    }
}

/// Base units that the final buy is charged: the price, on a curve whose
/// virtual base reserve sits at the completion value and whose virtual token
/// reserve has already lost the whole real token reserve, of selling that
/// real token reserve back.
pub open spec fn final_buy_cost(c: BondingCurve) -> Option<u64> {
    if c.virtual_token_reserves < c.real_token_reserves {
        None
    } else {
        sol_for_sell(
            FINAL_VIRTUAL_SOL_RESERVES,
            (c.virtual_token_reserves - c.real_token_reserves) as u64,
            c.real_token_reserves,
        )
    }
}

/// Whether `sol` base units would buy out the whole real token reserve.
pub open spec fn is_final_buy(c: BondingCurve, sol: u64) -> bool {
    match tokens_for_buy(c.virtual_sol_reserves, c.virtual_token_reserves, sol) {
        Some(t) => t >= c.real_token_reserves,
        None => false,
    }
}

/// The curve after a buy of `sol` base units, and what the buy moved. A buy
/// that would take the whole real token reserve is clamped to it, charged
/// `final_buy_cost`, and completes the curve. No result on a zero input, on
/// a pricing failure, or when a reserve would leave 64 bits.
pub open spec fn buy_outcome(c: BondingCurve, sol: u64) -> Option<(BondingCurve, BuyResult)> {
    match tokens_for_buy(c.virtual_sol_reserves, c.virtual_token_reserves, sol) {
        None => None,
        Some(t) => {
            let last = t >= c.real_token_reserves;
            let token = if last { c.real_token_reserves } else { t };
            let cost = if last { final_buy_cost(c) } else { Some(sol) };
            match cost {
                None => None,
                Some(s) => if token > c.virtual_token_reserves || c.virtual_sol_reserves + s
                    > u64::MAX || c.real_sol_reserves + s > u64::MAX {
                    None
                } else {
                    Some(
                        (
                            BondingCurve {
                                virtual_token_reserves: (c.virtual_token_reserves - token) as u64,
                                real_token_reserves: (c.real_token_reserves - token) as u64,
                                virtual_sol_reserves: (c.virtual_sol_reserves + s) as u64,
                                real_sol_reserves: (c.real_sol_reserves + s) as u64,
                                is_completed: c.is_completed || last,
                                ..c
                            },
                            BuyResult { token_amount: token, sol_amount: s },
                        ),
                    )
                },
            }
        },
    }
}

/// The curve after a sell of `tokens`, and what the sell moved. No result on
/// a zero input, on a pricing failure, or when a reserve would leave 64 bits
/// or go below zero.
pub open spec fn sell_outcome(c: BondingCurve, tokens: u64) -> Option<(BondingCurve, SellResult)> {
    match sol_for_sell(c.virtual_sol_reserves, c.virtual_token_reserves, tokens) {
        None => None,
        Some(s) => if c.virtual_token_reserves + tokens > u64::MAX || c.real_token_reserves
            + tokens > u64::MAX || s > c.virtual_sol_reserves || s > c.real_sol_reserves {
            None
        } else {
            Some(
                (
                    BondingCurve {
                        virtual_token_reserves: (c.virtual_token_reserves + tokens) as u64,
                        real_token_reserves: (c.real_token_reserves + tokens) as u64,
                        virtual_sol_reserves: (c.virtual_sol_reserves - s) as u64,
                        real_sol_reserves: (c.real_sol_reserves - s) as u64,
                        ..c
                    },
                    SellResult { token_amount: tokens, sol_amount: s },
                ),
            )
        },
    }
}

fn buy_quote(vs: u64, vt: u64, sol: u64) -> (r: Option<u64>)
    ensures
        r == tokens_for_buy(vs, vt, sol),
{
    if sol == 0 {
        return None;
    }
    let current_sol = vs as u128;
    let current_tokens = vt as u128 * TOKEN_SCALE;
    let new_sol = current_sol + sol as u128;
    match current_sol.checked_mul(current_tokens) {
        None => None,
        Some(product) => {
            let new_tokens = product / new_sol;
            assert(new_tokens <= current_tokens) by (nonlinear_arith)
                requires
                    new_tokens == product / new_sol,
                    product == current_sol * current_tokens,
                    current_sol < new_sol,
            {}
            let tokens_out = (current_tokens - new_tokens) / TOKEN_SCALE;
            Some(tokens_out as u64)
        },
    }
}

fn sell_quote(vs: u64, vt: u64, tokens: u64) -> (r: Option<u64>)
    ensures
        r == sol_for_sell(vs, vt, tokens),
{
    if tokens == 0 {
        return None;
    }
    let current_sol = vs as u128;
    let current_tokens = vt as u128 * TOKEN_SCALE;
    let new_tokens = current_tokens + tokens as u128 * TOKEN_SCALE;
    match current_sol.checked_mul(current_tokens) {
        None => None,
        Some(product) => {
            let new_sol = product / new_tokens;
            assert(new_sol <= current_sol) by (nonlinear_arith)
                requires
                    new_sol == product / new_tokens,
                    product == current_sol * current_tokens,
                    current_tokens < new_tokens,
            {}
            Some((current_sol - new_sol) as u64)
        },
    }
}

impl BondingCurve {
    /// Base units that selling `token_amount` tokens pays out.
    pub fn get_sol_for_sell_tokens(&self, token_amount: u64) -> (r: Option<u64>)
        ensures
            r == sol_for_sell(self.virtual_sol_reserves, self.virtual_token_reserves, token_amount),
    {
        sell_quote(self.virtual_sol_reserves, self.virtual_token_reserves, token_amount)
    }

    /// Tokens that `sol_amount` base units buy.
    pub fn get_tokens_for_buy_sol(&self, sol_amount: u64) -> (r: Option<u64>)
        ensures
            r == tokens_for_buy(self.virtual_sol_reserves, self.virtual_token_reserves, sol_amount),
    {
        buy_quote(self.virtual_sol_reserves, self.virtual_token_reserves, sol_amount)
    }

    /// Buys with `sol_amount` base units. On no result the curve is unchanged.
    pub fn apply_buy(&mut self, sol_amount: u64) -> (r: Option<BuyResult>)
        ensures
            match buy_outcome(*old(self), sol_amount) {
                None => r.is_none() && *final(self) == *old(self),
                Some((c, b)) => r == Some(b) && *final(self) == c,
            },
    {
        let quoted = match self.get_tokens_for_buy_sol(sol_amount) {
            None => return None,
            Some(t) => t,
        };
        let last = quoted >= self.real_token_reserves;
        let mut token_amount = quoted;
        let mut cost = sol_amount;
        if last {
            token_amount = self.real_token_reserves;
            if self.virtual_token_reserves < token_amount {
                return None;
            }
            // price the final tokens on the curve as it stands once exhausted
            cost = match sell_quote(
                FINAL_VIRTUAL_SOL_RESERVES,
                self.virtual_token_reserves - token_amount,
                token_amount,
            ) {
                None => return None,
                Some(s) => s,
            };
        }
        if token_amount > self.virtual_token_reserves || cost > u64::MAX - self.virtual_sol_reserves
            || cost > u64::MAX - self.real_sol_reserves {
            return None;
        }
        self.virtual_token_reserves = self.virtual_token_reserves - token_amount;
        self.real_token_reserves = self.real_token_reserves - token_amount;
        self.virtual_sol_reserves = self.virtual_sol_reserves + cost;
        self.real_sol_reserves = self.real_sol_reserves + cost;
        if last {
            self.is_completed = true;
        }
        Some(BuyResult { token_amount, sol_amount: cost })
    }

    /// Sells `token_amount` tokens. On no result the curve is unchanged.
    pub fn apply_sell(&mut self, token_amount: u64) -> (r: Option<SellResult>)
        ensures
            match sell_outcome(*old(self), token_amount) {
                None => r.is_none() && *final(self) == *old(self),
                Some((c, s)) => r == Some(s) && *final(self) == c,
            },
    {
        let sol_amount = match self.get_sol_for_sell_tokens(token_amount) {
            None => return None,
            Some(s) => s,
        };
        if token_amount > u64::MAX - self.virtual_token_reserves || token_amount > u64::MAX
            - self.real_token_reserves || sol_amount > self.virtual_sol_reserves || sol_amount
            > self.real_sol_reserves {
            return None;
        }
        self.virtual_token_reserves = self.virtual_token_reserves + token_amount;
        self.real_token_reserves = self.real_token_reserves + token_amount;
        self.virtual_sol_reserves = self.virtual_sol_reserves - sol_amount;
        self.real_sol_reserves = self.real_sol_reserves - sol_amount;
        Some(SellResult { token_amount, sol_amount })
    }
}

} // verus!
