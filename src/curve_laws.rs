//! Laws of the pricing engine, proved over the spec functions that the
//! pricing methods' contracts are stated in.
use vstd::prelude::*;
use vstd::arithmetic::div_mod::{
    lemma_div_is_ordered,
    lemma_div_multiples_vanish,
    lemma_fundamental_div_mod,
    lemma_mod_pos_bound,
};
use crate::curve::{
    BondingCurve,
    buy_outcome,
    final_buy_cost,
    is_final_buy,
    sell_outcome,
    sol_for_sell,
    tokens_for_buy,
};

verus! {

/// The one rounding pattern under which buying and selling straight back pays
/// out more than was spent: the token output of the buy came out exact in the
/// nine-digit basis, while the token reserve after it was rounded down.
pub open spec fn buy_rounding_slips(vs: u64, vt: u64, sol: u64) -> bool {
    let ct = vt * 1000int;
    let p = vs * ct;
    let ns = vs + sol;
    (ct - p / ns) % 1000 == 0 && p % ns != 0
}

/// Buying with `sol` base units and selling the tokens bought straight back,
/// on the reserves the buy left, returns at most `sol`: floor rounding keeps
/// the difference in the curve (outside the one rounding pattern of
/// `buy_rounding_slips`).
pub proof fn lemma_buy_then_sell_returns_at_most_spent(vs: u64, vt: u64, sol: u64)
    requires
        sol > 0,
        vs + sol <= u64::MAX,
        !buy_rounding_slips(vs, vt, sol),
    ensures
        match tokens_for_buy(vs, vt, sol) {
            Some(t) => t <= vt && match sol_for_sell((vs + sol) as u64, (vt - t) as u64, t) {
                Some(o) => o <= sol,
                None => true,
            },
            None => true,
        },
{
    let ct = vt * 1000int;
    let p = vs * ct;
    let ns = vs + sol;
    if p <= u128::MAX {
        let nt = p / ns;
        lemma_fundamental_div_mod(p, ns);
        lemma_mod_pos_bound(p, ns);
        assert(nt <= ct) by (nonlinear_arith)
            requires
                p == ns * nt + p % ns,
                p % ns >= 0,
                p == vs * ct,
                vs < ns,
                ct >= 0,
        {}
        let d = ct - nt;
        let t = d / 1000;
        let r = d % 1000;
        lemma_fundamental_div_mod(d, 1000);
        lemma_mod_pos_bound(d, 1000);
        assert(tokens_for_buy(vs, vt, sol) == Some(t as u64));
        assert(t <= vt);
        let ct2 = (vt - t) * 1000;
        assert(ct2 == nt + r);
        assert(ct2 + t * 1000 == ct);
        let vt2 = (vt - t) as u64;
        let ns2 = (vs + sol) as u64;
        assert(vt2 * 1000int == ct2);
        assert(ns2 as int == ns);
        if t > 0 && ns * ct2 <= u128::MAX {
            assert(ns * ct2 >= p) by (nonlinear_arith)
                requires
                    ct2 == nt + r,
                    p == ns * nt + p % ns,
                    0 <= p % ns < ns,
                    r >= 1 || p % ns == 0,
                    r >= 0,
            {}
            assert(ct > 0);
            lemma_div_is_ordered(p, ns * ct2, ct);
            lemma_div_multiples_vanish(vs as int, ct);
            assert(p / ct == vs) by {
                assert(ct * vs == p) by (nonlinear_arith)
                    requires
                        p == vs * ct,
                {}
            }
            let new_sol = (ns * ct2) / ct;
            assert(new_sol >= vs);
            assert(ns * ct2 <= ct * ns) by (nonlinear_arith)
                requires
                    ct2 <= ct,
                    ns >= 0,
            {}
            lemma_div_is_ordered(ns * ct2, ct * ns, ct);
            lemma_div_multiples_vanish(ns, ct);
            assert(new_sol <= ns);
            assert(sol_for_sell(ns2, vt2, t as u64) == Some((ns - new_sol) as u64));
        } else {
            assert(sol_for_sell(ns2, vt2, t as u64) is None);
        }
    }
}

/// A buy or a sell of zero yields no result; the methods' contracts then
/// leave the curve as it was.
pub proof fn lemma_zero_input_yields_nothing(c: BondingCurve)
    ensures
        buy_outcome(c, 0) is None,
        sell_outcome(c, 0) is None,
{
}

/// The buy that would take the whole real token reserve is clamped to it, is
/// charged the final-buy price, empties the real token reserve, adds its
/// charge to the virtual base reserve and completes the curve.
pub proof fn lemma_final_buy_completes(c: BondingCurve, sol: u64)
    requires
        buy_outcome(c, sol) is Some,
        is_final_buy(c, sol),
    ensures
        ({
            let (c2, b) = buy_outcome(c, sol)->Some_0;
            &&& c2.is_completed
            &&& c2.real_token_reserves == 0
            &&& b.token_amount == c.real_token_reserves
            &&& final_buy_cost(c) == Some(b.sol_amount)
            &&& c2.virtual_sol_reserves == c.virtual_sol_reserves + b.sol_amount
        }),
{
}

/// On a curve not yet completed, a buy completes it exactly when it is the
/// final buy.
pub proof fn lemma_only_final_buy_completes(c: BondingCurve, sol: u64)
    requires
        !c.is_completed,
        buy_outcome(c, sol) is Some,
    ensures
        buy_outcome(c, sol)->Some_0.0.is_completed == is_final_buy(c, sol),
{
}

/// Once the real token reserve is empty, as the final buy leaves it, every
/// buy fails: no second final buy can follow without a sell in between.
pub proof fn lemma_exhausted_curve_refuses_buys(c: BondingCurve, sol: u64)
    requires
        c.real_token_reserves == 0,
    ensures
        buy_outcome(c, sol) is None,
{
}

/// Neither a buy nor a sell takes completion back.
pub proof fn lemma_completion_is_permanent(c: BondingCurve, amount: u64)
    requires
        c.is_completed,
    ensures
        buy_outcome(c, amount) is Some ==> buy_outcome(c, amount)->Some_0.0.is_completed,
        sell_outcome(c, amount) is Some ==> sell_outcome(c, amount)->Some_0.0.is_completed,
{
}

/// A sell never raises the product of the virtual reserves: the base reserve
/// after it is rounded down.
pub proof fn lemma_sell_does_not_raise_product(c: BondingCurve, tokens: u64)
    requires
        sell_outcome(c, tokens) is Some,
    ensures
        ({
            let c2 = sell_outcome(c, tokens)->Some_0.0;
            c2.virtual_sol_reserves * c2.virtual_token_reserves <= c.virtual_sol_reserves
                * c.virtual_token_reserves
        }),
{
    let vs = c.virtual_sol_reserves as int;
    let vt = c.virtual_token_reserves as int;
    let ct = vt * 1000;
    let nt = ct + tokens * 1000;
    let p = vs * ct;
    let ns = p / nt;
    lemma_fundamental_div_mod(p, nt);
    lemma_mod_pos_bound(p, nt);
    let c2 = sell_outcome(c, tokens)->Some_0.0;
    assert(ns <= vs) by (nonlinear_arith)
        requires
            p == nt * ns + p % nt,
            p % nt >= 0,
            p == vs * ct,
            ct >= 0,
            nt > ct,
            vs >= 0,
    {}
    assert(sol_for_sell(c.virtual_sol_reserves, c.virtual_token_reserves, tokens) == Some(
        (vs - ns) as u64,
    ));
    assert(c2.virtual_sol_reserves == ns);
    assert(c2.virtual_token_reserves == vt + tokens);
    assert(ns * (vt + tokens) <= vs * vt) by (nonlinear_arith)
        requires
            p == nt * ns + p % nt,
            p % nt >= 0,
            p == vs * ct,
            ct == vt * 1000,
            nt == ct + tokens * 1000,
    {}
}

} // verus!
