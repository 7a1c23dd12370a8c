use vstd::prelude::*;

verus! {

/// Converts an oracle mantissa (two implied decimals, USD per whole native
/// unit) times a payment in base units into six-decimal USD:
/// `100 * 1_000_000_000 / 1_000_000`.
pub const PRICE_TO_TOKEN_SCALE: u64 = 100_000;

/// Tokens bought with `payment` base units when one native unit is worth
/// `price` hundredths of a USD and one token costs `unit_price` millionths of
/// a USD, rounded down.
pub open spec fn tokens_for_payment(price: int, payment: int, unit_price: int) -> int {
    (price * payment) / (PRICE_TO_TOKEN_SCALE * unit_price)
}

/// Base units that `tokens` cost at `unit_price` when one native unit is
/// worth `price` hundredths of a USD, rounded down.
pub open spec fn payment_for_tokens(tokens: int, unit_price: int, price: int) -> int {
    (tokens * PRICE_TO_TOKEN_SCALE * unit_price) / price
}

/// Number of tokens that a payment of `sol_amount` base units buys.
pub fn token_amount_for(price: i64, sol_amount: u64, unit_price: u64) -> (r: u128)
    requires
        price > 0,
        unit_price > 0,
    ensures
        r == tokens_for_payment(price as int, sol_amount as int, unit_price as int),
{
    let p = price as u128;
    let s = sol_amount as u128;
    let u = unit_price as u128;
    assert(p * s <= (i64::MAX as int) * (u64::MAX as int)) by (nonlinear_arith)
        requires
            p <= i64::MAX,
            s <= u64::MAX,
    ;
    assert(100_000 * u <= 100_000 * (u64::MAX as int)) by (nonlinear_arith)
        requires
            u <= u64::MAX,
    ;
    (p * s) / (100_000 * u)
}

/// Exact cost, rounded down, of `token_amount` tokens at `unit_price`.
pub fn sol_amount_for(token_amount: u64, unit_price: u64, price: i64) -> (r: u128)
    requires
        price > 0,
        unit_price <= u32::MAX,
    ensures
        r == payment_for_tokens(token_amount as int, unit_price as int, price as int),
{
    let t = token_amount as u128;
    let u = unit_price as u128;
    assert(t * 100_000 <= (u64::MAX as int) * 100_000) by (nonlinear_arith)
        requires
            t <= u64::MAX,
    ;
    assert(t * 100_000 * u <= (u64::MAX as int) * 100_000 * (u32::MAX as int)) by (nonlinear_arith)
        requires
            t <= u64::MAX,
            u <= u32::MAX,
    ;
    (t * 100_000 * u) / (price as u128)
}

/// Paying for fewer tokens than a payment buys never costs more than that
/// payment.
pub proof fn lemma_fewer_tokens_cost_less(price: int, payment: int, unit_price: int, tokens: int)
    requires
        price > 0,
        payment >= 0,
        unit_price > 0,
        0 <= tokens < tokens_for_payment(price, payment, unit_price),
    ensures
        0 <= payment_for_tokens(tokens, unit_price, price) < payment,
{
    let d = PRICE_TO_TOKEN_SCALE * unit_price;
    let q = (price * payment) / d;
    assert(d > 0) by (nonlinear_arith)
        requires
            unit_price > 0,
            d == PRICE_TO_TOKEN_SCALE * unit_price,
    ;
    assert(price * payment >= 0) by (nonlinear_arith)
        requires
            price > 0,
            payment >= 0,
    ;
    vstd::arithmetic::div_mod::lemma_fundamental_div_mod(price * payment, d);
    vstd::arithmetic::div_mod::lemma_mod_bound(price * payment, d);
    assert(tokens * d < price * payment) by (nonlinear_arith)
        requires
            tokens < q,
            tokens >= 0,
            d > 0,
            q * d <= price * payment,
            q * d == d * q,
    ;
    assert(tokens * PRICE_TO_TOKEN_SCALE * unit_price == tokens * d) by (nonlinear_arith)
        requires
            d == PRICE_TO_TOKEN_SCALE * unit_price,
    ;
    let c = tokens * d;
    assert(c >= 0) by (nonlinear_arith)
        requires
            tokens >= 0,
            d > 0,
            c == tokens * d,
    ;
    vstd::arithmetic::div_mod::lemma_fundamental_div_mod(c, price);
    vstd::arithmetic::div_mod::lemma_mod_bound(c, price);
    vstd::arithmetic::div_mod::lemma_div_pos_is_pos(c, price);
    assert(c / price < payment) by (nonlinear_arith)
        requires
            c < price * payment,
            price > 0,
            c == price * (c / price) + c % price,
            c % price >= 0,
    ;
}

} // verus!
