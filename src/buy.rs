use vstd::prelude::*;

use crate::constant::{get_stage_by_index, lemma_total_supply, stage_price, total_supply, NUM_STAGES};
use crate::error::PresaleError;
use crate::oracle::{current_price, price_refusal, PriceSnapshot};
use crate::pricing::{
    lemma_fewer_tokens_cost_less, payment_for_tokens, sol_amount_for, token_amount_for,
    tokens_for_payment,
};
use crate::state::{
    lemma_seq_sum_nonneg, lemma_seq_sum_update, purchase_refusal, sat_add, Address,
    GlobalState, UserState,
};

verus! {

/// Everything a purchase paid in the native currency reads and writes.
#[derive(Debug, Clone, Copy)]
pub struct Buy {
    /// The buyer.
    pub user: Address,
    pub global_state: GlobalState,
    /// The buyer's own record.
    pub user_state: UserState,
    /// Where the payment is to be sent.
    pub vault: Address,
    /// The oracle's SOL/USD feed as read for this purchase.
    pub price_feed: PriceSnapshot,
}

/// Tokens that `sol_amount` buys at the current stage's price.
pub open spec fn requested_tokens(g: GlobalState, snap: PriceSnapshot, sol_amount: int) -> int {
    tokens_for_payment(snap.price as int, sol_amount, stage_price(g.stage_iterator - 1) as int)
}

/// Tokens left in the current stage.
pub open spec fn stage_left(g: GlobalState) -> int {
    g.remain_tokens@[g.stage_iterator - 1] as int
}

/// Whether the request exceeds what the current stage has left.
pub open spec fn is_clamped(g: GlobalState, snap: PriceSnapshot, sol_amount: int) -> bool {
    stage_left(g) < requested_tokens(g, snap, sol_amount)
}

/// Tokens granted: the request, or what the stage has left if that is less.
pub open spec fn granted_tokens(g: GlobalState, snap: PriceSnapshot, sol_amount: int) -> int {
    if is_clamped(g, snap, sol_amount) {
        stage_left(g)
    } else {
        requested_tokens(g, snap, sol_amount)
    }
}

/// Payment charged: the request, or the exact cost of the clamped grant.
pub open spec fn charged_payment(g: GlobalState, snap: PriceSnapshot, sol_amount: int) -> int {
    if is_clamped(g, snap, sol_amount) {
        payment_for_tokens(stage_left(g), stage_price(g.stage_iterator - 1) as int, snap.price as int)
    } else {
        sol_amount
    }
}

/// Why a purchase of `sol_amount` base units at time `now` is refused, if it
/// is. A payment too small to buy a single token is refused.
pub open spec fn buy_refusal(g: GlobalState, snap: PriceSnapshot, sol_amount: int, now: int) -> Option<PresaleError> {
    if purchase_refusal(g).is_some() {
        purchase_refusal(g)
    } else if price_refusal(snap, now).is_some() {
        price_refusal(snap, now)
    } else if requested_tokens(g, snap, sol_amount) == 0 {
        Some(PresaleError::InvalidTokenAmount)
    } else {
        None
    }
}

impl Buy {
    /// Settles a purchase of `sol_amount` base units at Unix time `now`.
    ///
    /// On success returns the amount to transfer to the vault: the request,
    /// or, when the current stage cannot cover it, the cost of exactly what
    /// the stage has left, in which case the cursor moves on (and the sale
    /// ends after the last stage). A stage emptied exactly also moves the
    /// cursor on. On failure nothing changes.
    pub fn process_instruction(ctx: &mut Buy, sol_amount: u64, now: i64) -> (r: Result<u64, PresaleError>)
        requires
            old(ctx).global_state.wf(),
        ensures
            final(ctx).global_state.wf(),
            final(ctx).user == old(ctx).user,
            final(ctx).vault == old(ctx).vault,
            final(ctx).price_feed == old(ctx).price_feed,
            final(ctx).global_state.token_sold >= old(ctx).global_state.token_sold,
            final(ctx).global_state.token_sold_usd >= old(ctx).global_state.token_sold_usd,
            final(ctx).global_state.stage_iterator >= old(ctx).global_state.stage_iterator,
            final(ctx).user_state.tokens >= old(ctx).user_state.tokens,
            final(ctx).user_state.paid_sol >= old(ctx).user_state.paid_sol,
            final(ctx).user_state.paid_usd >= old(ctx).user_state.paid_usd,
            forall|j: int| 0 <= j < NUM_STAGES ==>
                #[trigger] final(ctx).global_state.remain_tokens@[j] <= old(ctx).global_state.remain_tokens@[j],
            ({
                let g = old(ctx).global_state;
                let u = old(ctx).user_state;
                let snap = old(ctx).price_feed;
                let ng = final(ctx).global_state;
                let nu = final(ctx).user_state;
                match buy_refusal(g, snap, sol_amount as int, now as int) {
                    Some(e) => {
                        &&& r == Err::<u64, PresaleError>(e)
                        &&& ng == g
                        &&& nu == u
                    },
                    None => {
                        let c = g.stage_iterator as int;
                        let t = granted_tokens(g, snap, sol_amount as int);
                        let pay = charged_payment(g, snap, sol_amount as int);
                        let left = stage_left(g) - t;
                        &&& 0 < t <= stage_left(g)
                        &&& 0 <= pay <= sol_amount
                        &&& r == Ok::<u64, PresaleError>(pay as u64)
                        &&& ng.remain_tokens@ == g.remain_tokens@.update(c - 1, left as u64)
                        &&& ng.stage_iterator == (if left == 0 { c + 1 } else { c })
                        &&& ng.is_live == (g.is_live && !(left == 0 && c == NUM_STAGES))
                        &&& ng.token_sold == g.token_sold + t
                        &&& ng.token_sold_usd == sat_add(g.token_sold_usd as int, snap.price * pay)
                        &&& ng.admin == g.admin
                        &&& ng.vault == g.vault
                        &&& nu.tokens == sat_add(u.tokens as int, t)
                        &&& nu.paid_sol == sat_add(u.paid_sol as int, pay)
                        &&& nu.paid_usd == u.paid_usd
                        &&& nu.user == u.user
                    },
                }
            }),
    {
        let idx = match ctx.global_state.accepting_stage() {
            Ok(i) => i,
            Err(e) => return Err(e),
        };
        let price = match current_price(&ctx.price_feed, now) {
            Ok(p) => p,
            Err(e) => return Err(e),
        };
        let stage = get_stage_by_index((idx + 1) as u8).unwrap();
        let requested = token_amount_for(price, sol_amount, stage.price);
        if requested == 0 {
            return Err(PresaleError::InvalidTokenAmount);
        }
        let ghost g0 = ctx.global_state;
        let remaining = ctx.global_state.remain_tokens[idx];
        let token_amount: u64;
        let mut payment: u64 = sol_amount;
        if (remaining as u128) < requested {
            token_amount = remaining;
            proof {
                lemma_fewer_tokens_cost_less(price as int, sol_amount as int, stage.price as int, remaining as int);
            }
            payment = sol_amount_for(remaining, stage.price, price) as u64;
        } else {
            token_amount = requested as u64;
        }
        let left = remaining - token_amount;
        proof {
            lemma_seq_sum_update(g0.remain_tokens@, idx as int, left);
            lemma_seq_sum_nonneg(g0.remain_tokens@.update(idx as int, left));
            lemma_total_supply();
            assert(g0.token_sold + token_amount <= total_supply());
        }
        ctx.global_state.remain_tokens[idx] = left;
        if left == 0 {
            ctx.global_state.stage_iterator = ctx.global_state.stage_iterator + 1;
            if idx + 1 == NUM_STAGES as usize {
                ctx.global_state.is_live = false;
            }
        }
        ctx.global_state.token_sold = ctx.global_state.token_sold.saturating_add(token_amount);
        assert((price as u128) * (payment as u128) <= (i64::MAX as int) * (u64::MAX as int)) by (nonlinear_arith)
            requires
                0 < price <= i64::MAX,
                payment <= u64::MAX,
        ;
        let value: u128 = price as u128 * payment as u128;
        let usd: u128 = ctx.global_state.token_sold_usd as u128 + value;
        ctx.global_state.token_sold_usd = if usd > u64::MAX as u128 { u64::MAX } else { usd as u64 };
        ctx.user_state.add_sol_purchase(payment, token_amount);
        proof {
            let ng = ctx.global_state;
            assert(ng.remain_tokens@ =~= g0.remain_tokens@.update(idx as int, left));
        }
        Ok(payment)
    }
}


/// The recorded value after committing, onto `start`, a log of purchases,
/// each given as (oracle price, charged payment).
pub open spec fn replay_value(start: int, log: Seq<(int, int)>) -> int
    decreases log.len(),
{
    if log.len() == 0 {
        start
    } else {
        sat_add(replay_value(start, log.drop_last()), log.last().0 * log.last().1)
    }
}

/// Sum of price times payment over a purchase log.
pub open spec fn log_value(log: Seq<(int, int)>) -> int
    decreases log.len(),
{
    if log.len() == 0 {
        0
    } else {
        log_value(log.drop_last()) + log.last().0 * log.last().1
    }
}

/// The recorded value, built purchase by purchase from zero, is the sum of
/// each purchase's price times payment, capped at the largest `u64`.
pub proof fn lemma_value_replay(log: Seq<(int, int)>)
    requires
        forall|k: int| 0 <= k < log.len() ==> 0 <= #[trigger] log[k].0 && 0 <= log[k].1,
    ensures
        replay_value(0, log) == (if log_value(log) > u64::MAX { u64::MAX as int } else { log_value(log) }),
        log_value(log) >= 0,
    decreases log.len(),
{
    if log.len() > 0 {
        let init = log.drop_last();
        assert forall|k: int| 0 <= k < init.len() implies 0 <= #[trigger] init[k].0 && 0 <= init[k].1 by {
            assert(init[k] == log[k]);
        }
        lemma_value_replay(init);
        let x = log.last().0 * log.last().1;
        let k = log.len() - 1;
        assert(log[k].0 >= 0 && log[k].1 >= 0);
        assert(x >= 0) by (nonlinear_arith)
            requires
                x == log.last().0 * log.last().1,
                log.last().0 >= 0,
                log.last().1 >= 0,
        ;
    }
}

} // verus!
