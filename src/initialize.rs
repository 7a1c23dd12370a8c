use vstd::prelude::*;

use crate::constant::{get_total_tokens, total_supply};
use crate::error::PresaleError;
use crate::state::{initial_supplies, lemma_initial_supplies_sum, Address, GlobalState};

verus! {

/// Everything the one-time set-up of the sale reads and writes.
#[derive(Debug, Clone, Copy)]
pub struct Initialize {
    /// The identity that will administer the sale.
    pub admin: Address,
    /// Tokens held in custody for the sale.
    pub token_reserve: u64,
    pub global_state: GlobalState,
}

impl Initialize {
    /// Sets up the sale record: this admin, no vault yet, nothing sold, not
    /// started, and every stage at its full supply. Refused with
    /// `NotEnoughToken`, changing nothing, when the stages together offer
    /// more tokens than the reserve holds.
    pub fn process_instruction(ctx: &mut Initialize) -> (r: Result<(), PresaleError>)
        ensures
            final(ctx).admin == old(ctx).admin,
            final(ctx).token_reserve == old(ctx).token_reserve,
            total_supply() > old(ctx).token_reserve ==> {
                &&& r == Err::<(), PresaleError>(PresaleError::NotEnoughToken)
                &&& final(ctx).global_state == old(ctx).global_state
            },
            total_supply() <= old(ctx).token_reserve ==> {
                let g = final(ctx).global_state;
                &&& r == Ok::<(), PresaleError>(())
                &&& g.admin == old(ctx).admin
                &&& g.vault.bytes@ == Seq::new(32, |i: int| 0u8)
                &&& g.token_sold == 0
                &&& g.token_sold_usd == 0
                &&& !g.is_live
                &&& g.stage_iterator == 0
                &&& g.remain_tokens@ == initial_supplies()
                &&& g.wf()
            },
    {
        if get_total_tokens() > ctx.token_reserve {
            return Err(PresaleError::NotEnoughToken);
        }
        ctx.global_state.admin = ctx.admin;
        ctx.global_state.vault = Address::new([0u8; 32]);
        ctx.global_state.token_sold = 0;
        ctx.global_state.token_sold_usd = 0;
        ctx.global_state.is_live = false;
        ctx.global_state.stage_iterator = 0;
        ctx.global_state.remain_tokens = [0u64; 10];
        ctx.global_state.update_remain_tokens();
        proof {
            lemma_initial_supplies_sum();
            assert(ctx.global_state.vault.bytes@ =~= Seq::new(32, |i: int| 0u8));
        }
        Ok(())
    }
}

} // verus!
