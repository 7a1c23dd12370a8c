use vstd::prelude::*;

use crate::constant::{
    get_stage_by_index, get_total_tokens, lemma_total_supply, stage_at, stage_supply, supply_prefix, total_supply, Stage, NUM_STAGES,
};
use crate::error::PresaleError;

verus! {

/// A 32-byte account identity.
#[derive(Debug, Clone, Copy)]
pub struct Address {
    pub bytes: [u8; 32],
}

impl Address {
    pub fn new(bytes: [u8; 32]) -> (r: Address)
        ensures
            r.bytes@ == bytes@,
    {
        Address { bytes }
    }

    /// Whether the two identities hold the same bytes.
    pub fn same_as(&self, other: &Address) -> (r: bool)
        ensures
            r == (self.bytes@ == other.bytes@),
    {
        let mut i: usize = 0;
        while i < 32
            invariant
                0 <= i <= 32,
                self.bytes@.len() == 32,
                other.bytes@.len() == 32,
                forall|j: int| 0 <= j < i ==> self.bytes@[j] == other.bytes@[j],
            decreases 32 - i,
        {
            if self.bytes[i] != other.bytes[i] {
                return false;
            }
            i = i + 1;
        }
        proof {
            assert(self.bytes@ =~= other.bytes@);
        }
        true
    }
}

/// `a + b`, capped at the largest `u64`.
pub open spec fn sat_add(a: int, b: int) -> int {
    if a + b > u64::MAX { u64::MAX as int } else { a + b }
}

/// Sum of a sequence of amounts.
pub open spec fn seq_sum(s: Seq<u64>) -> int
    decreases s.len(),
{
    if s.len() == 0 { 0 } else { seq_sum(s.drop_last()) + s.last() }
}

pub proof fn lemma_seq_sum_nonneg(s: Seq<u64>)
    ensures
        seq_sum(s) >= 0,
    decreases s.len(),
{
    if s.len() > 0 {
        lemma_seq_sum_nonneg(s.drop_last());
    }
}

/// Replacing one amount changes the sum by the difference.
pub proof fn lemma_seq_sum_update(s: Seq<u64>, i: int, v: u64)
    requires
        0 <= i < s.len(),
    ensures
        seq_sum(s.update(i, v)) == seq_sum(s) - s[i] + v,
    decreases s.len(),
{
    let t = s.update(i, v);
    if i == s.len() - 1 {
        assert(t.drop_last() =~= s.drop_last());
    } else {
        lemma_seq_sum_update(s.drop_last(), i, v);
        assert(t.drop_last() =~= s.drop_last().update(i, v));
    }
}

/// The per-stage supplies, in stage order.
pub open spec fn initial_supplies() -> Seq<u64> {
    Seq::new(NUM_STAGES as nat, |i: int| stage_supply(i))
}

proof fn lemma_supplies_prefix_sum(n: nat)
    requires
        n <= NUM_STAGES,
    ensures
        seq_sum(Seq::new(n, |i: int| stage_supply(i))) == supply_prefix(n as int),
    decreases n,
{
    let s = Seq::new(n, |i: int| stage_supply(i));
    if n > 0 {
        lemma_supplies_prefix_sum((n - 1) as nat);
        assert(s.drop_last() =~= Seq::new((n - 1) as nat, |i: int| stage_supply(i)));
    }
}

/// The full supplies add up to the sale's total supply.
pub proof fn lemma_initial_supplies_sum()
    ensures
        seq_sum(initial_supplies()) == total_supply(),
        initial_supplies().len() == NUM_STAGES,
{
    lemma_supplies_prefix_sum(NUM_STAGES as nat);
}

/// The sale-wide record: configuration, cursor, and statistics.
#[derive(Debug, Clone, Copy)]
pub struct GlobalState {
    /// Identity that administers the sale.
    pub admin: Address,
    /// Identity that receives the payments.
    pub vault: Address,
    /// Tokens sold over all stages.
    pub token_sold: u64,
    /// Sum of oracle price times payment over all purchases.
    pub token_sold_usd: u64,
    /// Whether purchases are accepted (cleared to pause or end the sale).
    pub is_live: bool,
    /// 1-based current stage; 0 before the start, past the last once ended.
    pub stage_iterator: u8,
    /// Tokens left in each stage.
    pub remain_tokens: [u64; 10],
}

impl Default for GlobalState {
    /// An empty record: zero identities, nothing sold, not started, and no
    /// tokens in any stage.
    fn default() -> (r: GlobalState)
        ensures
            r.admin.bytes@ == Seq::new(32, |i: int| 0u8),
            r.vault.bytes@ == Seq::new(32, |i: int| 0u8),
            r.token_sold == 0,
            r.token_sold_usd == 0,
            !r.is_live,
            r.stage_iterator == 0,
            r.remain_tokens@ == Seq::new(10, |i: int| 0u64),
    {
        let r = GlobalState {
            admin: Address::new([0u8; 32]),
            vault: Address::new([0u8; 32]),
            token_sold: 0,
            token_sold_usd: 0,
            is_live: false,
            stage_iterator: 0,
            remain_tokens: [0u64; 10],
        };
        proof {
            assert(r.admin.bytes@ =~= Seq::new(32, |i: int| 0u8));
            assert(r.vault.bytes@ =~= Seq::new(32, |i: int| 0u8));
            assert(r.remain_tokens@ =~= Seq::new(10, |i: int| 0u64));
        }
        r
    }
}

/// Why a purchase against `g` is refused before any price is read, if it is.
pub open spec fn purchase_refusal(g: GlobalState) -> Option<PresaleError> {
    if g.stage_iterator == 0 {
        Some(PresaleError::PresaleNotStarted)
    } else if g.stage_iterator > NUM_STAGES {
        Some(PresaleError::PresaleEnded)
    } else if !g.is_live {
        Some(PresaleError::PresalePaused)
    } else {
        None
    }
}

impl GlobalState {
    /// The sale's ledger invariant. Stages before the cursor are exhausted,
    /// the current one still has tokens, later ones are untouched; every
    /// token missing from a stage has been sold.
    pub open spec fn wf(&self) -> bool {
        let c = self.stage_iterator as int;
        &&& c <= NUM_STAGES + 1
        &&& forall|i: int|
            0 <= i < NUM_STAGES ==> {
                &&& i < c - 1 ==> #[trigger] self.remain_tokens@[i] == 0
                &&& i == c - 1 ==> 0 < self.remain_tokens@[i] <= stage_supply(i)
                &&& i >= c ==> self.remain_tokens@[i] == stage_supply(i)
            }
        &&& seq_sum(self.remain_tokens@) + self.token_sold == total_supply()
    }

    /// Whether this record satisfies the ledger invariant `wf`.
    pub fn is_well_formed(&self) -> (r: bool)
        ensures
            r == self.wf(),
    {
        if self.stage_iterator > NUM_STAGES + 1 {
            return false;
        }
        proof {
            lemma_initial_supplies_sum();
            lemma_total_supply();
        }
        let c = self.stage_iterator as usize;
        let mut sum: u64 = 0;
        let mut i: usize = 0;
        while i < 10
            invariant
                0 <= i <= 10,
                c == self.stage_iterator,
                c <= NUM_STAGES + 1,
                self.remain_tokens@.len() == 10,
                sum == seq_sum(self.remain_tokens@.subrange(0, i as int)),
                sum <= supply_prefix(i as int),
                forall|j: int| 0 <= j <= 10 ==> 0 <= #[trigger] supply_prefix(j) <= 200_000_000,
                forall|j: int|
                    0 <= j < i ==> {
                        &&& j < c - 1 ==> #[trigger] self.remain_tokens@[j] == 0
                        &&& j == c - 1 ==> 0 < self.remain_tokens@[j] <= stage_supply(j)
                        &&& j >= c ==> self.remain_tokens@[j] == stage_supply(j)
                    },
            decreases 10 - i,
        {
            let stage = get_stage_by_index((i + 1) as u8).unwrap();
            let left = self.remain_tokens[i];
            if i + 1 < c {
                if left != 0 {
                    return false;
                }
            } else if i + 1 == c {
                if left == 0 || left > stage.amount {
                    return false;
                }
            } else if left != stage.amount {
                return false;
            }
            proof {
                let s = self.remain_tokens@.subrange(0, i + 1);
                assert(s.drop_last() =~= self.remain_tokens@.subrange(0, i as int));
            }
            sum = sum + left;
            i = i + 1;
        }
        proof {
            assert(self.remain_tokens@.subrange(0, 10) =~= self.remain_tokens@);
        }
        self.token_sold as u128 + sum as u128 == get_total_tokens() as u128
    }

    /// Resets the tokens left in each stage to the stage's full supply.
    pub fn update_remain_tokens(&mut self)
        ensures
            final(self).remain_tokens@ == initial_supplies(),
            final(self).admin == old(self).admin,
            final(self).vault == old(self).vault,
            final(self).token_sold == old(self).token_sold,
            final(self).token_sold_usd == old(self).token_sold_usd,
            final(self).is_live == old(self).is_live,
            final(self).stage_iterator == old(self).stage_iterator,
    {
        let mut i: usize = 0;
        while i < 10
            invariant
                0 <= i <= 10,
                self.remain_tokens@.len() == 10,
                forall|j: int| 0 <= j < i ==> self.remain_tokens@[j] == stage_supply(j),
                self.admin == old(self).admin,
                self.vault == old(self).vault,
                self.token_sold == old(self).token_sold,
                self.token_sold_usd == old(self).token_sold_usd,
                self.is_live == old(self).is_live,
                self.stage_iterator == old(self).stage_iterator,
            decreases 10 - i,
        {
            let stage = get_stage_by_index((i + 1) as u8).unwrap();
            self.remain_tokens[i] = stage.amount;
            i = i + 1;
        }
        proof {
            assert(self.remain_tokens@ =~= initial_supplies());
        }
    }

    /// Whether purchases are accepted now: the sale is live and the cursor
    /// points at a stage.
    pub fn is_presale_active(&self) -> (r: bool)
        ensures
            r == (self.is_live && 1 <= self.stage_iterator <= NUM_STAGES),
            r == purchase_refusal(*self).is_none(),
    {
        self.is_live && self.stage_iterator > 0 && self.stage_iterator <= NUM_STAGES
    }

    /// 0-based position of the current stage, or why no purchase is
    /// accepted now.
    pub fn accepting_stage(&self) -> (r: Result<usize, PresaleError>)
        ensures
            match purchase_refusal(*self) {
                Some(e) => r == Err::<usize, PresaleError>(e),
                None => r == Ok::<usize, PresaleError>((self.stage_iterator - 1) as usize),
            },
    {
        if self.stage_iterator == 0 {
            return Err(PresaleError::PresaleNotStarted);
        }
        if self.stage_iterator > NUM_STAGES {
            return Err(PresaleError::PresaleEnded);
        }
        if !self.is_live {
            return Err(PresaleError::PresalePaused);
        }
        Ok((self.stage_iterator - 1) as usize)
    }

    /// The stage that the cursor points at, if any.
    pub fn get_current_stage(&self) -> (r: Option<Stage>)
        ensures
            1 <= self.stage_iterator <= NUM_STAGES ==> r == Some(stage_at(self.stage_iterator - 1)),
            !(1 <= self.stage_iterator <= NUM_STAGES) ==> r.is_none(),
    {
        if self.stage_iterator > 0 && self.stage_iterator <= NUM_STAGES {
            get_stage_by_index(self.stage_iterator)
        } else {
            None
        }
    }

    /// Whether the current stage has no tokens left; true when the cursor
    /// points at no stage.
    pub fn is_current_stage_sold_out(&self) -> (r: bool)
        ensures
            r == (!(1 <= self.stage_iterator <= NUM_STAGES)
                || self.remain_tokens@[self.stage_iterator - 1] == 0),
    {
        if self.stage_iterator > 0 && self.stage_iterator <= NUM_STAGES {
            self.remain_tokens[(self.stage_iterator - 1) as usize] == 0
        } else {
            true
        }
    }

    /// Tokens left in the current stage; 0 when the cursor points at no stage.
    pub fn get_current_stage_remaining(&self) -> (r: u64)
        ensures
            1 <= self.stage_iterator <= NUM_STAGES ==> r == self.remain_tokens@[self.stage_iterator - 1],
            !(1 <= self.stage_iterator <= NUM_STAGES) ==> r == 0,
    {
        if self.stage_iterator > 0 && self.stage_iterator <= NUM_STAGES {
            self.remain_tokens[(self.stage_iterator - 1) as usize]
        } else {
            0
        }
    }
}

/// One buyer's record of what they bought and paid.
#[derive(Debug, Clone, Copy)]
pub struct UserState {
    /// The buyer.
    pub user: Address,
    /// Tokens bought.
    pub tokens: u64,
    /// Native currency paid, in base units.
    pub paid_sol: u64,
    /// Stable coin paid.
    pub paid_usd: u64,
}

impl Default for UserState {
    /// A buyer with a zero identity who has bought and paid nothing.
    fn default() -> (r: UserState)
        ensures
            r.user.bytes@ == Seq::new(32, |i: int| 0u8),
            r.tokens == 0,
            r.paid_sol == 0,
            r.paid_usd == 0,
    {
        let r = UserState { user: Address::new([0u8; 32]), tokens: 0, paid_sol: 0, paid_usd: 0 };
        proof {
            assert(r.user.bytes@ =~= Seq::new(32, |i: int| 0u8));
        }
        r
    }
}

impl UserState {
    /// Stable coin paid by this buyer.
    pub fn get_total_paid_usd(&self) -> (r: u64)
        ensures
            r == self.paid_usd,
    {
        self.paid_usd
    }

    /// Whether this buyer has bought or paid anything.
    pub fn has_purchases(&self) -> (r: bool)
        ensures
            r == (self.tokens > 0 || self.paid_sol > 0 || self.paid_usd > 0),
    {
        self.tokens > 0 || self.paid_sol > 0 || self.paid_usd > 0
    }

    /// Records a purchase paid in the native currency; both totals saturate.
    pub fn add_sol_purchase(&mut self, sol_amount: u64, token_amount: u64)
        ensures
            final(self).paid_sol == sat_add(old(self).paid_sol as int, sol_amount as int),
            final(self).tokens == sat_add(old(self).tokens as int, token_amount as int),
            final(self).paid_usd == old(self).paid_usd,
            final(self).user == old(self).user,
    {
        self.paid_sol = self.paid_sol.saturating_add(sol_amount);
        self.tokens = self.tokens.saturating_add(token_amount);
    }

    /// Records a purchase paid in a stable coin; both totals saturate.
    pub fn add_stable_purchase(&mut self, stable_amount: u64, token_amount: u64)
        ensures
            final(self).paid_usd == sat_add(old(self).paid_usd as int, stable_amount as int),
            final(self).tokens == sat_add(old(self).tokens as int, token_amount as int),
            final(self).paid_sol == old(self).paid_sol,
            final(self).user == old(self).user,
    {
        self.paid_usd = self.paid_usd.saturating_add(stable_amount);
        self.tokens = self.tokens.saturating_add(token_amount);
    }
}


/// Tokens are conserved: what is left in the stages plus what was sold is the
/// sale's total supply, in every well-formed state (initialisation
/// establishes it and every purchase keeps it).
pub proof fn lemma_supply_conserved(g: GlobalState)
    requires
        g.wf(),
    ensures
        seq_sum(g.remain_tokens@) + g.token_sold == total_supply(),
        forall|i: int| 0 <= i < NUM_STAGES ==> #[trigger] g.remain_tokens@[i] <= stage_supply(i),
{
    assert forall|i: int| 0 <= i < NUM_STAGES implies #[trigger] g.remain_tokens@[i] <= stage_supply(i) by {
        let _ = g.remain_tokens@[i];
    }
}

/// A stage with nothing left lies behind the cursor, so no purchase is
/// settled at it any more.
pub proof fn lemma_exhausted_stage_passed(g: GlobalState, i: int)
    requires
        g.wf(),
        0 <= i < NUM_STAGES,
        g.remain_tokens@[i] == 0,
    ensures
        i + 1 < g.stage_iterator,
{
    let _ = g.remain_tokens@[i];
}

/// Once the last stage is exhausted the sale is over: the cursor is past the
/// last stage and purchases are refused as ended. (The purchase that
/// exhausts it also clears the live flag: see `Buy::process_instruction`.)
pub proof fn lemma_sale_end_is_final(g: GlobalState)
    requires
        g.wf(),
        g.remain_tokens@[NUM_STAGES - 1] == 0,
    ensures
        g.stage_iterator == NUM_STAGES + 1,
        purchase_refusal(g) == Some(PresaleError::PresaleEnded),
{
    lemma_exhausted_stage_passed(g, NUM_STAGES - 1);
}

} // verus!
