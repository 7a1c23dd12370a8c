use vstd::prelude::*;

verus! {

/// Seed (as UTF-8 bytes) of the sale-wide record's program-derived address.
pub const GLOBAL_SEED: &'static str = "presale-global";

/// Seed (as UTF-8 bytes), after the buyer's key, of each buyer's record's program-derived
/// address.
pub const USER_SEED: &'static str = "presale-user";

/// USDC mint accepted by the stable-coin path
/// (usdRLypwfSeEUw4DhUcscCcju6zzBviXymFBRjcBXTw, a development mint).
pub const USDC_ADDRESS: [u8; 32] = [
    13, 139, 114, 127, 7, 98, 238, 101, 176, 226, 206, 5, 57, 213, 96, 232,
    40, 184, 162, 212, 191, 186, 72, 73, 188, 154, 13, 194, 253, 56, 16, 82,
];

/// USDT mint accepted by the stable-coin path
/// (usderEuWoVkjMcc3bEYkGopx78La8mHzt6YGdmErrpz, a development mint).
pub const USDT_ADDRESS: [u8; 32] = [
    13, 139, 115, 168, 129, 5, 20, 132, 192, 186, 216, 208, 36, 177, 222, 100,
    73, 158, 187, 42, 86, 0, 224, 184, 193, 216, 186, 23, 22, 159, 5, 59,
];

/// Number of sale stages.
pub const NUM_STAGES: u8 = 10;

/// Token amounts carry six decimal places.
pub const TOKEN_DECIMALS: u64 = 1_000_000;

/// Base units (lamports) in one whole unit of the native currency.
pub const LAMPORTS_PER_SOL: u64 = 1_000_000_000;

/// The oracle's price mantissa carries two implied decimal places.
pub const PRICE_SCALE: u64 = 100;

/// Largest allowed distance, in seconds, between an oracle price's publish
/// time and the time of the purchase.
pub const STALENESS_THRESHOLD: u64 = 60;

/// One step of the sale: its 1-based position, its unit price in USD with six
/// decimals, and the number of tokens it offers.
#[derive(Debug, Clone, Copy, PartialEq, Eq, Structural)]
pub struct Stage {
    pub index: u8,
    pub price: u64,
    pub amount: u64,
}

/// Unit price (USD, six decimals) of the stage at 0-based position `i`.
pub open spec fn stage_price(i: int) -> u64 {
    if i == 0 { 2_000_000 }
    else if i == 1 { 3_000_000 }
    else if i == 2 { 4_000_000 }
    else if i == 3 { 5_000_000 }
    else if i == 4 { 5_500_000 }
    else if i == 5 { 6_000_000 }
    else if i == 6 { 6_500_000 }
    else if i == 7 { 7_000_000 }
    else if i == 8 { 8_000_000 }
    else { 9_000_000 }
}

/// Token supply of the stage at 0-based position `i`.
pub open spec fn stage_supply(i: int) -> u64 {
    if i == 0 { 2_500_000 }
    else if i == 1 { 2_500_000 }
    else if i == 2 { 6_250_000 }
    else if i == 3 { 27_500_000 }
    else if i == 4 { 37_500_000 }
    else if i == 5 { 41_250_000 }
    else if i == 6 { 37_500_000 }
    else if i == 7 { 35_000_000 }
    else if i == 8 { 7_500_000 }
    else { 2_500_000 }
}

/// The stage at 0-based position `i`.
pub open spec fn stage_at(i: int) -> Stage {
    Stage { index: (i + 1) as u8, price: stage_price(i), amount: stage_supply(i) }
}

/// Total supply of the first `n` stages.
pub open spec fn supply_prefix(n: int) -> int
    decreases n,
{
    if n <= 0 { 0 } else { supply_prefix(n - 1) + stage_supply(n - 1) }
}

/// Total value (price times supply) of the first `n` stages.
pub open spec fn value_prefix(n: int) -> int
    decreases n,
{
    if n <= 0 { 0 } else { value_prefix(n - 1) + stage_price(n - 1) * stage_supply(n - 1) }
}

/// Supply of all stages together.
pub open spec fn total_supply() -> int {
    supply_prefix(NUM_STAGES as int)
}

/// Value of all stages together.
pub open spec fn total_value() -> int {
    value_prefix(NUM_STAGES as int)
}

pub proof fn lemma_total_supply()
    ensures
        total_supply() == 200_000_000,
        forall|n: int| 0 <= n <= 10 ==> 0 <= #[trigger] supply_prefix(n) <= 200_000_000,
{
    reveal_with_fuel(supply_prefix, 11);
    assert forall|n: int| 0 <= n <= 10 implies 0 <= #[trigger] supply_prefix(n) <= 200_000_000 by {
        reveal_with_fuel(supply_prefix, 11);
    }
}

pub proof fn lemma_total_value()
    ensures
        total_value() == 1_200_000_000_000_000,
        forall|n: int| 0 <= n <= 10 ==> 0 <= #[trigger] value_prefix(n) <= 1_200_000_000_000_000,
{
    reveal_with_fuel(value_prefix, 11);
        assert(value_prefix(0) == 0);
        assert(value_prefix(1) == 5000000000000);
        assert(value_prefix(2) == 12500000000000);
        assert(value_prefix(3) == 37500000000000);
        assert(value_prefix(4) == 175000000000000);
        assert(value_prefix(5) == 381250000000000);
        assert(value_prefix(6) == 628750000000000);
        assert(value_prefix(7) == 872500000000000);
        assert(value_prefix(8) == 1117500000000000);
        assert(value_prefix(9) == 1177500000000000);
        assert(value_prefix(10) == 1200000000000000);
    assert forall|n: int| 0 <= n <= 10 implies 0 <= #[trigger] value_prefix(n) <= 1_200_000_000_000_000 by {
        reveal_with_fuel(value_prefix, 11);
    }
}

/// Returns the stage at 1-based position `index`, if there is one.
pub fn get_stage_by_index(index: u8) -> (r: Option<Stage>)
    ensures
        1 <= index <= NUM_STAGES ==> r == Some(stage_at(index - 1)),
        !(1 <= index <= NUM_STAGES) ==> r.is_none(),
{
    match index {
        1 => Some(Stage { index: 1, price: 2_000_000, amount: 2_500_000 }),
        2 => Some(Stage { index: 2, price: 3_000_000, amount: 2_500_000 }),
        3 => Some(Stage { index: 3, price: 4_000_000, amount: 6_250_000 }),
        4 => Some(Stage { index: 4, price: 5_000_000, amount: 27_500_000 }),
        5 => Some(Stage { index: 5, price: 5_500_000, amount: 37_500_000 }),
        6 => Some(Stage { index: 6, price: 6_000_000, amount: 41_250_000 }),
        7 => Some(Stage { index: 7, price: 6_500_000, amount: 37_500_000 }),
        8 => Some(Stage { index: 8, price: 7_000_000, amount: 35_000_000 }),
        9 => Some(Stage { index: 9, price: 8_000_000, amount: 7_500_000 }),
        10 => Some(Stage { index: 10, price: 9_000_000, amount: 2_500_000 }),
        _ => None,
    }
}

/// The sale's stages, in order.
pub fn stages() -> (r: [Stage; 10])
    ensures
        forall|i: int| 0 <= i < NUM_STAGES ==> #[trigger] r@[i] == stage_at(i),
{
    [
        Stage { index: 1, price: 2_000_000, amount: 2_500_000 },
        Stage { index: 2, price: 3_000_000, amount: 2_500_000 },
        Stage { index: 3, price: 4_000_000, amount: 6_250_000 },
        Stage { index: 4, price: 5_000_000, amount: 27_500_000 },
        Stage { index: 5, price: 5_500_000, amount: 37_500_000 },
        Stage { index: 6, price: 6_000_000, amount: 41_250_000 },
        Stage { index: 7, price: 6_500_000, amount: 37_500_000 },
        Stage { index: 8, price: 7_000_000, amount: 35_000_000 },
        Stage { index: 9, price: 8_000_000, amount: 7_500_000 },
        Stage { index: 10, price: 9_000_000, amount: 2_500_000 },
    ]
}

/// Total number of tokens offered over all stages.
pub fn get_total_tokens() -> (r: u64)
    ensures
        r == total_supply(),
{
    proof {
        lemma_total_supply();
    }
    let mut sum: u64 = 0;
    let mut i: u8 = 1;
    while i <= NUM_STAGES
        invariant
            1 <= i <= NUM_STAGES + 1,
            sum == supply_prefix(i - 1),
            forall|n: int| 0 <= n <= 10 ==> 0 <= #[trigger] supply_prefix(n) <= 200_000_000,
        decreases NUM_STAGES + 1 - i,
    {
        let stage = get_stage_by_index(i).unwrap();
        proof {
            assert(supply_prefix(i as int) == supply_prefix(i - 1) + stage_supply(i - 1));
        }
        sum = sum + stage.amount;
        i = i + 1;
    }
    sum
}

/// Total USD value (six-decimal price times token amount) of all stages, as
/// if every token were sold.
pub fn get_total_usd_value() -> (r: u64)
    ensures
        r == total_value(),
{
    proof {
        lemma_total_value();
    }
    let mut sum: u64 = 0;
    let mut i: u8 = 1;
    while i <= NUM_STAGES
        invariant
            1 <= i <= NUM_STAGES + 1,
            sum == value_prefix(i - 1),
            forall|n: int| 0 <= n <= 10 ==> 0 <= #[trigger] value_prefix(n) <= 1_200_000_000_000_000,
        decreases NUM_STAGES + 1 - i,
    {
        let stage = get_stage_by_index(i).unwrap();
        proof {
            assert(value_prefix(i as int) == value_prefix(i - 1) + stage_price(i - 1) * stage_supply(i - 1));
        }
        assert(stage.price * stage.amount == stage_price(i - 1) * stage_supply(i - 1));
        sum = sum + stage.price * stage.amount;
        i = i + 1;
    }
    sum
}

} // verus!
