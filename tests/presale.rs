use std::str::FromStr;

use presale::{
    current_price, get_stage_by_index, get_total_tokens, get_total_usd_value, sol_amount_for,
    stages, token_amount_for, Address, Buy, GlobalState, Initialize, PresaleError, PriceSnapshot,
    UserState, GLOBAL_SEED, SOL_USD_FEED, USDC_ADDRESS, USDT_ADDRESS, USER_SEED,
};

const NOW: i64 = 1_700_000_000;
const ONE_SOL: u64 = 1_000_000_000;
const SUPPLIES: [u64; 10] = [
    2_500_000, 2_500_000, 6_250_000, 27_500_000, 37_500_000, 41_250_000, 37_500_000, 35_000_000,
    7_500_000, 2_500_000,
];

fn addr(b: u8) -> Address {
    Address::new([b; 32])
}

fn blank_global() -> GlobalState {
    GlobalState {
        admin: addr(0),
        vault: addr(0),
        token_sold: 0,
        token_sold_usd: 0,
        is_live: false,
        stage_iterator: 0,
        remain_tokens: [0; 10],
    }
}

fn initialized_global() -> GlobalState {
    let mut init = Initialize { admin: addr(7), token_reserve: 200_000_000, global_state: blank_global() };
    assert_eq!(Initialize::process_instruction(&mut init), Ok(()));
    init.global_state
}

fn started_global() -> GlobalState {
    let mut g = initialized_global();
    g.is_live = true;
    g.stage_iterator = 1;
    g
}

fn snapshot(price: i64, publish_time: i64) -> PriceSnapshot {
    PriceSnapshot { feed: Address::new(SOL_USD_FEED), price, conf: 10, expo: -2, publish_time }
}

fn user() -> UserState {
    UserState { user: addr(9), tokens: 0, paid_sol: 0, paid_usd: 0 }
}

fn buy_ctx(global_state: GlobalState, price_feed: PriceSnapshot) -> Buy {
    Buy { user: addr(9), global_state, user_state: user(), vault: addr(3), price_feed }
}

/// Global state with stages before `stage` (1-based) exhausted and `left`
/// tokens in `stage`.
fn global_at_stage(stage: u8, left: u64) -> GlobalState {
    let mut g = initialized_global();
    g.is_live = true;
    g.stage_iterator = stage;
    let mut sold = 0;
    for i in 0..(stage as usize - 1) {
        sold += g.remain_tokens[i];
        g.remain_tokens[i] = 0;
    }
    let i = stage as usize - 1;
    sold += g.remain_tokens[i] - left;
    g.remain_tokens[i] = left;
    g.token_sold = sold;
    assert!(g.is_well_formed());
    g
}

#[test]
fn stage_lookup_is_one_based() {
    assert!(get_stage_by_index(0).is_none());
    assert!(get_stage_by_index(11).is_none());
    let first = get_stage_by_index(1).unwrap();
    assert_eq!((first.index, first.price, first.amount), (1, 2_000_000, 2_500_000));
    let last = get_stage_by_index(10).unwrap();
    assert_eq!((last.index, last.price, last.amount), (10, 9_000_000, 2_500_000));
    let fifth = get_stage_by_index(5).unwrap();
    assert_eq!((fifth.price, fifth.amount), (5_500_000, 37_500_000));
}

#[test]
fn stage_totals() {
    assert_eq!(get_total_tokens(), 200_000_000);
    assert_eq!(get_total_tokens(), SUPPLIES.iter().sum::<u64>());
    assert_eq!(get_total_usd_value(), 1_200_000_000_000_000);
}

#[test]
fn trusted_feed_matches_its_base58_form() {
    let key = solana_program::pubkey::Pubkey::from_str("H6ARHf6YXhGYeQfUzQNGk6rDNnLBQKrenN712K4AQJEG").unwrap();
    assert_eq!(key.to_bytes(), SOL_USD_FEED);
}

#[test]
fn initialize_sets_up_every_stage() {
    let g = initialized_global();
    assert_eq!(g.remain_tokens, SUPPLIES);
    assert_eq!(g.stage_iterator, 0);
    assert!(!g.is_live);
    assert_eq!(g.token_sold, 0);
    assert_eq!(g.token_sold_usd, 0);
    assert_eq!(g.admin.bytes, [7; 32]);
    assert_eq!(g.vault.bytes, [0; 32]);
    assert!(g.is_well_formed());
}

#[test]
fn initialize_refuses_short_reserve() {
    let mut init = Initialize { admin: addr(7), token_reserve: 199_999_999, global_state: blank_global() };
    assert_eq!(Initialize::process_instruction(&mut init), Err(PresaleError::NotEnoughToken));
    assert_eq!(init.global_state.remain_tokens, [0; 10]);
    assert_eq!(init.global_state.admin.bytes, [0; 32]);
}

#[test]
fn activation_reasons_are_distinct() {
    let g = initialized_global();
    assert!(!g.is_presale_active());
    assert_eq!(g.accepting_stage(), Err(PresaleError::PresaleNotStarted));
    let mut paused = started_global();
    paused.is_live = false;
    assert_eq!(paused.accepting_stage(), Err(PresaleError::PresalePaused));
    let mut ended = blank_global();
    ended.stage_iterator = 11;
    assert_eq!(ended.accepting_stage(), Err(PresaleError::PresaleEnded));
    let mut live_unstarted = blank_global();
    live_unstarted.is_live = true;
    assert_eq!(live_unstarted.accepting_stage(), Err(PresaleError::PresaleNotStarted));
    let mut live_ended = blank_global();
    live_ended.is_live = true;
    live_ended.stage_iterator = 11;
    assert_eq!(live_ended.accepting_stage(), Err(PresaleError::PresaleEnded));
    let live = started_global();
    assert!(live.is_presale_active());
    assert_eq!(live.accepting_stage(), Ok(0));
}

#[test]
fn current_stage_queries() {
    let g = initialized_global();
    assert!(g.get_current_stage().is_none());
    assert!(g.is_current_stage_sold_out());
    assert_eq!(g.get_current_stage_remaining(), 0);
    let g = global_at_stage(3, 40);
    assert_eq!(g.get_current_stage().unwrap().index, 3);
    assert!(!g.is_current_stage_sold_out());
    assert_eq!(g.get_current_stage_remaining(), 40);
}

#[test]
fn user_accumulation_saturates() {
    let mut u = user();
    assert!(!u.has_purchases());
    u.add_sol_purchase(5, 7);
    assert_eq!((u.paid_sol, u.tokens, u.paid_usd), (5, 7, 0));
    assert!(u.has_purchases());
    u.add_stable_purchase(11, 3);
    assert_eq!((u.paid_sol, u.tokens, u.paid_usd), (5, 10, 11));
    assert_eq!(u.get_total_paid_usd(), 11);
    u.add_sol_purchase(u64::MAX, u64::MAX);
    assert_eq!((u.paid_sol, u.tokens), (u64::MAX, u64::MAX));
}

#[test]
fn token_conversion_rounds_down() {
    assert_eq!(token_amount_for(15_000, ONE_SOL, 2_000_000), 75);
    assert_eq!(token_amount_for(15_000, ONE_SOL / 2, 2_000_000), 37);
    assert_eq!(token_amount_for(15_000, 1, 2_000_000), 0);
    assert_eq!(sol_amount_for(10, 2_000_000, 15_000), 133_333_333);
    assert_eq!(sol_amount_for(75, 2_000_000, 15_000), ONE_SOL as u128);
}

#[test]
fn price_checks() {
    assert_eq!(current_price(&snapshot(15_000, NOW - 60), NOW), Ok(15_000));
    assert_eq!(current_price(&snapshot(15_000, NOW + 60), NOW), Ok(15_000));
    assert_eq!(current_price(&snapshot(15_000, NOW - 61), NOW), Err(PresaleError::StalePriceFeed));
    assert_eq!(current_price(&snapshot(15_000, NOW + 61), NOW), Err(PresaleError::StalePriceFeed));
    assert_eq!(current_price(&snapshot(15_000, i64::MIN), NOW), Err(PresaleError::StalePriceFeed));
    assert_eq!(current_price(&snapshot(0, NOW), NOW), Err(PresaleError::InvalidPriceFeed));
    let mut wrong = snapshot(15_000, NOW);
    wrong.feed = addr(1);
    assert_eq!(current_price(&wrong, NOW), Err(PresaleError::InvalidPriceFeed));
}

#[test]
fn scenario_first_purchase() {
    let mut ctx = buy_ctx(started_global(), snapshot(15_000, NOW));
    assert_eq!(Buy::process_instruction(&mut ctx, ONE_SOL, NOW), Ok(ONE_SOL));
    assert_eq!(ctx.global_state.remain_tokens[0], 2_500_000 - 75);
    assert_eq!(ctx.global_state.token_sold, 75);
    assert_eq!(ctx.global_state.token_sold_usd, 15_000 * ONE_SOL);
    assert_eq!(ctx.global_state.stage_iterator, 1);
    assert_eq!((ctx.user_state.tokens, ctx.user_state.paid_sol), (75, ONE_SOL));
    assert!(ctx.global_state.is_well_formed());
}

#[test]
fn scenario_clamp_at_stage_end() {
    let mut ctx = buy_ctx(global_at_stage(1, 10), snapshot(15_000, NOW));
    assert_eq!(Buy::process_instruction(&mut ctx, ONE_SOL, NOW), Ok(133_333_333));
    assert_eq!(ctx.global_state.remain_tokens[0], 0);
    assert_eq!(ctx.global_state.stage_iterator, 2);
    assert!(ctx.global_state.is_live);
    assert_eq!(ctx.global_state.token_sold, 2_500_000);
    assert_eq!((ctx.user_state.tokens, ctx.user_state.paid_sol), (10, 133_333_333));
    assert_eq!(ctx.global_state.token_sold_usd, 15_000 * 133_333_333);
    assert!(ctx.global_state.is_well_formed());
}

#[test]
fn scenario_last_stage_ends_sale() {
    let mut ctx = buy_ctx(global_at_stage(10, 10), snapshot(15_000, NOW));
    // 10 tokens at $9.00 with SOL at $150.00: 0.6 SOL.
    assert_eq!(Buy::process_instruction(&mut ctx, ONE_SOL, NOW), Ok(600_000_000));
    assert!(!ctx.global_state.is_live);
    assert_eq!(ctx.global_state.stage_iterator, 11);
    assert_eq!(ctx.global_state.token_sold, 200_000_000);
    assert_eq!(ctx.global_state.remain_tokens, [0; 10]);
    assert!(ctx.global_state.is_well_formed());
    let before = ctx.global_state;
    assert_eq!(Buy::process_instruction(&mut ctx, ONE_SOL, NOW), Err(PresaleError::PresaleEnded));
    assert_eq!(ctx.global_state.token_sold, before.token_sold);
    assert_eq!(ctx.global_state.stage_iterator, 11);
}

#[test]
fn scenario_stale_price_changes_nothing() {
    let start = started_global();
    let mut ctx = buy_ctx(start, snapshot(15_000, NOW - 61));
    assert_eq!(Buy::process_instruction(&mut ctx, ONE_SOL, NOW), Err(PresaleError::StalePriceFeed));
    assert_eq!(ctx.global_state.remain_tokens, start.remain_tokens);
    assert_eq!(ctx.global_state.token_sold, 0);
    assert_eq!(ctx.global_state.token_sold_usd, 0);
    assert_eq!((ctx.user_state.tokens, ctx.user_state.paid_sol), (0, 0));
}

#[test]
fn exact_fill_moves_cursor_on() {
    let mut ctx = buy_ctx(global_at_stage(2, 50), snapshot(15_000, NOW));
    // 50 tokens at $3.00 with SOL at $150.00 cost exactly 1 SOL.
    assert_eq!(Buy::process_instruction(&mut ctx, ONE_SOL, NOW), Ok(ONE_SOL));
    assert_eq!(ctx.global_state.remain_tokens[1], 0);
    assert_eq!(ctx.global_state.stage_iterator, 3);
    assert!(ctx.global_state.is_live);
    assert!(ctx.global_state.is_well_formed());
}

#[test]
fn tiny_payment_is_refused() {
    let start = started_global();
    let mut ctx = buy_ctx(start, snapshot(15_000, NOW));
    assert_eq!(Buy::process_instruction(&mut ctx, 1_000, NOW), Err(PresaleError::InvalidTokenAmount));
    assert_eq!(ctx.global_state.remain_tokens, start.remain_tokens);
    assert_eq!(ctx.user_state.paid_sol, 0);
}

#[test]
fn refusals_before_pricing() {
    let mut ctx = buy_ctx(initialized_global(), snapshot(15_000, NOW));
    assert_eq!(Buy::process_instruction(&mut ctx, ONE_SOL, NOW), Err(PresaleError::PresaleNotStarted));
    let mut paused = started_global();
    paused.is_live = false;
    let mut ctx = buy_ctx(paused, snapshot(15_000, NOW));
    assert_eq!(Buy::process_instruction(&mut ctx, ONE_SOL, NOW), Err(PresaleError::PresalePaused));
    let mut ctx = buy_ctx(started_global(), snapshot(15_000, NOW));
    ctx.price_feed.feed = addr(1);
    assert_eq!(Buy::process_instruction(&mut ctx, ONE_SOL, NOW), Err(PresaleError::InvalidPriceFeed));
    let mut ctx = buy_ctx(started_global(), snapshot(-5, NOW));
    assert_eq!(Buy::process_instruction(&mut ctx, ONE_SOL, NOW), Err(PresaleError::InvalidPriceFeed));
}

#[test]
fn purchases_keep_supply_and_grow_totals() {
    let mut ctx = buy_ctx(started_global(), snapshot(15_000, NOW));
    let mut value: u64 = 0;
    let mut last = (0u64, 0u64, 0u64, 0u64, 0u8);
    for k in 1..40u64 {
        let paid = Buy::process_instruction(&mut ctx, k * 370 * ONE_SOL, NOW).unwrap();
        value += 15_000 * paid;
        let g = &ctx.global_state;
        assert_eq!(g.remain_tokens.iter().sum::<u64>() + g.token_sold, 200_000_000);
        assert_eq!(g.token_sold_usd, value);
        let now = (g.token_sold, g.token_sold_usd, ctx.user_state.tokens, ctx.user_state.paid_sol, g.stage_iterator);
        assert!(now.0 >= last.0 && now.1 >= last.1 && now.2 >= last.2 && now.3 >= last.3 && now.4 >= last.4);
        for i in 0..(g.stage_iterator as usize - 1) {
            assert_eq!(g.remain_tokens[i], 0);
        }
        assert!(g.is_well_formed());
        last = now;
    }
    assert!(last.4 > 1);
}

#[test]
fn malformed_state_is_detected() {
    let mut g = started_global();
    g.token_sold = 1;
    assert!(!g.is_well_formed());
    let mut g = started_global();
    g.remain_tokens[3] = 5;
    assert!(!g.is_well_formed());
    let mut g = global_at_stage(4, 1);
    g.remain_tokens[0] = 1;
    g.token_sold -= 1;
    assert!(!g.is_well_formed());
}

#[test]
fn error_messages() {
    assert_eq!(PresaleError::StalePriceFeed.message(), "Price feed is stale");
    assert_eq!(PresaleError::PresaleEnded.message(), "Presale is ended");
    assert_eq!(PresaleError::NotEnoughToken.message(), "Token amount is not enough for all stages");
}

#[test]
fn stage_table_matches_lookup() {
    let all = stages();
    for (i, stage) in all.iter().enumerate() {
        let found = get_stage_by_index(i as u8 + 1).unwrap();
        assert_eq!(*stage, found);
        assert_eq!(stage.amount, SUPPLIES[i]);
    }
}

#[test]
fn stable_mints_and_seeds() {
    let usdc = solana_program::pubkey::Pubkey::from_str("usdRLypwfSeEUw4DhUcscCcju6zzBviXymFBRjcBXTw").unwrap();
    let usdt = solana_program::pubkey::Pubkey::from_str("usderEuWoVkjMcc3bEYkGopx78La8mHzt6YGdmErrpz").unwrap();
    assert_eq!(usdc.to_bytes(), USDC_ADDRESS);
    assert_eq!(usdt.to_bytes(), USDT_ADDRESS);
    assert_eq!(GLOBAL_SEED.as_bytes(), b"presale-global");
    assert_eq!(USER_SEED.as_bytes(), b"presale-user");
}

#[test]
fn default_records_are_empty() {
    let g = GlobalState::default();
    assert_eq!((g.token_sold, g.token_sold_usd, g.is_live, g.stage_iterator), (0, 0, false, 0));
    assert_eq!(g.remain_tokens, [0; 10]);
    assert_eq!(g.admin.bytes, [0; 32]);
    let u = UserState::default();
    assert_eq!((u.tokens, u.paid_sol, u.paid_usd), (0, 0, 0));
    assert_eq!(u.user.bytes, [0; 32]);
    assert!(!u.has_purchases());
}

#[test]
fn live_flag_does_not_mask_start_or_end() {
    let mut g = initialized_global();
    g.is_live = true;
    let mut ctx = buy_ctx(g, snapshot(15_000, NOW));
    assert_eq!(Buy::process_instruction(&mut ctx, ONE_SOL, NOW), Err(PresaleError::PresaleNotStarted));
    let mut ctx = buy_ctx(global_at_stage(10, 10), snapshot(15_000, NOW));
    assert!(Buy::process_instruction(&mut ctx, ONE_SOL, NOW).is_ok());
    ctx.global_state.is_live = true;
    assert!(ctx.global_state.is_well_formed());
    assert_eq!(Buy::process_instruction(&mut ctx, ONE_SOL, NOW), Err(PresaleError::PresaleEnded));
    assert_eq!(ctx.global_state.token_sold, 200_000_000);
}
