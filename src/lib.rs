//! Accounting and pricing core of a staged token sale.
//!
//! Buyers pay in the native currency; the number of tokens they receive is
//! set by the current stage's unit price and an oracle price of the native
//! currency. Ten stages, each with its own price and supply, are sold in
//! order; the sale ends when the last one is exhausted.
pub mod constant;
pub mod error;
pub mod state;
pub mod oracle;
pub mod pricing;
pub mod buy;
pub mod initialize;

pub use constant::{
    get_stage_by_index, get_total_tokens, get_total_usd_value, stages, Stage, GLOBAL_SEED,
    NUM_STAGES, USDC_ADDRESS, USDT_ADDRESS, USER_SEED,
};
pub use error::PresaleError;
pub use state::{Address, GlobalState, UserState};
pub use oracle::{current_price, PriceSnapshot, SOL_USD_FEED};
pub use pricing::{sol_amount_for, token_amount_for};
pub use buy::Buy;
pub use initialize::Initialize;
