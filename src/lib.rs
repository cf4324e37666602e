//! A two-token constant-product liquidity pool whose state is updated in a
//! fast delegated context and committed back to a slow base ledger.
//!
//! - [`amm`]: LP-token issuance and redemption amounts.
//! - [`position`]: each provider's fixed table of pool positions.
//! - [`pool`]: a pool's record, its status gate and its reserve updates.
//! - [`flow`]: the receipt-based two-phase deposit and withdrawal.
//! - [`delegation`]: which context holds write authority over an account.
//! - [`dispatch`]: the commits and follow-up instructions that end a flow.
pub mod amm;
pub mod delegation;
pub mod dispatch;
pub mod error;
pub mod flow;
pub mod key;
pub mod pool;
pub mod position;
