//! Progression and economy core of an incremental clicker game.
//!
//! The library tracks a currency ledger, a catalog of purchasable
//! generators and click multipliers with geometric cost curves, a
//! streak/combo machine, an achievement evaluator, a prestige reset,
//! and snapshot persistence that reconciles old saves against the
//! current catalog. Every operation carries a contract; a thin
//! presentation layer is expected to drive it once per input event or
//! fixed tick.

pub mod achievements;
pub mod catalog;
pub mod combo;
pub mod cost_curve;
pub mod format;
pub mod math;
pub mod snapshot;
pub mod state;
