//! Loyalty-point domain service.
//!
//! Given a stream of business events (purchases, renewals, manual
//! adjustments), the service classifies a member into a tier, computes how
//! many points an event is worth, and appends an immutable loyalty event to
//! the member's ledger while keeping the running point total non-negative.

pub mod adapters;
pub mod commands;
pub mod decimal;
pub mod domain;
pub mod ports;

pub use domain::Member;
pub use domain::Tier;
pub use domain::Loyalty;
pub use domain::LoyaltyEvent;
