//! Fund custody and contribution ledger of a single crowdfunding campaign.
//!
//! The crate holds the four state transitions of a campaign (creation,
//! donation, withdrawal and clearing of the ledger) together with the guards
//! that protect them, each with a machine-checked contract.

pub mod accounts;
pub mod error;
pub mod guards;
pub mod host;
pub mod identity;
pub mod laws;
pub mod ledger;
pub mod operations;

pub use accounts::{Create, Donate, TransferOutcome, Withdraw};
pub use error::CampaignError;
pub use guards::{authority_guard, solvency_guard};
pub use host::{AccountRole, HostInstruction};
pub use identity::Identity;
pub use ledger::{Campaign, Donation};
pub use operations::{clear_donations, create, donate, donation_transfer, withdraw};
