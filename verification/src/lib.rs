//! A crowdfunding escrow: campaigns collect pledges toward a goal until a
//! deadline, and release them to the owner or return them to the
//! contributors once the owner has closed the campaign.
//!
//! `Contract` is the registry of campaigns and the entry to every call.
//! It reads no clock and no caller and moves no funds: each call is given
//! the calling account and the time, and a withdrawal or a refund answers
//! with the `Transfer` that the host is to make.

pub mod campaign;
pub mod contract;
pub mod error;
pub mod laws;
pub mod ledger;
pub mod model;
pub mod transfer;

pub use crate::campaign::{Campaign, CampaignDTO};
pub use crate::contract::Contract;
pub use crate::error::CampaignError;
pub use crate::transfer::{Transfer, TransferOutcome};
