//! What the escrow asks of the transfer service, and what it hears back.
//!
//! The escrow moves no funds itself. A withdrawal or a refund yields a
//! `Transfer` for the host to carry out; for a withdrawal the host later
//! reports how the transfer ended, as a `TransferOutcome`.

use vstd::prelude::*;

verus! {

/// Funds to be sent from the escrow to an account.
#[derive(Clone, Debug, PartialEq, Eq)]
pub struct Transfer {
    /// The account that receives the funds.
    pub recipient: String,
    /// How much it receives, in yoctoNEAR.
    pub amount: u128,
}

/// How a transfer of funds ended.
#[derive(Clone, Copy, Debug, PartialEq, Eq, Hash, Structural)]
pub enum TransferOutcome {
    /// The funds reached the recipient.
    Succeeded,
    /// The funds did not leave the escrow.
    Failed,
}

} // verus!
