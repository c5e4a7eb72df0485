//! Host side of the LibreCrypt hardware wallet link.
//!
//! The crate is the protocol engine only: it builds and checks wire frames,
//! decides how a response is collected from a streamed transport, and encodes
//! and decodes the payload of each wallet operation. It performs no I/O; the
//! program around it owns the serial handle and moves the bytes.

use vstd::prelude::*;

use crate::protocol::WalletStatus;

pub mod commands;
pub mod encoding;
pub mod laws;
pub mod protocol;
pub mod transport;

verus! {

/// State of the wallet as the host knows it: what the device reported, or
/// `Disconnected` where the device could not be asked or its answer names no
/// state. The device itself never reports `Disconnected`.
#[derive(Debug, Clone, Copy, PartialEq, Eq, Structural)]
pub enum AppWalletStatus {
    Disconnected,
    Uninitialized,
    Locked,
    Unlocked,
}

impl AppWalletStatus {
    /// The host-side state for what the device reported.
    pub open spec fn of_report(report: Option<WalletStatus>) -> AppWalletStatus {
        match report {
            Some(WalletStatus::Uninitialized) => AppWalletStatus::Uninitialized,
            Some(WalletStatus::Locked) => AppWalletStatus::Locked,
            Some(WalletStatus::Unlocked) => AppWalletStatus::Unlocked,
            None => AppWalletStatus::Disconnected,
        }
    }

    /// Returns the host-side state for what the device reported.
    pub fn from_report(report: Option<WalletStatus>) -> (status: AppWalletStatus)
        ensures
            status == AppWalletStatus::of_report(report),
    {
        match report {
            Some(WalletStatus::Uninitialized) => AppWalletStatus::Uninitialized,
            Some(WalletStatus::Locked) => AppWalletStatus::Locked,
            Some(WalletStatus::Unlocked) => AppWalletStatus::Unlocked,
            None => AppWalletStatus::Disconnected,
        }
    }
}

} // verus!
