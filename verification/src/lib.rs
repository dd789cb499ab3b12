//! Peer discovery and transfer-session coordination for a local-network
//! file-sharing protocol.
//!
//! Peers on the same subnet discover each other over UDP multicast and then
//! negotiate direct file transfers. This crate holds the coordination logic:
//! the device registry that discovery datagrams feed (deduplicated by network
//! address, with a self-loopback filter), and the session state machine that
//! turns transfer-protocol events into decisions and per-file progress.
//! Sockets, prompts and progress rendering live outside the crate and talk to
//! it through plain values.

use vstd::prelude::*;

pub mod device;
pub mod models;
pub mod session;
pub mod utils;

use crate::models::LocalSendDevice;
use crate::session::SessionCoordinator;

verus! {

/// The shared process state: the discovery engine and the session
/// coordinator. The channel endpoints that bind them to the transport and the
/// presentation layer live outside the crate.
pub struct AppState {
    pub device: LocalSendDevice,
    pub coordinator: SessionCoordinator,
}

impl AppState {
    /// Both halves keep their invariants: registry addresses unique, and any
    /// active session live.
    pub open spec fn wf(self) -> bool {
        self.device.wf() && self.coordinator.wf()
    }

    /// A fresh process state: the given discovery engine and no session.
    pub fn new(device: LocalSendDevice) -> (r: Self)
        requires
            device.wf(),
        ensures
            r.wf(),
            r.device == device,
            r.coordinator.is_idle(),
    {
        AppState { device, coordinator: SessionCoordinator::new() }
    }
}

/// Discovery datagrams larger than this are rejected rather than truncated.
pub const BUFFER_SIZE: u16 = 2048;

/// How many times each periodic announcement is repeated, to offset
/// unreliable multicast delivery.
pub const NUM_REPEAT: u8 = 2;

/// What this device reports itself as.
pub const DEVICE_MODEL: &'static str = "linux";

/// The device class this device reports.
pub const DEVICE_TYPE: &'static str = "desktop";

/// The alias this device announces by default.
pub const ALIAS: &'static str = "rustsend";

/// The UDP port the discovery protocol uses by default.
pub const MULTICAST_PORT: u16 = 53317;

} // verus!
