//! A bridge between toio-style motion-control cubes and OSC peers.
//!
//! The library holds the bridge's logic: the device registry, the routing of
//! inbound OSC commands to a device, the translation of commands into device
//! write payloads, the decoding of device notifications and their encoding as
//! outbound OSC messages, and the per-device connection lifecycle.
pub mod command;
pub mod lifecycle;
pub mod notification;
pub mod osc;
pub mod outbound;
pub mod registry;
pub mod router;
pub mod session;
