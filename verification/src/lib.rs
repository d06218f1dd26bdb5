//! Provisioning of an Intel integrated graphics controller for use inside a
//! virtual machine.
//!
//! The firmware stage that hosts this library hands it what the platform
//! reports (configuration-space bytes, firmware-configuration blobs, the
//! addresses of allocated pages) and carries out the actions it returns.
//! Every decision is taken here and proved against its contract.

pub mod layout;
pub mod error;
pub mod region;
pub mod device;
pub mod blob;
pub mod stage;
pub mod stage_laws;
pub mod pass;
pub mod pass_laws;
pub mod dispatch;
