//! Sandboxed script execution: capability grants, the guest shim's output
//! capture, and the protocol between host and guest.

pub mod boundary;
pub mod capture;
pub mod frontend;
pub mod grant;
pub mod host;
pub mod shim;
pub mod trace;
