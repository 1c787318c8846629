//! IOCTL contract, kernel-side request handling and client-side checks of a
//! minimal WDM driver with a user-mode client, as verified Rust.

pub mod contract;
pub mod utf16;
pub mod names;
pub mod wire;
pub mod irp;
pub mod driver;
pub mod client;
pub mod roundtrip;
