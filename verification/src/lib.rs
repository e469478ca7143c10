//! Host-side driver logic for a Trezor hardware wallet attached over USB HID.

pub mod discovery;
pub mod error;
pub mod frame;
pub mod json;
pub mod keypath;
pub mod manager;
pub mod message;
pub mod retry;
pub mod signing;
pub mod uint;
pub mod wallet;
