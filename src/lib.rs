//! Emulator of an NFC controller (NFCC) and of the RF field shared by
//! emulated devices: the controller's NCI state engine, the RF scene that
//! routes packets between devices, and the transport framers.

pub mod config;
pub mod controller;
pub mod nci;
pub mod nci_framing;
pub mod octets;
pub mod rf;
pub mod rf_framing;
pub mod scene;
