//! Verified core of a contactless-smartcard login bridge.
//!
//! The library holds the protocol logic of the bridge: the APDU command
//! shapes, status-word validation, the FeliCa probe-and-fallback sequence
//! that resolves a card identifier, the hex encoding of that identifier,
//! and the presence state machine that decides when a login is triggered.
//! Reader I/O, key injection and configuration stay outside, in the
//! unverified shell that drives these functions.
pub mod apdu;
pub mod failure;
pub mod hexenc;
pub mod presence;
pub mod resolve;
pub mod transport;
