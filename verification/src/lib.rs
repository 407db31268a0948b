//! A Bluetooth Low Energy remote for presentations: the rules by which a GATT
//! peripheral with one writable characteristic turns what a central writes into
//! payloads for a handler, and the payloads into key presses.
//!
//! The radio, the event loop and the foreign boundary live outside this
//! library. They report what happened as plain values and carry out what the
//! functions here decide.

pub mod command;
pub mod descriptor;
pub mod session;
pub mod session_proofs;
pub mod bridge;
