//! Keeps the pointer speed pinned to a chosen value.
//!
//! The library holds every decision of the utility as verified code over plain
//! values: what a drift-monitor tick does with the speed it observed, how the
//! tray icon toggles pinning, which texts are shown, and how a desktop
//! notification is laid out and taken down again. The program around it makes
//! the system calls and hands their results in.

pub mod decimal;
pub mod message;
pub mod monitor;
pub mod notify;
pub mod speed;
pub mod state;
pub mod status;
pub mod tray;
pub mod wide;
