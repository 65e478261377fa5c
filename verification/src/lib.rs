//! Backend command surface of a local desktop application.
//!
//! The library is the command dispatch and data-access layer that a
//! front-end process invokes: file-system listings as structured nodes,
//! a small persistent project store, an AI chat gateway that prepares
//! requests for a fixed set of providers, and helpers for local command
//! execution. Host I/O (reading files, sending requests, spawning
//! processes) is performed by the surrounding application; the library
//! holds the decisions and the data handling, with contracts.

pub mod chat;
pub mod dispatch;
pub mod errors;
pub mod node;
pub mod store;
pub mod terminal;
pub mod text;
