//! Verified core of a desktop tool that lists running processes, keeps a
//! catalog of candidate libraries and drives the protocol that loads one of
//! them into a chosen process.
//!
//! Every executable function carries a contract that Verus proves. What the
//! operating system or a toolkit has to do is left to the caller, which is
//! handed plain values and hands plain values back.

pub mod attempts;
pub mod catalog;
pub mod discord_rpc;
pub mod engine;
pub mod inventory;
pub mod panel;
pub mod process;
pub mod protocol_laws;
pub mod text;
pub mod theme;
pub mod toast;
