//! Bootstrap and crash-recovery supervision for a status-bar data producer.
//!
//! The crate models the startup sequence of a bar process: selecting the
//! configuration source (standard input or a file), deciding whether the
//! one-time protocol handshake may be emitted, handing block definitions to
//! the spawner in declaration order, and — after a fatal failure — the
//! render / await-signal / replace-image recovery machine together with the
//! argument-vector rule that keeps the handshake from ever running twice.

#![allow(unused_imports)]

pub mod bootstrap;
pub mod errors;
pub mod escape;
pub mod recovery;
pub mod resolver;
pub mod restart;
pub mod spawn;
