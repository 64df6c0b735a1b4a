//! Core of a desktop proxy-management backend: process supervision for an
//! external proxy engine, OS proxy-setting reconciliation across three
//! platform backends, and a concurrent TCP port scanner with partitioned
//! result logging.
//!
//! All state lives in explicit context values handed in by the embedding
//! program; the library owns no global state. Operations that must touch the
//! operating system are split in two: the library builds the exact commands
//! to run and decides every state transition, while the embedding program
//! runs the commands and reports their outcomes back as plain values.

pub mod args;
pub mod cleanup;
pub mod config;
pub mod dirs;
pub mod logger;
pub mod network;
pub mod ray;
pub mod scan_ports;
pub mod setting;
pub mod setup;
pub mod strutil;
