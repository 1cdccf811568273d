//! The decisions of a plugin host.
//!
//! Plugins are directories with a manifest. The host lists the actions that they
//! offer, starts each of them in a hidden window or as a process, connects with
//! it, and stops it again. This crate decides what is to be done; it touches no
//! file, process or socket. Where deciding and doing alternate, a step machine
//! says what to do next and is told how it went.

pub mod builtin;
pub mod categories;
pub mod code;
pub mod connection;
pub mod deactivation;
pub mod devices;
pub mod entries;
pub mod error;
pub mod fonts;
pub mod initialisation;
pub mod instances;
pub mod launch;
pub mod manifest;
pub mod platform;
pub mod ports;
pub mod registry;
pub mod startup;
pub mod text;
pub mod version;
