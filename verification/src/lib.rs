//! Atomic, snapshot-based root filesystem management on Btrfs.
//!
//! The crate holds the decision core of the system: the error taxonomy,
//! exit-status checking, the command-line constructions for every external
//! tool, the scoped loopback and mount handles, the name-addressed layer
//! cache with its skip-or-rebuild rule, and the atomic root-swap state
//! machine.  Everything that performs real input or output (spawning the
//! external tools, the mount syscalls, reading directories) lives outside
//! the crate and drives the state machines defined here.

pub mod cache;
pub mod commands;
pub mod debootstrap;
pub mod error;
pub mod loopback;
pub mod mount;
pub mod pipeline;
pub mod status;
pub mod swap;
pub mod swap_model;
pub mod text;
