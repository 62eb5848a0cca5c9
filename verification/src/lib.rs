//! Data model and decoder for a bootloader-to-kernel handoff protocol.
//!
//! The kernel publishes a request header (entry point, stack, flags and a
//! chain of request tags); the bootloader answers with a singly linked chain
//! of self-describing records in memory. This crate defines the wire-level
//! shapes, a bounded walker over such a chain, and a registry that decodes
//! each record into a typed view by its 64-bit identifier, treating the
//! chain's backing memory as one untrusted byte region.

pub mod bytes;
pub mod chain;
pub mod header;
pub mod registry;
pub mod tags;
