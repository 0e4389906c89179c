//! Composable fatal-error hook registration.
//!
//! A process has exactly one fatal-error hook slot, yet several independent
//! mechanisms may each want to react when an unrecoverable error occurs:
//! write a crash dump, send telemetry, release lock files. This crate
//! composes any number of handlers into a single chain behind that one slot.
//! Handlers run in registration order, share one mutable context value, and
//! a failing handler never prevents the handlers after it from running.
//!
//! The crate itself is host-agnostic: it builds the chain, runs it for an
//! event, and says what each run does to the context. Installing the chain
//! into the runtime's global slot is left to the embedding program.

pub mod event;
pub mod handler;
pub mod hook;
