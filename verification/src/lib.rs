//! Bounded-buffer producer/consumer coordination core.
//!
//! The library holds the synchronization discipline of a small two-role
//! demonstration: a fixed-capacity circular buffer ([`ring::Buffer`]), the
//! non-blocking acquire/retreat protocol that guards it ([`gate::AccessGate`]),
//! the per-tick behaviour of the producer and consumer roles
//! ([`worker::Worker`]), and the cooperative shutdown handshake
//! ([`shutdown::ShutdownCoordinator`]). Terminal rendering, keyboard polling
//! and the task runtime live outside the library and consume this core's
//! state.

pub mod gate;
pub mod ring;
pub mod shutdown;
pub mod worker;
