//! Sensing-and-synchronization core of a battery-powered monitoring
//! node and its companion hub: the clock and TLV wire codecs, the
//! bounded deviation-compacting measurement buffer, the persisted
//! boot-cycle lifecycle, and both roles of the clock-and-measurement
//! sync session, each with a verified contract.
//!
//! Values that the hardware reads as floating point travel through
//! this crate as raw IEEE-754 bit patterns, which keeps every codec
//! bit-exact; the one floating-point computation, the deviation
//! predicate, stays with the unverified shell, which hands its verdict
//! in as a plain boolean.
pub mod buffer;
pub mod entry;
pub mod lifecycle;
pub mod measurement;
pub mod onboarding;
pub mod proto;
pub mod session;
pub mod time;
