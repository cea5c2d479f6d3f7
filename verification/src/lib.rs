//! Session and event engine of a virtual pointer-input driver.
//!
//! The engine keeps a registry of virtual input sessions ("contexts"), each
//! with a bounded event queue and a monotonically increasing serial counter.
//! Events are serialized with a bitmask-driven sparse packet codec; capability
//! descriptors answer indexed introspection queries; a small length-prefixed
//! frame protocol carries commands from an external event generator.

pub mod bytes;
pub mod codec;
pub mod descriptors;
pub mod netcode;
pub mod notify;
pub mod registry;
pub mod session;
