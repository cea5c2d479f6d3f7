//! Asynchronous notification messages.
//!
//! State changes produce small fire-and-forget messages addressed to a
//! session's registered target.  A message is identified by an offset from
//! the session's configured message base number and carries at most two
//! integer payload words.  The engine computes the messages; delivering them
//! to the host's message system is the caller's concern.

use vstd::prelude::*;

verus! {

/// The window message kinds derived from a session's message base.
#[derive(Clone, Copy, Debug, PartialEq, Eq, Structural)]
pub enum WindowMessage {
    /// An event packet is available.
    Packet,
    /// A context was opened.
    CtxOpen,
    /// A context was closed.
    CtxClose,
    /// A context's configuration changed.
    CtxUpdate,
    /// A context's overlap order changed.
    CtxOverlap,
    /// The cursor entered or left proximity.
    Proximity,
    /// The shared hardware information changed.
    InfoChange,
    /// The cursor type changed.
    CsrChange,
    /// An extension packet is available.
    PacketExt,
}

/// The fixed offset of each message kind from the message base.
pub open spec fn message_offset(m: WindowMessage) -> u32 {
    match m {
        WindowMessage::Packet => 0,
        WindowMessage::CtxOpen => 1,
        WindowMessage::CtxClose => 2,
        WindowMessage::CtxUpdate => 3,
        WindowMessage::CtxOverlap => 4,
        WindowMessage::Proximity => 5,
        WindowMessage::InfoChange => 6,
        WindowMessage::CsrChange => 7,
        WindowMessage::PacketExt => 8,
    }
}

impl WindowMessage {
    /// The concrete message number of this kind under the given base.
    pub fn value(self, msg_base: u32) -> (r: u32)
        requires
            msg_base + 8 <= u32::MAX,
        ensures
            r == msg_base + message_offset(self),
    {
        match self {
            WindowMessage::Packet => msg_base,
            WindowMessage::CtxOpen => msg_base + 1,
            WindowMessage::CtxClose => msg_base + 2,
            WindowMessage::CtxUpdate => msg_base + 3,
            WindowMessage::CtxOverlap => msg_base + 4,
            WindowMessage::Proximity => msg_base + 5,
            WindowMessage::InfoChange => msg_base + 6,
            WindowMessage::CsrChange => msg_base + 7,
            WindowMessage::PacketExt => msg_base + 8,
        }
    }
}

/// One asynchronous message ready to be posted to a session's target:
/// the concrete message number and the two payload words.
#[derive(Clone, Copy, Debug, PartialEq, Eq, Structural)]
pub struct Notification {
    /// Target of the message; the session's registered addressee.
    pub target: usize,
    /// The concrete message number.
    pub message: u32,
    /// First payload word.
    pub wparam: usize,
    /// Second payload word.
    pub lparam: isize,
}

} // verus!
