//! Bitmask-driven sparse packet codec.
//!
//! An event record holds up to fourteen optional field groups.  A 32-bit
//! selection mask, using one fixed bit per group from lowest to highest,
//! chooses which groups are serialized.  Encoding walks the bit positions in
//! ascending order and appends each selected field's fixed-width little-endian
//! representation; cleared fields are omitted entirely, so the output is a
//! truly sparse concatenation.

use vstd::prelude::*;

use crate::bytes::{i32_le, push_i32_le, push_u32_le, u32_le};

verus! {

/// Selects the reporting context field.
pub const PK_CONTEXT: u32 = 0x0001;

/// Selects the status bits field.
pub const PK_STATUS: u32 = 0x0002;

/// Selects the timestamp field.
pub const PK_TIME: u32 = 0x0004;

/// Selects the change bit vector field.
pub const PK_CHANGED: u32 = 0x0008;

/// Selects the packet serial number field.
pub const PK_SERIAL_NUMBER: u32 = 0x0010;

/// Selects the reporting cursor field.
pub const PK_CURSOR: u32 = 0x0020;

/// Selects the button information field.
pub const PK_BUTTONS: u32 = 0x0040;

/// Selects the x axis field.
pub const PK_X: u32 = 0x0080;

/// Selects the y axis field.
pub const PK_Y: u32 = 0x0100;

/// Selects the z axis field.
pub const PK_Z: u32 = 0x0200;

/// Selects the normal (tip) pressure field.
pub const PK_NORMAL_PRESSURE: u32 = 0x0400;

/// Selects the tangential (barrel) pressure field.
pub const PK_TANGENT_PRESSURE: u32 = 0x0800;

/// Selects the three-value orientation (tilt) group.
pub const PK_ORIENTATION: u32 = 0x1000;

/// Selects the three-value rotation group.
pub const PK_ROTATION: u32 = 0x2000;

/// Cursor orientation with respect to the tablet surface.
#[derive(Clone, Copy, Debug, PartialEq, Eq, Structural)]
pub struct Orientation {
    /// Clockwise rotation of the cursor about the z axis.
    pub azimuth: i32,
    /// Angle with the x-y plane through a signed, semicircular range.
    pub altitude: i32,
    /// Clockwise rotation of the cursor about its own major axis.
    pub twist: i32,
}

/// Cursor rotation with respect to the tablet surface.
#[derive(Clone, Copy, Debug, PartialEq, Eq, Structural)]
pub struct Rotation {
    /// Pitch of the cursor.
    pub pitch: i32,
    /// Roll of the cursor.
    pub roll: i32,
    /// Yaw of the cursor.
    pub yaw: i32,
}

/// One pointer event record.  Every field group is present in memory; the
/// selection mask of the owning session decides which groups are serialized.
#[derive(Clone, Copy, Debug, PartialEq, Eq, Structural)]
pub struct Packet {
    /// Handle of the session that generated the event.
    pub context: u32,
    /// Status and error conditions.
    pub status: u32,
    /// Milliseconds elapsed since the session was created.
    pub time: u32,
    /// Which included data items changed since the previous event.
    pub changed: u32,
    /// Serial number assigned by the session; consecutive events of one
    /// session carry consecutive serials.
    pub serial: u32,
    /// Cursor type that generated the event.
    pub cursor: u32,
    /// Button state word.
    pub buttons: u32,
    /// Scaled cursor location along the x axis.
    pub x: u32,
    /// Scaled cursor location along the y axis.
    pub y: u32,
    /// Scaled cursor location along the z axis.
    pub z: u32,
    /// Adjusted state of the normal pressure.
    pub normal_pressure: u32,
    /// Adjusted state of the tangential pressure.
    pub tangential_pressure: u32,
    /// Cursor orientation information.
    pub orientation: Orientation,
    /// Cursor rotation information.
    pub rotation: Rotation,
}

/// Serialized form of an orientation group: three two's-complement words.
pub open spec fn orientation_le(o: Orientation) -> Seq<u8> {
    i32_le(o.azimuth) + i32_le(o.altitude) + i32_le(o.twist)
}

/// Serialized form of a rotation group: three two's-complement words.
pub open spec fn rotation_le(r: Rotation) -> Seq<u8> {
    i32_le(r.pitch) + i32_le(r.roll) + i32_le(r.yaw)
}

/// The given bytes when the field group is selected, nothing when it is not.
pub open spec fn segment(included: bool, bytes: Seq<u8>) -> Seq<u8> {
    if included {
        bytes
    } else {
        Seq::<u8>::empty()
    }
}

/// The serialized bookkeeping field groups of `p` selected by `mask`: the six
/// lowest mask bits, in ascending order.
pub open spec fn bookkeeping_le(p: Packet, mask: u32) -> Seq<u8> {
    Seq::<u8>::empty() + segment(mask & PK_CONTEXT != 0, u32_le(p.context))
        + segment(mask & PK_STATUS != 0, u32_le(p.status))
        + segment(mask & PK_TIME != 0, u32_le(p.time))
        + segment(mask & PK_CHANGED != 0, u32_le(p.changed))
        + segment(mask & PK_SERIAL_NUMBER != 0, u32_le(p.serial))
        + segment(mask & PK_CURSOR != 0, u32_le(p.cursor))
}

/// The serialized single-word field groups of `p` selected by `mask`, in
/// ascending bit order: the bookkeeping groups, then buttons, the three axes
/// and the two pressures.
pub open spec fn words_le(p: Packet, mask: u32) -> Seq<u8> {
    bookkeeping_le(p, mask) + segment(mask & PK_BUTTONS != 0, u32_le(p.buttons))
        + segment(mask & PK_X != 0, u32_le(p.x))
        + segment(mask & PK_Y != 0, u32_le(p.y))
        + segment(mask & PK_Z != 0, u32_le(p.z))
        + segment(mask & PK_NORMAL_PRESSURE != 0, u32_le(p.normal_pressure))
        + segment(mask & PK_TANGENT_PRESSURE != 0, u32_le(p.tangential_pressure))
}

/// The exact bytes produced by encoding `p` under the selection mask `mask`:
/// for every set bit, in ascending bit order, the field's fixed-width
/// little-endian representation; nothing for cleared bits.
pub open spec fn spec_encode(p: Packet, mask: u32) -> Seq<u8> {
    words_le(p, mask) + segment(mask & PK_ORIENTATION != 0, orientation_le(p.orientation))
        + segment(mask & PK_ROTATION != 0, rotation_le(p.rotation))
}

/// Sum of the fixed widths of the bookkeeping field groups selected by `mask`.
pub open spec fn bookkeeping_width(mask: u32) -> nat {
    (if mask & PK_CONTEXT != 0 { 4nat } else { 0nat })
        + (if mask & PK_STATUS != 0 { 4nat } else { 0nat })
        + (if mask & PK_TIME != 0 { 4nat } else { 0nat })
        + (if mask & PK_CHANGED != 0 { 4nat } else { 0nat })
        + (if mask & PK_SERIAL_NUMBER != 0 { 4nat } else { 0nat })
        + (if mask & PK_CURSOR != 0 { 4nat } else { 0nat })
}

/// Sum of the fixed widths of the single-word field groups selected by `mask`.
pub open spec fn words_width(mask: u32) -> nat {
    bookkeeping_width(mask) + (if mask & PK_BUTTONS != 0 { 4nat } else { 0nat })
        + (if mask & PK_X != 0 { 4nat } else { 0nat })
        + (if mask & PK_Y != 0 { 4nat } else { 0nat })
        + (if mask & PK_Z != 0 { 4nat } else { 0nat })
        + (if mask & PK_NORMAL_PRESSURE != 0 { 4nat } else { 0nat })
        + (if mask & PK_TANGENT_PRESSURE != 0 { 4nat } else { 0nat })
}

/// Sum of the fixed widths of exactly the field groups selected by `mask`:
/// four bytes per single-word group, twelve per three-word group.
pub open spec fn mask_width(mask: u32) -> nat {
    words_width(mask) + (if mask & PK_ORIENTATION != 0 { 12nat } else { 0nat })
        + (if mask & PK_ROTATION != 0 { 12nat } else { 0nat })
}

/// Appends the serialized field group when `included`, nothing otherwise.
fn push_u32_segment(out: &mut Vec<u8>, included: bool, x: u32)
    ensures
        final(out)@ == old(out)@ + segment(included, u32_le(x)),
{
    if included {
        push_u32_le(out, x);
    } else {
        assert(out@ =~= out@ + segment(false, u32_le(x)));
    }
}

/// Appends the serialized orientation group when `included`, nothing otherwise.
fn push_orientation_segment(out: &mut Vec<u8>, included: bool, o: Orientation)
    ensures
        final(out)@ == old(out)@ + segment(included, orientation_le(o)),
{
    if included {
        push_i32_le(out, o.azimuth);
        push_i32_le(out, o.altitude);
        push_i32_le(out, o.twist);
        assert(out@ =~= old(out)@ + orientation_le(o));
    } else {
        assert(out@ =~= out@ + segment(false, orientation_le(o)));
    }
}

/// Appends the serialized rotation group when `included`, nothing otherwise.
fn push_rotation_segment(out: &mut Vec<u8>, included: bool, r: Rotation)
    ensures
        final(out)@ == old(out)@ + segment(included, rotation_le(r)),
{
    if included {
        push_i32_le(out, r.pitch);
        push_i32_le(out, r.roll);
        push_i32_le(out, r.yaw);
        assert(out@ =~= old(out)@ + rotation_le(r));
    } else {
        assert(out@ =~= out@ + segment(false, rotation_le(r)));
    }
}

/// The bookkeeping part of the output is exactly as long as its widths demand.
proof fn lemma_bookkeeping_len(p: Packet, mask: u32)
    ensures
        bookkeeping_le(p, mask).len() == bookkeeping_width(mask),
{
}

/// The single-word part of the output is exactly as long as its widths demand.
proof fn lemma_words_len(p: Packet, mask: u32)
    ensures
        words_le(p, mask).len() == words_width(mask),
{
    let b = bookkeeping_le(p, mask);
    let s7 = segment(mask & PK_BUTTONS != 0, u32_le(p.buttons));
    let s8 = segment(mask & PK_X != 0, u32_le(p.x));
    let s9 = segment(mask & PK_Y != 0, u32_le(p.y));
    let s10 = segment(mask & PK_Z != 0, u32_le(p.z));
    let s11 = segment(mask & PK_NORMAL_PRESSURE != 0, u32_le(p.normal_pressure));
    let s12 = segment(mask & PK_TANGENT_PRESSURE != 0, u32_le(p.tangential_pressure));
    assert(b.len() == bookkeeping_width(mask)) by {
        lemma_bookkeeping_len(p, mask);
    }
    assert(s7.len() == (if mask & PK_BUTTONS != 0 { 4nat } else { 0nat }));
    assert(s8.len() == (if mask & PK_X != 0 { 4nat } else { 0nat }));
    assert(s9.len() == (if mask & PK_Y != 0 { 4nat } else { 0nat }));
    assert(s10.len() == (if mask & PK_Z != 0 { 4nat } else { 0nat }));
    assert(s11.len() == (if mask & PK_NORMAL_PRESSURE != 0 { 4nat } else { 0nat }));
    assert(s12.len() == (if mask & PK_TANGENT_PRESSURE != 0 { 4nat } else { 0nat }));
    assert(words_le(p, mask) == b + s7 + s8 + s9 + s10 + s11 + s12);
}

/// The encoded output is exactly as long as the selected fixed widths demand.
pub proof fn lemma_encode_len(p: Packet, mask: u32)
    ensures
        spec_encode(p, mask).len() == mask_width(mask),
{
    lemma_words_len(p, mask);
}

/// Fixed stride of one packet slot in a caller-provided retrieval buffer:
/// the size of a record with every field group present.  An encoded record
/// never exceeds it, whatever the mask, so writers may place record `i` at
/// offset `i` times this stride.
pub const PACKET_SLOT_SIZE: usize = 72;

/// Law: no selection mask produces an encoding longer than the fixed slot.
pub proof fn lemma_encode_fits_slot(p: Packet, mask: u32)
    ensures
        spec_encode(p, mask).len() <= PACKET_SLOT_SIZE,
{
    lemma_encode_len(p, mask);
}

/// A zero mask selects no field, so it encodes to an empty buffer.
pub proof fn lemma_encode_zero_mask(p: Packet)
    ensures
        spec_encode(p, 0) == Seq::<u8>::empty(),
{
    let mask: u32 = 0;
    assert(mask & PK_CONTEXT == 0 && mask & PK_STATUS == 0 && mask & PK_TIME == 0 && mask
        & PK_CHANGED == 0 && mask & PK_SERIAL_NUMBER == 0 && mask & PK_CURSOR == 0 && mask
        & PK_BUTTONS == 0 && mask & PK_X == 0 && mask & PK_Y == 0 && mask & PK_Z == 0 && mask
        & PK_NORMAL_PRESSURE == 0 && mask & PK_TANGENT_PRESSURE == 0 && mask & PK_ORIENTATION == 0
        && mask & PK_ROTATION == 0) by (bit_vector)
        requires
            mask == 0,
    ;
    assert(spec_encode(p, 0) =~= Seq::<u8>::empty());
}

/// Encodes `p` under the selection mask `mask` into a fresh buffer.
impl Packet {
    /// Serializes the fields of `self` selected by `mask`, lowest mask bit
    /// first, each in its fixed-width little-endian form.
    pub fn encode(&self, mask: u32) -> (out: Vec<u8>)
        ensures
            out@ == spec_encode(*self, mask),
            out@.len() == mask_width(mask),
    {
        let mut out: Vec<u8> = Vec::new();
        push_u32_segment(&mut out, mask & PK_CONTEXT != 0, self.context);
        push_u32_segment(&mut out, mask & PK_STATUS != 0, self.status);
        push_u32_segment(&mut out, mask & PK_TIME != 0, self.time);
        push_u32_segment(&mut out, mask & PK_CHANGED != 0, self.changed);
        push_u32_segment(&mut out, mask & PK_SERIAL_NUMBER != 0, self.serial);
        push_u32_segment(&mut out, mask & PK_CURSOR != 0, self.cursor);
        push_u32_segment(&mut out, mask & PK_BUTTONS != 0, self.buttons);
        push_u32_segment(&mut out, mask & PK_X != 0, self.x);
        push_u32_segment(&mut out, mask & PK_Y != 0, self.y);
        push_u32_segment(&mut out, mask & PK_Z != 0, self.z);
        push_u32_segment(&mut out, mask & PK_NORMAL_PRESSURE != 0, self.normal_pressure);
        push_u32_segment(&mut out, mask & PK_TANGENT_PRESSURE != 0, self.tangential_pressure);
        push_orientation_segment(&mut out, mask & PK_ORIENTATION != 0, self.orientation);
        push_rotation_segment(&mut out, mask & PK_ROTATION != 0, self.rotation);
        proof {
            lemma_encode_len(*self, mask);
        }
        out
    }
}

} // verus!
