//! Capability descriptors: static-shaped, numerically indexed records that
//! answer introspection queries.
//!
//! Each descriptor exposes a stable small index space.  Index 0 addresses the
//! whole record as one blob in its native layout; indices from 1 on address
//! the individual fields.  A query answers with the byte size of the addressed
//! field together with its serialized value; an index out of the known range
//! answers zero bytes.

use vstd::prelude::*;

use crate::bytes::{
    bytes_copy, i32_bytes, i32_le, lemma_u32s_le_len, push_bytes, push_i32_le, push_u16_le,
    push_u32_le, push_u32s, push_zeros, u16_bytes, u16_le, u32_bytes, u32_le, u32s_le, u8_bytes,
    zero_vec, zeros,
};
use crate::codec::{
    PK_BUTTONS, PK_CHANGED, PK_CONTEXT, PK_CURSOR, PK_NORMAL_PRESSURE, PK_ORIENTATION,
    PK_ROTATION, PK_SERIAL_NUMBER, PK_STATUS, PK_TANGENT_PRESSURE, PK_TIME, PK_X, PK_Y, PK_Z,
};

verus! {

/// Category of the interface descriptor.
pub const WTI_INTERFACE: u32 = 1;

/// Category of the status record (not provided by this engine).
pub const WTI_STATUS: u32 = 2;

/// Category of the default digitizing context template.
pub const WTI_DEFCONTEXT: u32 = 3;

/// Category of the default system context template.
pub const WTI_DEFSYSCTX: u32 = 4;

/// First category of the device descriptors.
pub const WTI_DEVICES: u32 = 100;

/// First category of the cursor descriptors.
pub const WTI_CURSORS: u32 = 200;

/// First category of the extension records (not provided by this engine).
pub const WTI_EXTENSIONS: u32 = 300;

/// First category of the per-device digitizing context templates.
pub const WTI_DDCTXS: u32 = 400;

/// First category of the per-device system context templates.
pub const WTI_DSCTXS: u32 = 500;

/// Default application message base number.
pub const WT_DEFBASE: u32 = 0x7FF0;

/// Context option: system cursor context.
pub const CXO_SYSTEM: u32 = 0x0001;

/// Context option: pen context.
pub const CXO_PEN: u32 = 0x0002;

/// Context option: the context returns event messages.
pub const CXO_MESSAGES: u32 = 0x0004;

/// Context option: margin around the context input area.
pub const CXO_MARGIN: u32 = 0x8000;

/// Context option: the margin lies inside the input area.
pub const CXO_MGNINSIDE: u32 = 0x4000;

/// Context option: the context returns cursor change messages.
pub const CXO_CSRMESSAGES: u32 = 0x0008;

/// Context status: the context has been disabled.
pub const CXS_DISABLED: u32 = 0x0001;

/// Context status: the context is at least partially obscured.
pub const CXS_OBSCURED: u32 = 0x0002;

/// Context status: the context is on top.
pub const CXS_ONTOP: u32 = 0x0004;

/// Context lock: input size.
pub const CXL_INSIZE: u32 = 0x0001;

/// Context lock: input aspect ratio.
pub const CXL_INASPECT: u32 = 0x0002;

/// Context lock: sensitivity factors.
pub const CXL_SENSITIVITY: u32 = 0x0004;

/// Context lock: margin options.
pub const CXL_MARGIN: u32 = 0x0008;

/// Context lock: system output mapping.
pub const CXL_SYSOUT: u32 = 0x0010;

/// Packet status: the cursor is out of the context.
pub const TPS_PROXIMITY: u32 = 0x0001;

/// Packet status: the event queue for the context has overflowed.
pub const TPS_QUEUE_ERR: u32 = 0x0002;

/// Packet status: the cursor is in the margin of the context.
pub const TPS_MARGIN: u32 = 0x0004;

/// Packet status: the context has grabbed input awaiting a button release.
pub const TPS_GRAB: u32 = 0x0008;

/// Packet status: the cursor is in its inverted state.
pub const TPS_INVERT: u32 = 0x0010;

/// Hardware capability: display and digitizer share the same surface.
pub const HWC_INTEGRATED: u32 = 0x0001;

/// Hardware capability: the cursor must touch the device to report position.
pub const HWC_TOUCH: u32 = 0x0002;

/// Hardware capability: proximity entering/leaving events are generated.
pub const HWC_HARDPROX: u32 = 0x0004;

/// Hardware capability: the active cursor is uniquely identified in hardware.
pub const HWC_PHYSID_CURSORS: u32 = 0x0008;

/// Cursor capability: one of several modes of one physical cursor.
pub const CRC_MULTIMODE: u32 = 0x0001;

/// Cursor capability: several indistinguishable physical cursors.
pub const CRC_AGGREGATE: u32 = 0x0002;

/// Cursor capability: the physical cursor in its inverted orientation.
pub const CRC_INVERT: u32 = 0x0004;

/// Axis unit: none.
pub const TU_NONE: u32 = 0;

/// Axis unit: inches.
pub const TU_INCHES: u32 = 1;

/// Axis unit: centimeters.
pub const TU_CENTIMETERS: u32 = 2;

/// Axis unit: full circle.
pub const TU_CIRCLE: u32 = 3;

/// Range and resolution of one data item in the tablet's native coordinates.
#[derive(Clone, Copy, Debug, PartialEq, Eq, Structural)]
pub struct Axis {
    /// Minimum value of the data item.
    pub min: i32,
    /// Maximum value of the data item.
    pub max: i32,
    /// Units used in calculating the resolution; one of the `TU_` values.
    pub units: u32,
    /// Fixed-point number of data item increments per physical unit.
    pub resolution: u32,
}

/// An axis is well formed when its range is not inverted and its units value
/// belongs to the known enumeration.
pub open spec fn axis_wf(a: Axis) -> bool {
    a.min <= a.max && a.units <= TU_CIRCLE
}

/// Native serialized layout of an axis: min, max, units, resolution.
pub open spec fn axis_le(a: Axis) -> Seq<u8> {
    i32_le(a.min) + i32_le(a.max) + u32_le(a.units) + u32_le(a.resolution)
}

/// The axis value used wherever no other range is configured.
pub open spec fn default_axis() -> Axis {
    Axis { min: 0, max: 65535, units: TU_NONE, resolution: 0x03e8_0000 }
}

impl Axis {
    /// The engine's stock axis: 16-bit range, unitless, fixed-point scale of
    /// one thousand increments per unit.
    pub fn psm_default() -> (r: Axis)
        ensures
            r == default_axis(),
            axis_wf(r),
    {
        Axis { min: 0, max: 65535, units: TU_NONE, resolution: 0x03e8_0000 }
    }
}

impl Default for Axis {
    /// Same stock value as `psm_default`.
    fn default() -> (r: Axis)
        ensures
            r == default_axis(),
    {
        Axis { min: 0, max: 65535, units: TU_NONE, resolution: 0x03e8_0000 }
    }
}

/// Appends the native serialized layout of `a` to `out`.
pub fn push_axis(out: &mut Vec<u8>, a: &Axis)
    ensures
        final(out)@ == old(out)@ + axis_le(*a),
{
    push_i32_le(out, a.min);
    push_i32_le(out, a.max);
    push_u32_le(out, a.units);
    push_u32_le(out, a.resolution);
    assert(out@ =~= old(out)@ + axis_le(*a));
}

/// The native serialized layout of each axis in order.
pub open spec fn axes_le(s: Seq<Axis>) -> Seq<u8>
    decreases s.len(),
{
    if s.len() == 0 {
        Seq::<u8>::empty()
    } else {
        axes_le(s.drop_last()) + axis_le(s.last())
    }
}

/// Every axis contributes exactly sixteen bytes.
pub proof fn lemma_axes_le_len(s: Seq<Axis>)
    ensures
        axes_le(s).len() == 16 * s.len(),
    decreases s.len(),
{
    if s.len() > 0 {
        lemma_axes_le_len(s.drop_last());
    }
}

/// Appends the native serialized layout of every axis of `data` in order.
pub fn push_axes(out: &mut Vec<u8>, data: &Vec<Axis>)
    ensures
        final(out)@ == old(out)@ + axes_le(data@),
{
    let mut i: usize = 0;
    while i < data.len()
        invariant
            i <= data.len(),
            out@ == old(out)@ + axes_le(data@.take(i as int)),
        decreases data.len() - i,
    {
        push_axis(out, &data[i]);
        proof {
            let t = data@.take((i + 1) as int);
            assert(t.drop_last() =~= data@.take(i as int));
            assert(t.last() == data@[i as int]);
        }
        i = i + 1;
    }
    proof {
        assert(data@.take(data@.len() as int) =~= data@);
    }
}

/// The serialized value of an axis as a fresh buffer.
pub fn axis_bytes(a: &Axis) -> (r: Vec<u8>)
    ensures
        r@ == axis_le(*a),
{
    let mut r: Vec<u8> = Vec::new();
    push_axis(&mut r, a);
    proof {
        assert(r@ =~= axis_le(*a));
    }
    r
}

/// Length of a logical context's name field in bytes.
pub const LOGICAL_CONTEXT_NAMELEN: usize = 80;

/// Byte size of a whole logical context record.
pub const LOGICAL_CONTEXT_SIZE: usize = 212;

/// A logical input context template: coordinate origins and extents for the
/// input, output and system spaces, sensitivity factors, the selected-field
/// mask, button event masks, report rate, and status and lock flags.
#[derive(Clone, Debug)]
pub struct WtiLogicalContext {
    /// Context name, UTF-16 little-endian, zero padded to the full field.
    pub name: Vec<u8>,
    /// Option flags; a combination of the `CXO_` values.
    pub options: u32,
    /// Status flags; a combination of the `CXS_` values.
    pub status: u32,
    /// Which attributes of the context are locked; the `CXL_` values.
    pub locks: u32,
    /// Application message base number for notifications.
    pub msg_base: u32,
    /// The device the context is bound to.
    pub device: u32,
    /// Packet report rate in Hertz.
    pub packet_rate: u32,
    /// Which optional data items appear in packets of this context.
    pub packet_data: u32,
    /// Which data items are reported in relative mode.
    pub packet_mode: u32,
    /// Which data items can generate motion events.
    pub move_mask: u32,
    /// Buttons whose press events are processed.
    pub btn_dn_mask: u32,
    /// Buttons whose release events are processed.
    pub btn_up_mask: u32,
    /// Origin of the input area, x.
    pub in_org_x: i32,
    /// Origin of the input area, y.
    pub in_org_y: i32,
    /// Origin of the input area, z.
    pub in_org_z: i32,
    /// Extent of the input area, x.
    pub in_ext_x: i32,
    /// Extent of the input area, y.
    pub in_ext_y: i32,
    /// Extent of the input area, z.
    pub in_ext_z: i32,
    /// Origin of the output space, x.
    pub out_org_x: i32,
    /// Origin of the output space, y.
    pub out_org_y: i32,
    /// Origin of the output space, z.
    pub out_org_z: i32,
    /// Extent of the output space, x.
    pub out_ext_x: i32,
    /// Extent of the output space, y.
    pub out_ext_y: i32,
    /// Extent of the output space, z.
    pub out_ext_z: i32,
    /// Relative-mode sensitivity factor, x.
    pub out_sens_x: i32,
    /// Relative-mode sensitivity factor, y.
    pub out_sens_y: i32,
    /// Relative-mode sensitivity factor, z.
    pub out_sens_z: i32,
    /// System cursor tracking mode.
    pub sys_mode: i32,
    /// Screen display origin in pixels, x.
    pub sys_org_x: i32,
    /// Screen display origin in pixels, y.
    pub sys_org_y: i32,
    /// Screen display size in pixels, x.
    pub sys_ext_x: i32,
    /// Screen display size in pixels, y.
    pub sys_ext_y: i32,
    /// System cursor relative-mode sensitivity factor, x.
    pub sys_sens_x: i32,
    /// System cursor relative-mode sensitivity factor, y.
    pub sys_sens_y: i32,
}

/// Mathematical value of a logical context.
pub struct WtiLogicalContextV {
    /// Context name bytes.
    pub name: Seq<u8>,
    /// Option flags.
    pub options: u32,
    /// Status flags.
    pub status: u32,
    /// Locked attributes.
    pub locks: u32,
    /// Application message base number.
    pub msg_base: u32,
    /// Bound device.
    pub device: u32,
    /// Packet report rate.
    pub packet_rate: u32,
    /// Selected-field mask.
    pub packet_data: u32,
    /// Relative-mode mask.
    pub packet_mode: u32,
    /// Motion event mask.
    pub move_mask: u32,
    /// Button press mask.
    pub btn_dn_mask: u32,
    /// Button release mask.
    pub btn_up_mask: u32,
    /// Origin of the input area, x.
    pub in_org_x: i32,
    /// Origin of the input area, y.
    pub in_org_y: i32,
    /// Origin of the input area, z.
    pub in_org_z: i32,
    /// Extent of the input area, x.
    pub in_ext_x: i32,
    /// Extent of the input area, y.
    pub in_ext_y: i32,
    /// Extent of the input area, z.
    pub in_ext_z: i32,
    /// Origin of the output space, x.
    pub out_org_x: i32,
    /// Origin of the output space, y.
    pub out_org_y: i32,
    /// Origin of the output space, z.
    pub out_org_z: i32,
    /// Extent of the output space, x.
    pub out_ext_x: i32,
    /// Extent of the output space, y.
    pub out_ext_y: i32,
    /// Extent of the output space, z.
    pub out_ext_z: i32,
    /// Relative-mode sensitivity factor, x.
    pub out_sens_x: i32,
    /// Relative-mode sensitivity factor, y.
    pub out_sens_y: i32,
    /// Relative-mode sensitivity factor, z.
    pub out_sens_z: i32,
    /// System cursor tracking mode.
    pub sys_mode: i32,
    /// Screen display origin in pixels, x.
    pub sys_org_x: i32,
    /// Screen display origin in pixels, y.
    pub sys_org_y: i32,
    /// Screen display size in pixels, x.
    pub sys_ext_x: i32,
    /// Screen display size in pixels, y.
    pub sys_ext_y: i32,
    /// System cursor relative-mode sensitivity factor, x.
    pub sys_sens_x: i32,
    /// System cursor relative-mode sensitivity factor, y.
    pub sys_sens_y: i32,
}

impl View for WtiLogicalContext {
    type V = WtiLogicalContextV;

    open spec fn view(&self) -> WtiLogicalContextV {
        WtiLogicalContextV {
            name: self.name@,
            options: self.options,
            status: self.status,
            locks: self.locks,
            msg_base: self.msg_base,
            device: self.device,
            packet_rate: self.packet_rate,
            packet_data: self.packet_data,
            packet_mode: self.packet_mode,
            move_mask: self.move_mask,
            btn_dn_mask: self.btn_dn_mask,
            btn_up_mask: self.btn_up_mask,
            in_org_x: self.in_org_x,
            in_org_y: self.in_org_y,
            in_org_z: self.in_org_z,
            in_ext_x: self.in_ext_x,
            in_ext_y: self.in_ext_y,
            in_ext_z: self.in_ext_z,
            out_org_x: self.out_org_x,
            out_org_y: self.out_org_y,
            out_org_z: self.out_org_z,
            out_ext_x: self.out_ext_x,
            out_ext_y: self.out_ext_y,
            out_ext_z: self.out_ext_z,
            out_sens_x: self.out_sens_x,
            out_sens_y: self.out_sens_y,
            out_sens_z: self.out_sens_z,
            sys_mode: self.sys_mode,
            sys_org_x: self.sys_org_x,
            sys_org_y: self.sys_org_y,
            sys_ext_x: self.sys_ext_x,
            sys_ext_y: self.sys_ext_y,
            sys_sens_x: self.sys_sens_x,
            sys_sens_y: self.sys_sens_y,
        }
    }
}

/// A logical context is well formed when its name fills its fixed field and
/// all nine notification message numbers derived from its base fit in a word.
pub open spec fn logical_context_wf(v: WtiLogicalContextV) -> bool {
    v.name.len() == LOGICAL_CONTEXT_NAMELEN && v.msg_base + 8 <= u32::MAX
}

/// Name bytes of the stock logical context: "LOGCTX" in UTF-16 little-endian,
/// zero padded to the full field.
pub open spec fn default_context_name() -> Seq<u8> {
    seq![0x4Cu8, 0u8, 0x4Fu8, 0u8, 0x47u8, 0u8, 0x43u8, 0u8, 0x54u8, 0u8, 0x58u8, 0u8] + zeros(68)
}

/// The selection mask with every known field group chosen.
pub open spec fn all_packet_fields() -> u32 {
    (PK_CONTEXT | PK_STATUS | PK_TIME | PK_CHANGED | PK_SERIAL_NUMBER | PK_CURSOR | PK_BUTTONS
        | PK_X | PK_Y | PK_Z | PK_NORMAL_PRESSURE | PK_TANGENT_PRESSURE | PK_ORIENTATION
        | PK_ROTATION) as u32
}

/// The stock logical context value.
pub open spec fn default_logical_context() -> WtiLogicalContextV {
    WtiLogicalContextV {
        name: default_context_name(),
        options: (CXO_SYSTEM | CXO_MESSAGES | CXO_CSRMESSAGES) as u32,
        status: 0,
        locks: 0,
        msg_base: WT_DEFBASE,
        device: 0,
        packet_rate: 100,
        packet_data: all_packet_fields(),
        packet_mode: 0,
        move_mask: all_packet_fields(),
        btn_dn_mask: 0xFFFFFFFF,
        btn_up_mask: 0xFFFFFFFF,
        in_org_x: 0,
        in_org_y: 0,
        in_org_z: 0,
        in_ext_x: 1024,
        in_ext_y: 1024,
        in_ext_z: 1024,
        out_org_x: 0,
        out_org_y: 0,
        out_org_z: 0,
        out_ext_x: 1024,
        out_ext_y: 1024,
        out_ext_z: 1024,
        out_sens_x: 0x00010000,
        out_sens_y: 0x00010000,
        out_sens_z: 0x00010000,
        sys_mode: 0,
        sys_org_x: 0,
        sys_org_y: 0,
        sys_ext_x: 1920,
        sys_ext_y: 1080,
        sys_sens_x: 0x00010000,
        sys_sens_y: 0x00010000,
    }
}

impl WtiLogicalContext {
    /// The engine's stock logical context: all field groups selected, every
    /// button event processed, unit input and output extents, and the default
    /// message base.
    pub fn psm_default() -> (r: WtiLogicalContext)
        ensures
            r@ == default_logical_context(),
            logical_context_wf(r@),
    {
        let mut name: Vec<u8> = vec![
            0x4Cu8, 0u8, 0x4Fu8, 0u8, 0x47u8, 0u8, 0x43u8, 0u8, 0x54u8, 0u8, 0x58u8, 0u8,
        ];
        push_zeros(&mut name, 68);
        proof {
            assert(name@ =~= default_context_name());
        }
        let r = WtiLogicalContext {
            name,
            options: CXO_SYSTEM | CXO_MESSAGES | CXO_CSRMESSAGES,
            status: 0,
            locks: 0,
            msg_base: WT_DEFBASE,
            device: 0,
            packet_rate: 100,
            packet_data: PK_CONTEXT | PK_STATUS | PK_TIME | PK_CHANGED | PK_SERIAL_NUMBER
                | PK_CURSOR | PK_BUTTONS | PK_X | PK_Y | PK_Z | PK_NORMAL_PRESSURE
                | PK_TANGENT_PRESSURE | PK_ORIENTATION | PK_ROTATION,
            packet_mode: 0,
            move_mask: PK_CONTEXT | PK_STATUS | PK_TIME | PK_CHANGED | PK_SERIAL_NUMBER
                | PK_CURSOR | PK_BUTTONS | PK_X | PK_Y | PK_Z | PK_NORMAL_PRESSURE
                | PK_TANGENT_PRESSURE | PK_ORIENTATION | PK_ROTATION,
            btn_dn_mask: 0xFFFFFFFF,
            btn_up_mask: 0xFFFFFFFF,
            in_org_x: 0,
            in_org_y: 0,
            in_org_z: 0,
            in_ext_x: 1024,
            in_ext_y: 1024,
            in_ext_z: 1024,
            out_org_x: 0,
            out_org_y: 0,
            out_org_z: 0,
            out_ext_x: 1024,
            out_ext_y: 1024,
            out_ext_z: 1024,
            out_sens_x: 0x00010000,
            out_sens_y: 0x00010000,
            out_sens_z: 0x00010000,
            sys_mode: 0,
            sys_org_x: 0,
            sys_org_y: 0,
            sys_ext_x: 1920,
            sys_ext_y: 1080,
            sys_sens_x: 0x00010000,
            sys_sens_y: 0x00010000,
        };
        proof {
            assert(WT_DEFBASE + 8 <= u32::MAX);
        }
        r
    }
}

/// First blob chunk: name and the first four flag words.
pub open spec fn logctx_blob_a(v: WtiLogicalContextV) -> Seq<u8> {
    Seq::<u8>::empty() + v.name + u32_le(v.options) + u32_le(v.status) + u32_le(v.locks)
        + u32_le(v.msg_base)
}

/// Second blob chunk: device binding, rate and the packet masks.
pub open spec fn logctx_blob_b(v: WtiLogicalContextV) -> Seq<u8> {
    logctx_blob_a(v) + u32_le(v.device) + u32_le(v.packet_rate) + u32_le(v.packet_data) + u32_le(
        v.packet_mode,
    ) + u32_le(v.move_mask) + u32_le(v.btn_dn_mask)
}

/// Third blob chunk: button release mask and the input area.
pub open spec fn logctx_blob_c(v: WtiLogicalContextV) -> Seq<u8> {
    logctx_blob_b(v) + u32_le(v.btn_up_mask) + i32_le(v.in_org_x) + i32_le(v.in_org_y) + i32_le(
        v.in_org_z,
    ) + i32_le(v.in_ext_x) + i32_le(v.in_ext_y)
}

/// Fourth blob chunk: rest of the input area and the output space origin.
pub open spec fn logctx_blob_d(v: WtiLogicalContextV) -> Seq<u8> {
    logctx_blob_c(v) + i32_le(v.in_ext_z) + i32_le(v.out_org_x) + i32_le(v.out_org_y) + i32_le(
        v.out_org_z,
    ) + i32_le(v.out_ext_x) + i32_le(v.out_ext_y)
}

/// Fifth blob chunk: output extent z, sensitivities and system tracking.
pub open spec fn logctx_blob_e(v: WtiLogicalContextV) -> Seq<u8> {
    logctx_blob_d(v) + i32_le(v.out_ext_z) + i32_le(v.out_sens_x) + i32_le(v.out_sens_y) + i32_le(
        v.out_sens_z,
    ) + i32_le(v.sys_mode) + i32_le(v.sys_org_x)
}

/// The whole logical context record in its native layout: the name field
/// followed by every word in declaration order.
pub open spec fn logctx_blob(v: WtiLogicalContextV) -> Seq<u8> {
    logctx_blob_e(v) + i32_le(v.sys_org_y) + i32_le(v.sys_ext_x) + i32_le(v.sys_ext_y) + i32_le(
        v.sys_sens_x,
    ) + i32_le(v.sys_sens_y)
}

/// A well-formed logical context serializes to its fixed record size.
pub proof fn lemma_logctx_blob_len(v: WtiLogicalContextV)
    requires
        v.name.len() == LOGICAL_CONTEXT_NAMELEN,
    ensures
        logctx_blob(v).len() == LOGICAL_CONTEXT_SIZE,
{
    assert(logctx_blob_a(v).len() == 96);
    assert(logctx_blob_b(v).len() == 120);
    assert(logctx_blob_c(v).len() == 144);
    assert(logctx_blob_d(v).len() == 168);
    assert(logctx_blob_e(v).len() == 192);
}

/// The answer to a logical context introspection query: the whole record for
/// index 0, one field for the indices that address one, nothing for an index
/// out of range.
pub open spec fn logctx_info(v: WtiLogicalContextV, index: u32) -> Seq<u8> {
    if index == 0 {
        logctx_blob(v)
    } else if index == 1 {
        v.name
    } else if index == 2 {
        u32_le(v.options)
    } else if index == 3 {
        u32_le(v.status)
    } else if index == 4 {
        u32_le(v.locks)
    } else if index == 5 {
        u32_le(v.msg_base)
    } else if index == 6 {
        u32_le(v.device)
    } else if index == 7 {
        u32_le(v.packet_rate)
    } else if index == 8 {
        u32_le(v.packet_data)
    } else if index == 9 {
        u32_le(v.packet_mode)
    } else if index == 10 {
        u32_le(v.move_mask)
    } else if index == 11 {
        u32_le(v.btn_dn_mask)
    } else if index == 12 {
        u32_le(v.btn_up_mask)
    } else if index == 13 {
        i32_le(v.in_org_x)
    } else if index == 14 {
        i32_le(v.in_org_y)
    } else if index == 15 {
        i32_le(v.in_org_z)
    } else if index == 16 {
        i32_le(v.in_ext_x)
    } else if index == 17 {
        i32_le(v.in_ext_y)
    } else if index == 18 {
        i32_le(v.in_ext_z)
    } else if index == 19 {
        i32_le(v.out_org_x)
    } else if index == 20 {
        i32_le(v.out_org_y)
    } else if index == 21 {
        i32_le(v.out_org_z)
    } else if index == 22 {
        i32_le(v.out_ext_x)
    } else if index == 23 {
        i32_le(v.out_ext_y)
    } else if index == 24 {
        i32_le(v.out_ext_z)
    } else if index == 25 {
        i32_le(v.out_sens_x)
    } else if index == 26 {
        i32_le(v.out_sens_y)
    } else if index == 27 {
        i32_le(v.out_sens_z)
    } else if index == 28 {
        i32_le(v.sys_mode)
    } else if index == 29 {
        i32_le(v.sys_org_x)
    } else if index == 30 {
        i32_le(v.sys_org_y)
    } else if index == 31 {
        i32_le(v.sys_ext_x)
    } else if index == 32 {
        i32_le(v.sys_ext_y)
    } else if index == 33 {
        i32_le(v.sys_sens_x)
    } else if index == 34 {
        i32_le(v.sys_sens_y)
    } else {
        Seq::<u8>::empty()
    }
}

impl WtiLogicalContext {
    /// Serializes the whole record in its native layout.
    pub fn blob(&self) -> (r: Vec<u8>)
        ensures
            r@ == logctx_blob(self@),
    {
        let mut out: Vec<u8> = Vec::new();
        push_bytes(&mut out, &self.name);
        push_u32_le(&mut out, self.options);
        push_u32_le(&mut out, self.status);
        push_u32_le(&mut out, self.locks);
        push_u32_le(&mut out, self.msg_base);
        assert(out@ == logctx_blob_a(self@));
        push_u32_le(&mut out, self.device);
        push_u32_le(&mut out, self.packet_rate);
        push_u32_le(&mut out, self.packet_data);
        push_u32_le(&mut out, self.packet_mode);
        push_u32_le(&mut out, self.move_mask);
        push_u32_le(&mut out, self.btn_dn_mask);
        assert(out@ == logctx_blob_b(self@));
        push_u32_le(&mut out, self.btn_up_mask);
        push_i32_le(&mut out, self.in_org_x);
        push_i32_le(&mut out, self.in_org_y);
        push_i32_le(&mut out, self.in_org_z);
        push_i32_le(&mut out, self.in_ext_x);
        push_i32_le(&mut out, self.in_ext_y);
        assert(out@ == logctx_blob_c(self@));
        push_i32_le(&mut out, self.in_ext_z);
        push_i32_le(&mut out, self.out_org_x);
        push_i32_le(&mut out, self.out_org_y);
        push_i32_le(&mut out, self.out_org_z);
        push_i32_le(&mut out, self.out_ext_x);
        push_i32_le(&mut out, self.out_ext_y);
        assert(out@ == logctx_blob_d(self@));
        push_i32_le(&mut out, self.out_ext_z);
        push_i32_le(&mut out, self.out_sens_x);
        push_i32_le(&mut out, self.out_sens_y);
        push_i32_le(&mut out, self.out_sens_z);
        push_i32_le(&mut out, self.sys_mode);
        push_i32_le(&mut out, self.sys_org_x);
        assert(out@ == logctx_blob_e(self@));
        push_i32_le(&mut out, self.sys_org_y);
        push_i32_le(&mut out, self.sys_ext_x);
        push_i32_le(&mut out, self.sys_ext_y);
        push_i32_le(&mut out, self.sys_sens_x);
        push_i32_le(&mut out, self.sys_sens_y);
        assert(out@ == logctx_blob(self@));
        out
    }

    /// Answers an introspection query: the serialized value of the addressed
    /// field and its byte count.
    pub fn handle_info(&self, index: u32) -> (r: (u32, Vec<u8>))
        requires
            self@.name.len() == LOGICAL_CONTEXT_NAMELEN,
        ensures
            r.1@ == logctx_info(self@, index),
            r.0 == r.1@.len(),
    {
        let (size, data): (u32, Vec<u8>) = if index == 0 {
            let b = self.blob();
            proof {
                lemma_logctx_blob_len(self@);
            }
            (212, b)
        } else if index == 1 {
            (80, bytes_copy(&self.name))
        } else if index == 2 {
            (4, u32_bytes(self.options))
        } else if index == 3 {
            (4, u32_bytes(self.status))
        } else if index == 4 {
            (4, u32_bytes(self.locks))
        } else if index == 5 {
            (4, u32_bytes(self.msg_base))
        } else if index == 6 {
            (4, u32_bytes(self.device))
        } else if index == 7 {
            (4, u32_bytes(self.packet_rate))
        } else if index == 8 {
            (4, u32_bytes(self.packet_data))
        } else if index == 9 {
            (4, u32_bytes(self.packet_mode))
        } else if index == 10 {
            (4, u32_bytes(self.move_mask))
        } else if index == 11 {
            (4, u32_bytes(self.btn_dn_mask))
        } else if index == 12 {
            (4, u32_bytes(self.btn_up_mask))
        } else if index == 13 {
            (4, i32_bytes(self.in_org_x))
        } else if index == 14 {
            (4, i32_bytes(self.in_org_y))
        } else if index == 15 {
            (4, i32_bytes(self.in_org_z))
        } else if index == 16 {
            (4, i32_bytes(self.in_ext_x))
        } else if index == 17 {
            (4, i32_bytes(self.in_ext_y))
        } else if index == 18 {
            (4, i32_bytes(self.in_ext_z))
        } else if index == 19 {
            (4, i32_bytes(self.out_org_x))
        } else if index == 20 {
            (4, i32_bytes(self.out_org_y))
        } else if index == 21 {
            (4, i32_bytes(self.out_org_z))
        } else if index == 22 {
            (4, i32_bytes(self.out_ext_x))
        } else if index == 23 {
            (4, i32_bytes(self.out_ext_y))
        } else if index == 24 {
            (4, i32_bytes(self.out_ext_z))
        } else if index == 25 {
            (4, i32_bytes(self.out_sens_x))
        } else if index == 26 {
            (4, i32_bytes(self.out_sens_y))
        } else if index == 27 {
            (4, i32_bytes(self.out_sens_z))
        } else if index == 28 {
            (4, i32_bytes(self.sys_mode))
        } else if index == 29 {
            (4, i32_bytes(self.sys_org_x))
        } else if index == 30 {
            (4, i32_bytes(self.sys_org_y))
        } else if index == 31 {
            (4, i32_bytes(self.sys_ext_x))
        } else if index == 32 {
            (4, i32_bytes(self.sys_ext_y))
        } else if index == 33 {
            (4, i32_bytes(self.sys_sens_x))
        } else if index == 34 {
            (4, i32_bytes(self.sys_sens_y))
        } else {
            (0, Vec::new())
        };
        (size, data)
    }
}

/// Length of the interface descriptor's identification string in bytes.
pub const INTERFACE_WINTABID_LEN: usize = 34;

/// Byte size of a whole interface descriptor record.
pub const INTERFACE_SIZE: usize = 68;

/// The interface descriptor: what the driver as a whole supports.
#[derive(Clone, Debug)]
pub struct WtiInterface {
    /// Hardware identification string, UTF-16 little-endian, zero padded.
    pub wintabid: Vec<u8>,
    /// Specification version; major in the high byte, minor in the low byte.
    pub spec_version: u16,
    /// Implementation version; major in the high byte, minor in the low byte.
    pub impl_version: u16,
    /// Number of devices supported.
    pub num_devices: u32,
    /// Total number of cursor types supported.
    pub num_cursors: u32,
    /// Number of contexts supported.
    pub num_contexts: u32,
    /// Which context options are supported.
    pub ctx_options: u32,
    /// Size of the save information of a context.
    pub ctx_save_size: u32,
    /// Number of extension data items supported.
    pub num_extensions: u32,
    /// Number of manager handles supported.
    pub num_managers: u32,
}

/// Mathematical value of the interface descriptor.
pub struct WtiInterfaceV {
    /// Hardware identification string bytes.
    pub wintabid: Seq<u8>,
    /// Specification version.
    pub spec_version: u16,
    /// Implementation version.
    pub impl_version: u16,
    /// Number of devices supported.
    pub num_devices: u32,
    /// Total number of cursor types supported.
    pub num_cursors: u32,
    /// Number of contexts supported.
    pub num_contexts: u32,
    /// Supported context options.
    pub ctx_options: u32,
    /// Size of the save information of a context.
    pub ctx_save_size: u32,
    /// Number of extension data items supported.
    pub num_extensions: u32,
    /// Number of manager handles supported.
    pub num_managers: u32,
}

impl View for WtiInterface {
    type V = WtiInterfaceV;

    open spec fn view(&self) -> WtiInterfaceV {
        WtiInterfaceV {
            wintabid: self.wintabid@,
            spec_version: self.spec_version,
            impl_version: self.impl_version,
            num_devices: self.num_devices,
            num_cursors: self.num_cursors,
            num_contexts: self.num_contexts,
            ctx_options: self.ctx_options,
            ctx_save_size: self.ctx_save_size,
            num_extensions: self.num_extensions,
            num_managers: self.num_managers,
        }
    }
}

/// An interface descriptor is well formed when its identification string
/// fills its fixed field.
pub open spec fn interface_wf(v: WtiInterfaceV) -> bool {
    v.wintabid.len() == INTERFACE_WINTABID_LEN
}

/// The engine's identification string, UTF-16 little-endian, zero padded.
pub open spec fn interface_id_bytes() -> Seq<u8> {
    seq![
        0x50u8, 0u8, 0x41u8, 0u8, 0x49u8, 0u8, 0x4Eu8, 0u8, 0x20u8, 0u8, 0x53u8, 0u8, 0x54u8,
        0u8, 0x55u8, 0u8, 0x44u8, 0u8, 0x49u8, 0u8, 0x4Fu8, 0u8, 0x20u8, 0u8, 0x4Du8, 0u8,
        0x41u8, 0u8, 0x53u8, 0u8, 0x4Bu8, 0u8,
    ] + zeros(2)
}

/// The stock interface descriptor value.
pub open spec fn default_interface() -> WtiInterfaceV {
    WtiInterfaceV {
        wintabid: interface_id_bytes(),
        spec_version: 0x0101,
        impl_version: 0x0001,
        num_devices: 1,
        num_cursors: 1,
        num_contexts: 1,
        ctx_options: 0,
        ctx_save_size: 0,
        num_extensions: 1,
        num_managers: 1,
    }
}

/// First interface blob chunk: identification, versions, the alignment gap
/// before the words, and the first two counts.
pub open spec fn interface_blob_a(v: WtiInterfaceV) -> Seq<u8> {
    Seq::<u8>::empty() + v.wintabid + u16_le(v.spec_version) + u16_le(v.impl_version) + zeros(2)
        + u32_le(v.num_devices) + u32_le(v.num_cursors)
}

/// The whole interface record in its native layout.
pub open spec fn interface_blob(v: WtiInterfaceV) -> Seq<u8> {
    interface_blob_a(v) + u32_le(v.num_contexts) + u32_le(v.ctx_options) + u32_le(v.ctx_save_size)
        + u32_le(v.num_extensions) + u32_le(v.num_managers)
}

/// A well-formed interface descriptor serializes to its fixed record size.
pub proof fn lemma_interface_blob_len(v: WtiInterfaceV)
    requires
        interface_wf(v),
    ensures
        interface_blob(v).len() == INTERFACE_SIZE,
{
    assert(interface_blob_a(v).len() == 48);
}

/// The answer to an interface introspection query.
pub open spec fn interface_info(v: WtiInterfaceV, index: u32) -> Seq<u8> {
    if index == 0 {
        interface_blob(v)
    } else if index == 1 {
        v.wintabid
    } else if index == 2 {
        u16_le(v.spec_version)
    } else if index == 3 {
        u16_le(v.impl_version)
    } else if index == 4 {
        u32_le(v.num_devices)
    } else if index == 5 {
        u32_le(v.num_cursors)
    } else if index == 6 {
        u32_le(v.num_contexts)
    } else if index == 7 {
        u32_le(v.ctx_options)
    } else if index == 8 {
        u32_le(v.ctx_save_size)
    } else if index == 9 {
        u32_le(v.num_extensions)
    } else if index == 10 {
        u32_le(v.num_managers)
    } else {
        Seq::<u8>::empty()
    }
}

impl WtiInterface {
    /// The engine's stock interface descriptor: one device, one cursor type,
    /// one context, and specification version 1.1.
    pub fn psm_default() -> (r: WtiInterface)
        ensures
            r@ == default_interface(),
            interface_wf(r@),
    {
        let mut wintabid: Vec<u8> = vec![
            0x50u8, 0u8, 0x41u8, 0u8, 0x49u8, 0u8, 0x4Eu8, 0u8, 0x20u8, 0u8, 0x53u8, 0u8, 0x54u8,
            0u8, 0x55u8, 0u8, 0x44u8, 0u8, 0x49u8, 0u8, 0x4Fu8, 0u8, 0x20u8, 0u8, 0x4Du8, 0u8,
            0x41u8, 0u8, 0x53u8, 0u8, 0x4Bu8, 0u8,
        ];
        push_zeros(&mut wintabid, 2);
        proof {
            assert(wintabid@ =~= interface_id_bytes());
        }
        WtiInterface {
            wintabid,
            spec_version: 0x0101,
            impl_version: 0x0001,
            num_devices: 1,
            num_cursors: 1,
            num_contexts: 1,
            ctx_options: 0,
            ctx_save_size: 0,
            num_extensions: 1,
            num_managers: 1,
        }
    }

    /// Serializes the whole record in its native layout.
    pub fn blob(&self) -> (r: Vec<u8>)
        ensures
            r@ == interface_blob(self@),
    {
        let mut out: Vec<u8> = Vec::new();
        push_bytes(&mut out, &self.wintabid);
        push_u16_le(&mut out, self.spec_version);
        push_u16_le(&mut out, self.impl_version);
        push_zeros(&mut out, 2);
        push_u32_le(&mut out, self.num_devices);
        push_u32_le(&mut out, self.num_cursors);
        assert(out@ == interface_blob_a(self@));
        push_u32_le(&mut out, self.num_contexts);
        push_u32_le(&mut out, self.ctx_options);
        push_u32_le(&mut out, self.ctx_save_size);
        push_u32_le(&mut out, self.num_extensions);
        push_u32_le(&mut out, self.num_managers);
        assert(out@ == interface_blob(self@));
        out
    }

    /// Answers an introspection query: the serialized value of the addressed
    /// field and its byte count.
    pub fn handle_info(&self, index: u32) -> (r: (u32, Vec<u8>))
        requires
            interface_wf(self@),
        ensures
            r.1@ == interface_info(self@, index),
            r.0 == r.1@.len(),
    {
        let (size, data): (u32, Vec<u8>) = if index == 0 {
            let b = self.blob();
            proof {
                lemma_interface_blob_len(self@);
            }
            (68, b)
        } else if index == 1 {
            (34, bytes_copy(&self.wintabid))
        } else if index == 2 {
            (2, u16_bytes(self.spec_version))
        } else if index == 3 {
            (2, u16_bytes(self.impl_version))
        } else if index == 4 {
            (4, u32_bytes(self.num_devices))
        } else if index == 5 {
            (4, u32_bytes(self.num_cursors))
        } else if index == 6 {
            (4, u32_bytes(self.num_contexts))
        } else if index == 7 {
            (4, u32_bytes(self.ctx_options))
        } else if index == 8 {
            (4, u32_bytes(self.ctx_save_size))
        } else if index == 9 {
            (4, u32_bytes(self.num_extensions))
        } else if index == 10 {
            (4, u32_bytes(self.num_managers))
        } else {
            (0, Vec::new())
        };
        (size, data)
    }
}

/// Length of the device descriptor's name field in bytes.
pub const DEVICES_NAME_LEN: usize = 256;

/// Length of the device descriptor's plug-and-play identifier in bytes.
pub const DEVICES_PNP_ID_LEN: usize = 8;

/// Byte size of a whole device descriptor record.
pub const DEVICES_SIZE: usize = 480;

/// The shared device descriptor: virtual hardware capability ranges, button
/// counts and capability flags.
#[derive(Clone, Debug)]
pub struct WtiDevices {
    /// Displayable device name, zero padded to the full field.
    pub name: Vec<u8>,
    /// Hardware and driver capabilities; the `HWC_` values.
    pub hardware: u32,
    /// Number of supported cursor types.
    pub num_cursor_types: u32,
    /// First cursor type number for the device.
    pub first_cursor_type: u32,
    /// Maximum packet report rate in Hertz.
    pub packet_rate: u32,
    /// Which packet data items are always available.
    pub packet_data: u32,
    /// Which packet data items are physically relative.
    pub packet_mode: u32,
    /// Which packet data items depend on the connected cursor.
    pub csr_data: u32,
    /// Context margin in native coordinates, x.
    pub x_margin: i32,
    /// Context margin in native coordinates, y.
    pub y_margin: i32,
    /// Context margin in native coordinates, z.
    pub z_margin: i32,
    /// Range and resolution, x axis.
    pub device_x: Axis,
    /// Range and resolution, y axis.
    pub device_y: Axis,
    /// Range and resolution, z axis.
    pub device_z: Axis,
    /// Range and resolution of the normal pressure input.
    pub normal_pressure: Axis,
    /// Range and resolution of the tangential pressure input.
    pub tangential_pressure: Axis,
    /// Orientation ranges; always three axes.
    pub orientation: Vec<Axis>,
    /// Rotation ranges; always three axes.
    pub rotation: Vec<Axis>,
    /// Plug-and-play identifier, zero terminated.
    pub pnp_id: Vec<u8>,
}

/// Mathematical value of the device descriptor.
pub struct WtiDevicesV {
    /// Device name bytes.
    pub name: Seq<u8>,
    /// Hardware capabilities.
    pub hardware: u32,
    /// Number of supported cursor types.
    pub num_cursor_types: u32,
    /// First cursor type number.
    pub first_cursor_type: u32,
    /// Maximum packet report rate.
    pub packet_rate: u32,
    /// Always-available packet data items.
    pub packet_data: u32,
    /// Physically relative packet data items.
    pub packet_mode: u32,
    /// Cursor-dependent packet data items.
    pub csr_data: u32,
    /// Context margin, x.
    pub x_margin: i32,
    /// Context margin, y.
    pub y_margin: i32,
    /// Context margin, z.
    pub z_margin: i32,
    /// Range and resolution, x axis.
    pub device_x: Axis,
    /// Range and resolution, y axis.
    pub device_y: Axis,
    /// Range and resolution, z axis.
    pub device_z: Axis,
    /// Normal pressure range.
    pub normal_pressure: Axis,
    /// Tangential pressure range.
    pub tangential_pressure: Axis,
    /// Orientation ranges.
    pub orientation: Seq<Axis>,
    /// Rotation ranges.
    pub rotation: Seq<Axis>,
    /// Plug-and-play identifier bytes.
    pub pnp_id: Seq<u8>,
}

impl View for WtiDevices {
    type V = WtiDevicesV;

    open spec fn view(&self) -> WtiDevicesV {
        WtiDevicesV {
            name: self.name@,
            hardware: self.hardware,
            num_cursor_types: self.num_cursor_types,
            first_cursor_type: self.first_cursor_type,
            packet_rate: self.packet_rate,
            packet_data: self.packet_data,
            packet_mode: self.packet_mode,
            csr_data: self.csr_data,
            x_margin: self.x_margin,
            y_margin: self.y_margin,
            z_margin: self.z_margin,
            device_x: self.device_x,
            device_y: self.device_y,
            device_z: self.device_z,
            normal_pressure: self.normal_pressure,
            tangential_pressure: self.tangential_pressure,
            orientation: self.orientation@,
            rotation: self.rotation@,
            pnp_id: self.pnp_id@,
        }
    }
}

/// A device descriptor is well formed when its byte fields fill their fixed
/// widths, the axis arrays hold three axes each, and every axis is well
/// formed.
pub open spec fn devices_wf(v: WtiDevicesV) -> bool {
    &&& v.name.len() == DEVICES_NAME_LEN
    &&& v.pnp_id.len() == DEVICES_PNP_ID_LEN
    &&& v.orientation.len() == 3
    &&& v.rotation.len() == 3
    &&& axis_wf(v.device_x)
    &&& axis_wf(v.device_y)
    &&& axis_wf(v.device_z)
    &&& axis_wf(v.normal_pressure)
    &&& axis_wf(v.tangential_pressure)
    &&& forall|i: int| 0 <= i < v.orientation.len() ==> axis_wf(#[trigger] v.orientation[i])
    &&& forall|i: int| 0 <= i < v.rotation.len() ==> axis_wf(#[trigger] v.rotation[i])
}

/// The stock orientation ranges: azimuth over a full circle, altitude over a
/// signed semicircle, twist over a full circle.
pub open spec fn default_orientation_axes() -> Seq<Axis> {
    seq![
        Axis { min: 0, max: 3600, units: TU_CIRCLE, resolution: 0x0e100000 },
        Axis { min: -1000i32, max: 1000, units: TU_CIRCLE, resolution: 0x0e100000 },
        Axis { min: 0, max: 3600, units: TU_CIRCLE, resolution: 0x0e100000 },
    ]
}

/// The stock device descriptor value.
pub open spec fn default_devices() -> WtiDevicesV {
    WtiDevicesV {
        name: zeros(DEVICES_NAME_LEN as nat),
        hardware: (HWC_HARDPROX | HWC_PHYSID_CURSORS) as u32,
        num_cursor_types: 0,
        first_cursor_type: 0,
        packet_rate: 100,
        packet_data: all_packet_fields(),
        packet_mode: 0,
        csr_data: 0,
        x_margin: 0,
        y_margin: 0,
        z_margin: 0,
        device_x: Axis { min: 0, max: 15199, units: TU_CENTIMETERS, resolution: 0x03e8_0000 },
        device_y: Axis { min: 0, max: 9499, units: TU_CENTIMETERS, resolution: 0x03e8_0000 },
        device_z: Axis { min: -1023i32, max: 1023, units: TU_CENTIMETERS, resolution: 0x03e8_0000 },
        normal_pressure: Axis { min: 0, max: 32767, units: TU_NONE, resolution: 0 },
        tangential_pressure: Axis { min: 0, max: 1023, units: TU_NONE, resolution: 0 },
        orientation: default_orientation_axes(),
        rotation: seq![default_axis(), default_axis(), default_axis()],
        pnp_id: zeros(DEVICES_PNP_ID_LEN as nat),
    }
}

/// First device blob chunk: name, capabilities and counts.
pub open spec fn devices_blob_a(v: WtiDevicesV) -> Seq<u8> {
    Seq::<u8>::empty() + v.name + u32_le(v.hardware) + u32_le(v.num_cursor_types) + u32_le(
        v.first_cursor_type,
    ) + u32_le(v.packet_rate)
}

/// Second device blob chunk: the packet masks and the margins.
pub open spec fn devices_blob_b(v: WtiDevicesV) -> Seq<u8> {
    devices_blob_a(v) + u32_le(v.packet_data) + u32_le(v.packet_mode) + u32_le(v.csr_data)
        + i32_le(v.x_margin) + i32_le(v.y_margin) + i32_le(v.z_margin)
}

/// Third device blob chunk: the five single axes.
pub open spec fn devices_blob_c(v: WtiDevicesV) -> Seq<u8> {
    devices_blob_b(v) + axis_le(v.device_x) + axis_le(v.device_y) + axis_le(v.device_z) + axis_le(
        v.normal_pressure,
    ) + axis_le(v.tangential_pressure)
}

/// The whole device record in its native layout.
pub open spec fn devices_blob(v: WtiDevicesV) -> Seq<u8> {
    devices_blob_c(v) + axes_le(v.orientation) + axes_le(v.rotation) + v.pnp_id
}

/// A well-formed device descriptor serializes to its fixed record size.
pub proof fn lemma_devices_blob_len(v: WtiDevicesV)
    requires
        devices_wf(v),
    ensures
        devices_blob(v).len() == DEVICES_SIZE,
{
    assert(devices_blob_a(v).len() == 272);
    assert(devices_blob_b(v).len() == 296);
    assert(devices_blob_c(v).len() == 376);
    lemma_axes_le_len(v.orientation);
    lemma_axes_le_len(v.rotation);
}

/// The answer to a device introspection query.
pub open spec fn devices_info(v: WtiDevicesV, index: u32) -> Seq<u8> {
    if index == 0 {
        devices_blob(v)
    } else if index == 1 {
        v.name
    } else if index == 2 {
        u32_le(v.hardware)
    } else if index == 3 {
        u32_le(v.num_cursor_types)
    } else if index == 4 {
        u32_le(v.first_cursor_type)
    } else if index == 5 {
        u32_le(v.packet_rate)
    } else if index == 6 {
        u32_le(v.packet_data)
    } else if index == 7 {
        u32_le(v.packet_mode)
    } else if index == 8 {
        u32_le(v.csr_data)
    } else if index == 9 {
        i32_le(v.x_margin)
    } else if index == 10 {
        i32_le(v.y_margin)
    } else if index == 11 {
        i32_le(v.z_margin)
    } else if index == 12 {
        axis_le(v.device_x)
    } else if index == 13 {
        axis_le(v.device_y)
    } else if index == 14 {
        axis_le(v.device_z)
    } else if index == 15 {
        axis_le(v.normal_pressure)
    } else if index == 16 {
        axis_le(v.tangential_pressure)
    } else if index == 17 {
        axes_le(v.orientation)
    } else if index == 18 {
        axes_le(v.rotation)
    } else if index == 19 {
        v.pnp_id
    } else {
        Seq::<u8>::empty()
    }
}

impl WtiDevices {
    /// The engine's stock device descriptor: hard proximity and physical
    /// cursor identification, a centimeter-scaled surface, and every field
    /// group always available.
    pub fn psm_default() -> (r: WtiDevices)
        ensures
            r@ == default_devices(),
            devices_wf(r@),
    {
        let r = WtiDevices {
            name: zero_vec(256),
            hardware: HWC_HARDPROX | HWC_PHYSID_CURSORS,
            num_cursor_types: 0,
            first_cursor_type: 0,
            packet_rate: 100,
            packet_data: PK_CONTEXT | PK_STATUS | PK_TIME | PK_CHANGED | PK_SERIAL_NUMBER
                | PK_CURSOR | PK_BUTTONS | PK_X | PK_Y | PK_Z | PK_NORMAL_PRESSURE
                | PK_TANGENT_PRESSURE | PK_ORIENTATION | PK_ROTATION,
            packet_mode: 0,
            csr_data: 0,
            x_margin: 0,
            y_margin: 0,
            z_margin: 0,
            device_x: Axis { min: 0, max: 15199, units: TU_CENTIMETERS, resolution: 0x03e8_0000 },
            device_y: Axis { min: 0, max: 9499, units: TU_CENTIMETERS, resolution: 0x03e8_0000 },
            device_z: Axis {
                min: -1023,
                max: 1023,
                units: TU_CENTIMETERS,
                resolution: 0x03e8_0000,
            },
            normal_pressure: Axis { min: 0, max: 32767, units: TU_NONE, resolution: 0 },
            tangential_pressure: Axis { min: 0, max: 1023, units: TU_NONE, resolution: 0 },
            orientation: vec![
                Axis { min: 0, max: 3600, units: TU_CIRCLE, resolution: 0x0e100000 },
                Axis { min: -1000, max: 1000, units: TU_CIRCLE, resolution: 0x0e100000 },
                Axis { min: 0, max: 3600, units: TU_CIRCLE, resolution: 0x0e100000 },
            ],
            rotation: vec![Axis::psm_default(), Axis::psm_default(), Axis::psm_default()],
            pnp_id: zero_vec(8),
        };
        proof {
            assert(r.orientation@ =~= default_orientation_axes());
            assert(r.rotation@ =~= seq![default_axis(), default_axis(), default_axis()]);
        }
        r
    }

    /// Serializes the whole record in its native layout.
    pub fn blob(&self) -> (r: Vec<u8>)
        ensures
            r@ == devices_blob(self@),
    {
        let mut out: Vec<u8> = Vec::new();
        push_bytes(&mut out, &self.name);
        push_u32_le(&mut out, self.hardware);
        push_u32_le(&mut out, self.num_cursor_types);
        push_u32_le(&mut out, self.first_cursor_type);
        push_u32_le(&mut out, self.packet_rate);
        assert(out@ == devices_blob_a(self@));
        push_u32_le(&mut out, self.packet_data);
        push_u32_le(&mut out, self.packet_mode);
        push_u32_le(&mut out, self.csr_data);
        push_i32_le(&mut out, self.x_margin);
        push_i32_le(&mut out, self.y_margin);
        push_i32_le(&mut out, self.z_margin);
        assert(out@ == devices_blob_b(self@));
        push_axis(&mut out, &self.device_x);
        push_axis(&mut out, &self.device_y);
        push_axis(&mut out, &self.device_z);
        push_axis(&mut out, &self.normal_pressure);
        push_axis(&mut out, &self.tangential_pressure);
        assert(out@ == devices_blob_c(self@));
        push_axes(&mut out, &self.orientation);
        push_axes(&mut out, &self.rotation);
        push_bytes(&mut out, &self.pnp_id);
        assert(out@ == devices_blob(self@));
        out
    }

    /// Answers an introspection query: the serialized value of the addressed
    /// field and its byte count.
    pub fn handle_info(&self, index: u32) -> (r: (u32, Vec<u8>))
        requires
            devices_wf(self@),
        ensures
            r.1@ == devices_info(self@, index),
            r.0 == r.1@.len(),
    {
        let (size, data): (u32, Vec<u8>) = if index == 0 {
            let b = self.blob();
            proof {
                lemma_devices_blob_len(self@);
            }
            (480, b)
        } else if index == 1 {
            (256, bytes_copy(&self.name))
        } else if index == 2 {
            (4, u32_bytes(self.hardware))
        } else if index == 3 {
            (4, u32_bytes(self.num_cursor_types))
        } else if index == 4 {
            (4, u32_bytes(self.first_cursor_type))
        } else if index == 5 {
            (4, u32_bytes(self.packet_rate))
        } else if index == 6 {
            (4, u32_bytes(self.packet_data))
        } else if index == 7 {
            (4, u32_bytes(self.packet_mode))
        } else if index == 8 {
            (4, u32_bytes(self.csr_data))
        } else if index == 9 {
            (4, i32_bytes(self.x_margin))
        } else if index == 10 {
            (4, i32_bytes(self.y_margin))
        } else if index == 11 {
            (4, i32_bytes(self.z_margin))
        } else if index == 12 {
            (16, axis_bytes(&self.device_x))
        } else if index == 13 {
            (16, axis_bytes(&self.device_y))
        } else if index == 14 {
            (16, axis_bytes(&self.device_z))
        } else if index == 15 {
            (16, axis_bytes(&self.normal_pressure))
        } else if index == 16 {
            (16, axis_bytes(&self.tangential_pressure))
        } else if index == 17 {
            let mut b: Vec<u8> = Vec::new();
            push_axes(&mut b, &self.orientation);
            proof {
                assert(b@ =~= axes_le(self@.orientation));
                lemma_axes_le_len(self@.orientation);
            }
            (48, b)
        } else if index == 18 {
            let mut b: Vec<u8> = Vec::new();
            push_axes(&mut b, &self.rotation);
            proof {
                assert(b@ =~= axes_le(self@.rotation));
                lemma_axes_le_len(self@.rotation);
            }
            (48, b)
        } else if index == 19 {
            (8, bytes_copy(&self.pnp_id))
        } else {
            (0, Vec::new())
        };
        (size, data)
    }
}

/// Length of the cursor descriptor's name field in bytes.
pub const CURSORS_NAME_LEN: usize = 256;

/// Number of entries in a button map.
pub const CURSORS_BUTTON_MAP_LEN: usize = 32;

/// Number of entries in a pressure response curve.
pub const CURSORS_RESPONSE_LEN: usize = 256;

/// Byte size of a whole cursor descriptor record.
pub const CURSORS_SIZE: usize = 2420;

/// The shared cursor descriptor: buttons, pressure response curves and
/// cursor capability flags.
#[derive(Clone, Debug)]
pub struct WtiCursors {
    /// Displayable cursor name, zero padded to the full field.
    pub name: Vec<u8>,
    /// Whether the cursor is currently connected.
    pub active: u32,
    /// Which packet data items this cursor supports.
    pub packet_data: u32,
    /// Number of buttons on this cursor.
    pub buttons: u8,
    /// Number of bits of raw button data reported by the hardware.
    pub button_bits: u8,
    /// Button name list; held as a single terminator byte.
    pub button_names: u8,
    /// Logical button number of each physical button.
    pub button_map: Vec<u8>,
    /// Button action code of each logical button.
    pub system_button_map: Vec<u8>,
    /// Physical button controlled by normal pressure.
    pub physical_button: u8,
    /// Release and press marks for the normal pressure button.
    pub npbtnmarks: Vec<u32>,
    /// Pressure response curve for normal pressure.
    pub npresponse: Vec<u32>,
    /// Physical button controlled by tangential pressure.
    pub tangential_button: u8,
    /// Release and press marks for the tangential pressure button.
    pub tpbtnmarks: Vec<u32>,
    /// Pressure response curve for tangential pressure.
    pub tpresponse: Vec<u32>,
    /// Manufacturer-specific physical identifier of the cursor.
    pub physical_id: u32,
    /// Cursor mode number.
    pub csr_mode: u32,
    /// Minimum packet data available from this cursor type.
    pub minpktdata: u32,
    /// Minimum number of buttons in this cursor type.
    pub min_buttons: u32,
    /// Cursor capabilities; the `CRC_` values.
    pub capabilities: u32,
}

/// Mathematical value of the cursor descriptor.
pub struct WtiCursorsV {
    /// Cursor name bytes.
    pub name: Seq<u8>,
    /// Whether the cursor is connected.
    pub active: u32,
    /// Supported packet data items.
    pub packet_data: u32,
    /// Number of buttons.
    pub buttons: u8,
    /// Bits of raw button data.
    pub button_bits: u8,
    /// Button name list terminator.
    pub button_names: u8,
    /// Logical button numbers.
    pub button_map: Seq<u8>,
    /// Button action codes.
    pub system_button_map: Seq<u8>,
    /// Physical button of normal pressure.
    pub physical_button: u8,
    /// Normal pressure button marks.
    pub npbtnmarks: Seq<u32>,
    /// Normal pressure response curve.
    pub npresponse: Seq<u32>,
    /// Physical button of tangential pressure.
    pub tangential_button: u8,
    /// Tangential pressure button marks.
    pub tpbtnmarks: Seq<u32>,
    /// Tangential pressure response curve.
    pub tpresponse: Seq<u32>,
    /// Physical identifier.
    pub physical_id: u32,
    /// Cursor mode number.
    pub csr_mode: u32,
    /// Minimum packet data.
    pub minpktdata: u32,
    /// Minimum number of buttons.
    pub min_buttons: u32,
    /// Cursor capabilities.
    pub capabilities: u32,
}

impl View for WtiCursors {
    type V = WtiCursorsV;

    open spec fn view(&self) -> WtiCursorsV {
        WtiCursorsV {
            name: self.name@,
            active: self.active,
            packet_data: self.packet_data,
            buttons: self.buttons,
            button_bits: self.button_bits,
            button_names: self.button_names,
            button_map: self.button_map@,
            system_button_map: self.system_button_map@,
            physical_button: self.physical_button,
            npbtnmarks: self.npbtnmarks@,
            npresponse: self.npresponse@,
            tangential_button: self.tangential_button,
            tpbtnmarks: self.tpbtnmarks@,
            tpresponse: self.tpresponse@,
            physical_id: self.physical_id,
            csr_mode: self.csr_mode,
            minpktdata: self.minpktdata,
            min_buttons: self.min_buttons,
            capabilities: self.capabilities,
        }
    }
}

/// A cursor descriptor is well formed when every array fills its fixed width.
pub open spec fn cursors_wf(v: WtiCursorsV) -> bool {
    &&& v.name.len() == CURSORS_NAME_LEN
    &&& v.button_map.len() == CURSORS_BUTTON_MAP_LEN
    &&& v.system_button_map.len() == CURSORS_BUTTON_MAP_LEN
    &&& v.npbtnmarks.len() == 2
    &&& v.npresponse.len() == CURSORS_RESPONSE_LEN
    &&& v.tpbtnmarks.len() == 2
    &&& v.tpresponse.len() == CURSORS_RESPONSE_LEN
}

/// The stock pressure response curve: the identity ramp, one increment per
/// level starting at one.
pub open spec fn response_ramp() -> Seq<u32> {
    Seq::new(CURSORS_RESPONSE_LEN as nat, |i: int| (i + 1) as u32)
}

/// The stock cursor descriptor value.
pub open spec fn default_cursors() -> WtiCursorsV {
    WtiCursorsV {
        name: zeros(CURSORS_NAME_LEN as nat),
        active: 0xFFFFFFFF,
        packet_data: all_packet_fields(),
        buttons: 32,
        button_bits: 32,
        button_names: 0,
        button_map: zeros(CURSORS_BUTTON_MAP_LEN as nat),
        system_button_map: zeros(CURSORS_BUTTON_MAP_LEN as nat),
        physical_button: 0,
        npbtnmarks: seq![0u32, 1u32],
        npresponse: response_ramp(),
        tangential_button: 1,
        tpbtnmarks: seq![0u32, 1u32],
        tpresponse: response_ramp(),
        physical_id: 0,
        csr_mode: 0,
        minpktdata: 0,
        min_buttons: 0,
        capabilities: 0,
    }
}

/// First cursor blob chunk: name, connection state and supported data.
pub open spec fn cursors_blob_a(v: WtiCursorsV) -> Seq<u8> {
    Seq::<u8>::empty() + v.name + u32_le(v.active) + u32_le(v.packet_data)
}

/// Second cursor blob chunk: button counts and maps.
pub open spec fn cursors_blob_b(v: WtiCursorsV) -> Seq<u8> {
    cursors_blob_a(v) + seq![v.buttons] + seq![v.button_bits] + seq![v.button_names]
        + v.button_map + v.system_button_map + seq![v.physical_button]
}

/// Third cursor blob chunk: the pressure marks and response curves, with the
/// alignment gap after the tangential button number.
pub open spec fn cursors_blob_c(v: WtiCursorsV) -> Seq<u8> {
    cursors_blob_b(v) + u32s_le(v.npbtnmarks) + u32s_le(v.npresponse) + seq![v.tangential_button]
        + zeros(3) + u32s_le(v.tpbtnmarks) + u32s_le(v.tpresponse)
}

/// The whole cursor record in its native layout.
pub open spec fn cursors_blob(v: WtiCursorsV) -> Seq<u8> {
    cursors_blob_c(v) + u32_le(v.physical_id) + u32_le(v.csr_mode) + u32_le(v.minpktdata)
        + u32_le(v.min_buttons) + u32_le(v.capabilities)
}

/// A well-formed cursor descriptor serializes to its fixed record size.
pub proof fn lemma_cursors_blob_len(v: WtiCursorsV)
    requires
        cursors_wf(v),
    ensures
        cursors_blob(v).len() == CURSORS_SIZE,
{
    assert(cursors_blob_a(v).len() == 264);
    assert(cursors_blob_b(v).len() == 332);
    lemma_u32s_le_len(v.npbtnmarks);
    lemma_u32s_le_len(v.npresponse);
    lemma_u32s_le_len(v.tpbtnmarks);
    lemma_u32s_le_len(v.tpresponse);
    assert(cursors_blob_c(v).len() == 2400);
}

/// The answer to a cursor introspection query.  The button maps, the marks,
/// the response curves and the aggregate minima answer nothing.
pub open spec fn cursors_info(v: WtiCursorsV, index: u32) -> Seq<u8> {
    if index == 0 {
        cursors_blob(v)
    } else if index == 1 {
        v.name
    } else if index == 2 {
        u32_le(v.active)
    } else if index == 3 {
        u32_le(v.packet_data)
    } else if index == 4 {
        seq![v.buttons]
    } else if index == 5 {
        seq![v.button_bits]
    } else if index == 9 {
        seq![v.physical_button]
    } else if index == 12 {
        seq![v.tangential_button]
    } else if index == 15 {
        u32_le(v.physical_id)
    } else if index == 16 {
        u32_le(v.csr_mode)
    } else if index == 19 {
        u32_le(v.capabilities)
    } else {
        Seq::<u8>::empty()
    }
}

/// A fresh copy of the stock pressure response curve.
fn response_ramp_vec() -> (r: Vec<u32>)
    ensures
        r@ == response_ramp(),
{
    let mut r: Vec<u32> = Vec::new();
    let mut i: usize = 0;
    while i < 256
        invariant
            i <= 256,
            r@ =~= Seq::new(i as nat, |k: int| (k + 1) as u32),
        decreases 256 - i,
    {
        r.push((i + 1) as u32);
        proof {
            assert(r@ =~= Seq::new((i + 1) as nat, |k: int| (k + 1) as u32));
        }
        i = i + 1;
    }
    proof {
        assert(r@ =~= response_ramp());
    }
    r
}

impl WtiCursors {
    /// The engine's stock cursor descriptor: thirty-two buttons, identity
    /// pressure response curves, and always connected.
    pub fn psm_default() -> (r: WtiCursors)
        ensures
            r@ == default_cursors(),
            cursors_wf(r@),
    {
        let r = WtiCursors {
            name: zero_vec(256),
            active: 0xFFFFFFFF,
            packet_data: PK_CONTEXT | PK_STATUS | PK_TIME | PK_CHANGED | PK_SERIAL_NUMBER
                | PK_CURSOR | PK_BUTTONS | PK_X | PK_Y | PK_Z | PK_NORMAL_PRESSURE
                | PK_TANGENT_PRESSURE | PK_ORIENTATION | PK_ROTATION,
            buttons: 32,
            button_bits: 32,
            button_names: 0,
            button_map: zero_vec(32),
            system_button_map: zero_vec(32),
            physical_button: 0,
            npbtnmarks: vec![0u32, 1u32],
            npresponse: response_ramp_vec(),
            tangential_button: 1,
            tpbtnmarks: vec![0u32, 1u32],
            tpresponse: response_ramp_vec(),
            physical_id: 0,
            csr_mode: 0,
            minpktdata: 0,
            min_buttons: 0,
            capabilities: 0,
        };
        proof {
            assert(r.npbtnmarks@ =~= seq![0u32, 1u32]);
            assert(r.tpbtnmarks@ =~= seq![0u32, 1u32]);
        }
        r
    }

    /// Serializes the whole record in its native layout.
    pub fn blob(&self) -> (r: Vec<u8>)
        ensures
            r@ == cursors_blob(self@),
    {
        let mut out: Vec<u8> = Vec::new();
        push_bytes(&mut out, &self.name);
        push_u32_le(&mut out, self.active);
        push_u32_le(&mut out, self.packet_data);
        assert(out@ == cursors_blob_a(self@));
        out.push(self.buttons);
        proof {
            assert(out@ =~= cursors_blob_a(self@) + seq![self@.buttons]);
        }
        out.push(self.button_bits);
        proof {
            assert(out@ =~= cursors_blob_a(self@) + seq![self@.buttons] + seq![self@.button_bits]);
        }
        out.push(self.button_names);
        proof {
            assert(out@ =~= cursors_blob_a(self@) + seq![self@.buttons] + seq![self@.button_bits]
                + seq![self@.button_names]);
        }
        push_bytes(&mut out, &self.button_map);
        push_bytes(&mut out, &self.system_button_map);
        out.push(self.physical_button);
        proof {
            assert(out@ =~= cursors_blob_b(self@));
        }
        push_u32s(&mut out, &self.npbtnmarks);
        push_u32s(&mut out, &self.npresponse);
        out.push(self.tangential_button);
        proof {
            assert(out@ =~= cursors_blob_b(self@) + u32s_le(self@.npbtnmarks) + u32s_le(
                self@.npresponse,
            ) + seq![self@.tangential_button]);
        }
        push_zeros(&mut out, 3);
        push_u32s(&mut out, &self.tpbtnmarks);
        push_u32s(&mut out, &self.tpresponse);
        proof {
            assert(out@ =~= cursors_blob_c(self@));
        }
        push_u32_le(&mut out, self.physical_id);
        push_u32_le(&mut out, self.csr_mode);
        push_u32_le(&mut out, self.minpktdata);
        push_u32_le(&mut out, self.min_buttons);
        push_u32_le(&mut out, self.capabilities);
        assert(out@ == cursors_blob(self@));
        out
    }

    /// Answers an introspection query: the serialized value of the addressed
    /// field and its byte count.
    pub fn handle_info(&self, index: u32) -> (r: (u32, Vec<u8>))
        requires
            cursors_wf(self@),
        ensures
            r.1@ == cursors_info(self@, index),
            r.0 == r.1@.len(),
    {
        let (size, data): (u32, Vec<u8>) = if index == 0 {
            let b = self.blob();
            proof {
                lemma_cursors_blob_len(self@);
            }
            (2420, b)
        } else if index == 1 {
            (256, bytes_copy(&self.name))
        } else if index == 2 {
            (4, u32_bytes(self.active))
        } else if index == 3 {
            (4, u32_bytes(self.packet_data))
        } else if index == 4 {
            (1, u8_bytes(self.buttons))
        } else if index == 5 {
            (1, u8_bytes(self.button_bits))
        } else if index == 9 {
            (1, u8_bytes(self.physical_button))
        } else if index == 12 {
            (1, u8_bytes(self.tangential_button))
        } else if index == 15 {
            (4, u32_bytes(self.physical_id))
        } else if index == 16 {
            (4, u32_bytes(self.csr_mode))
        } else if index == 19 {
            (4, u32_bytes(self.capabilities))
        } else {
            (0, Vec::new())
        };
        (size, data)
    }
}

} // verus!
