//! The control protocol spoken with the external event generator.
//!
//! The transport carries a stream of frames: a four-byte big-endian length
//! prefix followed by exactly that many payload bytes.  A payload is a
//! structured message; the engine consumes client messages and answers the
//! greeting with a greeting acknowledgement carrying the compatibility
//! version.  Turning payload bytes into message values and back is the
//! transport adapter's concern; the frame arithmetic and every state
//! transition a message causes are the engine's.

use vstd::prelude::*;

use crate::descriptors::{axis_wf, Axis};

verus! {

/// Protocol version announced in the greeting acknowledgement.
pub const COMPATIBLE_VERSION: u32 = 1;

/// A message from the event generator to the engine.
#[derive(Debug)]
pub enum PSMPacketC2S {
    /// Greeting; the first message a well-behaved generator sends.
    Hi {
        /// Display name and version of the client.
        name: String,
    },
    /// One pointer event to deliver to every enabled session.
    TabletEvent {
        /// Status and error conditions.
        status: u32,
        /// Button state word.
        buttons: u32,
        /// Cursor location, x.
        x: u32,
        /// Cursor location, y.
        y: u32,
        /// Cursor location, z.
        z: u32,
        /// Normal pressure.
        normal_pressure: u32,
        /// Tangential pressure.
        tangential_pressure: u32,
    },
    /// Whether the stylus is in proximity.
    Proximity {
        /// True when the stylus entered proximity.
        value: bool,
    },
    /// Rewrite the configuration of every enabled session.
    ConfigureContext {
        /// Status flags.
        status: u32,
        /// Packet report rate in Hertz.
        packet_rate: u32,
        /// Relative-mode mask.
        packet_mode: u32,
        /// Motion event mask.
        move_mask: u32,
        /// Origin of the input area, x.
        in_org_x: i32,
        /// Origin of the input area, y.
        in_org_y: i32,
        /// Origin of the input area, z.
        in_org_z: i32,
        /// Extent of the input area, x.
        in_ext_x: i32,
        /// Extent of the input area, y.
        in_ext_y: i32,
        /// Extent of the input area, z.
        in_ext_z: i32,
        /// Origin of the output space, x.
        out_org_x: i32,
        /// Origin of the output space, y.
        out_org_y: i32,
        /// Origin of the output space, z.
        out_org_z: i32,
        /// Extent of the output space, x.
        out_ext_x: i32,
        /// Extent of the output space, y.
        out_ext_y: i32,
        /// Extent of the output space, z.
        out_ext_z: i32,
        /// Screen display origin in pixels, x.
        sys_org_x: i32,
        /// Screen display origin in pixels, y.
        sys_org_y: i32,
        /// Screen display size in pixels, x.
        sys_ext_x: i32,
        /// Screen display size in pixels, y.
        sys_ext_y: i32,
    },
    /// Rewrite the shared device descriptor.
    ConfigureDevice {
        /// Hardware capability flags.
        hardware: u32,
        /// Maximum packet report rate in Hertz.
        packet_rate: u32,
        /// Relative-mode mask.
        packet_mode: u32,
        /// Context margin, x.
        x_margin: i32,
        /// Context margin, y.
        y_margin: i32,
        /// Context margin, z.
        z_margin: i32,
        /// Range and resolution, x axis.
        device_x: Axis,
        /// Range and resolution, y axis.
        device_y: Axis,
        /// Range and resolution, z axis.
        device_z: Axis,
        /// Normal pressure range.
        normal_pressure: Axis,
        /// Tangential pressure range.
        tangential_pressure: Axis,
        /// Orientation ranges; three axes.
        orientation: Vec<Axis>,
        /// Rotation ranges; three axes.
        rotation: Vec<Axis>,
    },
    /// Free-form diagnostic text; ignored by the engine.
    Debug {
        /// The diagnostic text.
        msg: String,
    },
}

/// A message from the engine to the event generator.
#[derive(Debug)]
pub enum PSMPacketS2C {
    /// Greeting acknowledgement.
    Hi {
        /// The engine's compatible protocol version.
        compatible: u32,
    },
}

/// A message is well formed when any axes it carries respect the axis
/// invariant and the axis arrays hold three entries each.
pub open spec fn message_wf(m: PSMPacketC2S) -> bool {
    match m {
        PSMPacketC2S::ConfigureDevice {
            device_x,
            device_y,
            device_z,
            normal_pressure,
            tangential_pressure,
            orientation,
            rotation,
            ..
        } => {
            &&& axis_wf(device_x)
            &&& axis_wf(device_y)
            &&& axis_wf(device_z)
            &&& axis_wf(normal_pressure)
            &&& axis_wf(tangential_pressure)
            &&& orientation@.len() == 3
            &&& rotation@.len() == 3
            &&& forall|i: int| 0 <= i < orientation@.len() ==> axis_wf(#[trigger] orientation@[i])
            &&& forall|i: int| 0 <= i < rotation@.len() ==> axis_wf(#[trigger] rotation@[i])
        },
        _ => true,
    }
}

impl PSMPacketC2S {
    /// Whether this message is well formed; a transport adapter checks this
    /// before handing the message to the engine.
    #[verifier::loop_isolation(false)]
    pub fn valid(&self) -> (r: bool)
        ensures
            r == message_wf(*self),
    {
        match self {
            PSMPacketC2S::ConfigureDevice {
                device_x,
                device_y,
                device_z,
                normal_pressure,
                tangential_pressure,
                orientation,
                rotation,
                ..
            } => {
                let mut ok = device_x.min <= device_x.max && device_x.units <= 3
                    && device_y.min <= device_y.max && device_y.units <= 3 && device_z.min
                    <= device_z.max && device_z.units <= 3 && normal_pressure.min
                    <= normal_pressure.max && normal_pressure.units <= 3 && tangential_pressure.min
                    <= tangential_pressure.max && tangential_pressure.units <= 3
                    && orientation.len() == 3 && rotation.len() == 3;
                if ok {
                    let mut i: usize = 0;
                    while i < orientation.len()
                        invariant
                            ok,
                            i <= orientation@.len(),
                            forall|k: int| 0 <= k < i ==> axis_wf(#[trigger] orientation@[k]),
                        decreases orientation@.len() - i,
                    {
                        if !(orientation[i].min <= orientation[i].max && orientation[i].units
                            <= 3) {
                            proof {
                                assert(!axis_wf(orientation@[i as int]));
                            }
                            return false;
                        }
                        i = i + 1;
                    }
                    let mut j: usize = 0;
                    while j < rotation.len()
                        invariant
                            ok,
                            j <= rotation@.len(),
                            forall|k: int| 0 <= k < j ==> axis_wf(#[trigger] rotation@[k]),
                        decreases rotation@.len() - j,
                    {
                        if !(rotation[j].min <= rotation[j].max && rotation[j].units <= 3) {
                            proof {
                                assert(!axis_wf(rotation@[j as int]));
                            }
                            return false;
                        }
                        j = j + 1;
                    }
                }
                ok
            },
            _ => true,
        }
    }
}

/// The frame length named by a four-byte big-endian prefix.
pub open spec fn frame_len(prefix: Seq<u8>) -> nat
    recommends
        prefix.len() == 4,
{
    (prefix[0] as nat) * 0x1000000 + (prefix[1] as nat) * 0x10000 + (prefix[2] as nat) * 0x100 + (
    prefix[3] as nat)
}

/// A byte stream holds a complete frame when the prefix is there and the
/// announced payload was delivered in full.
pub open spec fn frame_complete(buf: Seq<u8>) -> bool {
    buf.len() >= 4 && buf.len() - 4 >= frame_len(buf.take(4))
}

/// The payload of the first frame of a byte stream.
pub open spec fn frame_payload(buf: Seq<u8>) -> Seq<u8>
    recommends
        frame_complete(buf),
{
    buf.subrange(4, 4 + frame_len(buf.take(4)) as int)
}

/// Reads the length out of a four-byte big-endian prefix.
pub fn parse_frame_len(prefix: &Vec<u8>) -> (r: u32)
    requires
        prefix@.len() == 4,
    ensures
        r as nat == frame_len(prefix@),
{
    (prefix[0] as u32) * 0x1000000 + (prefix[1] as u32) * 0x10000 + (prefix[2] as u32) * 0x100 + (
    prefix[3] as u32)
}

/// Writes `len` as a four-byte big-endian prefix.
pub fn encode_frame_len(len: u32) -> (r: Vec<u8>)
    ensures
        r@.len() == 4,
        frame_len(r@) == len,
{
    proof {
        assert(((len >> 24) & 0xff) < 256 && ((len >> 16) & 0xff) < 256 && ((len >> 8) & 0xff)
            < 256 && (len & 0xff) < 256 && ((len >> 24) & 0xff) * 0x1000000 + ((len >> 16) & 0xff)
            * 0x10000 + ((len >> 8) & 0xff) * 0x100 + (len & 0xff) == len) by (bit_vector);
    }
    let mut r: Vec<u8> = Vec::new();
    r.push(((len >> 24) & 0xff) as u8);
    r.push(((len >> 16) & 0xff) as u8);
    r.push(((len >> 8) & 0xff) as u8);
    r.push((len & 0xff) as u8);
    r
}

/// Takes the first complete frame off the front of `buf`: the payload when
/// the whole announced length was delivered, nothing while the frame is
/// still short — a prefix that promises more bytes than are there yields no
/// frame.
#[verifier::loop_isolation(false)]
pub fn extract_frame(buf: &Vec<u8>) -> (r: Option<Vec<u8>>)
    ensures
        r is Some <==> frame_complete(buf@),
        r matches Some(p) ==> p@ == frame_payload(buf@),
{
    if buf.len() < 4 {
        return None;
    }
    let prefix: Vec<u8> = vec![buf[0], buf[1], buf[2], buf[3]];
    proof {
        assert(prefix@ =~= buf@.take(4));
    }
    let len = parse_frame_len(&prefix) as usize;
    if buf.len() - 4 < len {
        return None;
    }
    let mut payload: Vec<u8> = Vec::new();
    let mut i: usize = 0;
    while i < len
        invariant
            i <= len,
            len <= buf@.len() - 4,
            payload@ == buf@.subrange(4, 4 + i as int),
        decreases len - i,
    {
        payload.push(buf[4 + i]);
        proof {
            assert(payload@ =~= buf@.subrange(4, 4 + (i + 1)));
        }
        i = i + 1;
    }
    Some(payload)
}

/// Builds the whole frame for a payload: the big-endian length prefix
/// followed by the payload bytes.
pub fn encode_frame(payload: &Vec<u8>) -> (r: Vec<u8>)
    requires
        payload@.len() <= u32::MAX,
    ensures
        r@.len() == 4 + payload@.len(),
        frame_complete(r@),
        frame_payload(r@) == payload@,
{
    let len: u32 = payload.len() as u32;
    let mut r = encode_frame_len(len);
    let ghost prefix = r@;
    crate::bytes::push_bytes(&mut r, payload);
    proof {
        assert(r@.take(4) =~= prefix);
        assert(r@.subrange(4, 4 + frame_len(r@.take(4)) as int) =~= payload@);
    }
    r
}

} // verus!
