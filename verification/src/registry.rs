//! The registry: the set of live sessions, the shared device and cursor
//! descriptors, the loaded configuration and the handle counter, behind one
//! point of mutual exclusion.
//!
//! Every public operation addresses a session by handle; an unknown handle
//! answers a lookup failure, never a panic.

use vstd::prelude::*;

use crate::codec::{spec_encode, Orientation, Packet, Rotation};
use crate::descriptors::{
    axis_wf, cursors_info, cursors_wf, default_cursors, default_devices, default_interface,
    default_logical_context, devices_info, devices_wf, interface_info, logctx_info,
    logical_context_wf, Axis, WtiCursors, WtiCursorsV, WtiDevices, WtiDevicesV, WtiInterface,
    WtiLogicalContext, WtiLogicalContextV, CXO_SYSTEM, LOGICAL_CONTEXT_SIZE, WTI_CURSORS,
    WTI_DDCTXS, WTI_DEFCONTEXT, WTI_DEFSYSCTX, WTI_DEVICES, WTI_DSCTXS, WTI_INTERFACE,
};
use crate::netcode::{message_wf, PSMPacketC2S, PSMPacketS2C, COMPATIBLE_VERSION};
use crate::notify::Notification;
use crate::session::{
    context_update_notification, context_wf, discard_below, fetch_found, info_change_notification,
    packet_notification, peek_result, proximity_notification, send_packet_result, take_count,
    Context, ContextV, PsmError,
};

verus! {

/// The initial values a registry is constructed from.
#[derive(Debug)]
pub struct Config {
    /// The tablet preset applied to the default context and the device.
    pub preset: TabletPreset,
}

/// A preset: the coordinate, rate, mask, margin and axis values that
/// overwrite the stock descriptors once at construction.
#[derive(Debug)]
pub struct TabletPreset {
    /// Status flags.
    pub status: u32,
    /// Packet report rate in Hertz.
    pub packet_rate: u32,
    /// Relative-mode mask.
    pub packet_mode: u32,
    /// Motion event mask.
    pub move_mask: u32,
    /// Origin of the input area, x.
    pub in_org_x: i32,
    /// Origin of the input area, y.
    pub in_org_y: i32,
    /// Origin of the input area, z.
    pub in_org_z: i32,
    /// Extent of the input area, x.
    pub in_ext_x: i32,
    /// Extent of the input area, y.
    pub in_ext_y: i32,
    /// Extent of the input area, z.
    pub in_ext_z: i32,
    /// Origin of the output space, x.
    pub out_org_x: i32,
    /// Origin of the output space, y.
    pub out_org_y: i32,
    /// Origin of the output space, z.
    pub out_org_z: i32,
    /// Extent of the output space, x.
    pub out_ext_x: i32,
    /// Extent of the output space, y.
    pub out_ext_y: i32,
    /// Extent of the output space, z.
    pub out_ext_z: i32,
    /// Screen display origin in pixels, x.
    pub sys_org_x: i32,
    /// Screen display origin in pixels, y.
    pub sys_org_y: i32,
    /// Screen display size in pixels, x.
    pub sys_ext_x: i32,
    /// Screen display size in pixels, y.
    pub sys_ext_y: i32,
    /// Hardware capability flags.
    pub hardware: u32,
    /// Context margin, x.
    pub x_margin: i32,
    /// Context margin, y.
    pub y_margin: i32,
    /// Context margin, z.
    pub z_margin: i32,
    /// Range and resolution, x axis.
    pub device_x: Axis,
    /// Range and resolution, y axis.
    pub device_y: Axis,
    /// Range and resolution, z axis.
    pub device_z: Axis,
    /// Normal pressure range.
    pub normal_pressure: Axis,
    /// Tangential pressure range.
    pub tangential_pressure: Axis,
    /// Orientation ranges; three axes.
    pub orientation: Vec<Axis>,
    /// Rotation ranges; three axes.
    pub rotation: Vec<Axis>,
}

/// Mathematical value of a preset.
pub struct TabletPresetV {
    /// Status flags.
    pub status: u32,
    /// Packet report rate.
    pub packet_rate: u32,
    /// Relative-mode mask.
    pub packet_mode: u32,
    /// Motion event mask.
    pub move_mask: u32,
    /// Origin of the input area, x.
    pub in_org_x: i32,
    /// Origin of the input area, y.
    pub in_org_y: i32,
    /// Origin of the input area, z.
    pub in_org_z: i32,
    /// Extent of the input area, x.
    pub in_ext_x: i32,
    /// Extent of the input area, y.
    pub in_ext_y: i32,
    /// Extent of the input area, z.
    pub in_ext_z: i32,
    /// Origin of the output space, x.
    pub out_org_x: i32,
    /// Origin of the output space, y.
    pub out_org_y: i32,
    /// Origin of the output space, z.
    pub out_org_z: i32,
    /// Extent of the output space, x.
    pub out_ext_x: i32,
    /// Extent of the output space, y.
    pub out_ext_y: i32,
    /// Extent of the output space, z.
    pub out_ext_z: i32,
    /// Screen display origin, x.
    pub sys_org_x: i32,
    /// Screen display origin, y.
    pub sys_org_y: i32,
    /// Screen display size, x.
    pub sys_ext_x: i32,
    /// Screen display size, y.
    pub sys_ext_y: i32,
    /// Hardware capability flags.
    pub hardware: u32,
    /// Context margin, x.
    pub x_margin: i32,
    /// Context margin, y.
    pub y_margin: i32,
    /// Context margin, z.
    pub z_margin: i32,
    /// Range and resolution, x axis.
    pub device_x: Axis,
    /// Range and resolution, y axis.
    pub device_y: Axis,
    /// Range and resolution, z axis.
    pub device_z: Axis,
    /// Normal pressure range.
    pub normal_pressure: Axis,
    /// Tangential pressure range.
    pub tangential_pressure: Axis,
    /// Orientation ranges.
    pub orientation: Seq<Axis>,
    /// Rotation ranges.
    pub rotation: Seq<Axis>,
}

impl View for TabletPreset {
    type V = TabletPresetV;

    open spec fn view(&self) -> TabletPresetV {
        TabletPresetV {
            status: self.status,
            packet_rate: self.packet_rate,
            packet_mode: self.packet_mode,
            move_mask: self.move_mask,
            in_org_x: self.in_org_x,
            in_org_y: self.in_org_y,
            in_org_z: self.in_org_z,
            in_ext_x: self.in_ext_x,
            in_ext_y: self.in_ext_y,
            in_ext_z: self.in_ext_z,
            out_org_x: self.out_org_x,
            out_org_y: self.out_org_y,
            out_org_z: self.out_org_z,
            out_ext_x: self.out_ext_x,
            out_ext_y: self.out_ext_y,
            out_ext_z: self.out_ext_z,
            sys_org_x: self.sys_org_x,
            sys_org_y: self.sys_org_y,
            sys_ext_x: self.sys_ext_x,
            sys_ext_y: self.sys_ext_y,
            hardware: self.hardware,
            x_margin: self.x_margin,
            y_margin: self.y_margin,
            z_margin: self.z_margin,
            device_x: self.device_x,
            device_y: self.device_y,
            device_z: self.device_z,
            normal_pressure: self.normal_pressure,
            tangential_pressure: self.tangential_pressure,
            orientation: self.orientation@,
            rotation: self.rotation@,
        }
    }
}

/// Mathematical value of a configuration.
pub struct ConfigV {
    /// The preset.
    pub preset: TabletPresetV,
}

impl View for Config {
    type V = ConfigV;

    open spec fn view(&self) -> ConfigV {
        ConfigV { preset: self.preset@ }
    }
}

/// A preset is well formed when its axes are and its axis arrays hold three
/// entries each.
pub open spec fn preset_wf(p: TabletPresetV) -> bool {
    &&& axis_wf(p.device_x)
    &&& axis_wf(p.device_y)
    &&& axis_wf(p.device_z)
    &&& axis_wf(p.normal_pressure)
    &&& axis_wf(p.tangential_pressure)
    &&& p.orientation.len() == 3
    &&& p.rotation.len() == 3
    &&& forall|i: int| 0 <= i < p.orientation.len() ==> axis_wf(#[trigger] p.orientation[i])
    &&& forall|i: int| 0 <= i < p.rotation.len() ==> axis_wf(#[trigger] p.rotation[i])
}

impl TabletPreset {
    /// Whether this preset is well formed; a loader checks this before
    /// constructing a registry from it.
    #[verifier::loop_isolation(false)]
    pub fn valid(&self) -> (r: bool)
        ensures
            r == preset_wf(self@),
    {
        let ok = self.device_x.min <= self.device_x.max && self.device_x.units <= 3
            && self.device_y.min <= self.device_y.max && self.device_y.units <= 3
            && self.device_z.min <= self.device_z.max && self.device_z.units <= 3
            && self.normal_pressure.min <= self.normal_pressure.max && self.normal_pressure.units
            <= 3 && self.tangential_pressure.min <= self.tangential_pressure.max
            && self.tangential_pressure.units <= 3 && self.orientation.len() == 3
            && self.rotation.len() == 3;
        if !ok {
            return false;
        }
        let mut i: usize = 0;
        while i < self.orientation.len()
            invariant
                i <= self.orientation@.len(),
                forall|k: int| 0 <= k < i ==> axis_wf(#[trigger] self.orientation@[k]),
            decreases self.orientation@.len() - i,
        {
            if !(self.orientation[i].min <= self.orientation[i].max && self.orientation[i].units
                <= 3) {
                proof {
                    assert(!axis_wf(self.orientation@[i as int]));
                }
                return false;
            }
            i = i + 1;
        }
        let mut j: usize = 0;
        while j < self.rotation.len()
            invariant
                j <= self.rotation@.len(),
                forall|k: int| 0 <= k < j ==> axis_wf(#[trigger] self.rotation@[k]),
            decreases self.rotation@.len() - j,
        {
            if !(self.rotation[j].min <= self.rotation[j].max && self.rotation[j].units <= 3) {
                proof {
                    assert(!axis_wf(self.rotation@[j as int]));
                }
                return false;
            }
            j = j + 1;
        }
        true
    }
}

/// The logical context template with a preset's coordinate, rate and mask
/// values written over it.
pub open spec fn preset_context(lc: WtiLogicalContextV, p: TabletPresetV) -> WtiLogicalContextV {
    WtiLogicalContextV {
        status: p.status,
        packet_rate: p.packet_rate,
        packet_mode: p.packet_mode,
        move_mask: p.move_mask,
        in_org_x: p.in_org_x,
        in_org_y: p.in_org_y,
        in_org_z: p.in_org_z,
        in_ext_x: p.in_ext_x,
        in_ext_y: p.in_ext_y,
        in_ext_z: p.in_ext_z,
        out_org_x: p.out_org_x,
        out_org_y: p.out_org_y,
        out_org_z: p.out_org_z,
        out_ext_x: p.out_ext_x,
        out_ext_y: p.out_ext_y,
        out_ext_z: p.out_ext_z,
        sys_org_x: p.sys_org_x,
        sys_org_y: p.sys_org_y,
        sys_ext_x: p.sys_ext_x,
        sys_ext_y: p.sys_ext_y,
        ..lc
    }
}

/// The device descriptor with a preset's hardware, rate, margin and axis
/// values written over it.
pub open spec fn preset_device(d: WtiDevicesV, p: TabletPresetV) -> WtiDevicesV {
    WtiDevicesV {
        hardware: p.hardware,
        packet_rate: p.packet_rate,
        packet_mode: p.packet_mode,
        x_margin: p.x_margin,
        y_margin: p.y_margin,
        z_margin: p.z_margin,
        device_x: p.device_x,
        device_y: p.device_y,
        device_z: p.device_z,
        normal_pressure: p.normal_pressure,
        tangential_pressure: p.tangential_pressure,
        orientation: p.orientation,
        rotation: p.rotation,
        ..d
    }
}

/// The registry state.
#[derive(Debug)]
pub struct PSM {
    /// The live sessions, ordered by handle.
    pub contexts: Vec<Context>,
    /// The last assigned session handle.
    pub counter: usize,
    /// The logical context template answered by introspection.
    pub default_context: WtiLogicalContext,
    /// The shared device descriptor.
    pub device: WtiDevices,
    /// The shared cursor descriptor.
    pub cursor: WtiCursors,
    /// The configuration loaded at construction.
    pub config: Config,
}

/// Mathematical value of the registry.
pub struct PsmV {
    /// The live sessions, ordered by handle.
    pub contexts: Seq<ContextV>,
    /// The last assigned session handle.
    pub counter: usize,
    /// The logical context template.
    pub default_context: WtiLogicalContextV,
    /// The shared device descriptor.
    pub device: WtiDevicesV,
    /// The shared cursor descriptor.
    pub cursor: WtiCursorsV,
    /// The loaded configuration.
    pub config: ConfigV,
}

/// The mathematical values of a sequence of sessions.
pub open spec fn views_of(s: Seq<Context>) -> Seq<ContextV> {
    s.map_values(|c: Context| c@)
}

impl View for PSM {
    type V = PsmV;

    open spec fn view(&self) -> PsmV {
        PsmV {
            contexts: views_of(self.contexts@),
            counter: self.counter,
            default_context: self.default_context@,
            device: self.device@,
            cursor: self.cursor@,
            config: self.config@,
        }
    }
}

/// A registry is well formed when every session is, the handles are strictly
/// increasing and none exceeds the counter, and the shared descriptors and
/// the configuration keep their invariants.
pub open spec fn psm_wf(v: PsmV) -> bool {
    &&& forall|i: int| 0 <= i < v.contexts.len() ==> context_wf(#[trigger] v.contexts[i])
    &&& forall|i: int, j: int|
        0 <= i < j < v.contexts.len() ==> v.contexts[i].handle < v.contexts[j].handle
    &&& forall|i: int|
        0 <= i < v.contexts.len() ==> 1 <= (#[trigger] v.contexts[i]).handle <= v.counter
    &&& logical_context_wf(v.default_context)
    &&& devices_wf(v.device)
    &&& cursors_wf(v.cursor)
    &&& preset_wf(v.config.preset)
}

/// Whether some live session carries the handle.
pub open spec fn has_handle(s: Seq<ContextV>, handle: usize) -> bool {
    exists|i: int| 0 <= i < s.len() && (#[trigger] s[i]).handle == handle
}

/// A fresh copy of an axis array.
fn copy_axes(data: &Vec<Axis>) -> (r: Vec<Axis>)
    ensures
        r@ == data@,
{
    let mut r: Vec<Axis> = Vec::new();
    let mut i: usize = 0;
    while i < data.len()
        invariant
            i <= data@.len(),
            r@ == data@.take(i as int),
        decreases data@.len() - i,
    {
        r.push(data[i]);
        proof {
            assert(r@ =~= data@.take((i + 1) as int));
        }
        i = i + 1;
    }
    proof {
        assert(data@.take(data@.len() as int) =~= data@);
    }
    r
}

impl PSM {
    /// Writes the preset over the default context template and the device
    /// descriptor; everything else keeps its value.
    fn apply_config(&mut self)
        ensures
            final(self)@ == (PsmV {
                default_context: preset_context(
                    old(self)@.default_context,
                    old(self)@.config.preset,
                ),
                device: preset_device(old(self)@.device, old(self)@.config.preset),
                ..old(self)@
            }),
    {
        self.default_context.status = self.config.preset.status;
        self.default_context.packet_rate = self.config.preset.packet_rate;
        self.default_context.packet_mode = self.config.preset.packet_mode;
        self.default_context.move_mask = self.config.preset.move_mask;
        self.default_context.in_org_x = self.config.preset.in_org_x;
        self.default_context.in_org_y = self.config.preset.in_org_y;
        self.default_context.in_org_z = self.config.preset.in_org_z;
        self.default_context.in_ext_x = self.config.preset.in_ext_x;
        self.default_context.in_ext_y = self.config.preset.in_ext_y;
        self.default_context.in_ext_z = self.config.preset.in_ext_z;
        self.default_context.out_org_x = self.config.preset.out_org_x;
        self.default_context.out_org_y = self.config.preset.out_org_y;
        self.default_context.out_org_z = self.config.preset.out_org_z;
        self.default_context.out_ext_x = self.config.preset.out_ext_x;
        self.default_context.out_ext_y = self.config.preset.out_ext_y;
        self.default_context.out_ext_z = self.config.preset.out_ext_z;
        self.default_context.sys_org_x = self.config.preset.sys_org_x;
        self.default_context.sys_org_y = self.config.preset.sys_org_y;
        self.default_context.sys_ext_x = self.config.preset.sys_ext_x;
        self.default_context.sys_ext_y = self.config.preset.sys_ext_y;
        self.device.hardware = self.config.preset.hardware;
        self.device.packet_rate = self.config.preset.packet_rate;
        self.device.packet_mode = self.config.preset.packet_mode;
        self.device.x_margin = self.config.preset.x_margin;
        self.device.y_margin = self.config.preset.y_margin;
        self.device.z_margin = self.config.preset.z_margin;
        self.device.device_x = self.config.preset.device_x;
        self.device.device_y = self.config.preset.device_y;
        self.device.device_z = self.config.preset.device_z;
        self.device.normal_pressure = self.config.preset.normal_pressure;
        self.device.tangential_pressure = self.config.preset.tangential_pressure;
        self.device.orientation = copy_axes(&self.config.preset.orientation);
        self.device.rotation = copy_axes(&self.config.preset.rotation);
    }

    /// A fresh registry: no sessions, the counter at zero, the stock
    /// descriptors with the preset written over the context template and the
    /// device.
    pub fn new(config: Config) -> (r: PSM)
        requires
            preset_wf(config@.preset),
        ensures
            r@.contexts == Seq::<ContextV>::empty(),
            r@.counter == 0,
            r@.default_context == preset_context(default_logical_context(), config@.preset),
            r@.device == preset_device(default_devices(), config@.preset),
            r@.cursor == default_cursors(),
            r@.config == config@,
            psm_wf(r@),
    {
        let mut state = PSM {
            contexts: Vec::new(),
            counter: 0,
            default_context: WtiLogicalContext::psm_default(),
            device: WtiDevices::psm_default(),
            cursor: WtiCursors::psm_default(),
            config,
        };
        state.apply_config();
        proof {
            assert(views_of(Seq::<Context>::empty()) =~= Seq::<ContextV>::empty());
        }
        state
    }

    /// The position of the session carrying `ctx_id`, if one does.
    fn find_context(&self, ctx_id: usize) -> (r: Option<usize>)
        ensures
            r matches Some(i) ==> i < self@.contexts.len() && self@.contexts[i as int].handle
                == ctx_id,
            r is None ==> !has_handle(self@.contexts, ctx_id),
    {
        let mut i: usize = 0;
        while i < self.contexts.len()
            invariant
                i <= self@.contexts.len(),
                forall|k: int| 0 <= k < i ==> (#[trigger] self@.contexts[k]).handle != ctx_id,
            decreases self@.contexts.len() - i,
        {
            if self.contexts[i].handle == ctx_id {
                return Some(i);
            }
            i = i + 1;
        }
        None
    }

    /// Opens a new session: allocates the next handle, registers a session
    /// with the given target, configuration, enabled flag and creation clock
    /// reading, and returns the handle.  Always succeeds.
    pub fn open(
        &mut self,
        target: usize,
        logical_context: WtiLogicalContext,
        enabled: bool,
        now_ms: u32,
    ) -> (r: usize)
        requires
            psm_wf(old(self)@),
            old(self)@.counter < usize::MAX,
            logical_context_wf(logical_context@),
        ensures
            psm_wf(final(self)@),
            r == old(self)@.counter + 1,
            final(self)@ == (PsmV {
                contexts: old(self)@.contexts.push(
                    ContextV {
                        handle: r,
                        enabled,
                        target,
                        logical_context: logical_context@,
                        packets: Seq::<Packet>::empty(),
                        queue_size: 1024,
                        serial: 0,
                        created_ms: now_ms,
                    },
                ),
                counter: r,
                ..old(self)@
            }),
    {
        self.counter = self.counter + 1;
        let handle = self.counter;
        let mut context = Context::new(handle, enabled, now_ms);
        context.target = target;
        context.logical_context = logical_context;
        let ghost cv = context@;
        self.contexts.push(context);
        proof {
            assert(views_of(self.contexts@) =~= views_of(old(self).contexts@).push(cv));
            let s = self@.contexts;
            assert forall|i: int, j: int|
                0 <= i < j < s.len() implies s[i].handle < s[j].handle by {
                if j + 1 < s.len() {
                } else {
                    assert(s[j] == cv);
                }
            }
        }
        handle
    }

    /// Sets whether the addressed session delivers events; false when the
    /// handle is unknown.
    pub fn enable(&mut self, ctx_id: usize, enable: bool) -> (r: bool)
        requires
            psm_wf(old(self)@),
        ensures
            psm_wf(final(self)@),
            r == has_handle(old(self)@.contexts, ctx_id),
            !r ==> final(self)@ == old(self)@,
            r ==> exists|i: int|
                #![auto]
                0 <= i < old(self)@.contexts.len() && old(self)@.contexts[i].handle == ctx_id
                    && final(self)@ == (PsmV {
                    contexts: old(self)@.contexts.update(
                        i,
                        ContextV { enabled: enable, ..old(self)@.contexts[i] },
                    ),
                    ..old(self)@
                }),
    {
        let idx = match self.find_context(ctx_id) {
            Some(i) => i,
            None => {
                return false;
            },
        };
        let c = &mut self.contexts[idx];
        c.enabled = enable;
        proof {
            let s0 = old(self).contexts@;
            assert(views_of(self.contexts@) =~= views_of(s0).update(
                idx as int,
                ContextV { enabled: enable, ..views_of(s0)[idx as int] },
            ));
        }
        true
    }

    /// Closes the addressed session, discarding its queue; reports success
    /// whether or not the handle was known.
    pub fn close(&mut self, ctx_id: usize) -> (r: bool)
        requires
            psm_wf(old(self)@),
        ensures
            psm_wf(final(self)@),
            r == true,
            !has_handle(old(self)@.contexts, ctx_id) ==> final(self)@ == old(self)@,
            has_handle(old(self)@.contexts, ctx_id) ==> exists|i: int|
                #![auto]
                0 <= i < old(self)@.contexts.len() && old(self)@.contexts[i].handle == ctx_id
                    && final(self)@ == (PsmV {
                    contexts: old(self)@.contexts.remove(i),
                    ..old(self)@
                }),
    {
        let idx = match self.find_context(ctx_id) {
            Some(i) => i,
            None => {
                return true;
            },
        };
        self.contexts.remove(idx);
        proof {
            let s0 = old(self).contexts@;
            let v0 = views_of(s0);
            assert(views_of(self.contexts@) =~= v0.remove(idx as int));
            v0.remove_ensures(idx as int);
            let s = self@.contexts;
            assert forall|i: int, j: int|
                0 <= i < j < s.len() implies s[i].handle < s[j].handle by {
                assert(s[i] == if i < idx as int {
                    v0[i]
                } else {
                    v0[i + 1]
                });
                assert(s[j] == if j < idx as int {
                    v0[j]
                } else {
                    v0[j + 1]
                });
            }
            assert forall|i: int| 0 <= i < s.len() implies context_wf(#[trigger] s[i]) && 1 <= s[
                i
            ].handle <= self@.counter by {
                assert(s[i] == if i < idx as int {
                    v0[i]
                } else {
                    v0[i + 1]
                });
            }
        }
        true
    }

    /// The addressed session's queue capacity; a lookup failure when the
    /// handle is unknown.
    pub fn queue_size_get(&self, ctx_id: usize) -> (r: Result<u32, PsmError>)
        requires
            psm_wf(self@),
        ensures
            r is Ok <==> has_handle(self@.contexts, ctx_id),
            r is Err ==> r == Err::<u32, PsmError>(PsmError::LookupFailure),
            r matches Ok(n) ==> exists|i: int|
                #![auto]
                0 <= i < self@.contexts.len() && self@.contexts[i].handle == ctx_id && n
                    == self@.contexts[i].queue_size as u32,
    {
        let idx = match self.find_context(ctx_id) {
            Some(i) => i,
            None => {
                return Err(PsmError::LookupFailure);
            },
        };
        proof {
            assert(self@.contexts[idx as int].queue_size <= u32::MAX);
        }
        Ok(self.contexts[idx].queue_size as u32)
    }

    /// Replaces the addressed session's queue capacity; the queue itself is
    /// only trimmed by later admissions.  A lookup failure when the handle
    /// is unknown.
    pub fn queue_size_set(&mut self, ctx_id: usize, num_packets: u32) -> (r: Result<(), PsmError>)
        requires
            psm_wf(old(self)@),
        ensures
            psm_wf(final(self)@),
            r is Ok <==> has_handle(old(self)@.contexts, ctx_id),
            r is Err ==> r == Err::<(), PsmError>(PsmError::LookupFailure) && final(self)@
                == old(self)@,
            r is Ok ==> exists|i: int|
                #![auto]
                0 <= i < old(self)@.contexts.len() && old(self)@.contexts[i].handle == ctx_id
                    && final(self)@ == (PsmV {
                    contexts: old(self)@.contexts.update(
                        i,
                        ContextV {
                            queue_size: num_packets as usize,
                            ..old(self)@.contexts[i]
                        },
                    ),
                    ..old(self)@
                }),
    {
        let idx = match self.find_context(ctx_id) {
            Some(i) => i,
            None => {
                return Err(PsmError::LookupFailure);
            },
        };
        let c = &mut self.contexts[idx];
        c.queue_size = num_packets as usize;
        proof {
            let s0 = old(self).contexts@;
            assert(views_of(self.contexts@) =~= views_of(s0).update(
                idx as int,
                ContextV { queue_size: num_packets as usize, ..views_of(s0)[idx as int] },
            ));
        }
        Ok(())
    }
}

/// Replacing one session in place replaces exactly one entry of the
/// mathematical sequence.
proof fn lemma_replace_view(s0: Seq<Context>, s1: Seq<Context>, s2: Seq<Context>, idx: int, c: Context)
    requires
        0 <= idx < s0.len(),
        s1 == s0.remove(idx),
        s2 == s1.insert(idx, c),
    ensures
        views_of(s2) =~= views_of(s0).update(idx, c@),
{
    s0.remove_ensures(idx);
    s1.insert_ensures(idx, c);
    assert forall|k: int| 0 <= k < views_of(s2).len() implies views_of(s2)[k] == views_of(
        s0,
    ).update(idx, c@)[k] by {
        if k < idx {
            assert(s2[k] == s1[k]);
            assert(s1[k] == s0[k]);
        } else if k == idx {
            assert(s2[k] == c);
        } else {
            assert(s2[k] == s1[k - 1]);
            assert(s1[k - 1] == s0[k]);
        }
    }
}

impl PSM {
    /// Destructively removes up to `max_packets` oldest events of the
    /// addressed session, each encoded under the session's selected-field
    /// mask, oldest first; a lookup failure when the handle is unknown.
    pub fn packets_get(&mut self, ctx_id: usize, max_packets: usize) -> (r: Result<
        Vec<Vec<u8>>,
        PsmError,
    >)
        requires
            psm_wf(old(self)@),
        ensures
            psm_wf(final(self)@),
            r is Ok <==> has_handle(old(self)@.contexts, ctx_id),
            r is Err ==> r == Err::<Vec<Vec<u8>>, PsmError>(PsmError::LookupFailure) && final(self)@
                == old(self)@,
            r matches Ok(out) ==> exists|i: int|
                #![auto]
                0 <= i < old(self)@.contexts.len() && old(self)@.contexts[i].handle == ctx_id && {
                    let c = old(self)@.contexts[i];
                    let k = take_count(c, max_packets);
                    &&& out@.len() == k
                    &&& forall|j: int|
                        0 <= j < k ==> out@[j]@ == spec_encode(
                            c.packets[j],
                            c.logical_context.packet_data,
                        )
                    &&& final(self)@ == (PsmV {
                        contexts: old(self)@.contexts.update(
                            i,
                            ContextV { packets: c.packets.skip(k as int), ..c },
                        ),
                        ..old(self)@
                    })
                },
    {
        let idx = match self.find_context(ctx_id) {
            Some(i) => i,
            None => {
                return Err(PsmError::LookupFailure);
            },
        };
        let ghost s0 = self.contexts@;
        let mut c = self.contexts.remove(idx);
        let ghost s1 = self.contexts@;
        proof {
            assert(c@ == views_of(s0)[idx as int]);
        }
        let out = c.drain(max_packets);
        self.contexts.insert(idx, c);
        proof {
            lemma_replace_view(s0, s1, self.contexts@, idx as int, c);
        }
        Ok(out)
    }

    /// Returns up to `max_packets` oldest events of the addressed session,
    /// encoded, without removing anything; a lookup failure when the handle
    /// is unknown.
    pub fn packets_peek(&self, ctx_id: usize, max_packets: usize) -> (r: Result<
        Vec<Vec<u8>>,
        PsmError,
    >)
        requires
            psm_wf(self@),
        ensures
            r is Ok <==> has_handle(self@.contexts, ctx_id),
            r is Err ==> r == Err::<Vec<Vec<u8>>, PsmError>(PsmError::LookupFailure),
            r matches Ok(out) ==> exists|i: int|
                #![auto]
                0 <= i < self@.contexts.len() && self@.contexts[i].handle == ctx_id && {
                    let c = self@.contexts[i];
                    &&& out@.len() == peek_result(c, max_packets).len()
                    &&& forall|j: int|
                        0 <= j < out@.len() ==> out@[j]@ == peek_result(c, max_packets)[j]
                },
    {
        let idx = match self.find_context(ctx_id) {
            Some(i) => i,
            None => {
                return Err(PsmError::LookupFailure);
            },
        };
        let c = &self.contexts[idx];
        Ok(c.peek(max_packets))
    }

    /// Empties the addressed session's queue without reporting any event;
    /// the convenience behind a retrieval call made with no output buffer.
    /// A lookup failure when the handle is unknown.
    pub fn packets_flush(&mut self, ctx_id: usize) -> (r: Result<(), PsmError>)
        requires
            psm_wf(old(self)@),
        ensures
            psm_wf(final(self)@),
            r is Ok <==> has_handle(old(self)@.contexts, ctx_id),
            r is Err ==> r == Err::<(), PsmError>(PsmError::LookupFailure) && final(self)@
                == old(self)@,
            r is Ok ==> exists|i: int|
                #![auto]
                0 <= i < old(self)@.contexts.len() && old(self)@.contexts[i].handle == ctx_id
                    && final(self)@ == (PsmV {
                    contexts: old(self)@.contexts.update(
                        i,
                        ContextV {
                            packets: Seq::<Packet>::empty(),
                            ..old(self)@.contexts[i]
                        },
                    ),
                    ..old(self)@
                }),
    {
        let idx = match self.find_context(ctx_id) {
            Some(i) => i,
            None => {
                return Err(PsmError::LookupFailure);
            },
        };
        let ghost s0 = self.contexts@;
        let mut c = self.contexts.remove(idx);
        let ghost s1 = self.contexts@;
        proof {
            assert(c@ == views_of(s0)[idx as int]);
        }
        c.flush();
        self.contexts.insert(idx, c);
        proof {
            lemma_replace_view(s0, s1, self.contexts@, idx as int, c);
        }
        Ok(())
    }

    /// Destructively looks one event of the addressed session up by serial:
    /// discards every older event; on an exact match encodes it, removes it
    /// too, and returns the encoding.  A lookup failure when the handle is
    /// unknown.
    pub fn packet(&mut self, ctx_id: usize, serial: u32) -> (r: Result<Option<Vec<u8>>, PsmError>)
        requires
            psm_wf(old(self)@),
        ensures
            psm_wf(final(self)@),
            r is Ok <==> has_handle(old(self)@.contexts, ctx_id),
            r is Err ==> r == Err::<Option<Vec<u8>>, PsmError>(PsmError::LookupFailure) && final(self)@
                == old(self)@,
            has_handle(old(self)@.contexts, ctx_id) ==> exists|i: int|
                #![auto]
                0 <= i < old(self)@.contexts.len() && old(self)@.contexts[i].handle == ctx_id && {
                    let c = old(self)@.contexts[i];
                    &&& fetch_found(c.packets, serial) ==> (r matches Ok(Some(b)) && b@
                        == spec_encode(
                        discard_below(c.packets, serial)[0],
                        c.logical_context.packet_data,
                    ) && final(self)@ == (PsmV {
                        contexts: old(self)@.contexts.update(
                            i,
                            ContextV {
                                packets: discard_below(c.packets, serial).skip(1),
                                ..c
                            },
                        ),
                        ..old(self)@
                    }))
                    &&& !fetch_found(c.packets, serial) ==> (r == Ok::<Option<Vec<u8>>, PsmError>(
                        None,
                    ) && final(self)@ == (PsmV {
                        contexts: old(self)@.contexts.update(
                            i,
                            ContextV { packets: discard_below(c.packets, serial), ..c },
                        ),
                        ..old(self)@
                    }))
                },
    {
        let idx = match self.find_context(ctx_id) {
            Some(i) => i,
            None => {
                return Err(PsmError::LookupFailure);
            },
        };
        let ghost s0 = self.contexts@;
        let mut c = self.contexts.remove(idx);
        let ghost s1 = self.contexts@;
        proof {
            assert(c@ == views_of(s0)[idx as int]);
        }
        let r = c.fetch(serial);
        self.contexts.insert(idx, c);
        proof {
            lemma_replace_view(s0, s1, self.contexts@, idx as int, c);
        }
        Ok(r)
    }
}

impl PSM {
    /// Answers a logical context template query, first marking the template
    /// as a system or digitizing context as requested.
    pub fn handle_logctx(&mut self, index: u32, system: bool) -> (r: (u32, Vec<u8>))
        requires
            psm_wf(old(self)@),
        ensures
            psm_wf(final(self)@),
            final(self)@ == (PsmV {
                default_context: WtiLogicalContextV {
                    options: if system {
                        CXO_SYSTEM
                    } else {
                        0
                    },
                    ..old(self)@.default_context
                },
                ..old(self)@
            }),
            r.1@ == logctx_info(final(self)@.default_context, index),
            r.0 == r.1@.len(),
    {
        self.default_context.options = if system {
            CXO_SYSTEM
        } else {
            0
        };
        self.default_context.handle_info(index)
    }

    /// Answers a device descriptor query.
    pub fn handle_device(&self, index: u32) -> (r: (u32, Vec<u8>))
        requires
            psm_wf(self@),
        ensures
            r.1@ == devices_info(self@.device, index),
            r.0 == r.1@.len(),
    {
        self.device.handle_info(index)
    }

    /// Answers a cursor descriptor query.
    pub fn handle_cursor(&self, index: u32) -> (r: (u32, Vec<u8>))
        requires
            psm_wf(self@),
        ensures
            r.1@ == cursors_info(self@.cursor, index),
            r.0 == r.1@.len(),
    {
        self.cursor.handle_info(index)
    }

    /// The top-level introspection dispatch: category zero answers only the
    /// size of the largest record; the known categories delegate to their
    /// descriptor; anything else answers zero bytes.  The context template
    /// categories mark the template as system or digitizing first.
    pub fn wt_info(&mut self, category: u32, index: u32) -> (r: (u32, Vec<u8>))
        requires
            psm_wf(old(self)@),
        ensures
            psm_wf(final(self)@),
            category == 0 ==> r.0 == LOGICAL_CONTEXT_SIZE && r.1@.len() == 0 && final(self)@
                == old(self)@,
            category == WTI_INTERFACE ==> r.1@ == interface_info(default_interface(), index) && r.0
                == r.1@.len() && final(self)@ == old(self)@,
            category == WTI_DEFCONTEXT || category == WTI_DDCTXS ==> r.1@ == logctx_info(
                final(self)@.default_context,
                index,
            ) && r.0 == r.1@.len() && final(self)@ == (PsmV {
                default_context: WtiLogicalContextV {
                    options: 0,
                    ..old(self)@.default_context
                },
                ..old(self)@
            }),
            category == WTI_DEFSYSCTX || category == WTI_DSCTXS ==> r.1@ == logctx_info(
                final(self)@.default_context,
                index,
            ) && r.0 == r.1@.len() && final(self)@ == (PsmV {
                default_context: WtiLogicalContextV {
                    options: CXO_SYSTEM,
                    ..old(self)@.default_context
                },
                ..old(self)@
            }),
            category == WTI_DEVICES ==> r.1@ == devices_info(old(self)@.device, index) && r.0
                == r.1@.len() && final(self)@ == old(self)@,
            category == WTI_CURSORS ==> r.1@ == cursors_info(old(self)@.cursor, index) && r.0
                == r.1@.len() && final(self)@ == old(self)@,
            !(category == 0 || category == WTI_INTERFACE || category == WTI_DEFCONTEXT || category
                == WTI_DEFSYSCTX || category == WTI_DEVICES || category == WTI_CURSORS || category
                == WTI_DDCTXS || category == WTI_DSCTXS) ==> r.0 == 0 && r.1@.len() == 0
                && final(self)@ == old(self)@,
    {
        if category == 0 {
            (212, Vec::new())
        } else if category == WTI_INTERFACE {
            WtiInterface::psm_default().handle_info(index)
        } else if category == WTI_DEFCONTEXT || category == WTI_DDCTXS {
            self.handle_logctx(index, false)
        } else if category == WTI_DEFSYSCTX || category == WTI_DSCTXS {
            self.handle_logctx(index, true)
        } else if category == WTI_DEVICES {
            self.handle_device(index)
        } else if category == WTI_CURSORS {
            self.handle_cursor(index)
        } else {
            (0, Vec::new())
        }
    }
}

/// No enabled, targeted session's serial counter is saturated, so every
/// session that would accept an event can stamp the next serial.
pub open spec fn serials_ok(s: Seq<ContextV>) -> bool {
    forall|i: int|
        0 <= i < s.len() && (#[trigger] s[i]).enabled && s[i].target != 0 ==> s[i].serial
            < u32::MAX
}

/// The event record built from a pointer event message, before any session
/// stamps it: every change flagged, the default cursor, level orientation
/// and rotation.
pub open spec fn event_template(
    status: u32,
    buttons: u32,
    x: u32,
    y: u32,
    z: u32,
    normal_pressure: u32,
    tangential_pressure: u32,
) -> Packet {
    Packet {
        context: 0,
        status,
        time: 0,
        changed: 0xFFFFFFFF,
        serial: 0,
        cursor: 0,
        buttons,
        x,
        y,
        z,
        normal_pressure,
        tangential_pressure,
        orientation: Orientation { azimuth: 0, altitude: 0, twist: 0 },
        rotation: Rotation { pitch: 0, roll: 0, yaw: 0 },
    }
}

/// Delivering one pointer event to a row of sessions: every enabled session
/// with a target admits the stamped event and contributes its notification,
/// in session order; the others are untouched.
pub open spec fn apply_tablet_event(s: Seq<ContextV>, p: Packet, now_ms: u32) -> (
    Seq<ContextV>,
    Seq<Notification>,
)
    decreases s.len(),
{
    if s.len() == 0 {
        (Seq::<ContextV>::empty(), Seq::<Notification>::empty())
    } else {
        let rec = apply_tablet_event(s.drop_last(), p, now_ms);
        let c = s.last();
        if c.enabled && c.target != 0 {
            (rec.0.push(send_packet_result(c, p, now_ms)), rec.1.push(packet_notification(c)))
        } else {
            (rec.0.push(c), rec.1)
        }
    }
}

/// The proximity notifications a row of sessions produces: one per enabled
/// session with a target, in session order.
pub open spec fn proximity_notes(s: Seq<ContextV>, value: bool) -> Seq<Notification>
    decreases s.len(),
{
    if s.len() == 0 {
        Seq::<Notification>::empty()
    } else {
        let ns = proximity_notes(s.drop_last(), value);
        let c = s.last();
        if c.enabled && c.target != 0 {
            ns.push(proximity_notification(c, value))
        } else {
            ns
        }
    }
}

/// A session with a configure-session message's coordinate, rate and mask
/// values written over its configuration.
pub open spec fn context_patch(c: ContextV, m: PSMPacketC2S) -> ContextV {
    match m {
        PSMPacketC2S::ConfigureContext {
            status,
            packet_rate,
            packet_mode,
            move_mask,
            in_org_x,
            in_org_y,
            in_org_z,
            in_ext_x,
            in_ext_y,
            in_ext_z,
            out_org_x,
            out_org_y,
            out_org_z,
            out_ext_x,
            out_ext_y,
            out_ext_z,
            sys_org_x,
            sys_org_y,
            sys_ext_x,
            sys_ext_y,
        } => ContextV {
            logical_context: WtiLogicalContextV {
                status,
                packet_rate,
                packet_mode,
                move_mask,
                in_org_x,
                in_org_y,
                in_org_z,
                in_ext_x,
                in_ext_y,
                in_ext_z,
                out_org_x,
                out_org_y,
                out_org_z,
                out_ext_x,
                out_ext_y,
                out_ext_z,
                sys_org_x,
                sys_org_y,
                sys_ext_x,
                sys_ext_y,
                ..c.logical_context
            },
            ..c
        },
        _ => c,
    }
}

/// Reconfiguring a row of sessions: every enabled session takes the patch;
/// those with a target also contribute a context-updated notification.
pub open spec fn apply_configure_context(s: Seq<ContextV>, m: PSMPacketC2S) -> (
    Seq<ContextV>,
    Seq<Notification>,
)
    decreases s.len(),
{
    if s.len() == 0 {
        (Seq::<ContextV>::empty(), Seq::<Notification>::empty())
    } else {
        let rec = apply_configure_context(s.drop_last(), m);
        let c = s.last();
        if c.enabled {
            let patched = context_patch(c, m);
            if c.target != 0 {
                (rec.0.push(patched), rec.1.push(context_update_notification(patched)))
            } else {
                (rec.0.push(patched), rec.1)
            }
        } else {
            (rec.0.push(c), rec.1)
        }
    }
}

/// The device descriptor with a configure-device message's values written
/// over it.
pub open spec fn device_patch(d: WtiDevicesV, m: PSMPacketC2S) -> WtiDevicesV {
    match m {
        PSMPacketC2S::ConfigureDevice {
            hardware,
            packet_rate,
            packet_mode,
            x_margin,
            y_margin,
            z_margin,
            device_x,
            device_y,
            device_z,
            normal_pressure,
            tangential_pressure,
            orientation,
            rotation,
        } => WtiDevicesV {
            hardware,
            packet_rate,
            packet_mode,
            x_margin,
            y_margin,
            z_margin,
            device_x,
            device_y,
            device_z,
            normal_pressure,
            tangential_pressure,
            orientation: orientation@,
            rotation: rotation@,
            ..d
        },
        _ => d,
    }
}

/// The information-changed notifications a row of sessions produces: one per
/// enabled session with a target, in session order.
pub open spec fn info_notes(s: Seq<ContextV>) -> Seq<Notification>
    decreases s.len(),
{
    if s.len() == 0 {
        Seq::<Notification>::empty()
    } else {
        let ns = info_notes(s.drop_last());
        let c = s.last();
        if c.enabled && c.target != 0 {
            ns.push(info_change_notification(c))
        } else {
            ns
        }
    }
}

impl PSM {
    /// Whether every session that would accept an event can still stamp the
    /// next serial; a transport adapter checks this before delivering one.
    pub fn can_enqueue(&self) -> (r: bool)
        ensures
            r == serials_ok(self@.contexts),
    {
        let mut i: usize = 0;
        while i < self.contexts.len()
            invariant
                i <= self@.contexts.len(),
                forall|k: int|
                    0 <= k < i && (#[trigger] self@.contexts[k]).enabled && self@.contexts[
                        k
                    ].target != 0 ==> self@.contexts[k].serial < u32::MAX,
            decreases self@.contexts.len() - i,
        {
            let c = &self.contexts[i];
            if c.enabled && c.target != 0 && c.serial == u32::MAX {
                proof {
                    let w = self@.contexts[i as int];
                    assert(w.enabled && w.target != 0 && !(w.serial < u32::MAX));
                }
                return false;
            }
            i = i + 1;
        }
        true
    }

    /// Delivers one pointer event to every enabled session with a target:
    /// each such session stamps and admits the event; the notifications come
    /// back in session order.
    #[verifier::loop_isolation(false)]
    pub fn broadcast_event(
        &mut self,
        status: u32,
        buttons: u32,
        x: u32,
        y: u32,
        z: u32,
        normal_pressure: u32,
        tangential_pressure: u32,
        now_ms: u32,
    ) -> (notes: Vec<Notification>)
        requires
            psm_wf(old(self)@),
            serials_ok(old(self)@.contexts),
        ensures
            psm_wf(final(self)@),
            final(self)@ == (PsmV {
                contexts: apply_tablet_event(
                    old(self)@.contexts,
                    event_template(status, buttons, x, y, z, normal_pressure, tangential_pressure),
                    now_ms,
                ).0,
                ..old(self)@
            }),
            notes@ == apply_tablet_event(
                old(self)@.contexts,
                event_template(status, buttons, x, y, z, normal_pressure, tangential_pressure),
                now_ms,
            ).1,
    {
        let template = Packet {
            context: 0,
            status,
            time: 0,
            changed: 0xFFFFFFFF,
            serial: 0,
            cursor: 0,
            buttons,
            x,
            y,
            z,
            normal_pressure,
            tangential_pressure,
            orientation: Orientation { azimuth: 0, altitude: 0, twist: 0 },
            rotation: Rotation { pitch: 0, roll: 0, yaw: 0 },
        };
        let ghost s0 = views_of(self.contexts@);
        let mut notes: Vec<Notification> = Vec::new();
        let n = self.contexts.len();
        proof {
            assert(s0.take(0) =~= Seq::<ContextV>::empty());
        }
        let mut i: usize = 0;
        while i < n
            invariant
                i <= n,
                self.contexts@.len() == n,
                self@ == (PsmV { contexts: views_of(self.contexts@), ..old(self)@ }),
                forall|k: int| i <= k < n ==> views_of(self.contexts@)[k] == s0[k],
                forall|k: int|
                    0 <= k < n ==> context_wf(#[trigger] views_of(self.contexts@)[k]) && views_of(
                        self.contexts@,
                    )[k].handle == s0[k].handle,
                views_of(self.contexts@).take(i as int) == apply_tablet_event(
                    s0.take(i as int),
                    template,
                    now_ms,
                ).0,
                notes@ == apply_tablet_event(s0.take(i as int), template, now_ms).1,
            decreases n - i,
        {
            let ghost pre = self.contexts@;
            let mut c = self.contexts.remove(i);
            proof {
                assert(c@ == views_of(pre)[i as int]);
                assert(c@ == s0[i as int]);
            }
            if c.enabled {
                match c.send_packet(template, now_ms) {
                    Ok(note) => notes.push(note),
                    Err(_) => {},
                }
            }
            self.contexts.insert(i, c);
            proof {
                lemma_replace_view(pre, pre.remove(i as int), self.contexts@, i as int, c);
                let t1 = s0.take((i + 1) as int);
                assert(t1.drop_last() =~= s0.take(i as int));
                assert(t1.last() == s0[i as int]);
                assert(views_of(self.contexts@).take((i + 1) as int) =~= apply_tablet_event(
                    t1,
                    template,
                    now_ms,
                ).0);
            }
            i = i + 1;
        }
        proof {
            assert(s0.take(n as int) =~= s0);
            assert(views_of(self.contexts@).take(n as int) =~= views_of(self.contexts@));
            let s = views_of(self.contexts@);
            assert forall|a: int, b: int|
                0 <= a < b < s.len() implies s[a].handle < s[b].handle by {
                assert(s[a].handle == s0[a].handle);
                assert(s[b].handle == s0[b].handle);
            }
        }
        notes
    }

    /// The proximity notifications of every enabled session with a target,
    /// in session order; no session state changes.
    pub fn broadcast_proximity(&self, value: bool) -> (notes: Vec<Notification>)
        requires
            psm_wf(self@),
        ensures
            notes@ == proximity_notes(self@.contexts, value),
    {
        let mut notes: Vec<Notification> = Vec::new();
        proof {
            assert(self@.contexts.take(0) =~= Seq::<ContextV>::empty());
        }
        let mut i: usize = 0;
        while i < self.contexts.len()
            invariant
                i <= self@.contexts.len(),
                notes@ == proximity_notes(self@.contexts.take(i as int), value),
                psm_wf(self@),
            decreases self@.contexts.len() - i,
        {
            let c = &self.contexts[i];
            proof {
                assert(context_wf(self@.contexts[i as int]));
            }
            if c.enabled {
                match c.proximity(value) {
                    Ok(note) => notes.push(note),
                    Err(_) => {},
                }
            }
            proof {
                let t1 = self@.contexts.take((i + 1) as int);
                assert(t1.drop_last() =~= self@.contexts.take(i as int));
                assert(t1.last() == self@.contexts[i as int]);
            }
            i = i + 1;
        }
        proof {
            assert(self@.contexts.take(self@.contexts.len() as int) =~= self@.contexts);
        }
        notes
    }

    /// Writes a configure-session message over every enabled session's
    /// configuration; sessions with a target also report a context-updated
    /// notification, in session order.
    #[verifier::loop_isolation(false)]
    pub fn configure_contexts(&mut self, m: &PSMPacketC2S) -> (notes: Vec<Notification>)
        requires
            psm_wf(old(self)@),
            *m is ConfigureContext,
        ensures
            psm_wf(final(self)@),
            final(self)@ == (PsmV {
                contexts: apply_configure_context(old(self)@.contexts, *m).0,
                ..old(self)@
            }),
            notes@ == apply_configure_context(old(self)@.contexts, *m).1,
    {
        let ghost s0 = views_of(self.contexts@);
        let mut notes: Vec<Notification> = Vec::new();
        let n = self.contexts.len();
        proof {
            assert(s0.take(0) =~= Seq::<ContextV>::empty());
        }
        let mut i: usize = 0;
        while i < n
            invariant
                i <= n,
                self.contexts@.len() == n,
                self@ == (PsmV { contexts: views_of(self.contexts@), ..old(self)@ }),
                forall|k: int| i <= k < n ==> views_of(self.contexts@)[k] == s0[k],
                forall|k: int|
                    0 <= k < n ==> context_wf(#[trigger] views_of(self.contexts@)[k]) && views_of(
                        self.contexts@,
                    )[k].handle == s0[k].handle,
                views_of(self.contexts@).take(i as int) == apply_configure_context(
                    s0.take(i as int),
                    *m,
                ).0,
                notes@ == apply_configure_context(s0.take(i as int), *m).1,
            decreases n - i,
        {
            let ghost pre = self.contexts@;
            let mut c = self.contexts.remove(i);
            proof {
                assert(c@ == views_of(pre)[i as int]);
                assert(c@ == s0[i as int]);
            }
            if c.enabled {
                match m {
                    PSMPacketC2S::ConfigureContext {
                        status,
                        packet_rate,
                        packet_mode,
                        move_mask,
                        in_org_x,
                        in_org_y,
                        in_org_z,
                        in_ext_x,
                        in_ext_y,
                        in_ext_z,
                        out_org_x,
                        out_org_y,
                        out_org_z,
                        out_ext_x,
                        out_ext_y,
                        out_ext_z,
                        sys_org_x,
                        sys_org_y,
                        sys_ext_x,
                        sys_ext_y,
                    } => {
                        c.logical_context.status = *status;
                        c.logical_context.packet_rate = *packet_rate;
                        c.logical_context.packet_mode = *packet_mode;
                        c.logical_context.move_mask = *move_mask;
                        c.logical_context.in_org_x = *in_org_x;
                        c.logical_context.in_org_y = *in_org_y;
                        c.logical_context.in_org_z = *in_org_z;
                        c.logical_context.in_ext_x = *in_ext_x;
                        c.logical_context.in_ext_y = *in_ext_y;
                        c.logical_context.in_ext_z = *in_ext_z;
                        c.logical_context.out_org_x = *out_org_x;
                        c.logical_context.out_org_y = *out_org_y;
                        c.logical_context.out_org_z = *out_org_z;
                        c.logical_context.out_ext_x = *out_ext_x;
                        c.logical_context.out_ext_y = *out_ext_y;
                        c.logical_context.out_ext_z = *out_ext_z;
                        c.logical_context.sys_org_x = *sys_org_x;
                        c.logical_context.sys_org_y = *sys_org_y;
                        c.logical_context.sys_ext_x = *sys_ext_x;
                        c.logical_context.sys_ext_y = *sys_ext_y;
                    },
                    _ => {},
                }
                proof {
                    assert(c@ == context_patch(s0[i as int], *m));
                }
                match c.context_update() {
                    Ok(note) => notes.push(note),
                    Err(_) => {},
                }
            }
            self.contexts.insert(i, c);
            proof {
                lemma_replace_view(pre, pre.remove(i as int), self.contexts@, i as int, c);
                let t1 = s0.take((i + 1) as int);
                assert(t1.drop_last() =~= s0.take(i as int));
                assert(t1.last() == s0[i as int]);
                assert(views_of(self.contexts@).take((i + 1) as int) =~= apply_configure_context(
                    t1,
                    *m,
                ).0);
            }
            i = i + 1;
        }
        proof {
            assert(s0.take(n as int) =~= s0);
            assert(views_of(self.contexts@).take(n as int) =~= views_of(self.contexts@));
            let s = views_of(self.contexts@);
            assert forall|a: int, b: int|
                0 <= a < b < s.len() implies s[a].handle < s[b].handle by {
                assert(s[a].handle == s0[a].handle);
                assert(s[b].handle == s0[b].handle);
            }
        }
        notes
    }

    /// Writes a configure-device message over the shared device descriptor;
    /// every enabled session with a target reports an information-changed
    /// notification, in session order.
    pub fn configure_device(&mut self, m: PSMPacketC2S) -> (notes: Vec<Notification>)
        requires
            psm_wf(old(self)@),
            m is ConfigureDevice,
            message_wf(m),
        ensures
            psm_wf(final(self)@),
            final(self)@ == (PsmV {
                device: device_patch(old(self)@.device, m),
                ..old(self)@
            }),
            notes@ == info_notes(old(self)@.contexts),
    {
        match m {
            PSMPacketC2S::ConfigureDevice {
                hardware,
                packet_rate,
                packet_mode,
                x_margin,
                y_margin,
                z_margin,
                device_x,
                device_y,
                device_z,
                normal_pressure,
                tangential_pressure,
                orientation,
                rotation,
            } => {
                self.device.hardware = hardware;
                self.device.packet_rate = packet_rate;
                self.device.packet_mode = packet_mode;
                self.device.x_margin = x_margin;
                self.device.y_margin = y_margin;
                self.device.z_margin = z_margin;
                self.device.device_x = device_x;
                self.device.device_y = device_y;
                self.device.device_z = device_z;
                self.device.normal_pressure = normal_pressure;
                self.device.tangential_pressure = tangential_pressure;
                self.device.orientation = orientation;
                self.device.rotation = rotation;
            },
            _ => {},
        }
        let mut notes: Vec<Notification> = Vec::new();
        proof {
            assert(self@.contexts.take(0) =~= Seq::<ContextV>::empty());
        }
        let mut i: usize = 0;
        while i < self.contexts.len()
            invariant
                i <= self@.contexts.len(),
                self@ == (PsmV { device: device_patch(old(self)@.device, m), ..old(self)@ }),
                psm_wf(old(self)@),
                notes@ == info_notes(self@.contexts.take(i as int)),
            decreases self@.contexts.len() - i,
        {
            let c = &self.contexts[i];
            proof {
                assert(context_wf(self@.contexts[i as int]));
            }
            if c.enabled {
                match c.info_update() {
                    Ok(note) => notes.push(note),
                    Err(_) => {},
                }
            }
            proof {
                let t1 = self@.contexts.take((i + 1) as int);
                assert(t1.drop_last() =~= self@.contexts.take(i as int));
                assert(t1.last() == self@.contexts[i as int]);
            }
            i = i + 1;
        }
        proof {
            assert(self@.contexts.take(self@.contexts.len() as int) =~= self@.contexts);
        }
        notes
    }

    /// Drives one decoded generator message: a greeting earns the greeting
    /// acknowledgement; a pointer event, a proximity change and the two
    /// reconfiguration messages reach the sessions and the device as their
    /// kind demands; diagnostic messages do nothing.  Returns the reply to
    /// send, if any, and the notifications to post, in order.
    pub fn handle_message(&mut self, msg: PSMPacketC2S, now_ms: u32) -> (r: (
        Option<PSMPacketS2C>,
        Vec<Notification>,
    ))
        requires
            psm_wf(old(self)@),
            message_wf(msg),
            msg is TabletEvent ==> serials_ok(old(self)@.contexts),
        ensures
            psm_wf(final(self)@),
            msg is Hi ==> final(self)@ == old(self)@ && r.0 == Some(
                PSMPacketS2C::Hi { compatible: COMPATIBLE_VERSION },
            ) && r.1@.len() == 0,
            msg is Debug ==> final(self)@ == old(self)@ && r.0 is None && r.1@.len() == 0,
            msg matches PSMPacketC2S::TabletEvent {
                status,
                buttons,
                x,
                y,
                z,
                normal_pressure,
                tangential_pressure,
            } ==> {
                let outcome = apply_tablet_event(
                    old(self)@.contexts,
                    event_template(status, buttons, x, y, z, normal_pressure, tangential_pressure),
                    now_ms,
                );
                &&& r.0 is None
                &&& final(self)@ == (PsmV { contexts: outcome.0, ..old(self)@ })
                &&& r.1@ == outcome.1
            },
            msg matches PSMPacketC2S::Proximity { value } ==> final(self)@ == old(self)@ && r.0
                is None && r.1@ == proximity_notes(old(self)@.contexts, value),
            msg is ConfigureContext ==> {
                let outcome = apply_configure_context(old(self)@.contexts, msg);
                &&& r.0 is None
                &&& final(self)@ == (PsmV { contexts: outcome.0, ..old(self)@ })
                &&& r.1@ == outcome.1
            },
            msg is ConfigureDevice ==> r.0 is None && final(self)@ == (PsmV {
                device: device_patch(old(self)@.device, msg),
                ..old(self)@
            }) && r.1@ == info_notes(old(self)@.contexts),
    {
        match msg {
            PSMPacketC2S::Hi { name: _ } => {
                (Some(PSMPacketS2C::Hi { compatible: COMPATIBLE_VERSION }), Vec::new())
            },
            PSMPacketC2S::TabletEvent {
                status,
                buttons,
                x,
                y,
                z,
                normal_pressure,
                tangential_pressure,
            } => {
                let notes = self.broadcast_event(
                    status,
                    buttons,
                    x,
                    y,
                    z,
                    normal_pressure,
                    tangential_pressure,
                    now_ms,
                );
                (None, notes)
            },
            PSMPacketC2S::Proximity { value } => {
                let notes = self.broadcast_proximity(value);
                (None, notes)
            },
            PSMPacketC2S::ConfigureContext { .. } => {
                let notes = self.configure_contexts(&msg);
                (None, notes)
            },
            PSMPacketC2S::ConfigureDevice { .. } => {
                let notes = self.configure_device(msg);
                (None, notes)
            },
            PSMPacketC2S::Debug { msg: _ } => (None, Vec::new()),
        }
    }
}

} // verus!
