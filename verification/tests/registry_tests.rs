use psm_core::codec::{PK_BUTTONS, PK_SERIAL_NUMBER, PK_X, PK_Y};
use psm_core::descriptors::{Axis, WtiLogicalContext};
use psm_core::netcode::{PSMPacketC2S, PSMPacketS2C, COMPATIBLE_VERSION};
use psm_core::registry::{Config, TabletPreset, PSM};
use psm_core::session::PsmError;

fn preset() -> TabletPreset {
    TabletPreset {
        status: 0,
        packet_rate: 100,
        packet_mode: 0,
        move_mask: 0xFFFFFFFF,
        in_org_x: 0,
        in_org_y: 0,
        in_org_z: 0,
        in_ext_x: 15200,
        in_ext_y: 9500,
        in_ext_z: 2047,
        out_org_x: 0,
        out_org_y: 0,
        out_org_z: 0,
        out_ext_x: 15200,
        out_ext_y: 9500,
        out_ext_z: 2047,
        sys_org_x: 0,
        sys_org_y: 0,
        sys_ext_x: 1920,
        sys_ext_y: 1080,
        hardware: 8 | 4,
        x_margin: 0,
        y_margin: 0,
        z_margin: 0,
        device_x: Axis { min: 0, max: 15199, units: 2, resolution: 0x03e8_0000 },
        device_y: Axis { min: 0, max: 9499, units: 2, resolution: 0x03e8_0000 },
        device_z: Axis { min: -1023, max: 1023, units: 2, resolution: 0x03e8_0000 },
        normal_pressure: Axis { min: 0, max: 32767, units: 0, resolution: 0 },
        tangential_pressure: Axis { min: 0, max: 1023, units: 0, resolution: 0 },
        orientation: vec![
            Axis { min: 0, max: 3600, units: 3, resolution: 0x0e100000 },
            Axis { min: -1000, max: 1000, units: 3, resolution: 0x0e100000 },
            Axis { min: 0, max: 3600, units: 3, resolution: 0x0e100000 },
        ],
        rotation: vec![
            Axis::default(),
            Axis::default(),
            Axis::default(),
        ],
    }
}

fn registry() -> PSM {
    PSM::new(Config { preset: preset() })
}

fn serial_context() -> WtiLogicalContext {
    let mut lc = WtiLogicalContext::psm_default();
    lc.packet_data = PK_SERIAL_NUMBER;
    lc
}

fn serial_of(record: &Vec<u8>) -> u32 {
    assert_eq!(record.len(), 4);
    u32::from_le_bytes([record[0], record[1], record[2], record[3]])
}

fn tablet_event(buttons: u32, x: u32, y: u32) -> PSMPacketC2S {
    PSMPacketC2S::TabletEvent {
        status: 0,
        buttons,
        x,
        y,
        z: 0,
        normal_pressure: 0,
        tangential_pressure: 0,
    }
}

#[test]
fn open_assigns_consecutive_handles() {
    let mut psm = registry();
    let h1 = psm.open(11, serial_context(), true, 0);
    let h2 = psm.open(12, serial_context(), true, 0);
    assert_eq!(h1, 1);
    assert_eq!(h2, 2);
}

#[test]
fn enable_unknown_handle_reports_failure() {
    let mut psm = registry();
    assert!(!psm.enable(77, true));
}

#[test]
fn close_is_idempotent() {
    let mut psm = registry();
    let h = psm.open(11, serial_context(), true, 0);
    assert!(psm.close(h));
    assert!(psm.close(h));
    assert!(psm.close(999));
}

#[test]
fn closed_session_no_longer_answers() {
    let mut psm = registry();
    let h = psm.open(11, serial_context(), true, 0);
    psm.close(h);
    assert_eq!(psm.queue_size_get(h), Err(PsmError::LookupFailure));
    assert_eq!(psm.packets_get(h, 10), Err(PsmError::LookupFailure));
}

#[test]
fn queue_size_round_trips() {
    let mut psm = registry();
    let h = psm.open(11, serial_context(), true, 0);
    assert_eq!(psm.queue_size_get(h), Ok(1024));
    assert!(psm.queue_size_set(h, 2).is_ok());
    assert_eq!(psm.queue_size_get(h), Ok(2));
    assert_eq!(psm.queue_size_set(999, 2), Err(PsmError::LookupFailure));
}

#[test]
fn retrieval_on_unknown_handle_reports_nothing() {
    let mut psm = registry();
    assert_eq!(psm.packets_get(5, 10), Err(PsmError::LookupFailure));
    assert_eq!(psm.packets_peek(5, 10), Err(PsmError::LookupFailure));
    assert_eq!(psm.packet(5, 1), Err(PsmError::LookupFailure));
    assert_eq!(psm.packets_flush(5), Err(PsmError::LookupFailure));
}

#[test]
fn greeting_earns_the_acknowledgement() {
    let mut psm = registry();
    let (reply, notes) = psm.handle_message(
        PSMPacketC2S::Hi { name: "generator 1.0".to_string() },
        0,
    );
    match reply {
        Some(PSMPacketS2C::Hi { compatible }) => assert_eq!(compatible, COMPATIBLE_VERSION),
        None => panic!("greeting went unanswered"),
    }
    assert_eq!(notes.len(), 0);
}

#[test]
fn diagnostic_messages_do_nothing() {
    let mut psm = registry();
    let h = psm.open(11, serial_context(), true, 0);
    psm.handle_message(tablet_event(0, 0, 0), 0);
    let (reply, notes) = psm.handle_message(
        PSMPacketC2S::Debug { msg: "ping".to_string() },
        0,
    );
    assert!(reply.is_none());
    assert_eq!(notes.len(), 0);
    assert_eq!(psm.packets_peek(h, 10).unwrap().len(), 1);
}

#[test]
fn event_reaches_every_enabled_session_only() {
    let mut psm = registry();
    let enabled = psm.open(11, serial_context(), true, 0);
    let disabled = psm.open(12, serial_context(), false, 0);
    let untargeted = psm.open(0, serial_context(), true, 0);
    let (_, notes) = psm.handle_message(tablet_event(1, 2, 3), 0);
    assert_eq!(notes.len(), 1);
    assert_eq!(psm.packets_peek(enabled, 10).unwrap().len(), 1);
    assert_eq!(psm.packets_peek(disabled, 10).unwrap().len(), 0);
    assert_eq!(psm.packets_peek(untargeted, 10).unwrap().len(), 0);
}

#[test]
fn masked_drain_yields_buttons_x_y_in_order() {
    let mut psm = registry();
    let mut lc = WtiLogicalContext::psm_default();
    lc.packet_data = PK_BUTTONS | PK_X | PK_Y;
    let h = psm.open(11, lc, true, 0);
    psm.handle_message(tablet_event(7, 100, 200), 0);
    let records = psm.packets_get(h, 1).unwrap();
    assert_eq!(records.len(), 1);
    assert_eq!(records[0].len(), 12);
    assert_eq!(records[0], vec![7, 0, 0, 0, 100, 0, 0, 0, 200, 0, 0, 0]);
}

#[test]
fn capacity_two_peek_sees_the_last_two_serials() {
    let mut psm = registry();
    let h = psm.open(11, serial_context(), true, 0);
    psm.queue_size_set(h, 2);
    for _ in 0..5 {
        psm.handle_message(tablet_event(0, 0, 0), 0);
    }
    let serials: Vec<u32> = psm.packets_peek(h, 10).unwrap().iter().map(serial_of).collect();
    assert_eq!(serials, vec![4, 5]);
}

#[test]
fn fetch_by_serial_through_the_registry() {
    let mut psm = registry();
    let h = psm.open(11, serial_context(), true, 0);
    for _ in 0..4 {
        psm.handle_message(tablet_event(0, 0, 0), 0);
    }
    let found = psm.packet(h, 3).unwrap();
    assert_eq!(found.map(|r| serial_of(&r)), Some(3));
    let rest: Vec<u32> = psm.packets_peek(h, 10).unwrap().iter().map(serial_of).collect();
    assert_eq!(rest, vec![4]);
}

#[test]
fn packet_notifications_carry_serial_and_handle() {
    let mut psm = registry();
    let h = psm.open(11, serial_context(), true, 0);
    let (_, notes) = psm.handle_message(tablet_event(0, 0, 0), 0);
    assert_eq!(notes.len(), 1);
    assert_eq!(notes[0].target, 11);
    assert_eq!(notes[0].message, 0x7FF0);
    assert_eq!(notes[0].wparam, 1);
    assert_eq!(notes[0].lparam, h as isize);
}

#[test]
fn proximity_notifies_without_touching_queues() {
    let mut psm = registry();
    let h = psm.open(11, serial_context(), true, 0);
    let (_, notes) = psm.handle_message(PSMPacketC2S::Proximity { value: true }, 0);
    assert_eq!(notes.len(), 1);
    assert_eq!(notes[0].message, 0x7FF0 + 5);
    assert_eq!(notes[0].lparam, 0x00010001);
    assert_eq!(psm.packets_peek(h, 10).unwrap().len(), 0);
    let (_, notes) = psm.handle_message(PSMPacketC2S::Proximity { value: false }, 0);
    assert_eq!(notes[0].lparam, 0);
}

#[test]
fn configure_device_rewrites_the_shared_descriptor() {
    let mut psm = registry();
    let h = psm.open(11, serial_context(), true, 0);
    let msg = PSMPacketC2S::ConfigureDevice {
        hardware: 1,
        packet_rate: 133,
        packet_mode: 0,
        x_margin: 0,
        y_margin: 0,
        z_margin: 0,
        device_x: Axis { min: 0, max: 99, units: 1, resolution: 7 },
        device_y: Axis::default(),
        device_z: Axis::default(),
        normal_pressure: Axis::default(),
        tangential_pressure: Axis::default(),
        orientation: vec![Axis::default(), Axis::default(), Axis::default()],
        rotation: vec![Axis::default(), Axis::default(), Axis::default()],
    };
    assert!(msg.valid());
    let (_, notes) = psm.handle_message(msg, 0);
    assert_eq!(notes.len(), 1);
    assert_eq!(notes[0].message, 0x7FF0 + 6);
    assert_eq!(notes[0].wparam, 0);
    assert_eq!(notes[0].lparam, 0x10004);
    let (size, hardware) = psm.handle_device(2);
    assert_eq!(size, 4);
    assert_eq!(hardware, vec![1, 0, 0, 0]);
    let (_, rate) = psm.handle_device(5);
    assert_eq!(rate, vec![133, 0, 0, 0]);
    let _ = h;
}

#[test]
fn configure_context_rewrites_enabled_sessions_and_notifies() {
    let mut psm = registry();
    let _h = psm.open(11, serial_context(), true, 0);
    let msg = PSMPacketC2S::ConfigureContext {
        status: 4,
        packet_rate: 200,
        packet_mode: 0,
        move_mask: 1,
        in_org_x: 0,
        in_org_y: 0,
        in_org_z: 0,
        in_ext_x: 10,
        in_ext_y: 11,
        in_ext_z: 12,
        out_org_x: 0,
        out_org_y: 0,
        out_org_z: 0,
        out_ext_x: 20,
        out_ext_y: 21,
        out_ext_z: 22,
        sys_org_x: 0,
        sys_org_y: 0,
        sys_ext_x: 1920,
        sys_ext_y: 1080,
    };
    let (_, notes) = psm.handle_message(msg, 0);
    assert_eq!(notes.len(), 1);
    assert_eq!(notes[0].message, 0x7FF0 + 3);
    assert_eq!(notes[0].wparam, 1);
    // The session is enabled, so the payload carries the disabled status word.
    assert_eq!(notes[0].lparam, 1);
}

#[test]
fn wt_info_category_zero_answers_the_largest_record_size() {
    let mut psm = registry();
    let (size, data) = psm.wt_info(0, 0);
    assert_eq!(size, 212);
    assert_eq!(data.len(), 0);
}

#[test]
fn wt_info_interface_answers_counts_and_versions() {
    let mut psm = registry();
    let (size, spec_version) = psm.wt_info(1, 2);
    assert_eq!(size, 2);
    assert_eq!(spec_version, vec![0x01, 0x01]);
    let (size, num_devices) = psm.wt_info(1, 4);
    assert_eq!(size, 4);
    assert_eq!(num_devices, vec![1, 0, 0, 0]);
    let (size, blob) = psm.wt_info(1, 0);
    assert_eq!(size, 68);
    assert_eq!(blob.len(), 68);
    assert_eq!(&blob[0..4], &[0x50, 0, 0x41, 0]);
}

#[test]
fn wt_info_default_context_reflects_the_preset() {
    let mut psm = registry();
    // Index 16: input extent x, taken from the preset.
    let (size, in_ext_x) = psm.wt_info(3, 16);
    assert_eq!(size, 4);
    assert_eq!(in_ext_x, vec![0x60, 0x3B, 0, 0]);
    // The digitizing template reports no system option; the system one does.
    let (_, options) = psm.wt_info(3, 2);
    assert_eq!(options, vec![0, 0, 0, 0]);
    let (_, options) = psm.wt_info(4, 2);
    assert_eq!(options, vec![1, 0, 0, 0]);
}

#[test]
fn wt_info_unknown_category_or_index_answers_zero() {
    let mut psm = registry();
    let (size, data) = psm.wt_info(77, 0);
    assert_eq!(size, 0);
    assert_eq!(data.len(), 0);
    let (size, data) = psm.wt_info(100, 50);
    assert_eq!(size, 0);
    assert_eq!(data.len(), 0);
}

#[test]
fn wt_info_cursor_blob_has_the_fixed_record_size() {
    let mut psm = registry();
    let (size, blob) = psm.wt_info(200, 0);
    assert_eq!(size, 2420);
    assert_eq!(blob.len(), 2420);
    let (size, buttons) = psm.wt_info(200, 4);
    assert_eq!(size, 1);
    assert_eq!(buttons, vec![32]);
}

#[test]
fn device_blob_reflects_the_preset() {
    let mut psm = registry();
    let (size, blob) = psm.wt_info(100, 0);
    assert_eq!(size, 480);
    assert_eq!(blob.len(), 480);
    // Hardware flags sit right after the 256-byte name.
    assert_eq!(&blob[256..260], &[12, 0, 0, 0]);
}

#[test]
fn capacity_change_evicts_lazily_on_next_admission() {
    let mut psm = registry();
    let h = psm.open(11, serial_context(), true, 0);
    for _ in 0..3 {
        psm.handle_message(tablet_event(0, 0, 0), 0);
    }
    psm.queue_size_set(h, 2).unwrap();
    // Shrinking the capacity does not trim the queue by itself.
    assert_eq!(psm.packets_peek(h, 10).unwrap().len(), 3);
    // The next admission evicts down to the new capacity.
    psm.handle_message(tablet_event(0, 0, 0), 0);
    let serials: Vec<u32> = psm.packets_peek(h, 10).unwrap().iter().map(serial_of).collect();
    assert_eq!(serials, vec![3, 4]);
}

#[test]
fn notifications_follow_the_configured_message_base() {
    let mut psm = registry();
    let mut lc = serial_context();
    lc.msg_base = 5000;
    psm.open(11, lc, true, 0);
    let (_, notes) = psm.handle_message(tablet_event(0, 0, 0), 0);
    assert_eq!(notes[0].message, 5000);
    let (_, notes) = psm.handle_message(PSMPacketC2S::Proximity { value: true }, 0);
    assert_eq!(notes[0].message, 5005);
}
