use psm_core::codec::PK_SERIAL_NUMBER;
use psm_core::descriptors::{Axis, WtiLogicalContext};
use psm_core::netcode::{encode_frame, encode_frame_len, extract_frame, parse_frame_len, PSMPacketC2S};
use psm_core::registry::{Config, TabletPreset, PSM};

fn preset() -> TabletPreset {
    TabletPreset {
        status: 0,
        packet_rate: 100,
        packet_mode: 0,
        move_mask: 0,
        in_org_x: 0,
        in_org_y: 0,
        in_org_z: 0,
        in_ext_x: 1024,
        in_ext_y: 1024,
        in_ext_z: 1024,
        out_org_x: 0,
        out_org_y: 0,
        out_org_z: 0,
        out_ext_x: 1024,
        out_ext_y: 1024,
        out_ext_z: 1024,
        sys_org_x: 0,
        sys_org_y: 0,
        sys_ext_x: 1920,
        sys_ext_y: 1080,
        hardware: 0,
        x_margin: 0,
        y_margin: 0,
        z_margin: 0,
        device_x: Axis::default(),
        device_y: Axis::default(),
        device_z: Axis::default(),
        normal_pressure: Axis::default(),
        tangential_pressure: Axis::default(),
        orientation: vec![Axis::default(), Axis::default(), Axis::default()],
        rotation: vec![Axis::default(), Axis::default(), Axis::default()],
    }
}

#[test]
fn frame_length_prefix_is_big_endian() {
    assert_eq!(parse_frame_len(&vec![0, 0, 0, 10]), 10);
    assert_eq!(parse_frame_len(&vec![0, 0, 1, 0]), 256);
    assert_eq!(parse_frame_len(&vec![1, 2, 3, 4]), 0x01020304);
    assert_eq!(encode_frame_len(0x01020304), vec![1, 2, 3, 4]);
    assert_eq!(parse_frame_len(&encode_frame_len(123456)), 123456);
}

#[test]
fn extract_frame_returns_the_announced_payload() {
    let mut buf = vec![0, 0, 0, 3];
    buf.extend_from_slice(&[7, 8, 9, 100, 101]);
    let payload = extract_frame(&buf).unwrap();
    assert_eq!(payload, vec![7, 8, 9]);
}

#[test]
fn truncated_frame_yields_nothing() {
    // The prefix claims ten bytes; only three were delivered.
    let buf = vec![0, 0, 0, 10, 1, 2, 3];
    assert!(extract_frame(&buf).is_none());
    assert!(extract_frame(&vec![0, 0]).is_none());
    assert!(extract_frame(&Vec::new()).is_none());
}

#[test]
fn encode_frame_round_trips_through_extract() {
    let payload = vec![5, 6, 7, 8, 9];
    let framed = encode_frame(&payload);
    assert_eq!(framed.len(), 9);
    assert_eq!(extract_frame(&framed).unwrap(), payload);
}

#[test]
fn malformed_frame_leaves_queued_events_alone() {
    let mut psm = PSM::new(Config { preset: preset() });
    let mut lc = WtiLogicalContext::psm_default();
    lc.packet_data = PK_SERIAL_NUMBER;
    let h = psm.open(11, lc, true, 0);
    psm.handle_message(
        PSMPacketC2S::TabletEvent {
            status: 0,
            buttons: 0,
            x: 0,
            y: 0,
            z: 0,
            normal_pressure: 0,
            tangential_pressure: 0,
        },
        0,
    );
    // A frame claiming ten bytes arrives with three before the disconnect:
    // no message is extracted, the connection ends, and the session's queue
    // still holds its event.
    let torn = vec![0, 0, 0, 10, 1, 2, 3];
    assert!(extract_frame(&torn).is_none());
    let records = psm.packets_peek(h, 10).unwrap();
    assert_eq!(records.len(), 1);
    assert_eq!(records[0], vec![1, 0, 0, 0]);
}

#[test]
fn configure_device_with_inverted_axis_is_invalid() {
    let bad = PSMPacketC2S::ConfigureDevice {
        hardware: 0,
        packet_rate: 100,
        packet_mode: 0,
        x_margin: 0,
        y_margin: 0,
        z_margin: 0,
        device_x: Axis { min: 10, max: 0, units: 0, resolution: 0 },
        device_y: Axis::default(),
        device_z: Axis::default(),
        normal_pressure: Axis::default(),
        tangential_pressure: Axis::default(),
        orientation: vec![Axis::default(), Axis::default(), Axis::default()],
        rotation: vec![Axis::default(), Axis::default(), Axis::default()],
    };
    assert!(!bad.valid());
    let bad_units = PSMPacketC2S::ConfigureDevice {
        hardware: 0,
        packet_rate: 100,
        packet_mode: 0,
        x_margin: 0,
        y_margin: 0,
        z_margin: 0,
        device_x: Axis::default(),
        device_y: Axis::default(),
        device_z: Axis::default(),
        normal_pressure: Axis::default(),
        tangential_pressure: Axis::default(),
        orientation: vec![
            Axis { min: 0, max: 1, units: 9, resolution: 0 },
            Axis::default(),
            Axis::default(),
        ],
        rotation: vec![Axis::default(), Axis::default(), Axis::default()],
    };
    assert!(!bad_units.valid());
    let wrong_arity = PSMPacketC2S::ConfigureDevice {
        hardware: 0,
        packet_rate: 100,
        packet_mode: 0,
        x_margin: 0,
        y_margin: 0,
        z_margin: 0,
        device_x: Axis::default(),
        device_y: Axis::default(),
        device_z: Axis::default(),
        normal_pressure: Axis::default(),
        tangential_pressure: Axis::default(),
        orientation: vec![Axis::default(), Axis::default()],
        rotation: vec![Axis::default(), Axis::default(), Axis::default()],
    };
    assert!(!wrong_arity.valid());
}

#[test]
fn ordinary_messages_are_valid() {
    assert!(PSMPacketC2S::Hi { name: "client".to_string() }.valid());
    assert!(PSMPacketC2S::Proximity { value: true }.valid());
    assert!(
        PSMPacketC2S::TabletEvent {
            status: 0,
            buttons: 0,
            x: 0,
            y: 0,
            z: 0,
            normal_pressure: 0,
            tangential_pressure: 0,
        }
        .valid()
    );
}
