use psm_core::codec::{Orientation, Packet, Rotation, PK_SERIAL_NUMBER, PK_TIME, PK_X};
use psm_core::session::{Context, PsmError};

fn bare_packet() -> Packet {
    Packet {
        context: 0,
        status: 0,
        time: 0,
        changed: 0xFFFFFFFF,
        serial: 0,
        cursor: 0,
        buttons: 0,
        x: 0,
        y: 0,
        z: 0,
        normal_pressure: 0,
        tangential_pressure: 0,
        orientation: Orientation { azimuth: 0, altitude: 0, twist: 0 },
        rotation: Rotation { pitch: 0, roll: 0, yaw: 0 },
    }
}

/// A session whose records carry only the serial number, so every retrieved
/// record is the four little-endian bytes of its serial.
fn serial_session() -> Context {
    let mut c = Context::new(1, true, 0);
    c.target = 42;
    c.logical_context.packet_data = PK_SERIAL_NUMBER;
    c
}

fn serial_of(record: &Vec<u8>) -> u32 {
    assert_eq!(record.len(), 4);
    u32::from_le_bytes([record[0], record[1], record[2], record[3]])
}

#[test]
fn serials_are_strictly_increasing_without_gaps() {
    let mut c = serial_session();
    for _ in 0..5 {
        c.send_packet(bare_packet(), 0).unwrap();
    }
    let records = c.drain(10);
    let serials: Vec<u32> = records.iter().map(serial_of).collect();
    assert_eq!(serials, vec![1, 2, 3, 4, 5]);
}

#[test]
fn send_packet_notification_carries_serial_and_handle() {
    let mut c = serial_session();
    let note = c.send_packet(bare_packet(), 0).unwrap();
    assert_eq!(note.target, 42);
    assert_eq!(note.message, 0x7FF0);
    assert_eq!(note.wparam, 1);
    assert_eq!(note.lparam, 1);
}

#[test]
fn disabled_session_refuses_events_and_keeps_queue() {
    let mut c = serial_session();
    c.send_packet(bare_packet(), 0).unwrap();
    c.enabled = false;
    let r = c.send_packet(bare_packet(), 0);
    assert_eq!(r, Err(PsmError::SessionDisabled));
    assert_eq!(c.packets.len(), 1);
}

#[test]
fn session_without_target_refuses_events() {
    let mut c = serial_session();
    c.target = 0;
    let r = c.send_packet(bare_packet(), 0);
    assert_eq!(r, Err(PsmError::NoTarget));
    assert_eq!(c.packets.len(), 0);
}

#[test]
fn capacity_two_keeps_the_last_two_of_five() {
    let mut c = serial_session();
    c.queue_size = 2;
    for _ in 0..5 {
        c.send_packet(bare_packet(), 0).unwrap();
    }
    let records = c.peek(10);
    let serials: Vec<u32> = records.iter().map(serial_of).collect();
    assert_eq!(serials, vec![4, 5]);
}

#[test]
fn capacity_zero_acts_as_one() {
    let mut c = serial_session();
    c.queue_size = 0;
    for _ in 0..3 {
        c.send_packet(bare_packet(), 0).unwrap();
    }
    let records = c.peek(10);
    let serials: Vec<u32> = records.iter().map(serial_of).collect();
    assert_eq!(serials, vec![3]);
}

#[test]
fn drain_twice_never_returns_an_event_twice() {
    let mut c = serial_session();
    for _ in 0..4 {
        c.send_packet(bare_packet(), 0).unwrap();
    }
    let first: Vec<u32> = c.drain(2).iter().map(serial_of).collect();
    let second: Vec<u32> = c.drain(10).iter().map(serial_of).collect();
    assert_eq!(first, vec![1, 2]);
    assert_eq!(second, vec![3, 4]);
    for s in &first {
        assert!(!second.contains(s));
    }
}

#[test]
fn peek_twice_returns_the_same_events() {
    let mut c = serial_session();
    for _ in 0..3 {
        c.send_packet(bare_packet(), 0).unwrap();
    }
    let first = c.peek(10);
    let second = c.peek(10);
    assert_eq!(first, second);
    assert_eq!(first.len(), 3);
}

#[test]
fn fetch_discards_older_finds_exact_and_leaves_younger() {
    let mut c = serial_session();
    for _ in 0..4 {
        c.send_packet(bare_packet(), 0).unwrap();
    }
    // Serials 1, 2, 3, 4 queued; fetch serial 3.
    let found = c.fetch(3);
    assert_eq!(found.map(|r| serial_of(&r)), Some(3));
    let rest: Vec<u32> = c.peek(10).iter().map(serial_of).collect();
    assert_eq!(rest, vec![4]);
}

#[test]
fn fetch_without_match_only_discards_older() {
    let mut c = serial_session();
    for _ in 0..4 {
        c.send_packet(bare_packet(), 0).unwrap();
    }
    c.drain(10);
    for _ in 0..2 {
        c.send_packet(bare_packet(), 0).unwrap();
    }
    // Serials 5 and 6 queued; serial 3 is long gone.
    assert_eq!(c.fetch(3).map(|r| serial_of(&r)), None);
    let rest: Vec<u32> = c.peek(10).iter().map(serial_of).collect();
    assert_eq!(rest, vec![5, 6]);
}

#[test]
fn flush_empties_the_queue() {
    let mut c = serial_session();
    for _ in 0..3 {
        c.send_packet(bare_packet(), 0).unwrap();
    }
    c.flush();
    assert_eq!(c.peek(10).len(), 0);
}

#[test]
fn admission_stamps_time_and_altitude() {
    let mut c = serial_session();
    c.logical_context.packet_data = PK_TIME;
    c.send_packet(bare_packet(), 77).unwrap();
    let records = c.drain(1);
    assert_eq!(records[0], vec![77, 0, 0, 0]);
    assert_eq!(c.packets.len(), 0);
    c.send_packet(bare_packet(), 0).unwrap();
    assert_eq!(c.packets[0].orientation.altitude, 900);
}

#[test]
fn admission_stamps_the_session_handle() {
    let mut c = Context::new(6, true, 0);
    c.target = 1;
    c.send_packet(bare_packet(), 0).unwrap();
    assert_eq!(c.packets[0].context, 6);
}

#[test]
fn drain_ignores_x_value_when_mask_selects_serial() {
    let mut c = serial_session();
    let mut p = bare_packet();
    p.x = 9999;
    c.send_packet(p, 0).unwrap();
    let records = c.drain(1);
    assert_eq!(records[0], vec![1, 0, 0, 0]);
}

#[test]
fn drain_encodes_x_under_x_mask() {
    let mut c = serial_session();
    c.logical_context.packet_data = PK_X;
    let mut p = bare_packet();
    p.x = 513;
    c.send_packet(p, 0).unwrap();
    let records = c.drain(1);
    assert_eq!(records[0], vec![1, 2, 0, 0]);
}
