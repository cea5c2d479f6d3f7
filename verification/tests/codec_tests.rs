use psm_core::codec::{
    Orientation, Packet, Rotation, PACKET_SLOT_SIZE, PK_BUTTONS, PK_CONTEXT, PK_ORIENTATION,
    PK_ROTATION, PK_SERIAL_NUMBER, PK_STATUS, PK_TANGENT_PRESSURE, PK_TIME, PK_X, PK_Y,
};

fn sample_packet() -> Packet {
    Packet {
        context: 9,
        status: 1,
        time: 1234,
        changed: 0xFFFFFFFF,
        serial: 5,
        cursor: 2,
        buttons: 7,
        x: 100,
        y: 200,
        z: 300,
        normal_pressure: 1000,
        tangential_pressure: 50,
        orientation: Orientation { azimuth: 10, altitude: 900, twist: -1 },
        rotation: Rotation { pitch: 1, roll: 2, yaw: 3 },
    }
}

#[test]
fn encode_zero_mask_is_empty() {
    let p = sample_packet();
    assert_eq!(p.encode(0), Vec::<u8>::new());
}

#[test]
fn encode_single_word_field() {
    let p = sample_packet();
    assert_eq!(p.encode(PK_CONTEXT), vec![9, 0, 0, 0]);
    assert_eq!(p.encode(PK_SERIAL_NUMBER), vec![5, 0, 0, 0]);
}

#[test]
fn encode_length_is_sum_of_selected_widths() {
    let p = sample_packet();
    assert_eq!(p.encode(PK_BUTTONS | PK_X | PK_Y).len(), 12);
    assert_eq!(p.encode(PK_ORIENTATION).len(), 12);
    assert_eq!(p.encode(PK_ORIENTATION | PK_ROTATION).len(), 24);
    assert_eq!(p.encode(PK_STATUS | PK_TIME | PK_TANGENT_PRESSURE).len(), 12);
    assert_eq!(p.encode(0xFFFFFFFF).len(), PACKET_SLOT_SIZE);
}

#[test]
fn encode_is_deterministic() {
    let p = sample_packet();
    let mask = PK_BUTTONS | PK_X | PK_Y | PK_ORIENTATION;
    assert_eq!(p.encode(mask), p.encode(mask));
}

#[test]
fn encode_walks_bits_in_ascending_order() {
    let p = sample_packet();
    // Buttons (bit 6) precedes x (bit 7) precedes y (bit 8).
    let out = p.encode(PK_BUTTONS | PK_X | PK_Y);
    assert_eq!(out, vec![7, 0, 0, 0, 100, 0, 0, 0, 200, 0, 0, 0]);
}

#[test]
fn encode_omits_cleared_fields_entirely() {
    let p = sample_packet();
    // Only y selected: the record holds nothing but y.
    assert_eq!(p.encode(PK_Y), vec![200, 0, 0, 0]);
}

#[test]
fn encode_orientation_uses_twos_complement_words() {
    let p = sample_packet();
    let out = p.encode(PK_ORIENTATION);
    // azimuth 10, altitude 900 = 0x384, twist -1.
    assert_eq!(
        out,
        vec![10, 0, 0, 0, 0x84, 0x03, 0, 0, 0xFF, 0xFF, 0xFF, 0xFF]
    );
}
