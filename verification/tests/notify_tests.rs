use psm_core::descriptors::{WtiCursors, WtiDevices, WtiInterface, WtiLogicalContext};
use psm_core::notify::WindowMessage;

#[test]
fn window_message_values_are_offsets_from_the_base() {
    assert_eq!(WindowMessage::Packet.value(0x7FF0), 0x7FF0);
    assert_eq!(WindowMessage::CtxOpen.value(0x7FF0), 0x7FF1);
    assert_eq!(WindowMessage::CtxClose.value(0x7FF0), 0x7FF2);
    assert_eq!(WindowMessage::CtxUpdate.value(0x7FF0), 0x7FF3);
    assert_eq!(WindowMessage::CtxOverlap.value(0x7FF0), 0x7FF4);
    assert_eq!(WindowMessage::Proximity.value(0x7FF0), 0x7FF5);
    assert_eq!(WindowMessage::InfoChange.value(0x7FF0), 0x7FF6);
    assert_eq!(WindowMessage::CsrChange.value(0x7FF0), 0x7FF7);
    assert_eq!(WindowMessage::PacketExt.value(0x7FF0), 0x7FF8);
}

#[test]
fn stock_descriptors_have_their_fixed_sizes() {
    let (size, blob) = WtiInterface::psm_default().handle_info(0);
    assert_eq!(size, 68);
    assert_eq!(blob.len(), 68);
    let (size, blob) = WtiDevices::psm_default().handle_info(0);
    assert_eq!(size, 480);
    assert_eq!(blob.len(), 480);
    let (size, blob) = WtiCursors::psm_default().handle_info(0);
    assert_eq!(size, 2420);
    assert_eq!(blob.len(), 2420);
    let (size, blob) = WtiLogicalContext::psm_default().handle_info(0);
    assert_eq!(size, 212);
    assert_eq!(blob.len(), 212);
}

#[test]
fn interface_identification_is_utf16_text() {
    let iface = WtiInterface::psm_default();
    let (size, id) = iface.handle_info(1);
    assert_eq!(size, 34);
    let units: Vec<u16> = id
        .chunks(2)
        .map(|c| u16::from_le_bytes([c[0], c[1]]))
        .collect();
    let text: String = char::decode_utf16(units.into_iter())
        .map(|c| c.unwrap())
        .collect();
    assert_eq!(&text[0..16], "PAIN STUDIO MASK");
}

#[test]
fn cursor_pressure_curves_are_identity_ramps() {
    let cursors = WtiCursors::psm_default();
    assert_eq!(cursors.npresponse.len(), 256);
    assert_eq!(cursors.npresponse[0], 1);
    assert_eq!(cursors.npresponse[255], 256);
    assert_eq!(cursors.tpresponse, cursors.npresponse);
}

#[test]
fn cursor_reserved_indices_answer_zero() {
    let cursors = WtiCursors::psm_default();
    for index in [6u32, 7, 8, 10, 11, 13, 14, 17, 18] {
        let (size, data) = cursors.handle_info(index);
        assert_eq!(size, 0);
        assert_eq!(data.len(), 0);
    }
}

#[test]
fn logical_context_out_of_range_index_answers_zero() {
    let lc = WtiLogicalContext::psm_default();
    let (size, data) = lc.handle_info(35);
    assert_eq!(size, 0);
    assert_eq!(data.len(), 0);
}
