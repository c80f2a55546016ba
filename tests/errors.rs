use vita49::{ActionMode, ControlAckMode, Spectrum, SpectrumType, VitaError, Vrt};

#[test]
fn short_input_is_a_framing_error() {
    assert_eq!(Vrt::from_bytes(&[]), Err(VitaError::Framing));
    assert_eq!(Vrt::from_bytes(&[0x10, 0, 0]), Err(VitaError::Framing));
}

#[test]
fn reserved_packet_type_is_rejected() {
    assert_eq!(Vrt::from_bytes(&[0x80, 0, 0, 1]), Err(VitaError::Framing));
}

#[test]
fn declared_size_beyond_input_is_rejected() {
    // signal data with stream id, size 5, only 2 words present
    assert_eq!(Vrt::from_bytes(&[0x10, 0, 0, 5, 0, 0, 0, 1]), Err(VitaError::Framing));
}

#[test]
fn context_longer_than_declared_is_a_length_mismatch() {
    let mut packet = Vrt::new_context_packet();
    packet.payload_mut().context_mut().unwrap().set_reference_point_id(Some(3)).unwrap();
    packet.update_packet_size();
    let mut bytes = packet.to_bytes();
    // declare one word more than the packet uses
    bytes[3] += 1;
    bytes.extend_from_slice(&[0, 0, 0, 0]);
    assert_eq!(Vrt::from_bytes(&bytes), Err(VitaError::LengthMismatch));
}

#[test]
fn uneven_signal_payload_is_rejected() {
    let mut packet = Vrt::new_signal_data_packet();
    assert_eq!(packet.set_signal_payload(&[1, 2, 3, 4, 5, 6, 7]), Err(VitaError::PayloadUneven32BitWords));
}

#[test]
fn signal_payload_on_context_is_rejected() {
    let mut packet = Vrt::new_context_packet();
    assert_eq!(packet.set_signal_payload(&[1, 2, 3, 4]), Err(VitaError::SignalDataOnly));
    assert!(packet.payload().command().is_err());
}

#[test]
fn unimplemented_field_is_reported() {
    // context packet: header, stream id, CIF0 announcing CIF1, CIF1 with the
    // 3-D pointing vector structure bit (28)
    let bytes = [0x41, 0, 0, 4, 0, 0, 0, 0, 0, 0, 0, 0x10, 0x10, 0, 0, 0];
    assert_eq!(Vrt::from_bytes(&bytes), Err(VitaError::UnimplementedField { cif: 1, bit: 28 }));
    let mut packet = Vrt::new_context_packet();
    let ctx = packet.payload_mut().context_mut().unwrap();
    assert_eq!(ctx.set_field(1, 28, Some(vec![1])), Err(VitaError::UnimplementedField { cif: 1, bit: 28 }));
}

#[test]
fn variable_length_field_beyond_packet_is_a_framing_error() {
    // context packet: header, stream id, CIF0 with GPS ASCII (bit 9), then
    // an OUI word and a count of 5 words that are not there
    let bytes = [0x41, 0, 0, 5, 0, 0, 0, 0, 0, 0, 0x02, 0, 0, 0, 0, 0, 0, 0, 0, 5];
    assert_eq!(Vrt::from_bytes(&bytes), Err(VitaError::Framing));
}

#[test]
fn reserved_bits_are_rejected() {
    // context packet: header, stream id, CIF0 with reserved bit 0
    let bytes = [0x41, 0, 0, 3, 0, 0, 0, 0, 0, 0, 0, 1];
    assert_eq!(Vrt::from_bytes(&bytes), Err(VitaError::ReservedField));
    let mut packet = Vrt::new_context_packet();
    let ctx = packet.payload_mut().context_mut().unwrap();
    assert_eq!(ctx.set_field(1, 22, Some(vec![1])), Err(VitaError::ReservedField));
    let mut cam = ControlAckMode::new();
    assert_eq!(cam.set_action_mode(ActionMode::Reserved), Err(VitaError::ReservedField));
}

#[test]
fn spectrum_type_codes_are_checked() {
    let mut s = Spectrum::new();
    assert_eq!(s.set_spectrum_type(SpectrumType::Reserved), Err(VitaError::ReservedField));
    assert_eq!(s.set_spectrum_type(SpectrumType::UserDefined(127)), Err(VitaError::OutOfRange));
    s.set_spectrum_type(SpectrumType::UserDefined(128)).unwrap();
    assert_eq!(s.spectrum_type(), SpectrumType::UserDefined(128));
}

#[test]
fn stream_id_cannot_leave_a_context_packet() {
    let mut packet = Vrt::new_context_packet();
    assert_eq!(packet.set_stream_id(None), Err(VitaError::SignalDataOnly));
}

#[test]
fn ack_without_kind_bits_is_rejected() {
    // command packet, ACK indicator, stream id, CAM with none of V/X/S, message id
    let bytes = [0x64, 0, 0, 4, 0, 0, 0, 0, 0, 0, 0, 0, 0, 0, 0, 0];
    assert_eq!(Vrt::from_bytes(&bytes), Err(VitaError::Framing));
}
