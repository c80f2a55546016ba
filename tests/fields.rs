use vita49::schema::{CIF0_BANDWIDTH, CIF0_GPS_ASCII, CIF1_SPECTRUM, CIF2_BIND};
use vita49::{
    AckLevel, AckResponse, CifSet, DeviceId, Layout, PacketType, SampleFrameIndicator, Spectrum,
    Trailer, Vrt, VitaError,
};
use vita49::spectrum::WindowType;
use vita49::fields::EmsOrganizationRelationship;

#[test]
fn masked_fields_sign_extend_and_clear_high_bits() {
    let mut ctx = CifSet::new(Layout::Values);
    ctx.set_reference_level(Some(-256)).unwrap();
    assert_eq!(ctx.field(0, 24), Some(vec![0x0000_FF00]));
    assert_eq!(ctx.reference_level(), Some(-256));
    ctx.set_field(0, 24, Some(vec![0xABCD_8000])).unwrap();
    assert_eq!(ctx.reference_level(), Some(-32768));
}

#[test]
fn update_size_twice_is_update_size_once() {
    let mut packet = Vrt::new_context_packet();
    packet.payload_mut().context_mut().unwrap().set_bandwidth(Some(1)).unwrap();
    packet.update_packet_size();
    let once = packet.clone();
    packet.update_packet_size();
    assert_eq!(packet, once);
    assert_eq!(packet.header().packet_size() as usize * 4, packet.to_bytes().len());
}

#[test]
fn trailer_indicators_follow_enable_bits() {
    let mut packet = Vrt::new_signal_data_packet();
    // valid data enabled and set, AGC enabled and clear, sample frame first,
    // associated context packet count 5
    let w = (1 << 30) | (1 << 18) | (1 << 28) | (1 << 23) | (1 << 22) | (1 << 10) | (1 << 7) | 5;
    packet.set_trailer(Some(Trailer::from_u32(w))).unwrap();
    assert!(packet.header().trailer_included());
    packet.set_signal_payload(&[9, 9, 9, 9]).unwrap();
    let parsed = Vrt::from_bytes(&packet.to_bytes()).unwrap();
    let t = parsed.trailer().unwrap();
    assert_eq!(t.valid_data_indicator(), Some(true));
    assert_eq!(t.agc_indicator(), Some(false));
    assert_eq!(t.cal_time_indicator(), None);
    assert_eq!(t.sample_frame_indicator(), Some(SampleFrameIndicator::FirstDataPacket));
    assert_eq!(t.user_defined_indicator(), None);
    assert_eq!(t.associated_context_packet_count(), Some(5));
    assert_eq!(parsed.signal_payload().unwrap(), vec![9, 9, 9, 9]);
    let mut ctx = Vrt::new_context_packet();
    assert_eq!(ctx.set_trailer(Some(Trailer::from_u32(0))), Err(VitaError::SignalDataOnly));
}

#[test]
fn stream_id_switches_signal_packet_type() {
    let mut packet = Vrt::new_signal_data_packet();
    packet.set_stream_id(None).unwrap();
    assert_eq!(packet.header().packet_type(), PacketType::SignalDataWithoutStreamId);
    packet.update_packet_size();
    assert_eq!(packet.to_bytes().len(), 4);
    packet.set_stream_id(Some(7)).unwrap();
    assert_eq!(packet.header().packet_type(), PacketType::SignalData);
}

#[test]
fn window_types_use_one_numbering() {
    assert_eq!(WindowType::from_code(2), WindowType::Hanning100);
    assert_eq!(WindowType::Hanning100.code(), Ok(2));
    assert_eq!(WindowType::from_code(43), WindowType::KaiserBessel4Sample300);
    assert_eq!(WindowType::from_code(50), WindowType::Reserved);
    assert_eq!(WindowType::from_code(200), WindowType::Other(200));
    assert_eq!(WindowType::Reserved.code(), Err(VitaError::ReservedField));
    assert_eq!(WindowType::Other(5).code(), Err(VitaError::OutOfRange));
    let mut s = Spectrum::new();
    s.set_window_type(WindowType::Hamming).unwrap();
    assert_eq!(s.window_type(), WindowType::Hamming);
    assert_eq!(s.to_words()[1], 6);
}

#[test]
fn query_ack_carries_values() {
    let mut packet = Vrt::new_query_ack_packet();
    {
        let cmd = packet.payload_mut().command_mut().unwrap();
        assert!(cmd.cam().state());
        cmd.query_ack_mut().unwrap().set_bandwidth(Some(100)).unwrap();
        assert_eq!(cmd.ack_field(0, 29), Err(VitaError::ValidationAckOnly));
    }
    packet.update_packet_size();
    let parsed = Vrt::from_bytes(&packet.to_bytes()).unwrap();
    assert_eq!(parsed, packet);
    assert_eq!(parsed.payload().command().unwrap().query_ack().unwrap().bandwidth(), Some(100));
}

#[test]
fn cancellation_carries_only_indicators() {
    let mut packet = Vrt::new_cancellation_packet();
    {
        let cmd = packet.payload_mut().command_mut().unwrap();
        let c = cmd.cancellation_mut().unwrap();
        c.set_field(0, 29, Some(vec![])).unwrap();
        c.set_field(1, 10, Some(vec![])).unwrap();
        assert_eq!(c.set_field(0, 27, Some(vec![1, 2])), Err(VitaError::OutOfRange));
    }
    packet.update_packet_size();
    // header, stream id, CAM, message id, CIF0, CIF1
    assert_eq!(packet.header().packet_size(), 6);
    assert!(packet.header().is_cancellation_packet().unwrap());
    let parsed = Vrt::from_bytes(&packet.to_bytes()).unwrap();
    assert_eq!(parsed, packet);
    assert_eq!(parsed.payload().command().unwrap().control(), Err(VitaError::ControlOnly));
}

#[test]
fn exec_ack_with_warning_and_error() {
    let mut packet = Vrt::new_exec_ack_packet();
    {
        let cmd = packet.payload_mut().command_mut().unwrap();
        let mut w = AckResponse::new();
        w.set_user_defined(3);
        let mut e = AckResponse::new();
        e.set_device_failure();
        cmd.set_ack_field(AckLevel::Warning, 1, 10, Some(w)).unwrap();
        cmd.set_ack_field(AckLevel::Error, 0, 21, Some(e)).unwrap();
        cmd.set_ack_field(AckLevel::Warning, 0, 21, Some(w)).unwrap();
        let (lv, r) = cmd.ack_field(0, 21).unwrap().unwrap();
        assert_eq!(lv, AckLevel::Error);
        assert!(r.device_failure());
        let (lv, r) = cmd.ack_field(1, 10).unwrap().unwrap();
        assert_eq!(lv, AckLevel::Warning);
        assert!(r.user_defined(3));
    }
    packet.update_packet_size();
    let parsed = Vrt::from_bytes(&packet.to_bytes()).unwrap();
    assert_eq!(parsed, packet);
    assert!(parsed.header().is_ack_packet().unwrap());
}

#[test]
fn context_changed_flag_has_no_data() {
    let mut packet = Vrt::new_context_packet();
    {
        let ctx = packet.payload_mut().context_mut().unwrap();
        ctx.set_context_changed(true);
        assert!(ctx.context_changed());
        assert_eq!(ctx.cif0(), 1 << 31);
    }
    packet.update_packet_size();
    assert_eq!(packet.header().packet_size(), 3);
    let parsed = Vrt::from_bytes(&packet.to_bytes()).unwrap();
    assert!(parsed.payload().context().unwrap().context_changed());
}

#[test]
fn packet_count_wraps() {
    let mut packet = Vrt::new_signal_data_packet();
    let mut h = *packet.header();
    h.set_packet_count(15);
    h.inc_packet_count();
    assert_eq!(h.packet_count(), 0);
    h.set_packet_count(0x13);
    assert_eq!(h.packet_count(), 3);
    packet.set_stream_id(Some(1)).unwrap();
}

#[test]
fn device_id_and_ems_class() {
    let mut ctx = CifSet::new(Layout::Values);
    let mut d = DeviceId::from_words(0, 0);
    d.set_manufacturer_oui(0xFF12_3456);
    d.set_device_code(0x42);
    ctx.set_device_id(Some(d)).unwrap();
    let got = ctx.device_id().unwrap();
    assert_eq!(got.manufacturer_oui(), 0x12_3456);
    assert_eq!(got.device_code(), 0x42);
    ctx.set_ems_device_class(Some((0b01 << 14) | (1 << 13))).unwrap();
    assert_eq!(ctx.ems_device_class_org(), Some(EmsOrganizationRelationship::Known));
    assert_eq!(ctx.ems_device_is_exciter(), Some(true));
    assert_eq!(ctx.ems_device_is_receiver(), Some(false));
}

#[test]
fn cif7_word_names_its_attributes() {
    let mut c7 = vita49::Cif7::default();
    c7.set_current(true);
    c7.set_max(true);
    c7.set_belief(true);
    assert_eq!(c7.as_u32(), (1 << 31) | (1 << 27) | (1 << 19));
    assert_eq!(c7.num_set(), 3);
    let mut ctx = CifSet::new(Layout::Values);
    ctx.set_cif7(Some(c7.as_u32()));
    ctx.set_reference_point_id(Some(4)).unwrap();
    assert_eq!(ctx.field(0, 30), Some(vec![4, 4, 4]));
    c7.set_max(false);
    assert!(!c7.max());
}

#[test]
fn extracts_signal_data() {
    let mut packet = Vrt::new_signal_data_packet();
    packet.set_stream_id(Some(77)).unwrap();
    packet.set_signal_payload(&[1, 2, 3, 4]).unwrap();
    let got = vita49::parse_vita49(&packet.to_bytes()).unwrap();
    assert_eq!(got.stream_id, 77);
    assert_eq!(got.signal_data, vec![1, 2, 3, 4]);
    let mut ctx = Vrt::new_context_packet();
    ctx.update_packet_size();
    assert_eq!(vita49::parse_vita49(&ctx.to_bytes()), Err(VitaError::SignalDataOnly));
    assert_eq!(vita49::parse_vita49(&[1, 2]), Err(VitaError::Framing));
}

#[test]
fn gps_ascii_and_association_lists_round_trip() {
    let mut packet = Vrt::new_context_packet();
    {
        let ctx = packet.payload_mut().context_mut().unwrap();
        // GPS ASCII: OUI word, two words of text
        ctx.set_field(0, 9, Some(vec![0x00AB_CDEF, 2, 0x4750_4741, 0x2C31_3233])).unwrap();
        // association lists: one source, two system entries, one vector
        // component, one asynchronous channel with its tag
        ctx.set_field(0, 8, Some(vec![(1 << 16) | 2, (1 << 16) | (1 << 15) | 1, 10, 20, 21, 30, 40, 41])).unwrap();
        assert_eq!(ctx.set_field(0, 9, Some(vec![0, 3, 1])), Err(VitaError::OutOfRange));
        ctx.set_bandwidth(Some(5)).unwrap();
        ctx.set_ephemeris_ref_id(Some(6)).unwrap();
    }
    packet.update_packet_size();
    // header, stream id, CIF0, bandwidth (2), ephemeris ref (1), GPS ASCII (4), lists (8)
    assert_eq!(packet.header().packet_size(), 3 + 2 + 1 + 4 + 8);
    let parsed = Vrt::from_bytes(&packet.to_bytes()).unwrap();
    assert_eq!(parsed, packet);
    let ctx = parsed.payload().context().unwrap();
    assert_eq!(ctx.field(0, 9), Some(vec![0x00AB_CDEF, 2, 0x4750_4741, 0x2C31_3233]));
}

#[test]
fn empty_association_lists_parse() {
    let mut packet = Vrt::new_context_packet();
    packet.payload_mut().context_mut().unwrap().set_field(0, 8, Some(vec![0, 0])).unwrap();
    packet.update_packet_size();
    let bytes = packet.to_bytes();
    assert_eq!(bytes.len(), 4 * 5);
    let parsed = Vrt::from_bytes(&bytes).unwrap();
    assert_eq!(parsed.payload().context().unwrap().field(0, 8), Some(vec![0, 0]));
}

#[test]
fn named_bits_read_the_indicator_words() {
    let mut ctx = CifSet::new(Layout::Values);
    ctx.set_bandwidth(Some(1)).unwrap();
    ctx.set_spectrum(Some(Spectrum::new())).unwrap();
    assert!(ctx.has_field(0, CIF0_BANDWIDTH));
    assert!(ctx.has_field(1, CIF1_SPECTRUM));
    assert!(!ctx.has_field(2, CIF2_BIND));
    ctx.set_gps_ascii(Some(vec![0, 1, 0x4142_4344])).unwrap();
    assert!(ctx.has_field(0, CIF0_GPS_ASCII));
    assert_eq!(ctx.gps_ascii(), Some(vec![0, 1, 0x4142_4344]));
    ctx.set_context_association_lists(Some(vec![0, 0])).unwrap();
    assert_eq!(ctx.context_association_lists(), Some(vec![0, 0]));
}
