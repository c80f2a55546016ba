use vita49::{
    AckLevel, AckResponse, ActionMode, AveragingType, ClassIdentifier, ControlAckMode, IdFormat,
    PacketType, Spectrum, SpectrumType, Tsf, Tsi, VitaError, Vrt,
};

const RADIX_20: u64 = 1 << 20;

fn word_at(bytes: &[u8], i: usize) -> u32 {
    u32::from_be_bytes([bytes[4 * i], bytes[4 * i + 1], bytes[4 * i + 2], bytes[4 * i + 3]])
}

#[test]
fn signal_data_round_trip() {
    let mut packet = Vrt::new_signal_data_packet();
    packet.set_stream_id(Some(0xDEADBEEF)).unwrap();
    packet.set_signal_payload(&[1, 2, 3, 4, 5, 6, 7, 8]).unwrap();
    packet.update_packet_size();
    assert_eq!(packet.header().packet_type(), PacketType::SignalData);
    assert_eq!(packet.header().packet_size(), 4);
    let bytes = packet.to_bytes();
    assert_eq!(bytes.len(), 16);
    assert_eq!(bytes[0] >> 4, 0b0001);
    assert_eq!(&bytes[4..8], &[0xDE, 0xAD, 0xBE, 0xEF]);
    assert_eq!(&bytes[8..16], &[1, 2, 3, 4, 5, 6, 7, 8]);
    let parsed = Vrt::from_bytes(&bytes).unwrap();
    assert_eq!(parsed, packet);
    assert_eq!(parsed.signal_payload().unwrap(), vec![1, 2, 3, 4, 5, 6, 7, 8]);
}

fn spectrum_0x101() -> Spectrum {
    let mut s = Spectrum::new();
    s.set_spectrum_type(SpectrumType::LogPowerDb).unwrap();
    s.set_averaging_type(AveragingType::Linear).unwrap();
    s.set_num_transform_points(1280);
    s.set_f1_index(-640);
    s
}

#[test]
fn context_with_bandwidth_and_rf_ref_freq() {
    let mut packet = Vrt::new_context_packet();
    packet.set_stream_id(Some(1)).unwrap();
    {
        let ctx = packet.payload_mut().context_mut().unwrap();
        ctx.set_bandwidth(Some(6_000_000 * RADIX_20)).unwrap();
        ctx.set_rf_ref_freq(Some(100_000_000 * RADIX_20)).unwrap();
        ctx.set_sample_rate(Some(8_000_000 * RADIX_20)).unwrap();
        ctx.set_spectrum(Some(spectrum_0x101())).unwrap();
    }
    packet.update_packet_size();
    let ctx = packet.payload().context().unwrap();
    assert_eq!(ctx.cif0(), (1 << 29) | (1 << 27) | (1 << 21) | (1 << 4));
    assert_eq!(ctx.cif1(), Some(1 << 10));
    let bytes = packet.to_bytes();
    // header, stream id, CIF0, CIF1, three 2-word values, 13-word spectrum
    assert_eq!(packet.header().packet_size(), 4 + 6 + 13);
    assert_eq!(bytes.len(), 4 * (4 + 6 + 13));
    let bw = 6_000_000 * RADIX_20;
    let rf = 100_000_000 * RADIX_20;
    let sr = 8_000_000 * RADIX_20;
    assert_eq!(word_at(&bytes, 4), (bw >> 32) as u32);
    assert_eq!(word_at(&bytes, 5), bw as u32);
    assert_eq!(word_at(&bytes, 6), (rf >> 32) as u32);
    assert_eq!(word_at(&bytes, 7), rf as u32);
    assert_eq!(word_at(&bytes, 8), (sr >> 32) as u32);
    assert_eq!(word_at(&bytes, 9), sr as u32);
    assert_eq!(word_at(&bytes, 10), 0x101);
    let parsed = Vrt::from_bytes(&bytes).unwrap();
    assert_eq!(parsed, packet);
    let pctx = parsed.payload().context().unwrap();
    assert_eq!(pctx.bandwidth(), Some(bw));
    assert_eq!(pctx.rf_ref_freq(), Some(rf));
    assert_eq!(pctx.sample_rate(), Some(sr));
    let s = pctx.spectrum().unwrap();
    assert_eq!(s.spectrum_type_as_u32(), 0x101);
    assert_eq!(s.num_transform_points(), 1280);
    assert_eq!(s.f1_index(), -640);
}

#[test]
fn setting_bandwidth_then_clearing_it() {
    let mut packet = Vrt::new_context_packet();
    {
        let ctx = packet.payload_mut().context_mut().unwrap();
        ctx.set_bandwidth(Some(8_000_000 * RADIX_20)).unwrap();
        assert_eq!(ctx.cif0() >> 29 & 1, 1);
        assert_eq!(ctx.bandwidth(), Some(8_000_000 * RADIX_20));
        ctx.set_bandwidth(None).unwrap();
        assert_eq!(ctx.cif0() >> 29 & 1, 0);
        assert_eq!(ctx.bandwidth(), None);
        assert_eq!(ctx.cif0(), 0);
    }
    packet.update_packet_size();
    // header, stream id, CIF0
    assert_eq!(packet.header().packet_size(), 3);
    assert_eq!(packet.to_bytes().len(), 12);
}

#[test]
fn command_with_32_bit_controllee_and_128_bit_controller() {
    let mut packet = Vrt::new_control_packet();
    let uuid: u128 = 0x7F3CEF62E56848F18B88A7576FA634DF;
    {
        let cmd = packet.payload_mut().command_mut().unwrap();
        let mut cam = ControlAckMode::new();
        cam.set_action_mode(ActionMode::Execute).unwrap();
        cam.set_warnings_permitted();
        cam.set_warning();
        cam.set_error();
        cam.set_execution();
        cam.set_partial_packet_impl_permitted();
        cmd.set_cam(cam);
        cmd.set_controllee_id(Some(1234)).unwrap();
        cmd.set_controller_uuid(Some(uuid)).unwrap();
        let ctl = cmd.control_mut().unwrap();
        ctl.set_rf_ref_freq(Some(100_000_000 * RADIX_20)).unwrap();
        ctl.set_bandwidth(Some(8_000_000 * RADIX_20)).unwrap();
    }
    packet.update_packet_size();
    let cmd = packet.payload().command().unwrap();
    let cam = cmd.cam();
    assert!(cam.controllee_enabled());
    assert_eq!(cam.controllee_id_format(), IdFormat::Id32bit);
    assert!(cam.controller_enabled());
    assert_eq!(cam.controller_id_format(), IdFormat::Uuid128bit);
    assert_eq!((cam.as_u32() >> 23) & 0b11, 0b10);
    assert_eq!(cam.action_mode(), ActionMode::Execute);
    assert!(cam.execution() && cam.warning() && cam.error());
    assert!(cam.partial_packet_impl_permitted() && cam.warnings_permitted());
    assert_eq!(cam.as_u32(), 0xBD0B_0000);
    let bytes = packet.to_bytes();
    // header, stream id, CAM, message id, controllee id, uuid, CIF0, two values
    assert_eq!(bytes.len(), 4 * (2 + 2 + 1 + 4 + 1 + 4));
    assert_eq!(word_at(&bytes, 2), 0xBD0B_0000);
    assert_eq!(word_at(&bytes, 4), 1234);
    assert_eq!(word_at(&bytes, 5), 0x7F3CEF62);
    assert_eq!(word_at(&bytes, 6), 0xE56848F1);
    assert_eq!(word_at(&bytes, 7), 0x8B88A757);
    assert_eq!(word_at(&bytes, 8), 0x6FA634DF);
    assert_eq!(word_at(&bytes, 9), 0x2800_0000);
    let parsed = Vrt::from_bytes(&bytes).unwrap();
    assert_eq!(parsed, packet);
    assert_eq!(parsed.payload().command().unwrap().controller_uuid(), Some(uuid));
}

#[test]
fn validation_ack_reporting_bandwidth_error_only() {
    let mut packet = Vrt::new_validation_ack_packet();
    {
        let cmd = packet.payload_mut().command_mut().unwrap();
        let mut resp = AckResponse::new();
        resp.set_param_out_of_range();
        cmd.set_ack_field(AckLevel::Error, 0, 29, Some(resp)).unwrap();
        assert!(cmd.cam().error());
        assert!(!cmd.cam().warning());
        let (level, r) = cmd.ack_field(0, 29).unwrap().unwrap();
        assert_eq!(level, AckLevel::Error);
        assert!(r.param_out_of_range());
        assert_eq!(cmd.ack_field(0, 27).unwrap(), None);
    }
    packet.update_packet_size();
    let bytes = packet.to_bytes();
    // header, stream id, CAM, message id, EIF0, one response
    assert_eq!(bytes.len(), 4 * 6);
    assert_eq!(word_at(&bytes, 4), 1 << 29);
    assert_eq!(word_at(&bytes, 5), 1 << 28);
    let parsed = Vrt::from_bytes(&bytes).unwrap();
    assert_eq!(parsed, packet);
}

#[test]
fn mutual_exclusion_failure() {
    let mut packet = Vrt::new_control_packet();
    let cmd = packet.payload_mut().command_mut().unwrap();
    cmd.set_controllee_id(Some(1)).unwrap();
    let cam_before = cmd.cam();
    assert_eq!(cmd.set_controllee_uuid(Some(2)), Err(VitaError::TriedUuidWhenIdSet));
    assert_eq!(cmd.controllee_id(), Some(1));
    assert_eq!(cmd.controllee_uuid(), None);
    assert_eq!(cmd.cam(), cam_before);
}

#[test]
fn id_when_uuid_set_fails() {
    let mut packet = Vrt::new_control_packet();
    let cmd = packet.payload_mut().command_mut().unwrap();
    cmd.set_controller_uuid(Some(5)).unwrap();
    assert_eq!(cmd.set_controller_id(Some(1)), Err(VitaError::TriedIdWhenUuidSet));
    cmd.set_controller_uuid(None).unwrap();
    assert!(!cmd.cam().controller_enabled());
    assert_eq!(cmd.cam().controller_id_format(), IdFormat::Id32bit);
    cmd.set_controller_id(Some(1)).unwrap();
    assert_eq!(cmd.controller_id(), Some(1));
}

#[test]
fn timestamps_follow_their_kinds() {
    let mut packet = Vrt::new_signal_data_packet();
    assert_eq!(packet.set_integer_timestamp(Some(12345), Tsi::Null), Err(VitaError::TimestampModeMismatch));
    assert_eq!(packet.set_integer_timestamp(None, Tsi::Utc), Err(VitaError::TimestampModeMismatch));
    assert_eq!(packet.set_fractional_timestamp(Some(1), Tsf::Null), Err(VitaError::TimestampModeMismatch));
    packet.set_integer_timestamp(Some(12345), Tsi::Utc).unwrap();
    packet.set_fractional_timestamp(Some(0x1_0000_0002), Tsf::SampleCount).unwrap();
    assert!(packet.header().integer_timestamp_included());
    assert!(packet.header().fractional_timestamp_included());
    packet.update_packet_size();
    let bytes = packet.to_bytes();
    assert_eq!(bytes.len(), 4 * 5);
    assert_eq!(word_at(&bytes, 2), 12345);
    assert_eq!(word_at(&bytes, 3), 1);
    assert_eq!(word_at(&bytes, 4), 2);
    let parsed = Vrt::from_bytes(&bytes).unwrap();
    assert_eq!(parsed.integer_timestamp(), Some(12345));
    assert_eq!(parsed.fractional_timestamp(), Some(0x1_0000_0002));
    packet.set_integer_timestamp(None, Tsi::Null).unwrap();
    assert!(!packet.header().integer_timestamp_included());
}

#[test]
fn cif7_replicas_follow_every_field() {
    let mut packet = Vrt::new_context_packet();
    {
        let ctx = packet.payload_mut().context_mut().unwrap();
        // current and average values
        ctx.set_cif7(Some((1 << 31) | (1 << 30)));
        ctx.set_bandwidth(Some(7)).unwrap();
        ctx.set_reference_point_id(Some(9)).unwrap();
        assert_eq!(ctx.field(0, 29), Some(vec![0, 7, 0, 7]));
        assert_eq!(ctx.field(0, 30), Some(vec![9, 9]));
        assert_eq!(ctx.bandwidth(), Some(7));
        assert_eq!(ctx.cif0(), (1 << 30) | (1 << 29) | (1 << 1));
        assert_eq!(ctx.set_field(0, 29, Some(vec![0, 7])), Err(VitaError::OutOfRange));
    }
    packet.update_packet_size();
    let bytes = packet.to_bytes();
    // header, stream id, CIF0, CIF7, 2 copies of 1 word, 2 copies of 2 words
    assert_eq!(bytes.len(), 4 * (4 + 2 + 4));
    assert_eq!(word_at(&bytes, 3), (1 << 31) | (1 << 30));
    assert_eq!(word_at(&bytes, 4), 9);
    assert_eq!(word_at(&bytes, 5), 9);
    assert_eq!(word_at(&bytes, 6), 0);
    assert_eq!(word_at(&bytes, 7), 7);
    let parsed = Vrt::from_bytes(&bytes).unwrap();
    assert_eq!(parsed, packet);
}

#[test]
fn cif7_without_current_value_has_no_primary() {
    let mut packet = Vrt::new_context_packet();
    let ctx = packet.payload_mut().context_mut().unwrap();
    ctx.set_cif7(Some(1 << 27));
    ctx.set_bandwidth(Some(3)).unwrap();
    assert_eq!(ctx.field(0, 29), Some(vec![0, 3]));
    assert_eq!(ctx.bandwidth(), None);
}

#[test]
fn fields_appear_in_descending_bit_order() {
    let mut packet = Vrt::new_context_packet();
    {
        let ctx = packet.payload_mut().context_mut().unwrap();
        ctx.set_reference_point_id(Some(0xAAAA)).unwrap();
        ctx.set_over_range_count(Some(0xBBBB)).unwrap();
        ctx.set_ephemeris_ref_id(Some(0xCCCC)).unwrap();
        ctx.set_temperature(Some(0x1DDD)).unwrap();
    }
    packet.update_packet_size();
    let bytes = packet.to_bytes();
    // bits 30, 22, 18, 10
    assert_eq!(word_at(&bytes, 3), 0xAAAA);
    assert_eq!(word_at(&bytes, 4), 0xBBBB);
    assert_eq!(word_at(&bytes, 5), 0x1DDD);
    assert_eq!(word_at(&bytes, 6), 0xCCCC);
}

#[test]
fn meta_bits_follow_cif_presence() {
    let mut packet = Vrt::new_context_packet();
    let ctx = packet.payload_mut().context_mut().unwrap();
    assert_eq!(ctx.cif2(), None);
    ctx.set_field(2, 25, Some(vec![42])).unwrap();
    assert_eq!(ctx.cif2(), Some(1 << 25));
    assert_eq!(ctx.cif0() & (1 << 3), 1 << 3);
    ctx.set_field(2, 25, None).unwrap();
    assert_eq!(ctx.cif2(), None);
    assert_eq!(ctx.cif0(), 0);
}

#[test]
fn class_id_round_trip() {
    let mut packet = Vrt::new_signal_data_packet();
    let mut cid = ClassIdentifier::default();
    cid.set_oui(0x12_3456);
    cid.set_information_class_code(0xABCD);
    cid.set_packet_class_code(0x0102);
    cid.set_pad_bit_count(3);
    packet.set_class_id(Some(cid));
    packet.update_packet_size();
    let parsed = Vrt::from_bytes(&packet.to_bytes()).unwrap();
    let c = parsed.class_id().unwrap();
    assert_eq!(c.oui(), 0x12_3456);
    assert_eq!(c.information_class_code(), 0xABCD);
    assert_eq!(c.packet_class_code(), 0x0102);
    assert_eq!(c.pad_bit_count(), 3);
}

#[test]
fn fresh_signal_packet_header_word() {
    let mut p = Vrt::new_signal_data_packet();
    assert_eq!(p.header().packet_size(), 2);
    assert!(p.class_id().is_none() && p.trailer().is_none());
    assert!(p.integer_timestamp().is_none() && p.fractional_timestamp().is_none());
    p.set_stream_id(Some(0xDEADBEEF)).unwrap();
    p.set_signal_payload(&[1, 2, 3, 4, 5, 6, 7, 8]).unwrap();
    assert_eq!(p.header().as_u32(), 0x1000_0004);
}

#[test]
fn clearing_bandwidth_gives_back_a_fresh_context_packet() {
    let mut p = Vrt::new_context_packet();
    {
        let ctx = p.payload_mut().context_mut().unwrap();
        ctx.set_bandwidth(Some(8_000_000 * RADIX_20)).unwrap();
        ctx.set_bandwidth(None).unwrap();
    }
    p.update_packet_size();
    assert_eq!(p.header().packet_size(), 3);
    assert_eq!(p, Vrt::new_context_packet());
}

#[test]
fn ack_entries_on_one_level_keep_the_rest() {
    let mut packet = Vrt::new_validation_ack_packet();
    let cmd = packet.payload_mut().command_mut().unwrap();
    let mut r = AckResponse::new();
    r.set_param_out_of_range();
    cmd.set_ack_field(AckLevel::Error, 0, 29, Some(r)).unwrap();
    cmd.set_ack_field(AckLevel::Error, 0, 27, None).unwrap();
    assert_eq!(cmd.ack_field(0, 29).unwrap(), Some((AckLevel::Error, r)));
    assert_eq!(cmd.ack_field(0, 27).unwrap(), None);
    assert!(!cmd.cam().warning());
    // clearing a warning entry that was never set leaves the WIF section absent
    cmd.set_ack_field(AckLevel::Warning, 0, 29, None).unwrap();
    assert!(!cmd.cam().warning());
    assert_eq!(cmd.ack_field(0, 29).unwrap(), Some((AckLevel::Error, r)));
    // a bad field changes nothing
    let before = cmd.clone();
    assert_eq!(cmd.set_ack_field(AckLevel::Warning, 0, 0, Some(r)), Err(VitaError::ReservedField));
    assert_eq!(*cmd, before);
}
