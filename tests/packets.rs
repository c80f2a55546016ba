use vita49::{
    ActionMode, ClassIdentifier, ControlAckMode, Gain, IdFormat, PacketType, Spectrum,
    SpectrumType, AveragingType, Threshold, Tsf, Tsi, Vrt,
};

fn to_raw(v: f32) -> i16 {
    (v * 128.0) as i16
}

fn from_raw(v: i16) -> f32 {
    v as f32 / 128.0
}

fn close(a: f32, b: f32) -> bool {
    ((a - b) / b).abs() <= 0.1
}

#[test]
fn create_command_packet() {
    let mut packet = Vrt::new_control_packet();
    packet.set_stream_id(Some(0xDEADBEEF)).unwrap();
    packet.set_integer_timestamp(Some(0), Tsi::Utc).unwrap();
    packet.set_fractional_timestamp(Some(0), Tsf::SampleCount).unwrap();
    let command = packet.payload_mut().command_mut().unwrap();
    command.set_message_id(123);
    let mut cam = ControlAckMode::default();
    cam.set_action_mode(ActionMode::Execute).unwrap();
    cam.set_partial_packet_impl_permitted();
    cam.set_warnings_permitted();
    cam.set_validation();
    cam.set_warning();
    cam.set_error();
    command.set_cam(cam);
    command.set_controllee_id(Some(123)).unwrap();
    command.set_controller_uuid(Some(321)).unwrap();
    assert_eq!(command.cam().controllee_id_format(), IdFormat::Id32bit);
    assert_eq!(command.cam().controller_id_format(), IdFormat::Uuid128bit);
    let control = command.control_mut().unwrap();
    assert_eq!(control.cif0(), 0);
    control.set_rf_ref_freq(Some(100_000_000u64 << 20)).unwrap();
    assert_eq!(control.cif0(), 0x800_0000);
    control.set_bandwidth(Some(8_000_000u64 << 20)).unwrap();
    assert_eq!(control.cif0(), 0x2800_0000);
}

#[test]
fn read_context_internals() {
    let mut packet = Vrt::new_context_packet();
    packet.set_stream_id(Some(1)).unwrap();
    packet.set_integer_timestamp(Some(100), Tsi::Utc).unwrap();
    packet.set_fractional_timestamp(Some(100), Tsf::RealTimePs).unwrap();
    {
        let context = packet.payload_mut().context_mut().unwrap();
        context.set_bandwidth(Some(6_000_000u64 << 20)).unwrap();
        context.set_rf_ref_freq(Some(100_000_000u64 << 20)).unwrap();
        context.set_sample_rate(Some(8_000_000u64 << 20)).unwrap();
        let mut s = Spectrum::new();
        s.set_spectrum_type(SpectrumType::LogPowerDb).unwrap();
        s.set_averaging_type(AveragingType::Linear).unwrap();
        s.set_num_transform_points(1280);
        s.set_f1_index(-640);
        context.set_spectrum(Some(s)).unwrap();
    }
    packet.update_packet_size();
    let packet = Vrt::from_bytes(&packet.to_bytes()).unwrap();
    assert_eq!(packet.header().packet_type(), PacketType::Context);
    assert!(packet.header().stream_id_included());
    assert!(!packet.header().class_id_included());
    assert!(packet.header().integer_timestamp_included());
    assert!(packet.header().fractional_timestamp_included());
    assert!(!packet.header().trailer_included());
    assert_eq!(packet.header().tsi(), Tsi::Utc);
    assert_eq!(packet.header().tsf(), Tsf::RealTimePs);
    assert_eq!(packet.stream_id(), Some(1));

    let context = packet.payload().context().unwrap();
    assert!(!context.context_changed());
    assert!(context.reference_point_id().is_none());
    assert_eq!(context.cif0() >> 29 & 1, 1);
    assert_eq!(context.bandwidth(), Some(6_000_000u64 << 20));
    assert_eq!(context.rf_ref_freq(), Some(100_000_000u64 << 20));
    assert_eq!(context.sample_rate(), Some(8_000_000u64 << 20));
    assert_eq!(context.cif0() >> 4 & 1, 1);
    assert!(context.cif1().is_some());
    assert_eq!(context.cif1().unwrap() >> 10 & 1, 1);
    assert_eq!(context.spectrum().unwrap().spectrum_type_as_u32(), 0x101);
    assert_eq!(context.spectrum().unwrap().num_transform_points(), 1280);
    assert_eq!(context.spectrum().unwrap().f1_index(), -640);
}

#[test]
fn manipulate_gain() {
    let mut packet = Vrt::new_context_packet();
    let context = packet.payload_mut().context_mut().unwrap();
    let s1: f32 = 25.2;
    let s2: f32 = 0.23;
    context.set_gain(Some(Gain::new(to_raw(s1), to_raw(s2)))).unwrap();
    assert!(close(from_raw(context.gain().unwrap().stage_1()), s1));
    assert!(close(from_raw(context.gain().unwrap().stage_2()), s2));
}

#[test]
fn packet_header() {
    let packet = Vrt::new_control_packet();
    assert_eq!(packet.header().packet_type(), PacketType::Command);
    assert_eq!(packet.header().as_u32() >> 28, 0b0110);
}

#[test]
fn set_class_id_sets_class_id_included_bit() {
    let mut packet = Vrt::new_signal_data_packet();
    assert!(!packet.header().class_id_included());
    let class_id = Some(ClassIdentifier::default());
    packet.set_class_id(class_id);
    assert!(packet.header().class_id_included());
}

#[test]
fn manipulate_threshold() {
    let mut packet = Vrt::new_context_packet();
    let context = packet.payload_mut().context_mut().unwrap();
    let mut s1: f32 = 25.2;
    let mut s2: f32 = 0.23;
    let mut t = Threshold::new(to_raw(s1), to_raw(s2));
    context.set_threshold(Some(t)).unwrap();
    assert!(close(from_raw(context.threshold().unwrap().stage_1()), s1));
    assert!(close(from_raw(context.threshold().unwrap().stage_2()), s2));
    s1 = -20.5;
    s2 = -11.1;
    t.set_stage_1(to_raw(s1));
    t.set_stage_2(to_raw(s2));
    context.set_threshold(Some(t)).unwrap();
    assert!(close(from_raw(context.threshold().unwrap().stage_1()), s1));
    assert!(close(from_raw(context.threshold().unwrap().stage_2()), s2));
}
