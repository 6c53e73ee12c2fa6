use rain_glare::settings::{RainGlareSettings, Vec2, DATA_SIZE, PACKED_SIZE};

fn sample() -> RainGlareSettings {
    RainGlareSettings {
        intensity: 2.0f32.to_bits(),
        threshold: 0.45f32.to_bits(),
        streak_length_px: 10.0f32.to_bits(),
        rain_density: 3.6f32.to_bits(),
        wind: Vec2::new(0.0f32.to_bits(), (-1.0f32).to_bits()),
        speed: 19.4f32.to_bits(),
        time: 12.5f32.to_bits(),
        pattern_scale: 1.0f32.to_bits(),
        mask_thickness_px: 0.65f32.to_bits(),
        snap_to_pixel: 1.0f32.to_bits(),
        tail_quant_steps: 8.0f32.to_bits(),
        view_angle_factor: 0.25f32.to_bits(),
    }
}

#[test]
fn default_values_are_the_documented_ones() {
    let s = RainGlareSettings::default();
    assert_eq!(f32::from_bits(s.intensity), 0.35);
    assert_eq!(f32::from_bits(s.threshold), 0.65);
    assert_eq!(f32::from_bits(s.streak_length_px), 96.0);
    assert_eq!(f32::from_bits(s.rain_density), 0.55);
    assert_eq!(f32::from_bits(s.wind.x), 0.10);
    assert_eq!(f32::from_bits(s.wind.y), 1.0);
    assert_eq!(f32::from_bits(s.speed), 1.2);
    assert_eq!(f32::from_bits(s.time), 0.0);
    assert_eq!(f32::from_bits(s.pattern_scale), 3.0);
    assert_eq!(f32::from_bits(s.mask_thickness_px), 0.75);
    assert_eq!(f32::from_bits(s.snap_to_pixel), 1.0);
    assert_eq!(f32::from_bits(s.tail_quant_steps), 8.0);
    assert_eq!(f32::from_bits(s.view_angle_factor), 1.0);
}

#[test]
fn default_record_round_trips_bit_for_bit() {
    let s = RainGlareSettings::default();
    let bytes = s.pack();
    assert_eq!(bytes.len(), PACKED_SIZE);
    assert_eq!(RainGlareSettings::unpack(&bytes), Some(s));
}

#[test]
fn default_record_packs_to_the_exact_bytes() {
    let bytes = RainGlareSettings::default().pack();
    let expected: Vec<u8> = vec![
        51, 51, 179, 62, // intensity
        102, 102, 38, 63, // threshold
        0, 0, 192, 66, // streak_length_px
        205, 204, 12, 63, // rain_density
        205, 204, 204, 61, // wind.x
        0, 0, 128, 63, // wind.y
        154, 153, 153, 63, // speed
        0, 0, 0, 0, // time
        0, 0, 64, 64, // pattern_scale
        0, 0, 64, 63, // mask_thickness_px
        0, 0, 128, 63, // snap_to_pixel
        0, 0, 0, 65, // tail_quant_steps
        0, 0, 128, 63, // view_angle_factor
        0, 0, 0, 0, // padding
    ];
    assert_eq!(bytes, expected);
}

#[test]
fn packed_fields_match_the_float_encoding_in_order() {
    let s = sample();
    let bytes = s.pack();
    let floats = [2.0f32, 0.45, 10.0, 3.6, 0.0, -1.0, 19.4, 12.5, 1.0, 0.65, 1.0, 8.0, 0.25];
    assert_eq!(floats.len() * 4, DATA_SIZE);
    for (i, f) in floats.iter().enumerate() {
        assert_eq!(&bytes[4 * i..4 * i + 4], &f.to_le_bytes()[..]);
    }
    assert_eq!(&bytes[DATA_SIZE..], &[0u8, 0, 0, 0][..]);
}

#[test]
fn any_bit_pattern_round_trips() {
    let s = RainGlareSettings {
        intensity: 0xFFFF_FFFF,
        threshold: 0x7FC0_0001,
        streak_length_px: 0x8000_0000,
        rain_density: 0x0000_0001,
        wind: Vec2::new(0x0102_0304, 0xA1B2_C3D4),
        speed: 0x7F80_0000,
        time: 0xFF80_0000,
        pattern_scale: 0x0000_FF00,
        mask_thickness_px: 0x00FF_0000,
        snap_to_pixel: 0xFF00_0000,
        tail_quant_steps: 0x0000_00FF,
        view_angle_factor: 0x1234_5678,
    };
    let bytes = s.pack();
    assert_eq!(&bytes[16..20], &[4u8, 3, 2, 1][..]);
    assert_eq!(RainGlareSettings::unpack(&bytes), Some(s));
}

#[test]
fn unpack_refuses_other_lengths() {
    let bytes = sample().pack();
    assert_eq!(RainGlareSettings::unpack(&bytes[..55]), None);
    assert_eq!(RainGlareSettings::unpack(&bytes[..52]), None);
    assert_eq!(RainGlareSettings::unpack(&[]), None);
    let mut longer = bytes.clone();
    longer.push(0);
    assert_eq!(RainGlareSettings::unpack(&longer), None);
}

#[test]
fn unpack_ignores_what_the_padding_holds() {
    let mut bytes = sample().pack();
    bytes[52] = 9;
    bytes[55] = 200;
    assert_eq!(RainGlareSettings::unpack(&bytes), Some(sample()));
}

#[test]
fn write_to_appends_after_what_is_there() {
    let mut buf: Vec<u8> = vec![7, 8, 9];
    sample().write_to(&mut buf);
    assert_eq!(buf.len(), 3 + PACKED_SIZE);
    assert_eq!(&buf[..3], &[7u8, 8, 9][..]);
    assert_eq!(&buf[3..], &sample().pack()[..]);
}

#[test]
fn read_from_decodes_at_an_offset() {
    let mut buf: Vec<u8> = vec![1, 2, 3, 4, 5];
    RainGlareSettings::default().write_to(&mut buf);
    sample().write_to(&mut buf);
    assert_eq!(RainGlareSettings::read_from(&buf, 5), Some(RainGlareSettings::default()));
    assert_eq!(RainGlareSettings::read_from(&buf, 5 + PACKED_SIZE), Some(sample()));
    assert_eq!(RainGlareSettings::read_from(&buf, buf.len() - DATA_SIZE + 1), None);
    assert_eq!(RainGlareSettings::read_from(&buf, usize::MAX), None);
    assert_eq!(RainGlareSettings::read_from(&buf[..10], 0), None);
}

#[test]
fn advance_writes_time_and_angle_only() {
    let mut s = sample();
    s.advance(3.5f32.to_bits(), 0.5f32.to_bits());
    let mut expected = sample();
    expected.time = 3.5f32.to_bits();
    expected.view_angle_factor = 0.5f32.to_bits();
    assert_eq!(s, expected);
}
