use byteorder::{ByteOrder, LittleEndian};

use recorder_core::devices::{
    find_device_index, enumerate_audio_devices, sample_format_name, select_input_config, SampleKind,
};
use recorder_core::frame::{adjusted_height, capture_buffer_size, pack_frame};
use recorder_core::samples::{encode_i16_samples, encode_i32_samples, encode_i8_samples};

#[test]
fn i16_encoding_matches_the_little_endian_reference() {
    let data: Vec<i16> = vec![0, 1, -1, 256, -256, i16::MIN, i16::MAX, 12345];
    let ours = encode_i16_samples(&data);
    let mut reference = vec![0u8; data.len() * 2];
    LittleEndian::write_i16_into(&data, &mut reference);
    assert_eq!(ours, reference);
}

#[test]
fn i32_encoding_matches_the_little_endian_reference() {
    let data: Vec<i32> = vec![0, 1, -1, 65536, -65536, i32::MIN, i32::MAX, 123456789];
    let ours = encode_i32_samples(&data);
    let mut reference = vec![0u8; data.len() * 4];
    LittleEndian::write_i32_into(&data, &mut reference);
    assert_eq!(ours, reference);
}

#[test]
fn i8_samples_pass_through_as_bytes() {
    let data: Vec<i8> = vec![0, 1, -1, i8::MIN, i8::MAX];
    assert_eq!(encode_i8_samples(&data), vec![0u8, 1, 255, 128, 127]);
}

#[test]
fn device_list_puts_the_default_first_without_repeating_it() {
    let default_name = "Built-in".to_string();
    let names = vec![
        "USB Mic".to_string(),
        "Built-in".to_string(),
        "Loopback".to_string(),
    ];
    assert_eq!(enumerate_audio_devices(default_name, names), vec!["Built-in", "USB Mic", "Loopback"]);
}

#[test]
fn device_list_with_no_duplicates_keeps_order() {
    let default_name = "Default".to_string();
    let names = vec!["A".to_string(), "B".to_string()];
    assert_eq!(enumerate_audio_devices(default_name, names), vec!["Default", "A", "B"]);
}

#[test]
fn custom_device_is_found_by_name() {
    let names = vec!["A".to_string(), "B".to_string(), "B".to_string()];
    assert_eq!(find_device_index(&names, &"B".to_string()), Some(1));
    assert_eq!(find_device_index(&names, &"C".to_string()), None);
}

#[test]
fn input_config_selection_prefers_supported_formats() {
    assert_eq!(
        select_input_config(&vec![
            SampleKind::Unsupported,
            SampleKind::FloatSample,
            SampleKind::SignedShort,
        ]),
        Some(1)
    );
    assert_eq!(select_input_config(&vec![SampleKind::Unsupported]), Some(0));
    assert_eq!(select_input_config(&vec![]), None);
}

#[test]
fn sample_formats_have_the_encoder_names() {
    assert_eq!(sample_format_name(SampleKind::SignedByte), Some("s8"));
    assert_eq!(sample_format_name(SampleKind::SignedShort), Some("s16le"));
    assert_eq!(sample_format_name(SampleKind::SignedInt), Some("s32le"));
    assert_eq!(sample_format_name(SampleKind::FloatSample), Some("f32le"));
    assert_eq!(sample_format_name(SampleKind::Unsupported), None);
}

#[test]
fn frame_geometry_rounds_height_down_to_even() {
    assert_eq!(adjusted_height(1080), 1080);
    assert_eq!(adjusted_height(1081), 1080);
    assert_eq!(adjusted_height(1), 0);
    assert_eq!(capture_buffer_size(4, 2), 32);
}

#[test]
fn pack_frame_takes_the_frame_prefix() {
    // A 2x2 frame of 4-byte pixels inside a larger capture buffer.
    let frame: Vec<u8> = (0u8..40).collect();
    let packed = pack_frame(&frame, 2, 16);
    assert_eq!(packed, (0u8..16).collect::<Vec<u8>>());
}
