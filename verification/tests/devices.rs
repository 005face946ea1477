//! Device list assembly and lookup.

use heronote_audio::device::{assemble_device_list, find_device_index, name_contains_tap, AudioDevice, DeviceType};
use heronote_audio::error::AudioError;
use heronote_audio::normalize::{mic_format_supported, SampleFormat};

#[test]
fn tap_devices_are_hidden_from_the_input_list() {
    let inputs = vec![
        "Built-in Microphone".to_string(),
        "Heronote Audio TAP".to_string(),
        "USB Mic".to_string(),
    ];
    let outputs = vec!["Built-in Output".to_string()];
    let devices = assemble_device_list(
        &inputs,
        &outputs,
        &Some("USB Mic".to_string()),
        &Some("Built-in Output".to_string()),
    );

    assert_eq!(devices.len(), 3);
    assert_eq!(devices[0].name, "Built-in Microphone");
    assert_eq!(devices[0].device_type, DeviceType::Input);
    assert!(!devices[0].is_default);
    assert_eq!(devices[1].name, "USB Mic");
    assert!(devices[1].is_default);
    assert_eq!(devices[2].name, "Built-in Output");
    assert_eq!(devices[2].device_type, DeviceType::Output);
    assert!(devices[2].is_default);
}

#[test]
fn no_default_devices_means_no_default_marks() {
    let devices = assemble_device_list(
        &vec!["A".to_string()],
        &vec!["B".to_string()],
        &None,
        &None,
    );
    assert!(devices.iter().all(|d| !d.is_default));
}

#[test]
fn tap_marker_detection_needs_the_exact_substring() {
    assert!(name_contains_tap("Heronote Audio TAP"));
    assert!(name_contains_tap("TAP"));
    assert!(name_contains_tap("xxTAPxx"));
    assert!(!name_contains_tap("Tap Device"));
    assert!(!name_contains_tap("TA P"));
    assert!(!name_contains_tap("TA"));
    assert!(!name_contains_tap(""));
}

#[test]
fn device_lookup_finds_the_first_match_or_reports_the_name() {
    let names = vec!["A".to_string(), "B".to_string(), "B".to_string()];
    assert_eq!(find_device_index(&names, &"B".to_string()).unwrap(), 1);
    let err = find_device_index(&names, &"C".to_string()).unwrap_err();
    match err {
        AudioError::DeviceNotAvailable(name) => assert_eq!(name, "C"),
        other => panic!("unexpected error: {:?}", other),
    }
}

#[test]
fn device_constructor_keeps_its_fields() {
    let d = AudioDevice::new("Mic".to_string(), DeviceType::Input, true);
    assert_eq!(d.name, "Mic");
    assert_eq!(d.device_type, DeviceType::Input);
    assert!(d.is_default);
}

#[test]
fn mic_path_rejects_undecodable_formats() {
    assert!(mic_format_supported(SampleFormat::F32).is_ok());
    assert!(mic_format_supported(SampleFormat::I16).is_ok());
    assert!(mic_format_supported(SampleFormat::I32).is_ok());
    assert!(matches!(
        mic_format_supported(SampleFormat::F64),
        Err(AudioError::UnsupportedFormat)
    ));
    assert!(matches!(
        mic_format_supported(SampleFormat::Other),
        Err(AudioError::UnsupportedFormat)
    ));
}
