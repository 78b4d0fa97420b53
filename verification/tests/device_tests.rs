use platy_recorder::devices::{
    all_device_uids, check_device_exists, device_index_for_id, get_device, resolve_session_device,
    AudioDevice, DeviceRegistry, DeviceType,
};
use platy_recorder::errors::RecorderError;
use platy_recorder::format::SampleFormat;

fn device(id: u32, name: &str, inputs: usize, outputs: usize) -> AudioDevice {
    AudioDevice {
        device_id: id,
        name: name.to_string(),
        uid: format!("uid-{}", id),
        input_config_count: inputs,
        output_config_count: outputs,
        input_formats: vec![SampleFormat::Float32, SampleFormat::Int16],
        sample_rate: 48000,
        channels: 2,
    }
}

fn registry() -> DeviceRegistry {
    DeviceRegistry {
        devices: vec![
            device(10, "Built-in Microphone", 2, 0),
            device(20, "External Mic", 1, 0),
            device(30, "Speakers", 0, 3),
        ],
        default_input: Some(0),
        default_output: Some(2),
    }
}

#[test]
fn named_device_resolves_to_its_own_id() {
    let r = registry();
    let name = "External Mic".to_string();
    assert_eq!(get_device(&r, Some(&name), DeviceType::AudioInput), Ok(1));
    assert_eq!(r.devices[1].device_id, 20);
}

#[test]
fn missing_name_falls_back_to_platform_default() {
    let r = registry();
    let name = "Unplugged Headset".to_string();
    assert_eq!(get_device(&r, Some(&name), DeviceType::AudioInput), Ok(0));
    assert_eq!(get_device(&r, None, DeviceType::AudioInput), Ok(0));
    assert_eq!(get_device(&r, None, DeviceType::AudioOutput), Ok(2));
}

#[test]
fn resolution_filters_by_direction() {
    let r = registry();
    // "Speakers" exposes no capture configuration, so a capture request
    // for that name falls back to the default capture device.
    let name = "Speakers".to_string();
    assert_eq!(get_device(&r, Some(&name), DeviceType::AudioInput), Ok(0));
    assert_eq!(get_device(&r, Some(&name), DeviceType::AudioOutput), Ok(2));
}

#[test]
fn first_match_wins_among_duplicates() {
    let mut r = registry();
    r.devices.push(device(40, "External Mic", 1, 0));
    let name = "External Mic".to_string();
    assert_eq!(get_device(&r, Some(&name), DeviceType::AudioInput), Ok(1));
}

#[test]
fn no_default_device_is_fatal() {
    let mut r = registry();
    r.default_input = None;
    let name = "Unplugged Headset".to_string();
    assert_eq!(
        get_device(&r, Some(&name), DeviceType::AudioInput),
        Err(RecorderError::DeviceNotFound)
    );
    assert_eq!(
        get_device(&r, None, DeviceType::AudioInput),
        Err(RecorderError::DeviceNotFound)
    );
}

#[test]
fn device_existence_by_name() {
    let r = registry();
    assert!(check_device_exists(&r.devices, &"Speakers".to_string()));
    assert!(!check_device_exists(&r.devices, &"Digital Piano".to_string()));
}

#[test]
fn uids_in_enumeration_order() {
    let r = registry();
    assert_eq!(all_device_uids(&r.devices), vec!["uid-10", "uid-20", "uid-30"]);
}

#[test]
fn index_lookup_by_identifier() {
    let r = registry();
    assert_eq!(device_index_for_id(&r, 20), Some(1));
    assert_eq!(device_index_for_id(&r, 99), None);
}

#[test]
fn session_resolution_goes_through_the_display_name() {
    let r = registry();
    assert_eq!(
        resolve_session_device(&r, Some(20), DeviceType::AudioInput),
        Ok(1)
    );
    assert_eq!(
        resolve_session_device(&r, Some(30), DeviceType::AudioOutput),
        Ok(2)
    );
    // The speakers offer no capture path, so asking for them as a capture
    // device lands on the default microphone.
    assert_eq!(
        resolve_session_device(&r, Some(30), DeviceType::AudioInput),
        Ok(0)
    );
}

#[test]
fn session_resolution_failures() {
    let r = registry();
    assert_eq!(
        resolve_session_device(&r, None, DeviceType::AudioInput),
        Err(RecorderError::DeviceNotFound)
    );
    assert_eq!(
        resolve_session_device(&r, Some(99), DeviceType::AudioInput),
        Err(RecorderError::DeviceNotFound)
    );
}
