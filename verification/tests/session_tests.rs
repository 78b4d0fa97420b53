use platy_recorder::devices::{AudioDevice, DeviceRegistry};
use platy_recorder::encoder::{
    build_concat_file_content, build_segment_command, combined_path, concat_total_duration,
    expected_segments,
};
use platy_recorder::errors::RecorderError;
use platy_recorder::format::SampleFormat;
use platy_recorder::media::{object_name_command, MediaRecorder, StopProgress};
use platy_recorder::recorder::{
    needs_segment_list, prepare_media_recording, recording_paths, RecordingOptions,
    RecordingState,
};

fn options() -> RecordingOptions {
    RecordingOptions {
        user_id: "user-1".to_string(),
        audio_input_name: "Conference Mic".to_string(),
        audio_output_name: "System Tap".to_string(),
    }
}

fn registry() -> DeviceRegistry {
    DeviceRegistry {
        devices: vec![
            AudioDevice {
                device_id: 11,
                name: "Conference Mic".to_string(),
                uid: "uid-mic".to_string(),
                input_config_count: 3,
                output_config_count: 0,
                input_formats: vec![SampleFormat::Int16, SampleFormat::Float32],
                sample_rate: 44100,
                channels: 2,
            },
            AudioDevice {
                device_id: 22,
                name: "System Tap".to_string(),
                uid: "uid-tap".to_string(),
                input_config_count: 0,
                output_config_count: 1,
                input_formats: vec![],
                sample_rate: 44100,
                channels: 2,
            },
        ],
        default_input: Some(0),
        default_output: Some(1),
    }
}

#[test]
fn fresh_recorder_is_idle() {
    let m = MediaRecorder::new();
    assert!(m.options.is_none());
    assert!(m.input_session.is_none());
    assert!(!m.started);
    assert!(!m.should_stop);
}

#[test]
fn triggers_fail_before_start() {
    let mut m = MediaRecorder::new();
    assert_eq!(
        m.trigger_play_input(),
        Err("Starting the recording did not work")
    );
    assert_eq!(
        m.trigger_play_output(),
        Err("Starting the recording did not work")
    );
}

#[test]
fn start_negotiates_format_and_plans_encoders() {
    let mut m = MediaRecorder::new();
    let plan = m
        .start_media_recording(options(), "/rec/input", "/rec/output", Some(11), Some(22), &registry())
        .unwrap();
    assert_eq!(plan.input_device_index, 0);
    assert_eq!(plan.output_device_index, 1);
    assert_eq!(plan.negotiated_format, SampleFormat::Float32);
    assert_eq!(
        plan.input_command,
        Some(build_segment_command("f32le", 44100, 2, "/rec/input"))
    );
    assert_eq!(
        plan.output_command,
        Some(build_segment_command("f32le", 44100, 1, "/rec/output"))
    );
    assert!(m.started);
    assert!(m.input_playing && m.output_playing);
    assert!(m.input_encoder_running && m.output_encoder_running);
    assert!(!m.should_stop);
    assert_eq!(m.audio_file_path, Some("/rec/output".to_string()));
    assert_eq!(m.device_name, Some("System Tap".to_string()));
    assert_eq!(m.trigger_play_input(), Ok(()));
    assert_eq!(m.trigger_play_output(), Ok(()));
}

#[test]
fn start_fails_on_unknown_device() {
    let mut m = MediaRecorder::new();
    let r = m.start_media_recording(options(), "/rec/input", "/rec/output", Some(99), Some(22), &registry());
    assert_eq!(r.err(), Some(RecorderError::DeviceNotFound));
    assert!(!m.started);
    let r = m.start_media_recording(options(), "/rec/input", "/rec/output", None, Some(22), &registry());
    assert_eq!(r.err(), Some(RecorderError::DeviceNotFound));
}

#[test]
fn start_fails_when_no_format_is_advertised() {
    let mut reg = registry();
    reg.devices[0].input_formats = vec![];
    let mut m = MediaRecorder::new();
    let r = m.start_media_recording(options(), "/rec/input", "/rec/output", Some(11), Some(22), &reg);
    assert_eq!(r.err(), Some(RecorderError::UnsupportedFormat));
    assert!(!m.started);
}

#[test]
fn none_sentinel_skips_that_direction() {
    let mut reg = registry();
    reg.devices[1].name = "None".to_string();
    let mut m = MediaRecorder::new();
    let plan = m
        .start_media_recording(options(), "/rec/input", "/rec/output", Some(11), Some(22), &reg)
        .unwrap();
    assert!(plan.input_command.is_some());
    assert_eq!(plan.output_command, None);
    assert!(m.input_encoder_running);
    assert!(!m.output_encoder_running);
}

#[test]
fn stop_stays_pending_while_a_manifest_lags() {
    let mut m = MediaRecorder::new();
    m.start_media_recording(options(), "/rec/input", "/rec/output", Some(11), Some(22), &registry())
        .unwrap();
    let full = b"000.wav\n001.wav\n002.wav\n".to_vec();
    let stalled = b"000.wav\n001.wav\n".to_vec();
    assert_eq!(
        m.stop_media_recording(9, &stalled, &full),
        Ok(StopProgress::Pending)
    );
    assert_eq!(
        m.stop_media_recording(9, &full, &stalled),
        Ok(StopProgress::Pending)
    );
    // The session is untouched while pending.
    assert!(m.started && !m.should_stop && m.input_session.is_some());
    // With both manifests complete the teardown runs.
    assert_eq!(
        m.stop_media_recording(9, &full, &full),
        Ok(StopProgress::Stopped)
    );
    assert!(m.should_stop);
    assert!(m.input_session.is_none() && m.output_session.is_none());
    assert!(!m.input_playing && !m.output_playing);
    assert!(!m.input_encoder_running && !m.output_encoder_running);
}

#[test]
fn stop_without_start_reports_it() {
    let mut m = MediaRecorder::new();
    let r = m.stop_media_recording(0, &Vec::new(), &Vec::new());
    assert_eq!(r, Err("Original recording was not started"));
    // The whole best-effort teardown still ran.
    assert!(m.should_stop);
    assert!(m.input_session.is_none() && m.output_session.is_none());
    assert!(!m.input_playing && !m.output_playing);
    assert!(!m.input_encoder_running && !m.output_encoder_running);
}

#[test]
fn stop_error_does_not_abort_remaining_teardown() {
    // A session whose capture stream went missing: the attached, playing
    // loopback unit is still stopped before the error is reported.
    let mut m = MediaRecorder::new();
    m.start_media_recording(options(), "/rec/input", "/rec/output", Some(11), Some(22), &registry())
        .unwrap();
    m.input_stream_attached = false;
    let full = b"000.wav\n001.wav\n002.wav\n".to_vec();
    let r = m.stop_media_recording(9, &full, &full);
    assert_eq!(r, Err("Original recording was not started"));
    assert!(!m.output_playing);
    assert!(!m.input_playing);
    assert!(m.should_stop);
    assert!(m.input_session.is_none() && m.output_session.is_none());
    assert!(!m.input_encoder_running && !m.output_encoder_running);
}

#[test]
fn session_directory_layout() {
    let p = recording_paths("/home/u/.data", 57);
    assert_eq!(p.recording_dir, "/home/u/.data/chunks/audio/57");
    assert_eq!(p.input_dir, "/home/u/.data/chunks/audio/57/input");
    assert_eq!(p.output_dir, "/home/u/.data/chunks/audio/57/output");
}

#[test]
fn segment_list_seeding_skips_screenshot_dirs() {
    assert!(needs_segment_list(&b"/data/chunks/audio/3/input".to_vec()));
    assert!(!needs_segment_list(&b"/data/screenshots/3".to_vec()));
    assert!(!needs_segment_list(&b"screenshots".to_vec()));
    assert!(needs_segment_list(&b"/data/screen/shots".to_vec()));
}

#[test]
fn object_name_commands() {
    assert_eq!(
        object_name_command("outputDevice=", "uid-speakers"),
        "outputDevice=uid-speakers"
    );
}

#[test]
fn recording_state_holds_a_session() {
    let mut m = MediaRecorder::new();
    m.start_media_recording(options(), "/rec/input", "/rec/output", Some(11), Some(22), &registry())
        .unwrap();
    let state = RecordingState {
        media_process: Some(m),
        recording_options: Some(options()),
        shutdown_flag: false,
        audio_uploading_finished: false,
        data_dir: Some("/home/u/.data".to_string()),
        conversation_id: Some(57),
    };
    assert!(state.media_process.as_ref().unwrap().started);
    assert!(!state.shutdown_flag);
}

#[test]
fn end_to_end_session_over_the_model() {
    // Start a session with two named devices.
    let reg = registry();
    let (mut recorder, plan) =
        prepare_media_recording(options(), "/rec/input", "/rec/output", Some(11), Some(22), &reg)
            .unwrap();
    assert!(plan.input_command.is_some() && plan.output_command.is_some());

    // Emit 10 seconds of synthetic audio into both capture callbacks and
    // forward every chunk, as the encoder feed tasks would.
    let mut input_feed: Vec<u8> = Vec::new();
    let mut output_feed: Vec<u8> = Vec::new();
    for second in 0..10u64 {
        let tone: Vec<u32> = (0..64u32)
            .map(|i| (((i % 8) as f32) / 8.0).to_bits())
            .collect();
        let input = recorder.input_session.as_mut().unwrap();
        assert!(input.on_callback_f32_bits(&tone, true, second * 1000));
        while let Some(chunk) = input.take_chunk() {
            input_feed.extend_from_slice(&chunk);
        }
        let output = recorder.output_session.as_mut().unwrap();
        assert!(output.on_callback_f32_bits(&tone, true, second * 1000));
        while let Some(chunk) = output.take_chunk() {
            output_feed.extend_from_slice(&chunk);
        }
    }
    assert_eq!(input_feed.len(), 10 * 64 * 4);
    assert_eq!(output_feed, input_feed);
    assert_eq!(
        recorder.input_session.as_ref().unwrap().first_sample_at,
        Some(0)
    );

    // After 10 seconds the encoder owes 3 whole segments per stream.
    let elapsed = 10u64;
    assert_eq!(expected_segments(elapsed), 3);
    let manifest =
        b"audio_recording_000.wav\naudio_recording_001.wav\naudio_recording_002.wav\n".to_vec();
    assert_eq!(
        recorder.stop_media_recording(elapsed, &manifest, &manifest),
        Ok(StopProgress::Stopped)
    );

    // Assemble: each direction concatenates its 3 segments into one
    // continuous file, and the two are merged.
    let segments = vec![
        "audio_recording_000.wav".to_string(),
        "audio_recording_001.wav".to_string(),
        "audio_recording_002.wav".to_string(),
    ];
    let script = build_concat_file_content(&segments);
    assert_eq!(script.lines().count(), 3);
    assert_eq!(combined_path("/rec/input"), "/rec/input/combined.wav");
    assert_eq!(combined_path("/rec/output"), "/rec/output/combined.wav");
    assert_eq!(combined_path("/rec"), "/rec/combined.wav");

    // The merged duration is the sum of the segment durations, within one
    // segment of the recorded elapsed time.
    let merged_duration = concat_total_duration(&vec![3, 3, 3]).unwrap();
    assert_eq!(merged_duration, 9);
    assert!(elapsed - merged_duration < 3);
}
