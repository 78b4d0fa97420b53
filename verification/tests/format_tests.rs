use platy_recorder::errors::RecorderError;
use platy_recorder::format::{
    bytes_per_sample, deserialize_f32_bits, deserialize_i16, deserialize_i32, deserialize_i8,
    format_tag, negotiate_input_format, serialize_f32_bits, serialize_i16, serialize_i32,
    serialize_i8, SampleFormat,
};

#[test]
fn round_trip_i8() {
    let samples: Vec<i8> = vec![0, 1, -1, 127, -128, 42];
    let bytes = serialize_i8(&samples);
    assert_eq!(bytes.len(), samples.len());
    assert_eq!(deserialize_i8(&bytes), samples);
}

#[test]
fn round_trip_i16() {
    let samples: Vec<i16> = vec![0, 1, -1, 32767, -32768, 12345, -12345];
    let bytes = serialize_i16(&samples);
    assert_eq!(bytes.len(), samples.len() * 2);
    assert_eq!(deserialize_i16(&bytes), samples);
}

#[test]
fn round_trip_i32() {
    let samples: Vec<i32> = vec![0, 1, -1, i32::MAX, i32::MIN, 7_654_321, -7_654_321];
    let bytes = serialize_i32(&samples);
    assert_eq!(bytes.len(), samples.len() * 4);
    assert_eq!(deserialize_i32(&bytes), samples);
}

#[test]
fn round_trip_f32() {
    let values: Vec<f32> = vec![0.0, 1.0, -1.0, 0.5, f32::MIN, f32::MAX, 3.14159];
    let samples: Vec<u32> = values.iter().map(|v| v.to_bits()).collect();
    let bytes = serialize_f32_bits(&samples);
    assert_eq!(bytes.len(), samples.len() * 4);
    let back = deserialize_f32_bits(&bytes);
    assert_eq!(back, samples);
    let back_values: Vec<f32> = back.iter().map(|b| f32::from_bits(*b)).collect();
    assert_eq!(back_values, values);
}

#[test]
fn round_trip_empty_buffers() {
    assert_eq!(deserialize_i8(&serialize_i8(&vec![])), Vec::<i8>::new());
    assert_eq!(deserialize_i16(&serialize_i16(&vec![])), Vec::<i16>::new());
    assert_eq!(deserialize_i32(&serialize_i32(&vec![])), Vec::<i32>::new());
    assert_eq!(
        deserialize_f32_bits(&serialize_f32_bits(&vec![])),
        Vec::<u32>::new()
    );
}

#[test]
fn serialization_is_little_endian() {
    assert_eq!(serialize_i16(&vec![0x0102]), vec![0x02, 0x01]);
    assert_eq!(serialize_i32(&vec![0x01020304]), vec![0x04, 0x03, 0x02, 0x01]);
    // 1.0f32 is 0x3F800000.
    assert_eq!(
        serialize_f32_bits(&vec![1.0f32.to_bits()]),
        vec![0x00, 0x00, 0x80, 0x3F]
    );
    assert_eq!(serialize_i8(&vec![-1]), vec![0xFF]);
}

#[test]
fn bytes_per_sample_by_format() {
    assert_eq!(bytes_per_sample(SampleFormat::Int8), 1);
    assert_eq!(bytes_per_sample(SampleFormat::Int16), 2);
    assert_eq!(bytes_per_sample(SampleFormat::Int32), 4);
    assert_eq!(bytes_per_sample(SampleFormat::Float32), 4);
}

#[test]
fn format_tags() {
    assert_eq!(format_tag(SampleFormat::Int8), "s8");
    assert_eq!(format_tag(SampleFormat::Int16), "s16le");
    assert_eq!(format_tag(SampleFormat::Int32), "s32le");
    assert_eq!(format_tag(SampleFormat::Float32), "f32le");
}

#[test]
fn negotiation_prefers_float32() {
    let formats = vec![
        SampleFormat::Int32,
        SampleFormat::Int16,
        SampleFormat::Float32,
        SampleFormat::Int8,
    ];
    assert_eq!(negotiate_input_format(&formats), Ok(SampleFormat::Float32));
}

#[test]
fn negotiation_priority_order() {
    assert_eq!(
        negotiate_input_format(&vec![SampleFormat::Int32, SampleFormat::Int16]),
        Ok(SampleFormat::Int16)
    );
    assert_eq!(
        negotiate_input_format(&vec![SampleFormat::Int32, SampleFormat::Int8]),
        Ok(SampleFormat::Int8)
    );
    assert_eq!(
        negotiate_input_format(&vec![SampleFormat::Int32]),
        Ok(SampleFormat::Int32)
    );
}

#[test]
fn negotiation_fails_on_empty_set() {
    assert_eq!(
        negotiate_input_format(&vec![]),
        Err(RecorderError::UnsupportedFormat)
    );
}

#[test]
fn error_messages() {
    assert_eq!(RecorderError::DeviceNotFound.message(), "device not found");
    assert_eq!(
        RecorderError::UnsupportedFormat.message(),
        "unsupported sample format"
    );
    assert_eq!(
        RecorderError::SpawnFailed.message(),
        "failed to spawn encoder process"
    );
    assert_eq!(
        RecorderError::StreamBuildFailed.message(),
        "failed to build capture stream"
    );
    assert_eq!(
        RecorderError::ChannelFull.message(),
        "channel full, chunk dropped"
    );
    assert_eq!(
        RecorderError::WriteFailed.message(),
        "failed to write to encoder pipe"
    );
    assert_eq!(
        RecorderError::ManifestReadFailed.message(),
        "failed to read segment manifest"
    );
    assert_eq!(
        RecorderError::PropertyListenerFailed.message(),
        "property listener operation failed"
    );
}
