//! Sample formats, format negotiation, and little-endian sample
//! serialization.
//!
//! A capture callback hands the pipeline a buffer of native samples; the
//! pipeline serializes it to little-endian bytes sized by the format
//! (1/2/4 bytes per sample) before the bytes enter the bounded channel.
//! 32-bit float samples travel as their raw bit patterns (`u32`), so the
//! byte layout is identical to the native one.
use vstd::prelude::*;

use crate::errors::RecorderError;

verus! {

/// The sample formats the pipeline supports.
#[derive(Clone, Copy, Debug, PartialEq, Eq, Structural)]
pub enum SampleFormat {
    Int8,
    Int16,
    Int32,
    Float32,
}

/// Width of one serialized sample in bytes: 1, 2 or 4.
pub open spec fn spec_bytes_per_sample(f: SampleFormat) -> nat {
    match f {
        SampleFormat::Int8 => 1,
        SampleFormat::Int16 => 2,
        SampleFormat::Int32 => 4,
        SampleFormat::Float32 => 4,
    }
}

/// Width of one serialized sample in bytes.
pub fn bytes_per_sample(f: SampleFormat) -> (n: usize)
    ensures
        n == spec_bytes_per_sample(f),
{
    match f {
        SampleFormat::Int8 => 1,
        SampleFormat::Int16 => 2,
        SampleFormat::Int32 => 4,
        SampleFormat::Float32 => 4,
    }
}

/// The raw-format tag the encoder is told for each sample format:
/// signed integers and floats, little-endian where wider than a byte.
pub open spec fn spec_format_tag(f: SampleFormat) -> Seq<char> {
    match f {
        SampleFormat::Int8 => "s8"@,
        SampleFormat::Int16 => "s16le"@,
        SampleFormat::Int32 => "s32le"@,
        SampleFormat::Float32 => "f32le"@,
    }
}

/// The raw-format tag the encoder is told for `f`.
pub fn format_tag(f: SampleFormat) -> (tag: &'static str)
    ensures
        tag@ == spec_format_tag(f),
{
    match f {
        SampleFormat::Int8 => "s8",
        SampleFormat::Int16 => "s16le",
        SampleFormat::Int32 => "s32le",
        SampleFormat::Float32 => "f32le",
    }
}

/// The linear-PCM trait flags a native stream format declares for `f`:
/// float or signed-integer samples, always packed.
pub struct StreamFormatFlags {
    pub is_float: bool,
    pub is_signed_integer: bool,
    pub is_packed: bool,
}

/// Builds the linear-PCM trait flags for a native stream of format `f`.
pub fn stream_format_flags(f: SampleFormat) -> (flags: StreamFormatFlags)
    ensures
        flags.is_float == (f == SampleFormat::Float32),
        flags.is_signed_integer == (f != SampleFormat::Float32),
        flags.is_packed,
{
    match f {
        SampleFormat::Float32 => StreamFormatFlags {
            is_float: true,
            is_signed_integer: false,
            is_packed: true,
        },
        SampleFormat::Int8 | SampleFormat::Int16 | SampleFormat::Int32 => StreamFormatFlags {
            is_float: false,
            is_signed_integer: true,
            is_packed: true,
        },
    }
}

/// Whether `fs` advertises format `f`.
pub open spec fn spec_has_format(fs: Seq<SampleFormat>, f: SampleFormat) -> bool {
    exists|i: int| 0 <= i < fs.len() && fs[i] == f
}

/// The format the orchestrator negotiates from an advertised set: the best
/// supported one in the priority order Float32, Int16, Int8, Int32, falling
/// back to the first advertised format when none of the four is offered.
pub open spec fn spec_negotiated_format(fs: Seq<SampleFormat>) -> SampleFormat
    recommends
        fs.len() > 0,
{
    if spec_has_format(fs, SampleFormat::Float32) {
        SampleFormat::Float32
    } else if spec_has_format(fs, SampleFormat::Int16) {
        SampleFormat::Int16
    } else if spec_has_format(fs, SampleFormat::Int8) {
        SampleFormat::Int8
    } else if spec_has_format(fs, SampleFormat::Int32) {
        SampleFormat::Int32
    } else {
        fs[0]
    }
}

/// Whether `formats` advertises `f`.
fn has_format(formats: &Vec<SampleFormat>, f: SampleFormat) -> (r: bool)
    ensures
        r == spec_has_format(formats@, f),
{
    let mut i: usize = 0;
    while i < formats.len()
        invariant
            0 <= i <= formats@.len(),
            forall|j: int| 0 <= j < i ==> formats@[j] != f,
        decreases formats@.len() - i,
    {
        if formats[i] == f {
            return true;
        }
        i = i + 1;
    }
    false
}

/// Negotiates the input stream's format from the formats a device
/// advertises. Fails with `UnsupportedFormat` exactly when the device
/// advertises no format at all.
pub fn negotiate_input_format(formats: &Vec<SampleFormat>) -> (r: Result<
    SampleFormat,
    RecorderError,
>)
    ensures
        match r {
            Ok(f) => formats@.len() > 0 && f == spec_negotiated_format(formats@),
            Err(e) => formats@.len() == 0 && e == RecorderError::UnsupportedFormat,
        },
{
    if formats.len() == 0 {
        return Err(RecorderError::UnsupportedFormat);
    }
    if has_format(formats, SampleFormat::Float32) {
        Ok(SampleFormat::Float32)
    } else if has_format(formats, SampleFormat::Int16) {
        Ok(SampleFormat::Int16)
    } else if has_format(formats, SampleFormat::Int8) {
        Ok(SampleFormat::Int8)
    } else if has_format(formats, SampleFormat::Int32) {
        Ok(SampleFormat::Int32)
    } else {
        Ok(formats[0])
    }
}

/// The two little-endian bytes of a 16-bit sample.
pub open spec fn le_bytes_of_u16(x: u16) -> Seq<u8> {
    seq![(x & 0xff) as u8, ((x >> 8) & 0xff) as u8]
}

/// The four little-endian bytes of a 32-bit sample.
pub open spec fn le_bytes_of_u32(x: u32) -> Seq<u8> {
    seq![
        (x & 0xff) as u8,
        ((x >> 8) & 0xff) as u8,
        ((x >> 16) & 0xff) as u8,
        ((x >> 24) & 0xff) as u8,
    ]
}

/// The 16-bit value read back from two little-endian bytes.
pub open spec fn u16_from_le(b0: u8, b1: u8) -> u16 {
    (b0 as u16) | ((b1 as u16) << 8)
}

/// The 32-bit value read back from four little-endian bytes.
pub open spec fn u32_from_le(b0: u8, b1: u8, b2: u8, b3: u8) -> u32 {
    (b0 as u32) | ((b1 as u32) << 8) | ((b2 as u32) << 16) | ((b3 as u32) << 24)
}

/// Serialized form of a buffer of 8-bit samples.
pub open spec fn encode_i8_seq(s: Seq<i8>) -> Seq<u8>
    decreases s.len(),
{
    if s.len() == 0 {
        Seq::empty()
    } else {
        seq![s[0] as u8] + encode_i8_seq(s.drop_first())
    }
}

/// Samples read back from a byte stream of 8-bit samples.
pub open spec fn decode_i8_seq(b: Seq<u8>) -> Seq<i8>
    decreases b.len(),
{
    if b.len() < 1 {
        Seq::empty()
    } else {
        seq![b[0] as i8] + decode_i8_seq(b.drop_first())
    }
}

/// Serialized form of a buffer of 16-bit samples.
pub open spec fn encode_i16_seq(s: Seq<i16>) -> Seq<u8>
    decreases s.len(),
{
    if s.len() == 0 {
        Seq::empty()
    } else {
        le_bytes_of_u16(s[0] as u16) + encode_i16_seq(s.drop_first())
    }
}

/// Samples read back from a byte stream of 16-bit samples; a trailing
/// partial sample is dropped.
pub open spec fn decode_i16_seq(b: Seq<u8>) -> Seq<i16>
    decreases b.len(),
{
    if b.len() < 2 {
        Seq::empty()
    } else {
        seq![u16_from_le(b[0], b[1]) as i16] + decode_i16_seq(b.skip(2))
    }
}

/// Serialized form of a buffer of 32-bit integer samples.
pub open spec fn encode_i32_seq(s: Seq<i32>) -> Seq<u8>
    decreases s.len(),
{
    if s.len() == 0 {
        Seq::empty()
    } else {
        le_bytes_of_u32(s[0] as u32) + encode_i32_seq(s.drop_first())
    }
}

/// Samples read back from a byte stream of 32-bit integer samples; a
/// trailing partial sample is dropped.
pub open spec fn decode_i32_seq(b: Seq<u8>) -> Seq<i32>
    decreases b.len(),
{
    if b.len() < 4 {
        Seq::empty()
    } else {
        seq![u32_from_le(b[0], b[1], b[2], b[3]) as i32] + decode_i32_seq(b.skip(4))
    }
}

/// Serialized form of a buffer of 32-bit float samples, given as raw bit
/// patterns.
pub open spec fn encode_f32_bits_seq(s: Seq<u32>) -> Seq<u8>
    decreases s.len(),
{
    if s.len() == 0 {
        Seq::empty()
    } else {
        le_bytes_of_u32(s[0]) + encode_f32_bits_seq(s.drop_first())
    }
}

/// Float bit patterns read back from a byte stream; a trailing partial
/// sample is dropped.
pub open spec fn decode_f32_bits_seq(b: Seq<u8>) -> Seq<u32>
    decreases b.len(),
{
    if b.len() < 4 {
        Seq::empty()
    } else {
        seq![u32_from_le(b[0], b[1], b[2], b[3])] + decode_f32_bits_seq(b.skip(4))
    }
}

/// Serializes 8-bit samples to bytes.
pub fn serialize_i8(samples: &Vec<i8>) -> (bytes: Vec<u8>)
    ensures
        bytes@ == encode_i8_seq(samples@),
{
    let mut bytes: Vec<u8> = Vec::new();
    let mut i: usize = 0;
    while i < samples.len()
        invariant
            0 <= i <= samples@.len(),
            bytes@ == encode_i8_seq(samples@.take(i as int)),
        decreases samples@.len() - i,
    {
        proof {
            lemma_encode_i8_take_step(samples@, i as int);
        }
        bytes.push(samples[i] as u8);
        i = i + 1;
    }
    proof {
        assert(samples@.take(samples@.len() as int) =~= samples@);
    }
    bytes
}

/// Serializes 16-bit samples to little-endian bytes.
pub fn serialize_i16(samples: &Vec<i16>) -> (bytes: Vec<u8>)
    ensures
        bytes@ == encode_i16_seq(samples@),
{
    let mut bytes: Vec<u8> = Vec::new();
    let mut i: usize = 0;
    while i < samples.len()
        invariant
            0 <= i <= samples@.len(),
            bytes@ == encode_i16_seq(samples@.take(i as int)),
        decreases samples@.len() - i,
    {
        proof {
            lemma_encode_i16_take_step(samples@, i as int);
        }
        let x = samples[i] as u16;
        bytes.push((x & 0xff) as u8);
        bytes.push(((x >> 8) & 0xff) as u8);
        i = i + 1;
    }
    proof {
        assert(samples@.take(samples@.len() as int) =~= samples@);
    }
    bytes
}

/// Serializes 32-bit integer samples to little-endian bytes.
pub fn serialize_i32(samples: &Vec<i32>) -> (bytes: Vec<u8>)
    ensures
        bytes@ == encode_i32_seq(samples@),
{
    let mut bytes: Vec<u8> = Vec::new();
    let mut i: usize = 0;
    while i < samples.len()
        invariant
            0 <= i <= samples@.len(),
            bytes@ == encode_i32_seq(samples@.take(i as int)),
        decreases samples@.len() - i,
    {
        proof {
            lemma_encode_i32_take_step(samples@, i as int);
        }
        let x = samples[i] as u32;
        bytes.push((x & 0xff) as u8);
        bytes.push(((x >> 8) & 0xff) as u8);
        bytes.push(((x >> 16) & 0xff) as u8);
        bytes.push(((x >> 24) & 0xff) as u8);
        i = i + 1;
    }
    proof {
        assert(samples@.take(samples@.len() as int) =~= samples@);
    }
    bytes
}

/// Serializes 32-bit float samples, given as raw bit patterns, to
/// little-endian bytes.
pub fn serialize_f32_bits(samples: &Vec<u32>) -> (bytes: Vec<u8>)
    ensures
        bytes@ == encode_f32_bits_seq(samples@),
{
    let mut bytes: Vec<u8> = Vec::new();
    let mut i: usize = 0;
    while i < samples.len()
        invariant
            0 <= i <= samples@.len(),
            bytes@ == encode_f32_bits_seq(samples@.take(i as int)),
        decreases samples@.len() - i,
    {
        proof {
            lemma_encode_f32_take_step(samples@, i as int);
        }
        let x = samples[i];
        bytes.push((x & 0xff) as u8);
        bytes.push(((x >> 8) & 0xff) as u8);
        bytes.push(((x >> 16) & 0xff) as u8);
        bytes.push(((x >> 24) & 0xff) as u8);
        i = i + 1;
    }
    proof {
        assert(samples@.take(samples@.len() as int) =~= samples@);
    }
    bytes
}

/// Reads 8-bit samples back from a serialized byte stream.
pub fn deserialize_i8(bytes: &Vec<u8>) -> (samples: Vec<i8>)
    ensures
        samples@ == decode_i8_seq(bytes@),
{
    let mut samples: Vec<i8> = Vec::new();
    let mut i: usize = 0;
    proof {
        assert(bytes@.skip(0) =~= bytes@);
    }
    while i < bytes.len()
        invariant
            0 <= i <= bytes@.len(),
            decode_i8_seq(bytes@) == samples@ + decode_i8_seq(bytes@.skip(i as int)),
        decreases bytes@.len() - i,
    {
        proof {
            assert(bytes@.skip(i as int).drop_first() =~= bytes@.skip(i as int + 1));
            assert(decode_i8_seq(bytes@.skip(i as int)) == seq![bytes@[i as int] as i8]
                + decode_i8_seq(bytes@.skip(i as int + 1)));
        }
        samples.push(bytes[i] as i8);
        i = i + 1;
    }
    proof {
        assert(decode_i8_seq(bytes@.skip(i as int)) =~= Seq::<i8>::empty());
        assert(samples@ + Seq::<i8>::empty() =~= samples@);
    }
    samples
}

/// Reads 16-bit samples back from a serialized byte stream; a trailing
/// partial sample is dropped.
pub fn deserialize_i16(bytes: &Vec<u8>) -> (samples: Vec<i16>)
    ensures
        samples@ == decode_i16_seq(bytes@),
{
    let mut samples: Vec<i16> = Vec::new();
    let mut i: usize = 0;
    proof {
        assert(bytes@.skip(0) =~= bytes@);
    }
    while bytes.len() - i >= 2
        invariant
            0 <= i <= bytes@.len(),
            decode_i16_seq(bytes@) == samples@ + decode_i16_seq(bytes@.skip(i as int)),
        decreases bytes@.len() - i,
    {
        proof {
            assert(bytes@.skip(i as int).skip(2) =~= bytes@.skip(i as int + 2));
        }
        let b0 = bytes[i];
        let b1 = bytes[i + 1];
        let x: u16 = (b0 as u16) | ((b1 as u16) << 8);
        samples.push(x as i16);
        i = i + 2;
    }
    proof {
        assert(decode_i16_seq(bytes@.skip(i as int)) =~= Seq::<i16>::empty());
        assert(samples@ + Seq::<i16>::empty() =~= samples@);
    }
    samples
}

/// Reads 32-bit integer samples back from a serialized byte stream; a
/// trailing partial sample is dropped.
pub fn deserialize_i32(bytes: &Vec<u8>) -> (samples: Vec<i32>)
    ensures
        samples@ == decode_i32_seq(bytes@),
{
    let mut samples: Vec<i32> = Vec::new();
    let mut i: usize = 0;
    proof {
        assert(bytes@.skip(0) =~= bytes@);
    }
    while bytes.len() - i >= 4
        invariant
            0 <= i <= bytes@.len(),
            decode_i32_seq(bytes@) == samples@ + decode_i32_seq(bytes@.skip(i as int)),
        decreases bytes@.len() - i,
    {
        proof {
            assert(bytes@.skip(i as int).skip(4) =~= bytes@.skip(i as int + 4));
        }
        let b0 = bytes[i];
        let b1 = bytes[i + 1];
        let b2 = bytes[i + 2];
        let b3 = bytes[i + 3];
        let x: u32 = (b0 as u32) | ((b1 as u32) << 8) | ((b2 as u32) << 16) | ((b3 as u32) << 24);
        samples.push(x as i32);
        i = i + 4;
    }
    proof {
        assert(decode_i32_seq(bytes@.skip(i as int)) =~= Seq::<i32>::empty());
        assert(samples@ + Seq::<i32>::empty() =~= samples@);
    }
    samples
}

/// Reads 32-bit float bit patterns back from a serialized byte stream; a
/// trailing partial sample is dropped.
pub fn deserialize_f32_bits(bytes: &Vec<u8>) -> (samples: Vec<u32>)
    ensures
        samples@ == decode_f32_bits_seq(bytes@),
{
    let mut samples: Vec<u32> = Vec::new();
    let mut i: usize = 0;
    proof {
        assert(bytes@.skip(0) =~= bytes@);
    }
    while bytes.len() - i >= 4
        invariant
            0 <= i <= bytes@.len(),
            decode_f32_bits_seq(bytes@) == samples@ + decode_f32_bits_seq(bytes@.skip(i as int)),
        decreases bytes@.len() - i,
    {
        proof {
            assert(bytes@.skip(i as int).skip(4) =~= bytes@.skip(i as int + 4));
        }
        let b0 = bytes[i];
        let b1 = bytes[i + 1];
        let b2 = bytes[i + 2];
        let b3 = bytes[i + 3];
        let x: u32 = (b0 as u32) | ((b1 as u32) << 8) | ((b2 as u32) << 16) | ((b3 as u32) << 24);
        samples.push(x);
        i = i + 4;
    }
    proof {
        assert(decode_f32_bits_seq(bytes@.skip(i as int)) =~= Seq::<u32>::empty());
        assert(samples@ + Seq::<u32>::empty() =~= samples@);
    }
    samples
}

proof fn lemma_encode_i8_take_step(s: Seq<i8>, i: int)
    requires
        0 <= i < s.len(),
    ensures
        encode_i8_seq(s.take(i + 1)) == encode_i8_seq(s.take(i)) + seq![s[i] as u8],
    decreases i,
{
    if i == 0 {
        assert(s.take(1).drop_first() =~= s.take(0));
        assert(encode_i8_seq(s.take(0)) =~= Seq::<u8>::empty());
        assert(encode_i8_seq(s.take(1)) =~= seq![s[0] as u8]);
    } else {
        assert(s.take(i + 1).drop_first() =~= s.drop_first().take(i));
        assert(s.take(i).drop_first() =~= s.drop_first().take(i - 1));
        lemma_encode_i8_take_step(s.drop_first(), i - 1);
        assert(s.drop_first()[i - 1] == s[i]);
        assert(encode_i8_seq(s.take(i + 1)) == seq![s[0] as u8] + encode_i8_seq(
            s.drop_first().take(i),
        ));
        assert(seq![s[0] as u8] + (encode_i8_seq(s.drop_first().take(i - 1)) + seq![s[i] as u8])
            =~= (seq![s[0] as u8] + encode_i8_seq(s.drop_first().take(i - 1))) + seq![s[i] as u8]);
    }
}

proof fn lemma_encode_i16_take_step(s: Seq<i16>, i: int)
    requires
        0 <= i < s.len(),
    ensures
        encode_i16_seq(s.take(i + 1)) == encode_i16_seq(s.take(i)) + le_bytes_of_u16(s[i] as u16),
    decreases i,
{
    if i == 0 {
        assert(s.take(1).drop_first() =~= s.take(0));
        assert(encode_i16_seq(s.take(0)) =~= Seq::<u8>::empty());
        assert(encode_i16_seq(s.take(1)) =~= le_bytes_of_u16(s[0] as u16));
    } else {
        assert(s.take(i + 1).drop_first() =~= s.drop_first().take(i));
        assert(s.take(i).drop_first() =~= s.drop_first().take(i - 1));
        lemma_encode_i16_take_step(s.drop_first(), i - 1);
        assert(s.drop_first()[i - 1] == s[i]);
        assert(le_bytes_of_u16(s[0] as u16) + (encode_i16_seq(s.drop_first().take(i - 1))
            + le_bytes_of_u16(s[i] as u16)) =~= (le_bytes_of_u16(s[0] as u16) + encode_i16_seq(
            s.drop_first().take(i - 1),
        )) + le_bytes_of_u16(s[i] as u16));
    }
}

proof fn lemma_encode_i32_take_step(s: Seq<i32>, i: int)
    requires
        0 <= i < s.len(),
    ensures
        encode_i32_seq(s.take(i + 1)) == encode_i32_seq(s.take(i)) + le_bytes_of_u32(s[i] as u32),
    decreases i,
{
    if i == 0 {
        assert(s.take(1).drop_first() =~= s.take(0));
        assert(encode_i32_seq(s.take(0)) =~= Seq::<u8>::empty());
        assert(encode_i32_seq(s.take(1)) =~= le_bytes_of_u32(s[0] as u32));
    } else {
        assert(s.take(i + 1).drop_first() =~= s.drop_first().take(i));
        assert(s.take(i).drop_first() =~= s.drop_first().take(i - 1));
        lemma_encode_i32_take_step(s.drop_first(), i - 1);
        assert(s.drop_first()[i - 1] == s[i]);
        assert(le_bytes_of_u32(s[0] as u32) + (encode_i32_seq(s.drop_first().take(i - 1))
            + le_bytes_of_u32(s[i] as u32)) =~= (le_bytes_of_u32(s[0] as u32) + encode_i32_seq(
            s.drop_first().take(i - 1),
        )) + le_bytes_of_u32(s[i] as u32));
    }
}

proof fn lemma_encode_f32_take_step(s: Seq<u32>, i: int)
    requires
        0 <= i < s.len(),
    ensures
        encode_f32_bits_seq(s.take(i + 1)) == encode_f32_bits_seq(s.take(i)) + le_bytes_of_u32(
            s[i],
        ),
    decreases i,
{
    if i == 0 {
        assert(s.take(1).drop_first() =~= s.take(0));
        assert(encode_f32_bits_seq(s.take(0)) =~= Seq::<u8>::empty());
        assert(encode_f32_bits_seq(s.take(1)) =~= le_bytes_of_u32(s[0]));
    } else {
        assert(s.take(i + 1).drop_first() =~= s.drop_first().take(i));
        assert(s.take(i).drop_first() =~= s.drop_first().take(i - 1));
        lemma_encode_f32_take_step(s.drop_first(), i - 1);
        assert(s.drop_first()[i - 1] == s[i]);
        assert(le_bytes_of_u32(s[0]) + (encode_f32_bits_seq(s.drop_first().take(i - 1))
            + le_bytes_of_u32(s[i])) =~= (le_bytes_of_u32(s[0]) + encode_f32_bits_seq(
            s.drop_first().take(i - 1),
        )) + le_bytes_of_u32(s[i]));
    }
}

/// Round trip: decoding a serialized buffer of 8-bit samples yields the
/// original samples.
pub proof fn lemma_i8_round_trip(s: Seq<i8>)
    ensures
        decode_i8_seq(encode_i8_seq(s)) == s,
    decreases s.len(),
{
    if s.len() == 0 {
        assert(decode_i8_seq(encode_i8_seq(s)) =~= s);
    } else {
        let b = encode_i8_seq(s);
        let x = s[0];
        assert(b == seq![x as u8] + encode_i8_seq(s.drop_first()));
        assert(b[0] == x as u8);
        assert(b.drop_first() =~= encode_i8_seq(s.drop_first()));
        assert((x as u8) as i8 == x) by (bit_vector);
        lemma_i8_round_trip(s.drop_first());
        assert(decode_i8_seq(b) =~= s);
    }
}

/// Round trip: decoding a serialized buffer of 16-bit samples yields the
/// original samples.
pub proof fn lemma_i16_round_trip(s: Seq<i16>)
    ensures
        decode_i16_seq(encode_i16_seq(s)) == s,
    decreases s.len(),
{
    if s.len() == 0 {
        assert(decode_i16_seq(encode_i16_seq(s)) =~= s);
    } else {
        let b = encode_i16_seq(s);
        let x = s[0];
        let ux = x as u16;
        assert(b == le_bytes_of_u16(ux) + encode_i16_seq(s.drop_first()));
        assert(b.len() >= 2);
        assert(b[0] == (ux & 0xff) as u8);
        assert(b[1] == ((ux >> 8) & 0xff) as u8);
        assert(b.skip(2) =~= encode_i16_seq(s.drop_first()));
        assert(u16_from_le((ux & 0xff) as u8, ((ux >> 8) & 0xff) as u8) == ux) by (bit_vector);
        assert((x as u16) as i16 == x) by (bit_vector);
        lemma_i16_round_trip(s.drop_first());
        assert(decode_i16_seq(b) =~= s);
    }
}

/// Round trip: decoding a serialized buffer of 32-bit integer samples
/// yields the original samples.
pub proof fn lemma_i32_round_trip(s: Seq<i32>)
    ensures
        decode_i32_seq(encode_i32_seq(s)) == s,
    decreases s.len(),
{
    if s.len() == 0 {
        assert(decode_i32_seq(encode_i32_seq(s)) =~= s);
    } else {
        let b = encode_i32_seq(s);
        let x = s[0];
        let ux = x as u32;
        assert(b == le_bytes_of_u32(ux) + encode_i32_seq(s.drop_first()));
        assert(b.len() >= 4);
        assert(b[0] == (ux & 0xff) as u8);
        assert(b[1] == ((ux >> 8) & 0xff) as u8);
        assert(b[2] == ((ux >> 16) & 0xff) as u8);
        assert(b[3] == ((ux >> 24) & 0xff) as u8);
        assert(b.skip(4) =~= encode_i32_seq(s.drop_first()));
        assert(u32_from_le(
            (ux & 0xff) as u8,
            ((ux >> 8) & 0xff) as u8,
            ((ux >> 16) & 0xff) as u8,
            ((ux >> 24) & 0xff) as u8,
        ) == ux) by (bit_vector);
        assert((x as u32) as i32 == x) by (bit_vector);
        lemma_i32_round_trip(s.drop_first());
        assert(decode_i32_seq(b) =~= s);
    }
}

/// Round trip: decoding a serialized buffer of 32-bit float samples yields
/// the original bit patterns.
pub proof fn lemma_f32_bits_round_trip(s: Seq<u32>)
    ensures
        decode_f32_bits_seq(encode_f32_bits_seq(s)) == s,
    decreases s.len(),
{
    if s.len() == 0 {
        assert(decode_f32_bits_seq(encode_f32_bits_seq(s)) =~= s);
    } else {
        let b = encode_f32_bits_seq(s);
        let x = s[0];
        assert(b == le_bytes_of_u32(x) + encode_f32_bits_seq(s.drop_first()));
        assert(b.len() >= 4);
        assert(b[0] == (x & 0xff) as u8);
        assert(b[1] == ((x >> 8) & 0xff) as u8);
        assert(b[2] == ((x >> 16) & 0xff) as u8);
        assert(b[3] == ((x >> 24) & 0xff) as u8);
        assert(b.skip(4) =~= encode_f32_bits_seq(s.drop_first()));
        assert(u32_from_le(
            (x & 0xff) as u8,
            ((x >> 8) & 0xff) as u8,
            ((x >> 16) & 0xff) as u8,
            ((x >> 24) & 0xff) as u8,
        ) == x) by (bit_vector);
        lemma_f32_bits_round_trip(s.drop_first());
        assert(decode_f32_bits_seq(b) =~= s);
    }
}

} // verus!
