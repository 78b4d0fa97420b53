//! The capture side of the pipeline: per-stream sessions bridging a
//! real-time callback into a bounded chunk channel, and the recorder that
//! composes two of them with their encoder processes.
//!
//! A callback invocation never blocks: it serializes the native buffer,
//! makes one non-blocking enqueue attempt (dropping the chunk when the
//! channel is full), and makes one non-blocking attempt to record the
//! wall-clock instant of the first captured sample — skipped under lock
//! contention and retried on the next callback, so the instant is that of
//! the first *successful* attempt.
use vstd::prelude::*;

use crate::channel::{
    CHANNEL_CAPACITY, ChunkChannel, chunk_channel_capacity, chunk_channel_contents, send_step,
};
use crate::devices::{
    DeviceRegistry, DeviceType, resolve_session_device, spec_device_resolvable,
    spec_session_device_index,
};
use crate::encoder::{
    SEGMENT_DURATION_SECS, build_segment_command, drain_complete, spec_line_count,
    spec_segment_command,
};
use crate::errors::RecorderError;
use crate::format::{
    SampleFormat, encode_f32_bits_seq, encode_i16_seq, encode_i32_seq, encode_i8_seq, format_tag,
    negotiate_input_format, serialize_f32_bits, serialize_i16, serialize_i32, serialize_i8,
    spec_format_tag, spec_negotiated_format,
};
use crate::recorder::RecordingOptions;

verus! {

/// One direction of a recording: a bounded chunk channel toward the
/// encoder, the first-sample instant cell, and a drop diagnostic.
pub struct StreamSession {
    /// Bounded channel carrying serialized chunks to the encoder feed.
    pub channel: ChunkChannel,
    /// Wall-clock instant, in milliseconds, of the first captured sample —
    /// written at most once, by the first uncontended attempt.
    pub first_sample_at: Option<u64>,
    /// Chunks dropped on a full channel, kept as a diagnostic; saturates.
    pub dropped_chunks: u64,
}

/// The first-sample cell after one non-blocking capture attempt: written
/// only when the attempt held the lock and the cell was still empty.
pub open spec fn first_sample_step(
    cell: Option<u64>,
    lock_acquired: bool,
    now_ms: u64,
) -> Option<u64> {
    if lock_acquired && cell is None {
        Some(now_ms)
    } else {
        cell
    }
}

/// The drop diagnostic after one enqueue attempt; saturates at the top.
pub open spec fn dropped_step(dropped: u64, delivered: bool) -> u64 {
    if delivered {
        dropped
    } else if dropped < u64::MAX {
        (dropped + 1) as u64
    } else {
        dropped
    }
}

impl StreamSession {
    /// A fresh stream session over an empty bounded channel.
    pub fn new(capacity: usize) -> (s: StreamSession)
        requires
            1 <= capacity <= 0x1000_0000,
        ensures
            chunk_channel_contents(s.channel) == Seq::<Seq<u8>>::empty(),
            chunk_channel_capacity(s.channel) == capacity,
            s.first_sample_at is None,
            s.dropped_chunks == 0,
    {
        StreamSession {
            channel: ChunkChannel::new(capacity),
            first_sample_at: None,
            dropped_chunks: 0,
        }
    }

    /// Core of every callback: one non-blocking enqueue attempt for the
    /// serialized chunk and one non-blocking first-instant attempt.
    fn push_chunk(&mut self, bytes: Vec<u8>, lock_acquired: bool, now_ms: u64) -> (delivered: bool)
        ensures
            delivered == (chunk_channel_contents(old(self).channel).len() < chunk_channel_capacity(
                old(self).channel,
            )),
            chunk_channel_contents(final(self).channel) == send_step(
                chunk_channel_capacity(old(self).channel),
                chunk_channel_contents(old(self).channel),
                bytes@,
            ),
            chunk_channel_capacity(final(self).channel) == chunk_channel_capacity(
                old(self).channel,
            ),
            final(self).first_sample_at == first_sample_step(
                old(self).first_sample_at,
                lock_acquired,
                now_ms,
            ),
            final(self).dropped_chunks == dropped_step(old(self).dropped_chunks, delivered),
    {
        let delivered = self.channel.try_send(bytes);
        if !delivered {
            if self.dropped_chunks < u64::MAX {
                self.dropped_chunks = self.dropped_chunks + 1;
            }
        }
        if lock_acquired {
            if self.first_sample_at.is_none() {
                self.first_sample_at = Some(now_ms);
            }
        }
        delivered
    }

    /// One callback of 8-bit samples: serialize, attempt the send, attempt
    /// the first-instant capture. Never blocks and never fails; a full
    /// channel drops the chunk and counts it.
    pub fn on_callback_i8(
        &mut self,
        samples: &Vec<i8>,
        lock_acquired: bool,
        now_ms: u64,
    ) -> (delivered: bool)
        ensures
            delivered == (chunk_channel_contents(old(self).channel).len() < chunk_channel_capacity(
                old(self).channel,
            )),
            chunk_channel_contents(final(self).channel) == send_step(
                chunk_channel_capacity(old(self).channel),
                chunk_channel_contents(old(self).channel),
                encode_i8_seq(samples@),
            ),
            chunk_channel_capacity(final(self).channel) == chunk_channel_capacity(
                old(self).channel,
            ),
            final(self).first_sample_at == first_sample_step(
                old(self).first_sample_at,
                lock_acquired,
                now_ms,
            ),
            final(self).dropped_chunks == dropped_step(old(self).dropped_chunks, delivered),
    {
        let bytes = serialize_i8(samples);
        self.push_chunk(bytes, lock_acquired, now_ms)
    }

    /// One callback of 16-bit samples; see `on_callback_i8`.
    pub fn on_callback_i16(
        &mut self,
        samples: &Vec<i16>,
        lock_acquired: bool,
        now_ms: u64,
    ) -> (delivered: bool)
        ensures
            delivered == (chunk_channel_contents(old(self).channel).len() < chunk_channel_capacity(
                old(self).channel,
            )),
            chunk_channel_contents(final(self).channel) == send_step(
                chunk_channel_capacity(old(self).channel),
                chunk_channel_contents(old(self).channel),
                encode_i16_seq(samples@),
            ),
            chunk_channel_capacity(final(self).channel) == chunk_channel_capacity(
                old(self).channel,
            ),
            final(self).first_sample_at == first_sample_step(
                old(self).first_sample_at,
                lock_acquired,
                now_ms,
            ),
            final(self).dropped_chunks == dropped_step(old(self).dropped_chunks, delivered),
    {
        let bytes = serialize_i16(samples);
        self.push_chunk(bytes, lock_acquired, now_ms)
    }

    /// One callback of 32-bit integer samples; see `on_callback_i8`.
    pub fn on_callback_i32(
        &mut self,
        samples: &Vec<i32>,
        lock_acquired: bool,
        now_ms: u64,
    ) -> (delivered: bool)
        ensures
            delivered == (chunk_channel_contents(old(self).channel).len() < chunk_channel_capacity(
                old(self).channel,
            )),
            chunk_channel_contents(final(self).channel) == send_step(
                chunk_channel_capacity(old(self).channel),
                chunk_channel_contents(old(self).channel),
                encode_i32_seq(samples@),
            ),
            chunk_channel_capacity(final(self).channel) == chunk_channel_capacity(
                old(self).channel,
            ),
            final(self).first_sample_at == first_sample_step(
                old(self).first_sample_at,
                lock_acquired,
                now_ms,
            ),
            final(self).dropped_chunks == dropped_step(old(self).dropped_chunks, delivered),
    {
        let bytes = serialize_i32(samples);
        self.push_chunk(bytes, lock_acquired, now_ms)
    }

    /// One callback of 32-bit float samples, given as raw bit patterns;
    /// see `on_callback_i8`.
    pub fn on_callback_f32_bits(
        &mut self,
        samples: &Vec<u32>,
        lock_acquired: bool,
        now_ms: u64,
    ) -> (delivered: bool)
        ensures
            delivered == (chunk_channel_contents(old(self).channel).len() < chunk_channel_capacity(
                old(self).channel,
            )),
            chunk_channel_contents(final(self).channel) == send_step(
                chunk_channel_capacity(old(self).channel),
                chunk_channel_contents(old(self).channel),
                encode_f32_bits_seq(samples@),
            ),
            chunk_channel_capacity(final(self).channel) == chunk_channel_capacity(
                old(self).channel,
            ),
            final(self).first_sample_at == first_sample_step(
                old(self).first_sample_at,
                lock_acquired,
                now_ms,
            ),
            final(self).dropped_chunks == dropped_step(old(self).dropped_chunks, delivered),
    {
        let bytes = serialize_f32_bits(samples);
        self.push_chunk(bytes, lock_acquired, now_ms)
    }

    /// Hands the oldest buffered chunk to the encoder feed, if any: the
    /// consumer side of the bounded channel.
    pub fn take_chunk(&mut self) -> (r: Option<Vec<u8>>)
        ensures
            chunk_channel_capacity(final(self).channel) == chunk_channel_capacity(
                old(self).channel,
            ),
            final(self).first_sample_at == old(self).first_sample_at,
            final(self).dropped_chunks == old(self).dropped_chunks,
            match r {
                Option::Some(chunk) => chunk_channel_contents(old(self).channel).len() > 0
                    && chunk@ == chunk_channel_contents(old(self).channel)[0]
                    && chunk_channel_contents(final(self).channel) == chunk_channel_contents(
                    old(self).channel,
                ).drop_first(),
                Option::None => chunk_channel_contents(old(self).channel).len() == 0
                    && chunk_channel_contents(final(self).channel) == chunk_channel_contents(
                    old(self).channel,
                ),
            },
    {
        self.channel.try_recv()
    }
}

/// What a successful session start hands the process layer: the resolved
/// devices and, per direction, the encoder invocation to spawn — absent
/// when that direction's device resolved to the `None` sentinel and the
/// session runs degenerate, single-stream.
pub struct StartPlan {
    /// Resolved index of the capture device.
    pub input_device_index: usize,
    /// Resolved index of the loopback device.
    pub output_device_index: usize,
    /// The format negotiated for the capture stream.
    pub negotiated_format: SampleFormat,
    /// Encoder invocation for the capture stream, unless skipped.
    pub input_command: Option<Vec<String>>,
    /// Encoder invocation for the loopback stream, unless skipped.
    pub output_command: Option<Vec<String>>,
}

/// Progress of a stop request: still draining, or torn down.
#[derive(Clone, Copy, Debug, PartialEq, Eq, Structural)]
pub enum StopProgress {
    /// A manifest is still short of the expected segment count; poll again.
    Pending,
    /// The drain barrier passed and the session was torn down.
    Stopped,
}

/// The recording session orchestrator: two stream sessions, their encoder
/// processes, and the start/stop state machine.
pub struct MediaRecorder {
    pub options: Option<RecordingOptions>,
    /// The microphone direction's session, while recording.
    pub input_session: Option<StreamSession>,
    /// The loopback direction's session, while recording.
    pub output_session: Option<StreamSession>,
    /// Whether the native capture stream is built.
    pub input_stream_attached: bool,
    /// Whether the native loopback unit is built.
    pub output_unit_attached: bool,
    pub input_playing: bool,
    pub output_playing: bool,
    /// Whether an encoder process serves the capture stream.
    pub input_encoder_running: bool,
    /// Whether an encoder process serves the loopback stream.
    pub output_encoder_running: bool,
    /// The shared stop flag.
    pub should_stop: bool,
    /// Whether a session start instant has been recorded.
    pub started: bool,
    /// The loopback chunk directory, where the drained manifest lives.
    pub audio_file_path: Option<String>,
    /// Display name of the device the last encoder was created for.
    pub device_name: Option<String>,
}

/// Whether every running encoder's manifest has reached the segment count
/// expected after `elapsed_secs` seconds: the stop-drain barrier.
pub open spec fn spec_drain_ready(
    m: MediaRecorder,
    elapsed_secs: u64,
    input_manifest: Seq<u8>,
    output_manifest: Seq<u8>,
) -> bool {
    &&& (m.input_encoder_running ==> spec_line_count(input_manifest) >= elapsed_secs
        / SEGMENT_DURATION_SECS)
    &&& (m.output_encoder_running ==> spec_line_count(output_manifest) >= elapsed_secs
        / SEGMENT_DURATION_SECS)
}

/// What a successful start promises of the plan: both devices resolved,
/// a format negotiated from what the capture device advertises, and per
/// direction the exact encoder invocation — absent exactly when the
/// device's display name is the `None` sentinel.
pub open spec fn spec_start_plan_matches(
    plan: StartPlan,
    registry: DeviceRegistry,
    input_device_id: Option<u32>,
    output_device_id: Option<u32>,
    input_dir: Seq<char>,
    output_dir: Seq<char>,
) -> bool {
    let ds = registry.devices@;
    let ii = spec_session_device_index(registry, input_device_id->0, DeviceType::AudioInput);
    let oi = spec_session_device_index(registry, output_device_id->0, DeviceType::AudioOutput);
    &&& spec_device_resolvable(registry, input_device_id, DeviceType::AudioInput)
    &&& spec_device_resolvable(registry, output_device_id, DeviceType::AudioOutput)
    &&& plan.input_device_index == ii
    &&& plan.output_device_index == oi
    &&& ds[ii].input_formats@.len() > 0
    &&& plan.negotiated_format == spec_negotiated_format(ds[ii].input_formats@)
    &&& match plan.input_command {
        Option::Some(c) => ds[ii].name@ != "None"@ && c.deep_view() == spec_segment_command(
            spec_format_tag(plan.negotiated_format),
            ds[ii].sample_rate,
            ds[ii].channels,
            input_dir,
        ),
        Option::None => ds[ii].name@ == "None"@,
    }
    &&& match plan.output_command {
        Option::Some(c) => ds[oi].name@ != "None"@ && c.deep_view() == spec_segment_command(
            "f32le"@,
            44100,
            1,
            output_dir,
        ),
        Option::None => ds[oi].name@ == "None"@,
    }
}

/// What a successful start promises of the recorder: options held, both
/// stream sessions fresh over empty channels of the fixed capacity, both
/// capture paths attached and playing, one encoder per planned command,
/// the stop flag clear, and the start instant recorded.
pub open spec fn spec_recorder_started(
    m: MediaRecorder,
    options: RecordingOptions,
    plan: StartPlan,
    registry: DeviceRegistry,
    output_device_id: Option<u32>,
    output_dir: Seq<char>,
) -> bool {
    let ds = registry.devices@;
    let oi = spec_session_device_index(registry, output_device_id->0, DeviceType::AudioOutput);
    &&& m.options == Some(options)
    &&& match m.input_session {
        Option::Some(s) => chunk_channel_contents(s.channel) == Seq::<Seq<u8>>::empty()
            && chunk_channel_capacity(s.channel) == CHANNEL_CAPACITY && s.first_sample_at is None
            && s.dropped_chunks == 0,
        Option::None => false,
    }
    &&& match m.output_session {
        Option::Some(s) => chunk_channel_contents(s.channel) == Seq::<Seq<u8>>::empty()
            && chunk_channel_capacity(s.channel) == CHANNEL_CAPACITY && s.first_sample_at is None
            && s.dropped_chunks == 0,
        Option::None => false,
    }
    &&& m.input_stream_attached
    &&& m.output_unit_attached
    &&& m.input_playing
    &&& m.output_playing
    &&& m.input_encoder_running == (plan.input_command is Some)
    &&& m.output_encoder_running == (plan.output_command is Some)
    &&& !m.should_stop
    &&& m.started
    &&& match m.audio_file_path {
        Option::Some(p) => p@ == output_dir,
        Option::None => false,
    }
    &&& match m.device_name {
        Option::Some(n) => n@ == ds[oi].name@,
        Option::None => false,
    }
}

/// Which error a failed start reports, and exactly when: the first
/// unresolvable device, else a capture device advertising no format.
pub open spec fn spec_start_error(
    e: RecorderError,
    registry: DeviceRegistry,
    input_device_id: Option<u32>,
    output_device_id: Option<u32>,
) -> bool {
    let in_ok = spec_device_resolvable(registry, input_device_id, DeviceType::AudioInput);
    let out_ok = spec_device_resolvable(registry, output_device_id, DeviceType::AudioOutput);
    let ii = spec_session_device_index(registry, input_device_id->0, DeviceType::AudioInput);
    &&& (e == RecorderError::DeviceNotFound <==> !(in_ok && out_ok))
    &&& (e == RecorderError::UnsupportedFormat <==> in_ok && out_ok && registry.devices@[
        ii
    ].input_formats@.len() == 0)
    &&& (e == RecorderError::DeviceNotFound || e == RecorderError::UnsupportedFormat)
}

impl MediaRecorder {
    /// An idle recorder: no session, nothing attached, nothing running.
    pub fn new() -> (m: MediaRecorder)
        ensures
            m.options is None,
            m.input_session is None,
            m.output_session is None,
            !m.input_stream_attached,
            !m.output_unit_attached,
            !m.input_playing,
            !m.output_playing,
            !m.input_encoder_running,
            !m.output_encoder_running,
            !m.should_stop,
            !m.started,
            m.audio_file_path is None,
            m.device_name is None,
    {
        MediaRecorder {
            options: None,
            input_session: None,
            output_session: None,
            input_stream_attached: false,
            output_unit_attached: false,
            input_playing: false,
            output_playing: false,
            input_encoder_running: false,
            output_encoder_running: false,
            should_stop: false,
            started: false,
            audio_file_path: None,
            device_name: None,
        }
    }

    /// Starts a session: resolves both devices, negotiates the capture
    /// format, creates the two bounded channels, attaches and starts both
    /// capture paths, and plans one encoder per direction — skipped where
    /// the device resolved to the `None` sentinel. Any failure aborts the
    /// whole start, reports the first error, and leaves the recorder
    /// unchanged.
    pub fn start_media_recording(
        &mut self,
        options: RecordingOptions,
        audio_input_chunks_dir: &str,
        audio_output_chunks_dir: &str,
        input_device_id: Option<u32>,
        output_device_id: Option<u32>,
        registry: &DeviceRegistry,
    ) -> (r: Result<StartPlan, RecorderError>)
        requires
            registry.wf(),
        ensures
            match r {
                Ok(plan) => spec_start_plan_matches(
                    plan,
                    *registry,
                    input_device_id,
                    output_device_id,
                    audio_input_chunks_dir@,
                    audio_output_chunks_dir@,
                ) && spec_recorder_started(*final(self), options, plan, *registry, output_device_id, audio_output_chunks_dir@),
                Err(e) => *final(self) == *old(self) && spec_start_error(
                    e,
                    *registry,
                    input_device_id,
                    output_device_id,
                ),
            },
    {
        let input_index = match resolve_session_device(
            registry,
            input_device_id,
            DeviceType::AudioInput,
        ) {
            Ok(i) => i,
            Err(e) => {
                return Err(e);
            },
        };
        let output_index = match resolve_session_device(
            registry,
            output_device_id,
            DeviceType::AudioOutput,
        ) {
            Ok(i) => i,
            Err(e) => {
                return Err(e);
            },
        };
        let negotiated = match negotiate_input_format(&registry.devices[input_index].input_formats)
        {
            Ok(f) => f,
            Err(e) => {
                return Err(e);
            },
        };
        let sentinel = String::from_str("None");
        let input_device = &registry.devices[input_index];
        let input_command: Option<Vec<String>> = if input_device.name == sentinel {
            None
        } else {
            Some(
                build_segment_command(
                    format_tag(negotiated),
                    input_device.sample_rate,
                    input_device.channels,
                    audio_input_chunks_dir,
                ),
            )
        };
        let output_device = &registry.devices[output_index];
        let output_command: Option<Vec<String>> = if output_device.name == sentinel {
            None
        } else {
            Some(build_segment_command("f32le", 44100, 1, audio_output_chunks_dir))
        };
        self.options = Some(options);
        self.input_session = Some(StreamSession::new(CHANNEL_CAPACITY));
        self.output_session = Some(StreamSession::new(CHANNEL_CAPACITY));
        self.input_stream_attached = true;
        self.output_unit_attached = true;
        self.input_playing = true;
        self.output_playing = true;
        self.input_encoder_running = input_command.is_some();
        self.output_encoder_running = output_command.is_some();
        self.should_stop = false;
        self.started = true;
        self.audio_file_path = Some(String::from_str(audio_output_chunks_dir));
        self.device_name = Some(registry.devices[output_index].name.clone());
        Ok(
            StartPlan {
                input_device_index: input_index,
                output_device_index: output_index,
                negotiated_format: negotiated,
                input_command,
                output_command,
            },
        )
    }

    /// Starts playback of the capture stream; fails exactly when no
    /// capture stream is attached.
    pub fn trigger_play_input(&mut self) -> (r: Result<(), &'static str>)
        ensures
            match r {
                Ok(_) => old(self).input_stream_attached && *final(self) == (MediaRecorder {
                    input_playing: true,
                    ..*old(self)
                }),
                Err(m) => !old(self).input_stream_attached && m@
                    == "Starting the recording did not work"@ && *final(self) == *old(self),
            },
    {
        if self.input_stream_attached {
            self.input_playing = true;
            Ok(())
        } else {
            Err("Starting the recording did not work")
        }
    }

    /// Starts the loopback unit; fails exactly when none is attached.
    pub fn trigger_play_output(&mut self) -> (r: Result<(), &'static str>)
        ensures
            match r {
                Ok(_) => old(self).output_unit_attached && *final(self) == (MediaRecorder {
                    output_playing: true,
                    ..*old(self)
                }),
                Err(m) => !old(self).output_unit_attached && m@
                    == "Starting the recording did not work"@ && *final(self) == *old(self),
            },
    {
        if self.output_unit_attached {
            self.output_playing = true;
            Ok(())
        } else {
            Err("Starting the recording did not work")
        }
    }

    /// One step of the stop sequence. While a running encoder's manifest
    /// is short of the expected segment count the stop stays pending and
    /// nothing changes — the caller polls again with fresh manifests.
    /// Once the barrier passes, the whole teardown runs, best-effort:
    /// both encoders are signalled and released, the stop flag is set,
    /// the channels are dropped, and both capture paths pause. A missing
    /// capture path never aborts the remaining steps; it is reported only
    /// after the full teardown has run.
    pub fn stop_media_recording(
        &mut self,
        elapsed_secs: u64,
        input_manifest: &Vec<u8>,
        output_manifest: &Vec<u8>,
    ) -> (r: Result<StopProgress, &'static str>)
        ensures
            match r {
                Ok(StopProgress::Pending) => old(self).started && !spec_drain_ready(
                    *old(self),
                    elapsed_secs,
                    input_manifest@,
                    output_manifest@,
                ) && *final(self) == *old(self),
                Ok(StopProgress::Stopped) => {
                    &&& (old(self).started ==> spec_drain_ready(
                        *old(self),
                        elapsed_secs,
                        input_manifest@,
                        output_manifest@,
                    ))
                    &&& old(self).input_stream_attached
                    &&& old(self).output_unit_attached
                    &&& *final(self) == (MediaRecorder {
                        should_stop: true,
                        input_session: None,
                        output_session: None,
                        input_playing: false,
                        output_playing: false,
                        input_encoder_running: false,
                        output_encoder_running: false,
                        ..*old(self)
                    })
                },
                Err(m) => {
                    &&& m@ == "Original recording was not started"@
                    &&& (old(self).started ==> spec_drain_ready(
                        *old(self),
                        elapsed_secs,
                        input_manifest@,
                        output_manifest@,
                    ))
                    &&& !(old(self).input_stream_attached && old(self).output_unit_attached)
                    &&& *final(self) == (MediaRecorder {
                        should_stop: true,
                        input_session: None,
                        output_session: None,
                        input_playing: false,
                        output_playing: false,
                        input_encoder_running: false,
                        output_encoder_running: false,
                        ..*old(self)
                    })
                },
            },
    {
        if self.started {
            let input_ready = if self.input_encoder_running {
                drain_complete(input_manifest, elapsed_secs)
            } else {
                true
            };
            let output_ready = if self.output_encoder_running {
                drain_complete(output_manifest, elapsed_secs)
            } else {
                true
            };
            if !(input_ready && output_ready) {
                return Ok(StopProgress::Pending);
            }
        }
        self.input_encoder_running = false;
        self.output_encoder_running = false;
        self.should_stop = true;
        self.input_session = None;
        self.output_session = None;
        let input_was_attached = self.input_stream_attached;
        self.input_playing = false;
        let output_was_attached = self.output_unit_attached;
        self.output_playing = false;
        if !(input_was_attached && output_was_attached) {
            return Err("Original recording was not started");
        }
        Ok(StopProgress::Stopped)
    }
}

/// The command written to a platform audio object's name property: the
/// action keyword immediately followed by the value.
pub fn object_name_command(action: &str, new_name: &str) -> (c: String)
    ensures
        c@ == action@ + new_name@,
{
    let mut c = String::from_str(action);
    c.append(new_name);
    c
}

} // verus!
