//! The recording command layer's state and its on-disk layout: session
//! directories, the segment-list bootstrap rule, and the state shared
//! across start/stop.
use vstd::prelude::*;

use crate::devices::DeviceRegistry;
use crate::encoder::{spec_decimal, u64_to_string};
use crate::errors::RecorderError;
use crate::media::{
    MediaRecorder, StartPlan, spec_recorder_started, spec_start_error, spec_start_plan_matches,
};

verus! {

/// The options one recording session is started with.
#[derive(Clone, Debug)]
pub struct RecordingOptions {
    pub user_id: String,
    pub audio_input_name: String,
    pub audio_output_name: String,
}

/// State the command layer keeps across start/stop: the live recorder,
/// the session's options, the shared flags, and where data lands.
pub struct RecordingState {
    pub media_process: Option<MediaRecorder>,
    pub recording_options: Option<RecordingOptions>,
    /// The shared stop flag, set when a stop is requested.
    pub shutdown_flag: bool,
    /// Whether post-recording uploads have finished.
    pub audio_uploading_finished: bool,
    /// Root directory for recorded data.
    pub data_dir: Option<String>,
    pub conversation_id: Option<u32>,
}

/// A session's recording directory under the data root.
pub open spec fn spec_recording_dir(data_dir: Seq<char>, conversation_id: u64) -> Seq<char> {
    data_dir + "/chunks/audio/"@ + spec_decimal(conversation_id as nat)
}

/// The directories of one recording session.
pub struct RecordingPaths {
    /// `<data_dir>/chunks/audio/<conversation_id>`.
    pub recording_dir: String,
    /// The microphone stream's chunk directory, `<recording_dir>/input`.
    pub input_dir: String,
    /// The loopback stream's chunk directory, `<recording_dir>/output`.
    pub output_dir: String,
}

/// Lays out the directories of one recording session under the data root.
pub fn recording_paths(data_dir: &str, conversation_id: u64) -> (p: RecordingPaths)
    ensures
        p.recording_dir@ == spec_recording_dir(data_dir@, conversation_id),
        p.input_dir@ == spec_recording_dir(data_dir@, conversation_id) + "/input"@,
        p.output_dir@ == spec_recording_dir(data_dir@, conversation_id) + "/output"@,
{
    let mut recording_dir = String::from_str(data_dir);
    recording_dir.append("/chunks/audio/");
    let id = u64_to_string(conversation_id);
    recording_dir.append(id.as_str());
    let mut input_dir = recording_dir.clone();
    input_dir.append("/input");
    let mut output_dir = recording_dir.clone();
    output_dir.append("/output");
    RecordingPaths { recording_dir, input_dir, output_dir }
}

/// Whether `n` occurs in `h` starting at position `k`.
pub open spec fn spec_contains_at(h: Seq<u8>, n: Seq<u8>, k: int) -> bool {
    0 <= k <= h.len() - n.len() && h.subrange(k, k + n.len()) == n
}

/// Whether `n` occurs anywhere in `h`.
pub open spec fn spec_contains(h: Seq<u8>, n: Seq<u8>) -> bool {
    exists|k: int| spec_contains_at(h, n, k)
}

/// A mismatch at offset `j` rules the occurrence at `k` out.
proof fn lemma_mismatch_not_contains_at(h: Seq<u8>, n: Seq<u8>, k: int, j: int)
    requires
        0 <= k,
        0 <= j < n.len(),
        k + n.len() <= h.len(),
        h[k + j] != n[j],
    ensures
        !spec_contains_at(h, n, k),
{
    if spec_contains_at(h, n, k) {
        assert(h.subrange(k, k + n.len())[j] == n[j]);
        assert(h.subrange(k, k + n.len())[j] == h[k + j]);
    }
}

/// Whether the byte sequence `needle` occurs in `haystack`.
pub fn contains_bytes(haystack: &Vec<u8>, needle: &Vec<u8>) -> (r: bool)
    ensures
        r == spec_contains(haystack@, needle@),
{
    if needle.len() > haystack.len() {
        proof {
            assert(forall|k: int| !spec_contains_at(haystack@, needle@, k));
        }
        return false;
    }
    if needle.len() == 0 {
        proof {
            assert(haystack@.subrange(0, 0) =~= needle@);
            assert(spec_contains_at(haystack@, needle@, 0));
        }
        return true;
    }
    let hlen: usize = haystack.len();
    let nlen: usize = needle.len();
    let mut k: usize = 0;
    while k <= hlen - nlen
        invariant
            hlen == haystack@.len(),
            nlen == needle@.len(),
            1 <= nlen <= hlen,
            0 <= k <= hlen - nlen + 1,
            forall|kk: int| 0 <= kk < k ==> !spec_contains_at(haystack@, needle@, kk),
        decreases hlen - nlen + 1 - k,
    {
        let mut j: usize = 0;
        let mut matches = true;
        while j < nlen
            invariant
                hlen == haystack@.len(),
                nlen == needle@.len(),
                1 <= nlen <= hlen,
                0 <= k <= hlen - nlen,
                0 <= j <= nlen,
                matches ==> forall|jj: int|
                    0 <= jj < j ==> haystack@[k + jj] == #[trigger] needle@[jj],
                !matches ==> !spec_contains_at(haystack@, needle@, k as int),
            decreases nlen - j,
        {
            if haystack[k + j] != needle[j] {
                proof {
                    lemma_mismatch_not_contains_at(haystack@, needle@, k as int, j as int);
                }
                matches = false;
                j = nlen;
            } else {
                j = j + 1;
            }
        }
        if matches {
            proof {
                assert forall|jj: int|
                    0 <= jj < needle@.len() implies haystack@.subrange(
                    k as int,
                    k as int + needle@.len() as int,
                )[jj] == needle@[jj] by {
                    assert(haystack@[k + jj] == needle@[jj]);
                }
                assert(haystack@.subrange(k as int, k as int + needle@.len() as int) =~= needle@);
                assert(spec_contains_at(haystack@, needle@, k as int));
            }
            return true;
        }
        k = k + 1;
    }
    proof {
        assert(forall|kk: int| !spec_contains_at(haystack@, needle@, kk));
    }
    false
}

/// The marker of directories that get no segment list: the bytes of
/// `screenshots`.
pub open spec fn spec_screenshots_marker() -> Seq<u8> {
    seq![115u8, 99u8, 114u8, 101u8, 101u8, 110u8, 115u8, 104u8, 111u8, 116u8, 115u8]
}

/// Whether a freshly cleaned directory should be seeded with an empty
/// segment list: every recording directory is, screenshot directories are
/// not.
pub fn needs_segment_list(dir: &Vec<u8>) -> (r: bool)
    ensures
        r == !spec_contains(dir@, spec_screenshots_marker()),
{
    let mut marker: Vec<u8> = Vec::new();
    marker.push(115);
    marker.push(99);
    marker.push(114);
    marker.push(101);
    marker.push(101);
    marker.push(110);
    marker.push(115);
    marker.push(104);
    marker.push(111);
    marker.push(116);
    marker.push(115);
    proof {
        assert(marker@ =~= spec_screenshots_marker());
    }
    !contains_bytes(dir, &marker)
}

/// Builds a fresh recorder and starts a session on it, handing back both
/// the live recorder and the encoder plan; a failed start reports the
/// first error and no recorder.
pub fn prepare_media_recording(
    options: RecordingOptions,
    audio_input_chunks_dir: &str,
    audio_output_chunks_dir: &str,
    audio_input_id: Option<u32>,
    output_device_id: Option<u32>,
    registry: &DeviceRegistry,
) -> (r: Result<(MediaRecorder, StartPlan), RecorderError>)
    requires
        registry.wf(),
    ensures
        match r {
            Ok((recorder, plan)) => spec_start_plan_matches(
                plan,
                *registry,
                audio_input_id,
                output_device_id,
                audio_input_chunks_dir@,
                audio_output_chunks_dir@,
            ) && spec_recorder_started(
                recorder,
                options,
                plan,
                *registry,
                output_device_id,
                audio_output_chunks_dir@,
            ),
            Err(e) => spec_start_error(e, *registry, audio_input_id, output_device_id),
        },
{
    let mut media_recorder = MediaRecorder::new();
    match media_recorder.start_media_recording(
        options,
        audio_input_chunks_dir,
        audio_output_chunks_dir,
        audio_input_id,
        output_device_id,
        registry,
    ) {
        Ok(plan) => Ok((media_recorder, plan)),
        Err(e) => Err(e),
    }
}

} // verus!
