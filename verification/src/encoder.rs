//! The segmented encoder process: command-line construction, the
//! graceful-stop control sequence, segment manifests, and the stop-drain
//! barrier.
//!
//! The encoder itself is an opaque external process; what the pipeline owes
//! it is exact: a raw-format input declaration, a filter chain, and
//! segmentation flags, all derived from the negotiated stream parameters.
//! Stopping is a barrier: the manifest must reach the expected segment
//! count before the pipeline signals the process to quit.
use vstd::prelude::*;

verus! {

/// Fixed duration of one encoder segment, in seconds.
pub const SEGMENT_DURATION_SECS: u64 = 3;

/// Number of whole segments the encoder is expected to have flushed after
/// `elapsed_secs` seconds of recording: `floor(elapsed / 3)`.
pub fn expected_segments(elapsed_secs: u64) -> (n: u64)
    ensures
        n == elapsed_secs / SEGMENT_DURATION_SECS,
{
    elapsed_secs / SEGMENT_DURATION_SECS
}

/// The character for one decimal digit.
pub open spec fn spec_digit_char(d: nat) -> char
    recommends
        d < 10,
{
    if d == 0 {
        '0'
    } else if d == 1 {
        '1'
    } else if d == 2 {
        '2'
    } else if d == 3 {
        '3'
    } else if d == 4 {
        '4'
    } else if d == 5 {
        '5'
    } else if d == 6 {
        '6'
    } else if d == 7 {
        '7'
    } else if d == 8 {
        '8'
    } else {
        '9'
    }
}

/// The decimal rendering of `n`, without leading zeros.
pub open spec fn spec_decimal(n: nat) -> Seq<char>
    decreases n,
{
    if n < 10 {
        seq![spec_digit_char(n)]
    } else {
        spec_decimal(n / 10).push(spec_digit_char(n % 10))
    }
}

fn digit_str(d: u64) -> (s: &'static str)
    requires
        d < 10,
    ensures
        s@ == seq![spec_digit_char(d as nat)],
{
    proof {
        reveal_strlit("0");
        reveal_strlit("1");
        reveal_strlit("2");
        reveal_strlit("3");
        reveal_strlit("4");
        reveal_strlit("5");
        reveal_strlit("6");
        reveal_strlit("7");
        reveal_strlit("8");
        reveal_strlit("9");
    }
    if d == 0 {
        "0"
    } else if d == 1 {
        "1"
    } else if d == 2 {
        "2"
    } else if d == 3 {
        "3"
    } else if d == 4 {
        "4"
    } else if d == 5 {
        "5"
    } else if d == 6 {
        "6"
    } else if d == 7 {
        "7"
    } else if d == 8 {
        "8"
    } else {
        "9"
    }
}

/// Renders `n` in decimal, without leading zeros.
pub fn u64_to_string(n: u64) -> (s: String)
    ensures
        s@ == spec_decimal(n as nat),
    decreases n,
{
    if n < 10 {
        String::from_str(digit_str(n))
    } else {
        let mut s = u64_to_string(n / 10);
        s.append(digit_str(n % 10));
        s
    }
}

/// The manifest file path under a stream's chunk directory.
pub open spec fn spec_segment_list_path(dir: Seq<char>) -> Seq<char> {
    dir + "/segment_list.txt"@
}

/// The manifest file path under a stream's chunk directory.
pub fn segment_list_path(dir: &str) -> (p: String)
    ensures
        p@ == spec_segment_list_path(dir@),
{
    let mut p = String::from_str(dir);
    p.append("/segment_list.txt");
    p
}

/// The numbered segment file pattern under a stream's chunk directory.
pub open spec fn spec_chunk_pattern(dir: Seq<char>) -> Seq<char> {
    dir + "/audio_recording_%03d.wav"@
}

/// The numbered segment file pattern under a stream's chunk directory.
pub fn chunk_pattern(dir: &str) -> (p: String)
    ensures
        p@ == spec_chunk_pattern(dir@),
{
    let mut p = String::from_str(dir);
    p.append("/audio_recording_%03d.wav");
    p
}

/// The concat-script path under a stream's chunk directory.
pub open spec fn spec_concat_list_path(dir: Seq<char>) -> Seq<char> {
    dir + "/concat.txt"@
}

/// The concat-script path under a stream's chunk directory.
pub fn concat_list_path(dir: &str) -> (p: String)
    ensures
        p@ == spec_concat_list_path(dir@),
{
    let mut p = String::from_str(dir);
    p.append("/concat.txt");
    p
}

/// The continuous output file path under a directory.
pub open spec fn spec_combined_path(dir: Seq<char>) -> Seq<char> {
    dir + "/combined.wav"@
}

/// The continuous output file path under a directory.
pub fn combined_path(dir: &str) -> (p: String)
    ensures
        p@ == spec_combined_path(dir@),
{
    let mut p = String::from_str(dir);
    p.append("/combined.wav");
    p
}

/// The down-mix filter applied when the source has more than two channels.
pub open spec fn spec_downmix_filter() -> Seq<char> {
    "pan=stereo|FL=FL+0.5*FC|FR=FR+0.5*FC"@
}

/// The resampler stage of the filter chain.
pub open spec fn spec_resample_filter() -> Seq<char> {
    "aresample=async=1:min_hard_comp=0.100000:first_pts=0:osr=16000"@
}

/// The audio filter chain handed to the encoder: an optional down-mix when
/// the source has more than two channels, loudness normalization, and a
/// resample to the fixed target rate, comma-joined.
pub open spec fn spec_filter_chain(channels: u16) -> Seq<char> {
    if channels > 2 {
        spec_downmix_filter() + ","@ + "loudnorm"@ + ","@ + spec_resample_filter()
    } else {
        "loudnorm"@ + ","@ + spec_resample_filter()
    }
}

/// Builds the audio filter chain for a source with `channels` channels.
pub fn audio_filter_chain(channels: u16) -> (s: String)
    ensures
        s@ == spec_filter_chain(channels),
{
    let mut s = String::new();
    if channels > 2 {
        s.append("pan=stereo|FL=FL+0.5*FC|FR=FR+0.5*FC");
        s.append(",");
    }
    s.append("loudnorm");
    s.append(",");
    s.append("aresample=async=1:min_hard_comp=0.100000:first_pts=0:osr=16000");
    proof {
        assert(s@ =~= spec_filter_chain(channels));
    }
    s
}

/// The full argument list of a segmented encode: raw little-endian input on
/// the standard input pipe, the filter chain, a mono 16-bit output, and
/// 3-second segments appended to the manifest.
pub open spec fn spec_segment_command(
    format_tag: Seq<char>,
    sample_rate: u32,
    channels: u16,
    dir: Seq<char>,
) -> Seq<Seq<char>> {
    seq![
        "-f"@,
        format_tag,
        "-ar"@,
        spec_decimal(sample_rate as nat),
        "-ac"@,
        spec_decimal(channels as nat),
        "-thread_queue_size"@,
        "4096"@,
        "-i"@,
        "pipe:0"@,
        "-af"@,
        spec_filter_chain(channels),
        "-ac"@,
        "1"@,
        "-c:a"@,
        "pcm_s16le"@,
        "-async"@,
        "1"@,
        "-f"@,
        "segment"@,
        "-segment_time"@,
        "3"@,
        "-segment_time_delta"@,
        "0.01"@,
        "-segment_list"@,
        spec_segment_list_path(dir),
        "-reset_timestamps"@,
        "1"@,
        spec_chunk_pattern(dir),
    ]
}

/// Builds the encoder invocation for one stream: `format_tag` declares the
/// raw sample layout, `sample_rate` and `channels` the source stream, and
/// `dir` the chunk directory receiving segments and the manifest.
pub fn build_segment_command(
    format_tag: &str,
    sample_rate: u32,
    channels: u16,
    dir: &str,
) -> (args: Vec<String>)
    ensures
        args.deep_view() == spec_segment_command(format_tag@, sample_rate, channels, dir@),
{
    let mut args: Vec<String> = Vec::new();
    args.push(String::from_str("-f"));
    args.push(String::from_str(format_tag));
    args.push(String::from_str("-ar"));
    args.push(u64_to_string(sample_rate as u64));
    args.push(String::from_str("-ac"));
    args.push(u64_to_string(channels as u64));
    args.push(String::from_str("-thread_queue_size"));
    args.push(String::from_str("4096"));
    args.push(String::from_str("-i"));
    args.push(String::from_str("pipe:0"));
    args.push(String::from_str("-af"));
    args.push(audio_filter_chain(channels));
    args.push(String::from_str("-ac"));
    args.push(String::from_str("1"));
    args.push(String::from_str("-c:a"));
    args.push(String::from_str("pcm_s16le"));
    args.push(String::from_str("-async"));
    args.push(String::from_str("1"));
    args.push(String::from_str("-f"));
    args.push(String::from_str("segment"));
    args.push(String::from_str("-segment_time"));
    args.push(String::from_str("3"));
    args.push(String::from_str("-segment_time_delta"));
    args.push(String::from_str("0.01"));
    args.push(String::from_str("-segment_list"));
    args.push(segment_list_path(dir));
    args.push(String::from_str("-reset_timestamps"));
    args.push(String::from_str("1"));
    args.push(chunk_pattern(dir));
    proof {
        assert(args.deep_view() =~~= spec_segment_command(format_tag@, sample_rate, channels, dir@));
    }
    args
}

/// The argument list of a concat-mode invocation: copy the codec streams of
/// every file listed in the concat script into one continuous file.
pub open spec fn spec_concat_command(dir: Seq<char>) -> Seq<Seq<char>> {
    seq![
        "-f"@,
        "concat"@,
        "-safe"@,
        "0"@,
        "-i"@,
        spec_concat_list_path(dir),
        "-c"@,
        "copy"@,
        spec_combined_path(dir),
    ]
}

/// Builds the concat-mode invocation for one stream's chunk directory.
pub fn build_concat_command(dir: &str) -> (args: Vec<String>)
    ensures
        args.deep_view() == spec_concat_command(dir@),
{
    let mut args: Vec<String> = Vec::new();
    args.push(String::from_str("-f"));
    args.push(String::from_str("concat"));
    args.push(String::from_str("-safe"));
    args.push(String::from_str("0"));
    args.push(String::from_str("-i"));
    args.push(concat_list_path(dir));
    args.push(String::from_str("-c"));
    args.push(String::from_str("copy"));
    args.push(combined_path(dir));
    proof {
        assert(args.deep_view() =~~= spec_concat_command(dir@));
    }
    args
}

/// The argument list that merges the two per-direction continuous files
/// into one mono file by equal-weight channel averaging.
pub open spec fn spec_merge_command(session_dir: Seq<char>) -> Seq<Seq<char>> {
    seq![
        "-i"@,
        spec_combined_path(session_dir + "/input"@),
        "-i"@,
        spec_combined_path(session_dir + "/output"@),
        "-filter_complex"@,
        "[0:a][1:a]amerge=inputs=2,pan=mono|c0=.5*c0+.5*c1[aout]"@,
        "-map"@,
        "[aout]"@,
        "-c:a"@,
        "pcm_s16le"@,
        spec_combined_path(session_dir),
    ]
}

/// Builds the merge invocation for a session directory holding the two
/// per-direction continuous files.
pub fn build_merge_command(session_dir: &str) -> (args: Vec<String>)
    ensures
        args.deep_view() == spec_merge_command(session_dir@),
{
    let mut input_dir = String::from_str(session_dir);
    input_dir.append("/input");
    let mut output_dir = String::from_str(session_dir);
    output_dir.append("/output");
    let mut args: Vec<String> = Vec::new();
    args.push(String::from_str("-i"));
    args.push(combined_path(input_dir.as_str()));
    args.push(String::from_str("-i"));
    args.push(combined_path(output_dir.as_str()));
    args.push(String::from_str("-filter_complex"));
    args.push(String::from_str("[0:a][1:a]amerge=inputs=2,pan=mono|c0=.5*c0+.5*c1[aout]"));
    args.push(String::from_str("-map"));
    args.push(String::from_str("[aout]"));
    args.push(String::from_str("-c:a"));
    args.push(String::from_str("pcm_s16le"));
    args.push(combined_path(session_dir));
    proof {
        assert(args.deep_view() =~~= spec_merge_command(session_dir@));
    }
    args
}

/// The two control bytes that request a clean encoder shutdown when
/// written to its input pipe, before the pipe is closed.
pub fn quit_command_bytes() -> (b: Vec<u8>)
    ensures
        b@ == seq![113u8, 10u8],
{
    let mut b: Vec<u8> = Vec::new();
    b.push(113);
    b.push(10);
    proof {
        assert(b@ =~= seq![113u8, 10u8]);
    }
    b
}

/// Number of newline bytes in `b`.
pub open spec fn spec_newline_count(b: Seq<u8>) -> nat
    decreases b.len(),
{
    if b.len() == 0 {
        0
    } else {
        spec_newline_count(b.drop_last()) + if b.last() == 10 {
            1nat
        } else {
            0nat
        }
    }
}

/// Number of lines in a manifest, counted as the encoder's consumers do: a
/// final line is counted whether or not it ends in a newline.
pub open spec fn spec_line_count(b: Seq<u8>) -> nat {
    spec_newline_count(b) + if b.len() > 0 && b.last() != 10 {
        1nat
    } else {
        0nat
    }
}

/// Counts the path lines of a segment manifest, given its raw bytes.
pub fn manifest_line_count(bytes: &Vec<u8>) -> (n: usize)
    ensures
        n == spec_line_count(bytes@),
{
    let mut count: usize = 0;
    let mut i: usize = 0;
    while i < bytes.len()
        invariant
            0 <= i <= bytes@.len(),
            count <= i,
            count == spec_newline_count(bytes@.take(i as int)),
        decreases bytes@.len() - i,
    {
        proof {
            assert(bytes@.take(i as int + 1).drop_last() =~= bytes@.take(i as int));
            assert(bytes@.take(i as int + 1).last() == bytes@[i as int]);
        }
        if bytes[i] == 10 {
            count = count + 1;
        }
        i = i + 1;
    }
    proof {
        assert(bytes@.take(bytes@.len() as int) =~= bytes@);
    }
    if bytes.len() > 0 && bytes[bytes.len() - 1] != 10 {
        proof {
            lemma_newline_count_le_len(bytes@.drop_last());
            assert(spec_newline_count(bytes@) == spec_newline_count(bytes@.drop_last()));
        }
        count + 1
    } else {
        count
    }
}

proof fn lemma_newline_count_le_len(b: Seq<u8>)
    ensures
        spec_newline_count(b) <= b.len(),
    decreases b.len(),
{
    if b.len() > 0 {
        lemma_newline_count_le_len(b.drop_last());
    }
}

/// One poll of the stop-drain barrier: the drain is complete exactly when
/// the manifest already lists every expected segment. A manifest that
/// stalls below the count keeps the stop pending; nothing here times out.
pub fn drain_complete(manifest_bytes: &Vec<u8>, elapsed_secs: u64) -> (done: bool)
    ensures
        done == (spec_line_count(manifest_bytes@) >= elapsed_secs / SEGMENT_DURATION_SECS),
{
    let expected = expected_segments(elapsed_secs);
    let lines = manifest_line_count(manifest_bytes);
    if expected > usize::MAX as u64 {
        false
    } else {
        lines as u64 >= expected
    }
}

/// One line of the concat script: `file '<path>'` and a newline.
pub open spec fn spec_concat_line(path: Seq<char>) -> Seq<char> {
    "file '"@ + path + "'\n"@
}

/// The whole concat script for a list of segment paths, in manifest order.
pub open spec fn spec_concat_content(paths: Seq<Seq<char>>) -> Seq<char>
    decreases paths.len(),
{
    if paths.len() == 0 {
        Seq::empty()
    } else {
        spec_concat_content(paths.drop_last()) + spec_concat_line(paths.last())
    }
}

/// Renders the concat script listing each segment file of a manifest, in
/// order.
pub fn build_concat_file_content(segments: &Vec<String>) -> (content: String)
    ensures
        content@ == spec_concat_content(segments.deep_view()),
{
    let mut content = String::new();
    let mut i: usize = 0;
    while i < segments.len()
        invariant
            0 <= i <= segments@.len(),
            content@ == spec_concat_content(segments.deep_view().take(i as int)),
        decreases segments@.len() - i,
    {
        proof {
            assert(segments.deep_view().take(i as int + 1).drop_last() =~= segments.deep_view().take(
                i as int,
            ));
            assert(segments.deep_view().take(i as int + 1).last() == segments@[i as int]@);
        }
        content.append("file '");
        content.append(segments[i].as_str());
        content.append("'\n");
        i = i + 1;
    }
    proof {
        assert(segments.deep_view().take(segments@.len() as int) =~= segments.deep_view());
    }
    content
}

/// Sum of a list of segment durations.
pub open spec fn spec_total_duration(durations: Seq<u64>) -> int
    decreases durations.len(),
{
    if durations.len() == 0 {
        0
    } else {
        spec_total_duration(durations.drop_last()) + durations.last()
    }
}

/// The duration of the continuous file produced by concatenating segments
/// with the codec streams copied: the sum of the segment durations. Fails
/// only when the sum does not fit a 64-bit count.
pub fn concat_total_duration(durations: &Vec<u64>) -> (total: Option<u64>)
    ensures
        match total {
            Option::Some(t) => t == spec_total_duration(durations@),
            Option::None => spec_total_duration(durations@) > u64::MAX,
        },
{
    let mut total: u64 = 0;
    let mut i: usize = 0;
    while i < durations.len()
        invariant
            0 <= i <= durations@.len(),
            total == spec_total_duration(durations@.take(i as int)),
        decreases durations@.len() - i,
    {
        proof {
            assert(durations@.take(i as int + 1).drop_last() =~= durations@.take(i as int));
            assert(durations@.take(i as int + 1).last() == durations@[i as int]);
        }
        if durations[i] > u64::MAX - total {
            proof {
                lemma_total_duration_monotonic(durations@, i as int + 1);
            }
            return None;
        }
        total = total + durations[i];
        i = i + 1;
    }
    proof {
        assert(durations@.take(durations@.len() as int) =~= durations@);
    }
    Some(total)
}

proof fn lemma_total_duration_monotonic(durations: Seq<u64>, i: int)
    requires
        0 <= i <= durations.len(),
    ensures
        spec_total_duration(durations) >= spec_total_duration(durations.take(i)),
    decreases durations.len() - i,
{
    if i < durations.len() {
        lemma_total_duration_monotonic(durations, i + 1);
        assert(durations.take(i + 1).drop_last() =~= durations.take(i));
        assert(durations.take(i + 1).last() == durations[i]);
    } else {
        assert(durations.take(i) =~= durations);
    }
}

/// Law: the expected segment count never covers more than the elapsed time
/// and falls short of it by less than one segment, so a recording drained
/// to `expected_segments` is within one segment of the elapsed duration.
pub proof fn lemma_expected_duration_within_segment(elapsed_secs: u64)
    ensures
        (elapsed_secs / SEGMENT_DURATION_SECS) * SEGMENT_DURATION_SECS <= elapsed_secs,
        elapsed_secs - (elapsed_secs / SEGMENT_DURATION_SECS) * SEGMENT_DURATION_SECS
            < SEGMENT_DURATION_SECS,
{
    assert((elapsed_secs / 3) * 3 <= elapsed_secs && elapsed_secs - (elapsed_secs / 3) * 3 < 3) by (
    nonlinear_arith);
}

} // verus!
