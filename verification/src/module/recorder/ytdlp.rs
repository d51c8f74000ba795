//! The `yt-dlp` dialect: how the recorder is started and how its output is
//! read.

use super::super::{Message, Task};
use super::{messages_after, status_messages, RecorderState, StatusView, VideoStatus};
use crate::config::YtdlpConfig;
use crate::pattern::{
    is_match, regex_matches, regex_replaced_first, regex_valid, replace_first, text_of,
};
use crate::text::{
    after_last, begins, clone_texts, ensure_flag, field, field_back, from_chars,
    has_text, includes, join, nth_field, nth_field_back, occurs_in, parse_u32, parsed_u32,
    push_text, rest_after_last, same_text, texts, to_chars, trim, trimmed, with_flag,
};
use crate::time::{current_time, Timestamp};
use vstd::prelude::*;
use vstd::string::*;

verus! {

/// The mark of a progress line.
pub const PROGRESS: &'static str = "[download_progress]";

/// The pattern that finds the progress mark with the track number that may
/// stand before it.
pub const PROGRESS_MARK: &'static str = r"(\d:\s)?\[download_progress\]";

/// The pattern that tells a video format by its resolution.
pub const RESOLUTION: &'static str = r"\d+x\d+";

/// How the line begins that tells how long the recorder will wait.
pub const REMAINING_TIME: &'static str = "[wait] Remaining time until next attempt:";

/// What stands before the path in the line that reports the finished file.
pub const OUTPUT_FILE: &'static str = "[download_finished] output_file: ";

/// Where the total size stands among the comma-separated values of a
/// progress line.
pub const TOTAL_SIZE: usize = 1;

/// Where the estimated total size stands among the values.
pub const ESTIMATED_TOTAL_SIZE: usize = 2;

/// Where the index of the current fragment stands among the values.
pub const FRAGMENT_INDEX: usize = 8;

/// Where the format stands among the values.
pub const FORMAT: usize = 9;

/// The values of a progress line: the line without its first progress mark.
pub open spec fn progress_values(line: Seq<char>) -> Seq<char> {
    if regex_valid(PROGRESS_MARK@) {
        regex_replaced_first(PROGRESS_MARK@, line, ""@)
    } else {
        line
    }
}

/// The `k`-th comma-separated value, trimmed.
pub open spec fn value_at(values: Seq<char>, k: nat) -> Option<Seq<char>> {
    match field(values, ',', k) {
        Some(v) => Some(trimmed(v)),
        None => None,
    }
}

/// Whether a format names a resolution, as video formats do.
pub open spec fn is_video_format(format: Seq<char>) -> bool {
    regex_valid(RESOLUTION@) && regex_matches(RESOLUTION@, format)
}

/// The format that the values of a progress line name.
pub open spec fn format_in(values: Seq<char>) -> Option<Seq<char>> {
    value_at(values, FORMAT as nat)
}

/// The status after the values of a progress line, given whether their
/// format is a video format. The size is the total size, or the estimate
/// where the total reads `N/A`; the quality is the format. The fragment
/// index counts video fragments where the format is a video format, audio
/// fragments where it is none and says `audio only`. Where `Recording` may
/// not follow the present state the values are passed over: nothing
/// changes.
pub open spec fn after_values(s: StatusView, values: Seq<char>, video: bool) -> StatusView {
    if s.state.may_follow(RecorderState::Recording) {
        values_taken(s, values, video)
    } else {
        s
    }
}

/// The status with the values of a progress line taken.
pub open spec fn values_taken(s: StatusView, values: Seq<char>, video: bool) -> StatusView {
    let format = format_in(values);
    let count = match value_at(values, FRAGMENT_INDEX as nat) {
        Some(x) => parsed_u32(x),
        None => None,
    };
    StatusView {
        state: RecorderState::Recording,
        total_size: if value_at(values, TOTAL_SIZE as nat) != Some("N/A"@) {
            value_at(values, TOTAL_SIZE as nat)
        } else {
            value_at(values, ESTIMATED_TOTAL_SIZE as nat)
        },
        video_quality: format,
        video_fragments: match format {
            Some(f) => if video {
                count
            } else {
                s.video_fragments
            },
            None => s.video_fragments,
        },
        audio_fragments: match format {
            Some(f) => if !video && occurs_in("audio only"@, f) {
                count
            } else {
                s.audio_fragments
            },
            None => s.audio_fragments,
        },
        ..s
    }
}

/// The status after a progress line.
pub open spec fn after_progress(s: StatusView, line: Seq<char>) -> StatusView {
    let values = progress_values(line);
    after_values(
        s,
        values,
        match format_in(values) {
            Some(f) => is_video_format(f),
            None => false,
        },
    )
}

/// One number of a remaining time: the `n`-th field from the right, trimmed.
/// `None` where the field is missing; `Some(None)` where it is no number.
pub open spec fn time_part(text: Seq<char>, n: nat) -> Option<Option<u32>> {
    match field_back(text, ':', n) {
        Some(f) => Some(parsed_u32(trimmed(f))),
        None => None,
    }
}

/// The seconds that a remaining time counts, written as `H:M:S`, `M:S` or
/// `S`; `None` where a part is no number.
pub open spec fn remaining_seconds(text: Seq<char>) -> Option<int> {
    match time_part(text, 0) {
        Some(Some(s)) => match time_part(text, 1) {
            None => Some(s as int),
            Some(None) => None,
            Some(Some(m)) => match time_part(text, 2) {
                None => Some(s + 60 * m),
                Some(None) => None,
                Some(Some(h)) => Some(s + 60 * m + 3600 * h),
            },
        },
        _ => None,
    }
}

/// The start that a remaining time schedules, counted from `now`. The
/// remaining time is what follows the last `REMAINING_TIME` of the line.
pub open spec fn scheduled_start(text: Seq<char>, now: Timestamp) -> Option<Timestamp> {
    match remaining_seconds(text) {
        Some(seconds) => now.plus_seconds(seconds),
        None => None,
    }
}

/// The state that a message read at `now` names, if it names one. The first
/// rule that fits decides.
pub open spec fn announced_state(line: Seq<char>, now: Timestamp) -> Option<RecorderState> {
    if REMAINING_TIME@.is_prefix_of(line) {
        Some(RecorderState::Waiting(scheduled_start(after_last(line, REMAINING_TIME@), now)))
    } else if "[wait]"@.is_prefix_of(line) {
        Some(RecorderState::Waiting(None))
    } else if "[Merger]"@.is_prefix_of(line) || "[Metadata]"@.is_prefix_of(line)
        || "[EmbedSubtitle]"@.is_prefix_of(line) {
        Some(RecorderState::Muxing)
    } else if "[download_finished]"@.is_prefix_of(line) {
        Some(RecorderState::Finished)
    } else if occurs_in("ERROR: Interrupted by user"@, line) {
        Some(RecorderState::Interrupted)
    } else if "ERROR:"@.is_prefix_of(line) {
        Some(RecorderState::Errored)
    } else {
        None
    }
}

/// Whether a line is one of those that are known to say nothing of the
/// recording.
pub open spec fn is_noise(line: Seq<char>) -> bool {
    ||| trimmed(line).len() == 0
    ||| "[Cookies]"@.is_prefix_of(line)
    ||| "[youtube]"@.is_prefix_of(line)
    ||| "[info]"@.is_prefix_of(line)
    ||| "[dashsegments]"@.is_prefix_of(line)
    ||| "WARNING:"@.is_prefix_of(line)
    ||| "[download]"@.is_prefix_of(line)
    ||| "[generic]"@.is_prefix_of(line)
}

/// Whether a line read at `now` is not known: it is no progress line,
/// names no state, and is none of the lines known to say nothing.
pub open spec fn is_unknown(line: Seq<char>, now: Timestamp) -> bool {
    named_state(line, now) is None && !is_noise(line)
}

/// The status after a message (a line that is no progress line) read at
/// `now`: a message that names a state which may follow the present one
/// sets it, and the one that reports the finished download also sets the
/// output path. Any other message changes nothing: neither one that names
/// no state, nor one that names a state which may not follow.
pub open spec fn after_message(s: StatusView, line: Seq<char>, now: Timestamp) -> StatusView {
    match announced_state(line, now) {
        Some(state) => if s.state.may_follow(state) {
            StatusView {
                state,
                output_file: if state == RecorderState::Finished {
                    Some(trimmed(after_last(line, OUTPUT_FILE@)))
                } else {
                    s.output_file
                },
                ..s
            }
        } else {
            s
        },
        None => s,
    }
}

/// The status after one line of the recorder's output, read at `now`: the
/// line and the time are kept as the last output and the last update, and
/// the line is taken note of as `after_progress` and `after_message`
/// describe.
pub open spec fn next_status(s: StatusView, line: Seq<char>, now: Timestamp) -> StatusView {
    let t = StatusView { last_output: Some(line), last_update: now, ..s };
    if occurs_in(PROGRESS@, line) {
        after_progress(t, line)
    } else {
        after_message(t, line, now)
    }
}

/// The state that a line read at `now` names: a progress line names
/// `Recording`, a message what `announced_state` reads from it.
pub open spec fn named_state(line: Seq<char>, now: Timestamp) -> Option<RecorderState> {
    if occurs_in(PROGRESS@, line) {
        Some(RecorderState::Recording)
    } else {
        announced_state(line, now)
    }
}

/// The status after a sequence of lines, the `i`-th read at `times[i]`.
pub open spec fn status_after(s: StatusView, lines: Seq<Seq<char>>, times: Seq<Timestamp>) -> StatusView
    recommends
        times.len() == lines.len(),
    decreases lines.len(),
{
    if lines.len() == 0 {
        s
    } else {
        next_status(
            status_after(s, lines.drop_last(), times.drop_last()),
            lines.last(),
            times.last(),
        )
    }
}

/// The states that a parser passes through while it reads `lines`: the
/// state it starts in, then the state after each line.
pub open spec fn states_passed(s: StatusView, lines: Seq<Seq<char>>, times: Seq<Timestamp>) -> Seq<
    RecorderState,
> {
    Seq::new(lines.len() + 1, |i: int| status_after(s, lines.take(i), times.take(i)).state)
}

/// A line sets the state that it names where that state may follow the
/// present one; any other line leaves the state as it is. So the state
/// after a line may always follow the state before it.
pub proof fn lemma_state_is_kept_or_named(s: StatusView, line: Seq<char>, now: Timestamp)
    ensures
        next_status(s, line, now).state == match named_state(line, now) {
            Some(state) => if s.state.may_follow(state) {
                state
            } else {
                s.state
            },
            None => s.state,
        },
        s.state.may_follow(next_status(s, line, now).state),
{
}

/// A line that names a state which may not follow the present one changes
/// nothing but the last output and the time of the last update.
pub proof fn lemma_refused_line_changes_nothing(s: StatusView, line: Seq<char>, now: Timestamp)
    requires
        named_state(line, now) matches Some(state) && !s.state.may_follow(state),
    ensures
        next_status(s, line, now) == (StatusView {
            last_output: Some(line),
            last_update: now,
            ..s
        }),
{
}

/// Once a recording has begun it never waits again, and a terminal state is
/// kept, whatever the line.
pub proof fn lemma_no_way_back(s: StatusView, line: Seq<char>, now: Timestamp)
    ensures
        s.state.has_begun() ==> next_status(s, line, now).state.has_begun(),
        s.state.is_terminal() ==> next_status(s, line, now).state == s.state,
{
    lemma_state_is_kept_or_named(s, line, now);
}

/// The states that a parser passes through form a path in the graph of
/// `RecorderState::may_follow`, whatever the lines.
pub proof fn lemma_states_form_path(s: StatusView, lines: Seq<Seq<char>>, times: Seq<Timestamp>)
    requires
        times.len() == lines.len(),
    ensures
        super::is_path(states_passed(s, lines, times)),
{
    let states = states_passed(s, lines, times);
    assert forall|i: int| 0 <= i < states.len() - 1 implies (#[trigger] states[i]).may_follow(
        states[i + 1],
    ) by {
        let before = status_after(s, lines.take(i), times.take(i));
        assert(lines.take(i + 1).drop_last() =~= lines.take(i));
        assert(times.take(i + 1).drop_last() =~= times.take(i));
        assert(lines.take(i + 1).last() == lines[i]);
        assert(times.take(i + 1).last() == times[i]);
        assert(status_after(s, lines.take(i + 1), times.take(i + 1)) == next_status(
            before,
            lines[i],
            times[i],
        ));
        lemma_state_is_kept_or_named(before, lines[i], times[i]);
    }
}

/// Reading the same progress line a second time changes nothing but the
/// time of the last update.
pub proof fn lemma_progress_line_idempotent(
    s: StatusView,
    line: Seq<char>,
    first: Timestamp,
    second: Timestamp,
)
    requires
        occurs_in(PROGRESS@, line),
    ensures
        next_status(next_status(s, line, first), line, second) == next_status(s, line, second),
{
}

/// The `k`-th comma-separated value, trimmed.
fn trimmed_value(values: &[char], k: usize) -> (r: Option<&[char]>)
    ensures
        r.is_some() == value_at(values@, k as nat).is_some(),
        r matches Some(x) ==> Some(x@) == value_at(values@, k as nat),
{
    match nth_field(values, ',', k) {
        Some(v) => Some(trim(v)),
        None => None,
    }
}

/// An optional text as an optional string.
fn owned(text: Option<&[char]>) -> (r: Option<String>)
    ensures
        r.is_some() == text.is_some(),
        text matches Some(t) ==> text_of(r) == Some(t@),
{
    match text {
        Some(t) => Some(from_chars(t)),
        None => None,
    }
}

/// One number of a remaining time.
fn read_time_part(text: &[char], n: usize) -> (r: Option<Option<u32>>)
    ensures
        r == time_part(text@, n as nat),
{
    match nth_field_back(text, ':', n) {
        Some(f) => Some(parse_u32(trim(f))),
        None => None,
    }
}

/// The seconds that a remaining time counts.
fn read_remaining_seconds(text: &[char]) -> (r: Option<i64>)
    ensures
        r.is_some() == remaining_seconds(text@).is_some(),
        r matches Some(n) ==> remaining_seconds(text@) == Some(n as int),
{
    let seconds: i64 = match read_time_part(text, 0) {
        Some(Some(s)) => s as i64,
        _ => {
            return None;
        },
    };
    let minutes: i64 = match read_time_part(text, 1) {
        None => {
            return Some(seconds);
        },
        Some(None) => {
            return None;
        },
        Some(Some(m)) => m as i64,
    };
    match read_time_part(text, 2) {
        None => Some(seconds + 60 * minutes),
        Some(None) => None,
        Some(Some(h)) => Some(seconds + 60 * minutes + 3600 * (h as i64)),
    }
}

/// The state that a message read at `now` names, if it names one.
fn announce(line: &[char], now: Timestamp) -> (r: Option<RecorderState>)
    ensures
        r == announced_state(line@, now),
{
    if begins(line, REMAINING_TIME) {
        let marker = to_chars(REMAINING_TIME);
        let rest = rest_after_last(line, marker.as_slice());
        let start = match read_remaining_seconds(rest) {
            Some(seconds) => now.add_seconds(seconds),
            None => None,
        };
        Some(RecorderState::Waiting(start))
    } else if begins(line, "[wait]") {
        Some(RecorderState::Waiting(None))
    } else if begins(line, "[Merger]") || begins(line, "[Metadata]") || begins(
        line,
        "[EmbedSubtitle]",
    ) {
        Some(RecorderState::Muxing)
    } else if begins(line, "[download_finished]") {
        Some(RecorderState::Finished)
    } else if includes(line, "ERROR: Interrupted by user") {
        Some(RecorderState::Interrupted)
    } else if begins(line, "ERROR:") {
        Some(RecorderState::Errored)
    } else {
        None
    }
}

/// Whether a line is not known: a line that the status takes no note of
/// and that is none of the lines known to say nothing. No line is known or
/// unknown by the time at which it is read.
pub fn unknown(line: &str) -> (b: bool)
    ensures
        forall|now: Timestamp| b == #[trigger] is_unknown(line@, now),
{
    let chars = to_chars(line);
    let whole = chars.as_slice();
    let b = !includes(whole, PROGRESS) && announce(whole, Timestamp { seconds: 0, nanos: 0 }).is_none()
        && !(trim(whole).len() == 0 || begins(whole, "[Cookies]") || begins(whole, "[youtube]")
        || begins(whole, "[info]") || begins(whole, "[dashsegments]") || begins(
        whole,
        "WARNING:",
    ) || begins(whole, "[download]") || begins(whole, "[generic]"));
    assert forall|now: Timestamp| b == #[trigger] is_unknown(line@, now) by {
        assert(announced_state(line@, now) is None == announced_state(
            line@,
            (Timestamp { seconds: 0, nanos: 0 }),
        ) is None);
    }
    b
}

/// Reads the output of one `yt-dlp` process, line by line.
pub struct YTDOutputParser {
    pub video_status: VideoStatus,
}

impl YTDOutputParser {
    /// A parser that has read nothing yet.
    pub fn new() -> (r: Self)
        ensures
            r.video_status@ == super::initial_status(r.video_status.last_update),
    {
        YTDOutputParser { video_status: VideoStatus::new() }
    }

    /// Reads one line of output at the present time. The status becomes
    /// what `next_status` gives for the time that was read from the clock,
    /// which is then the status's `last_update`.
    pub fn parse_line(&mut self, line: &str)
        ensures
            final(self).video_status@ == next_status(
                old(self).video_status@,
                line@,
                final(self).video_status.last_update,
            ),
    {
        let now = current_time();
        self.parse_line_at(line, now);
    }

    /// The format that the values of a progress line name.
    pub fn format_of(values: &str) -> (r: Option<String>)
        ensures
            text_of(r) == format_in(values@),
    {
        let chars = to_chars(values);
        match trimmed_value(chars.as_slice(), FORMAT) {
            Some(f) => Some(from_chars(f)),
            None => None,
        }
    }

    /// Takes the values of a progress line: what is left of the line
    /// without its progress mark. `video` says whether their format is a
    /// video format. The values are passed over where `Recording` may not
    /// follow the present state.
    pub fn read_values(&mut self, values: &str, video: bool)
        ensures
            final(self).video_status@ == after_values(old(self).video_status@, values@, video),
    {
        if !self.video_status.state.allows(RecorderState::Recording) {
            return ;
        }
        self.video_status.state = RecorderState::Recording;
        let chars = to_chars(values);
        let values = chars.as_slice();
        let total = trimmed_value(values, TOTAL_SIZE);
        let not_available = to_chars("N/A");
        let unknown = match total {
            Some(t) => same_text(t, not_available.as_slice()),
            None => false,
        };
        self.video_status.total_size = if unknown {
            owned(trimmed_value(values, ESTIMATED_TOTAL_SIZE))
        } else {
            owned(total)
        };
        let format = trimmed_value(values, FORMAT);
        self.video_status.video_quality = owned(format);
        if let Some(f) = format {
            let count = match trimmed_value(values, FRAGMENT_INDEX) {
                Some(x) => parse_u32(x),
                None => None,
            };
            if video {
                self.video_status.video_fragments = count;
            } else if includes(f, "audio only") {
                self.video_status.audio_fragments = count;
            }
        }
    }

    /// Reads one line of output at the time `now`.
    pub fn parse_line_at(&mut self, line: &str, now: Timestamp)
        ensures
            final(self).video_status@ == next_status(old(self).video_status@, line@, now),
    {
        self.video_status.last_output = Some(line.to_owned());
        self.video_status.last_update = now;
        let chars = to_chars(line);
        let whole = chars.as_slice();
        if includes(whole, PROGRESS) {
            let body = match replace_first(PROGRESS_MARK, line, "") {
                Some(t) => t,
                None => line.to_owned(),
            };
            let video = match YTDOutputParser::format_of(body.as_str()) {
                Some(f) => match is_match(RESOLUTION, f.as_str()) {
                    Some(b) => b,
                    None => false,
                },
                None => false,
            };
            self.read_values(body.as_str(), video);
            return ;
        }
        match announce(whole, now) {
            Some(state) => if self.video_status.state.allows(state) {
                self.video_status.state = state;
                if state == RecorderState::Finished {
                    let marker = to_chars(OUTPUT_FILE);
                    let path = trim(rest_after_last(whole, marker.as_slice()));
                    self.video_status.output_file = Some(from_chars(path));
                }
            },
            None => {},
        }
    }
}

/// The address under which the recorder is given a video.
pub const VIDEO_ADDRESS: &'static str = "https://www.youtube.com/watch?v=";

/// The template that makes the recorder print the figures of a progress
/// line, in the order in which they are read.
pub const PROGRESS_TEMPLATE: &'static str =
    "[download_progress] %(progress._percent_str)s,%(progress._total_bytes_str)s,%(progress._total_bytes_estimate_str)s,%(progress._downloaded_bytes_str)s,%(progress._speed_str)s,%(progress._eta_str)s,%(progress._elapsed_str)s,%(progress.fragment_count)s,%(progress.fragment_index)s,%(info.format)s\n";

/// The command that makes the recorder report the finished file.
pub const REPORT_COMMAND: &'static str =
    "\"echo '[download_finished] output_file: (filepath,_filename|)q'\"";

/// The driver of `yt-dlp` processes.
pub struct YTDlp;

impl YTDlp {
    /// The recorder's arguments: the configured ones; the flags that make
    /// it wait for the video, record from the start, and print plain lines,
    /// each unless configured; the progress template and the report
    /// command; then the video's address and the quality.
    pub open spec fn command_line(
        args: Seq<Seq<char>>,
        video_id: Seq<char>,
        quality: Seq<char>,
    ) -> Seq<Seq<char>> {
        let waiting = if args.contains("--wait-for-video"@) {
            args
        } else {
            args.push("--wait-for-video"@).push("10"@)
        };
        let flagged = with_flag(
            with_flag(with_flag(waiting, "--live-from-start"@), "--no-colors"@),
            "--newline"@,
        );
        flagged.push("--progress-template"@).push(PROGRESS_TEMPLATE@).push("--exec"@).push(
            REPORT_COMMAND@,
        ).push(VIDEO_ADDRESS@ + video_id).push(quality)
    }

    /// The arguments with which the recorder is started for `task`.
    pub fn arguments(cfg: &YtdlpConfig, task: &Task) -> (r: Vec<String>)
        ensures
            texts(r@) == YTDlp::command_line(texts(cfg.args@), task.video_id@, cfg.quality@),
    {
        let mut args = clone_texts(&cfg.args);
        if !has_text(&args, "--wait-for-video") {
            push_text(&mut args, String::from_str("--wait-for-video"));
            push_text(&mut args, String::from_str("10"));
        }
        ensure_flag(&mut args, "--live-from-start");
        ensure_flag(&mut args, "--no-colors");
        ensure_flag(&mut args, "--newline");
        push_text(&mut args, String::from_str("--progress-template"));
        push_text(&mut args, String::from_str(PROGRESS_TEMPLATE));
        push_text(&mut args, String::from_str("--exec"));
        push_text(&mut args, String::from_str(REPORT_COMMAND));
        push_text(&mut args, join(VIDEO_ADDRESS, task.video_id.as_str()));
        push_text(&mut args, cfg.quality.clone());
        args
    }

    /// Reads one line of the recorder's output at the time `now` and says
    /// what is to be published, in order.
    pub fn read_line_at(parser: &mut YTDOutputParser, task: &Task, line: &str, now: Timestamp) -> (r:
        Vec<Message>)
        ensures
            final(parser).video_status@ == next_status(old(parser).video_status@, line@, now),
            r@ == messages_after(
                *task,
                old(parser).video_status.state,
                final(parser).video_status,
            ),
    {
        let before = parser.video_status.state;
        parser.parse_line_at(line, now);
        status_messages(task, before, &parser.video_status)
    }

    /// Reads one line of the recorder's output at the present time and says
    /// what is to be published, in order.
    pub fn read_line(parser: &mut YTDOutputParser, task: &Task, line: &str) -> (r: Vec<Message>)
        ensures
            final(parser).video_status@ == next_status(
                old(parser).video_status@,
                line@,
                final(parser).video_status.last_update,
            ),
            r@ == messages_after(
                *task,
                old(parser).video_status.state,
                final(parser).video_status,
            ),
    {
        let before = parser.video_status.state;
        parser.parse_line(line);
        status_messages(task, before, &parser.video_status)
    }
}

} // verus!
