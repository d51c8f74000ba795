//! The `ytarchive` dialect: how the recorder is started and how its output
//! is read.

use super::super::{Message, Task};
use super::{messages_after, status_messages, RecorderState, StatusView, VideoStatus};
use crate::config::YtarchiveConfig;
use crate::pattern::{regex_replaced_all, regex_valid, replace_all, text_of};
use crate::text::{
    after_prefix, begins, clone_texts, ends_with, ensure_flag, field, from_chars, has_text,
    includes, join, nth_field, occurs_in, parse_u32, parsed_u32, push_text, texts, to_chars, trim,
    trimmed, with_flag,
};
use crate::time::{current_time, parse_rfc3339, rfc3339_timestamp, Timestamp};
use vstd::prelude::*;
use vstd::slice::*;
use vstd::string::*;
use vstd::utf8::*;

verus! {

/// The pattern that finds terminal control sequences: an escape or a
/// control sequence introducer, any of `[]()#;?`, then either letters and
/// digits in `;`-separated groups up to a bell, or digits in `;`-separated
/// groups and a final character.
pub const ANSI_PATTERN: &'static str =
    r"[\u001B\u009B][\[\]()#;?]*(?:(?:(?:[a-zA-Z0-9]*(?:;[a-zA-Z0-9]*)*)?\u0007)|(?:(?:[0-9]{1,4}(?:;[0-9]{0,4})*)?[0-9A-PRZcf-ntqry=><~]))";

/// The control sequence that erases to the end of the line.
pub const ERASE_LINE: &'static str = "\u{001b}[K";

/// How a progress line begins that carries the video count.
pub const VIDEO_FRAGMENTS: &'static str = "Video Fragments: ";

/// How a progress line begins that carries no video count.
pub const AUDIO_FRAGMENTS: &'static str = "Audio Fragments: ";

/// How the line begins that tells the recorder's version.
pub const VERSION: &'static str = "ytarchive ";

/// How the line begins that tells the selected quality.
pub const SELECTED_QUALITY: &'static str = "Selected quality: ";

/// How the line begins that tells when the stream is scheduled.
pub const STREAM_STARTS_AT: &'static str = "Stream starts at ";

/// How the line begins that tells the final file.
pub const FINAL_FILE: &'static str = "Final file: ";

/// `t` without the `ERASE_LINE` at its end, if it ends with one.
pub open spec fn erase_line_dropped(t: Seq<char>) -> Seq<char> {
    if ERASE_LINE@.is_suffix_of(t) {
        t.take(t.len() - ERASE_LINE@.len())
    } else {
        t
    }
}

/// `s` without its terminal control sequences: every match of
/// `ANSI_PATTERN` removed, then one trailing `ERASE_LINE` if any is left.
pub open spec fn ansi_stripped(s: Seq<char>) -> Seq<char> {
    erase_line_dropped(
        if regex_valid(ANSI_PATTERN@) {
            regex_replaced_all(ANSI_PATTERN@, s, ""@)
        } else {
            s
        },
    )
}

/// Removes the `ERASE_LINE` at the end of `text`, if it ends with one.
pub fn drop_erase_line(text: String) -> (r: String)
    ensures
        r@ == erase_line_dropped(text@),
{
    let chars = to_chars(text.as_str());
    let suffix = to_chars(ERASE_LINE);
    if ends_with(chars.as_slice(), suffix.as_slice()) {
        from_chars(slice_subrange(chars.as_slice(), 0, chars.len() - suffix.len()))
    } else {
        text
    }
}

/// Removes terminal control sequences from `s`.
pub fn strip_ansi(s: &str) -> (r: String)
    ensures
        r@ == ansi_stripped(s@),
{
    let replaced = match replace_all(ANSI_PATTERN, s, "") {
        Some(t) => t,
        None => s.to_owned(),
    };
    drop_erase_line(replaced)
}

/// What a line of the recorder's output says.
#[derive(Debug, PartialEq, Eq)]
pub enum Line {
    /// How far the download has come. Each figure is there if the line has
    /// its segment; a count that is there is `None` if it is no number.
    Progress { video: Option<Option<u32>>, audio: Option<Option<u32>>, size: Option<String> },
    /// The recorder's version.
    Version(String),
    /// The quality that was selected.
    Quality(String),
    /// The stream is scheduled; the text that names the time, if the line
    /// is long enough to hold one.
    Starts(Option<String>),
    /// The recording has reached a state.
    State(RecorderState),
    /// The recording has finished; the path of the final file.
    FinalFile(String),
    /// One of the lines that are known to say nothing of the recording.
    Noise,
    /// A line that is not known.
    Other,
}

/// A `Line` with its texts as sequences of characters.
pub enum LineView {
    Progress { video: Option<Option<u32>>, audio: Option<Option<u32>>, size: Option<Seq<char>> },
    Version(Seq<char>),
    Quality(Seq<char>),
    Starts(Option<Seq<char>>),
    State(RecorderState),
    FinalFile(Seq<char>),
    Noise,
    Other,
}

impl View for Line {
    type V = LineView;

    open spec fn view(&self) -> LineView {
        match *self {
            Line::Progress { video, audio, size } => LineView::Progress {
                video,
                audio,
                size: text_of(size),
            },
            Line::Version(t) => LineView::Version(t@),
            Line::Quality(t) => LineView::Quality(t@),
            Line::Starts(t) => LineView::Starts(text_of(t)),
            Line::State(s) => LineView::State(s),
            Line::FinalFile(t) => LineView::FinalFile(t@),
            Line::Noise => LineView::Noise,
            Line::Other => LineView::Other,
        }
    }
}

/// What stands right of the first `:` of a segment, trimmed; empty without
/// a `:`.
pub open spec fn value_of(segment: Seq<char>) -> Seq<char> {
    match field(segment, ':', 1) {
        Some(v) => trimmed(v),
        None => Seq::empty(),
    }
}

/// The value of the `k`-th of the segments into which `;` cuts a line.
pub open spec fn segment_value(line: Seq<char>, k: nat) -> Option<Seq<char>> {
    match field(line, ';', k) {
        Some(segment) => Some(value_of(segment)),
        None => None,
    }
}

/// The count that the `k`-th segment of a line holds.
pub open spec fn segment_count(line: Seq<char>, k: nat) -> Option<Option<u32>> {
    match segment_value(line, k) {
        Some(x) => Some(parsed_u32(x)),
        None => None,
    }
}

/// What a progress line says. A line that starts with the video count
/// carries video count, audio count and size, in that order; one that
/// starts with the audio count carries audio count and size.
pub open spec fn progress_said(line: Seq<char>, video: bool) -> LineView {
    let first: nat = if video {
        1
    } else {
        0
    };
    LineView::Progress {
        video: if video {
            segment_count(line, 0)
        } else {
            None
        },
        audio: segment_count(line, first),
        size: segment_value(line, first + 1),
    }
}

/// A line without the `YYYY/MM/DD HH:MM:SS ` stamp that newer recorders put
/// in front: a line of more than 20 bytes whose fifth character is `/`
/// loses its first 20 bytes and the white space around the rest.
pub open spec fn without_timestamp(line: Seq<char>) -> Seq<char> {
    let bytes = encode_utf8(line);
    if bytes.len() > 20 && line.len() > 4 && line[4] == '/' && is_char_boundary(bytes, 20) {
        trimmed(decode_utf8(bytes.subrange(20, bytes.len() as int)))
    } else {
        line
    }
}

/// Whether a message reports one of the recorder's failures.
pub open spec fn reports_error(line: Seq<char>) -> bool {
    ||| occurs_in("Error retrieving player response"@, line)
    ||| occurs_in("unable to retrieve"@, line)
    ||| occurs_in("error writing the muxcmd file"@, line)
    ||| occurs_in("Something must have gone wrong with ffmpeg"@, line)
    ||| occurs_in("At least one error occurred"@, line)
}

/// Whether a message is one of those that are known to say nothing of the
/// recording.
pub open spec fn is_noise(line: Seq<char>) -> bool {
    ||| trimmed(line).len() == 0
    ||| occurs_in("Loaded cookie file"@, line)
    ||| "Video Title: "@.is_prefix_of(line)
    ||| "Channel: "@.is_prefix_of(line)
    ||| "Waiting for this time to elapse"@.is_prefix_of(line)
    ||| "Download Finished"@.is_prefix_of(line)
}

/// What a message says: a line that is no progress line, its time stamp
/// removed. The first rule that fits decides. The version and the
/// quality are read only while they are not known.
pub open spec fn message_said(version_known: bool, quality_known: bool, line: Seq<char>) -> LineView {
    if !version_known && VERSION@.is_prefix_of(line) {
        LineView::Version(line.skip(VERSION@.len() as int))
    } else if !quality_known && SELECTED_QUALITY@.is_prefix_of(line) {
        LineView::Quality(line.skip(SELECTED_QUALITY@.len() as int))
    } else if STREAM_STARTS_AT@.is_prefix_of(line) {
        let rest = line.skip(STREAM_STARTS_AT@.len() as int);
        LineView::Starts(
            if rest.len() >= 25 {
                Some(rest.take(25))
            } else {
                None
            },
        )
    } else if "Stream is "@.is_prefix_of(line) || "Waiting for stream"@.is_prefix_of(line) {
        LineView::State(RecorderState::Waiting(None))
    } else if "Muxing final file"@.is_prefix_of(line) {
        LineView::State(RecorderState::Muxing)
    } else if "Livestream has been processed"@.is_prefix_of(line) {
        LineView::State(RecorderState::AlreadyProcessed)
    } else if "Livestream has ended and is being processed"@.is_prefix_of(line) || occurs_in(
        "use yt-dlp to download it."@,
        line,
    ) {
        LineView::State(RecorderState::Ended)
    } else if FINAL_FILE@.is_prefix_of(line) {
        LineView::FinalFile(line.skip(FINAL_FILE@.len() as int))
    } else if occurs_in("User Interrupt"@, line) {
        LineView::State(RecorderState::Interrupted)
    } else if reports_error(line) {
        LineView::State(RecorderState::Errored)
    } else if is_noise(line) {
        LineView::Noise
    } else {
        LineView::Other
    }
}

/// What a line of the recorder's output says.
pub open spec fn said(version_known: bool, quality_known: bool, line: Seq<char>) -> LineView {
    if VIDEO_FRAGMENTS@.is_prefix_of(line) {
        progress_said(line, true)
    } else if AUDIO_FRAGMENTS@.is_prefix_of(line) {
        progress_said(line, false)
    } else {
        message_said(version_known, quality_known, without_timestamp(line))
    }
}

/// What a line says once its texts are cleaned and its time is read:
/// terminal control sequences are removed from every text, and a scheduled
/// start becomes the state of waiting for the time that its text names, or
/// for no known time where the text names none.
pub open spec fn settled(line: LineView) -> LineView {
    match line {
        LineView::Progress { video, audio, size } => LineView::Progress {
            video,
            audio,
            size: match size {
                Some(t) => Some(ansi_stripped(t)),
                None => None,
            },
        },
        LineView::Version(t) => LineView::Version(ansi_stripped(t)),
        LineView::Quality(t) => LineView::Quality(ansi_stripped(t)),
        LineView::FinalFile(t) => LineView::FinalFile(ansi_stripped(t)),
        LineView::Starts(t) => LineView::State(
            RecorderState::Waiting(
                match t {
                    Some(stamp) => rfc3339_timestamp(stamp),
                    None => None,
                },
            ),
        ),
        other => other,
    }
}

/// The state that what a line says puts the recording in, if any.
pub open spec fn state_in(line: LineView) -> Option<RecorderState> {
    match line {
        LineView::Progress { .. } => Some(RecorderState::Recording),
        LineView::Starts(_) => Some(RecorderState::Waiting(None)),
        LineView::State(state) => Some(state),
        LineView::FinalFile(_) => Some(RecorderState::Finished),
        _ => None,
    }
}

/// Whether what a line says is passed over in the state `state`: it names
/// a state that may not follow `state`.
pub open spec fn passed_over(state: RecorderState, line: LineView) -> bool {
    match state_in(line) {
        Some(next) => !state.may_follow(next),
        None => false,
    }
}

/// The status after what a line says has been taken note of. A line that
/// names a state that may not follow the present one is passed over: it
/// changes nothing, neither the state nor any figure, text or path.
/// Otherwise a progress line makes the state `Recording` and sets the
/// figures that it carries; the final file makes it `Finished` and sets the
/// output path.
pub open spec fn applied(s: StatusView, line: LineView) -> StatusView {
    if passed_over(s.state, line) {
        s
    } else {
        match line {
            LineView::Progress { video, audio, size } => StatusView {
                state: RecorderState::Recording,
                video_fragments: match video {
                    Some(n) => n,
                    None => s.video_fragments,
                },
                audio_fragments: match audio {
                    Some(n) => n,
                    None => s.audio_fragments,
                },
                total_size: match size {
                    Some(t) => Some(t),
                    None => s.total_size,
                },
                ..s
            },
            LineView::Version(t) => StatusView { version: Some(t), ..s },
            LineView::Quality(t) => StatusView { video_quality: Some(t), ..s },
            LineView::Starts(_) => StatusView { state: RecorderState::Waiting(None), ..s },
            LineView::State(state) => StatusView { state, ..s },
            LineView::FinalFile(t) => StatusView {
                state: RecorderState::Finished,
                output_file: Some(t),
                ..s
            },
            LineView::Noise => s,
            LineView::Other => s,
        }
    }
}

/// The status after one line of the recorder's output, read at `now`: the
/// line and the time are kept as the last output and the last update, and
/// what the line says is taken note of as `applied` describes.
pub open spec fn next_status(s: StatusView, line: Seq<char>, now: Timestamp) -> StatusView {
    applied(
        StatusView { last_output: Some(line), last_update: now, ..s },
        settled(said(s.version is Some, s.video_quality is Some, line)),
    )
}

/// The state that a line names for a parser whose status is `s`, if it
/// names one.
pub open spec fn named_state(s: StatusView, line: Seq<char>) -> Option<RecorderState> {
    state_in(settled(said(s.version is Some, s.video_quality is Some, line)))
}

/// The status after a sequence of lines, the `i`-th read at `times[i]`.
pub open spec fn status_after(s: StatusView, lines: Seq<Seq<char>>, times: Seq<Timestamp>) -> StatusView
    recommends
        times.len() == lines.len(),
    decreases lines.len(),
{
    if lines.len() == 0 {
        s
    } else {
        next_status(
            status_after(s, lines.drop_last(), times.drop_last()),
            lines.last(),
            times.last(),
        )
    }
}

/// The states that a parser passes through while it reads `lines`: the
/// state it starts in, then the state after each line.
pub open spec fn states_passed(s: StatusView, lines: Seq<Seq<char>>, times: Seq<Timestamp>) -> Seq<
    RecorderState,
> {
    Seq::new(lines.len() + 1, |i: int| status_after(s, lines.take(i), times.take(i)).state)
}

/// A line sets the state that it names where that state may follow the
/// present one; any other line leaves the state as it is. So the state
/// after a line may always follow the state before it.
pub proof fn lemma_state_is_kept_or_named(s: StatusView, line: Seq<char>, now: Timestamp)
    ensures
        next_status(s, line, now).state == match named_state(s, line) {
            Some(state) => if s.state.may_follow(state) {
                state
            } else {
                s.state
            },
            None => s.state,
        },
        s.state.may_follow(next_status(s, line, now).state),
{
}

/// A line that is passed over changes nothing but the last output and the
/// time of the last update.
pub proof fn lemma_refused_line_changes_nothing(s: StatusView, line: Seq<char>, now: Timestamp)
    requires
        named_state(s, line) matches Some(state) && !s.state.may_follow(state),
    ensures
        next_status(s, line, now) == (StatusView {
            last_output: Some(line),
            last_update: now,
            ..s
        }),
{
}

/// Once a recording has begun it never waits again, and a terminal state is
/// kept, whatever the line.
pub proof fn lemma_no_way_back(s: StatusView, line: Seq<char>, now: Timestamp)
    ensures
        s.state.has_begun() ==> next_status(s, line, now).state.has_begun(),
        s.state.is_terminal() ==> next_status(s, line, now).state == s.state,
{
    lemma_state_is_kept_or_named(s, line, now);
}

/// The states that a parser passes through form a path in the graph of
/// `RecorderState::may_follow`, whatever the lines.
pub proof fn lemma_states_form_path(s: StatusView, lines: Seq<Seq<char>>, times: Seq<Timestamp>)
    requires
        times.len() == lines.len(),
    ensures
        super::is_path(states_passed(s, lines, times)),
{
    let states = states_passed(s, lines, times);
    assert forall|i: int| 0 <= i < states.len() - 1 implies (#[trigger] states[i]).may_follow(
        states[i + 1],
    ) by {
        let before = status_after(s, lines.take(i), times.take(i));
        assert(lines.take(i + 1).drop_last() =~= lines.take(i));
        assert(times.take(i + 1).drop_last() =~= times.take(i));
        assert(lines.take(i + 1).last() == lines[i]);
        assert(times.take(i + 1).last() == times[i]);
        assert(status_after(s, lines.take(i + 1), times.take(i + 1)) == next_status(
            before,
            lines[i],
            times[i],
        ));
        lemma_state_is_kept_or_named(before, lines[i], times[i]);
    }
}

/// Reading the same progress line a second time changes nothing but the
/// time of the last update.
pub proof fn lemma_progress_line_idempotent(
    s: StatusView,
    line: Seq<char>,
    first: Timestamp,
    second: Timestamp,
)
    requires
        VIDEO_FRAGMENTS@.is_prefix_of(line) || AUDIO_FRAGMENTS@.is_prefix_of(line),
    ensures
        next_status(next_status(s, line, first), line, second) == next_status(s, line, second),
{
}

/// The value of the `k`-th segment of a progress line.
fn read_segment(line: &[char], k: usize) -> (r: Option<&[char]>)
    ensures
        r.is_some() == segment_value(line@, k as nat).is_some(),
        r matches Some(x) ==> Some(x@) == segment_value(line@, k as nat),
{
    match nth_field(line, ';', k) {
        Some(segment) => {
            match nth_field(segment, ':', 1) {
                Some(v) => Some(trim(v)),
                None => {
                    let empty = slice_subrange(segment, 0, 0);
                    assert(empty@ =~= Seq::<char>::empty());
                    Some(empty)
                },
            }
        },
        None => None,
    }
}

/// The count that the `k`-th segment of a progress line holds.
fn read_count(line: &[char], k: usize) -> (r: Option<Option<u32>>)
    ensures
        r == segment_count(line@, k as nat),
{
    match read_segment(line, k) {
        Some(x) => Some(parse_u32(x)),
        None => None,
    }
}

/// What a progress line says.
fn read_progress(line: &[char], video: bool) -> (r: Line)
    ensures
        r@ == progress_said(line@, video),
{
    let first: usize = if video {
        1
    } else {
        0
    };
    Line::Progress {
        video: if video {
            read_count(line, 0)
        } else {
            None
        },
        audio: read_count(line, first),
        size: match read_segment(line, first + 1) {
            Some(x) => Some(from_chars(x)),
            None => None,
        },
    }
}

/// What a message says.
fn read_message(version_known: bool, quality_known: bool, line: &[char]) -> (r: Line)
    ensures
        r@ == message_said(version_known, quality_known, line@),
{
    if !version_known && begins(line, VERSION) {
        Line::Version(from_chars(after_prefix(line, VERSION)))
    } else if !quality_known && begins(line, SELECTED_QUALITY) {
        Line::Quality(from_chars(after_prefix(line, SELECTED_QUALITY)))
    } else if begins(line, STREAM_STARTS_AT) {
        let rest = after_prefix(line, STREAM_STARTS_AT);
        Line::Starts(
            if rest.len() >= 25 {
                Some(from_chars(slice_subrange(rest, 0, 25)))
            } else {
                None
            },
        )
    } else if begins(line, "Stream is ") || begins(line, "Waiting for stream") {
        Line::State(RecorderState::Waiting(None))
    } else if begins(line, "Muxing final file") {
        Line::State(RecorderState::Muxing)
    } else if begins(line, "Livestream has been processed") {
        Line::State(RecorderState::AlreadyProcessed)
    } else if begins(line, "Livestream has ended and is being processed") || includes(
        line,
        "use yt-dlp to download it.",
    ) {
        Line::State(RecorderState::Ended)
    } else if begins(line, FINAL_FILE) {
        Line::FinalFile(from_chars(after_prefix(line, FINAL_FILE)))
    } else if includes(line, "User Interrupt") {
        Line::State(RecorderState::Interrupted)
    } else if includes(line, "Error retrieving player response") || includes(
        line,
        "unable to retrieve",
    ) || includes(line, "error writing the muxcmd file") || includes(
        line,
        "Something must have gone wrong with ffmpeg",
    ) || includes(line, "At least one error occurred") {
        Line::State(RecorderState::Errored)
    } else if trim(line).len() == 0 || includes(line, "Loaded cookie file") || begins(
        line,
        "Video Title: ",
    ) || begins(line, "Channel: ") || begins(line, "Waiting for this time to elapse") || begins(
        line,
        "Download Finished",
    ) {
        Line::Noise
    } else {
        Line::Other
    }
}

/// Reads what a line of the recorder's output says. `version_known` and
/// `quality_known` tell whether the version and the quality have been read
/// before.
pub fn read(version_known: bool, quality_known: bool, line: &str) -> (r: Line)
    ensures
        r@ == said(version_known, quality_known, line@),
{
    broadcast use encode_utf8_decode_utf8;

    let chars = to_chars(line);
    let whole = chars.as_slice();
    if begins(whole, VIDEO_FRAGMENTS) {
        return read_progress(whole, true);
    }
    if begins(whole, AUDIO_FRAGMENTS) {
        return read_progress(whole, false);
    }
    if line.as_bytes().len() > 20 && whole.len() > 4 && whole[4] == '/' && line.is_char_boundary(
        20,
    ) {
        let (_, rest) = line.split_at(20);
        assert(rest@ == decode_utf8(encode_utf8(rest@)));
        assert(rest.spec_bytes() == line.spec_bytes().subrange(
            20,
            line.spec_bytes().len() as int,
        ));
        let rest_chars = to_chars(rest);
        read_message(version_known, quality_known, trim(rest_chars.as_slice()))
    } else {
        read_message(version_known, quality_known, whole)
    }
}

/// Cleans the texts of what a line says and reads its time, as `settled`
/// describes.
pub fn settle(line: Line) -> (r: Line)
    ensures
        r@ == settled(line@),
{
    match line {
        Line::Progress { video, audio, size } => Line::Progress {
            video,
            audio,
            size: match size {
                Some(t) => Some(strip_ansi(t.as_str())),
                None => None,
            },
        },
        Line::Version(t) => Line::Version(strip_ansi(t.as_str())),
        Line::Quality(t) => Line::Quality(strip_ansi(t.as_str())),
        Line::FinalFile(t) => Line::FinalFile(strip_ansi(t.as_str())),
        Line::Starts(t) => Line::State(
            RecorderState::Waiting(
                match t {
                    Some(stamp) => parse_rfc3339(stamp.as_str()),
                    None => None,
                },
            ),
        ),
        other => other,
    }
}

/// Reads the output of one `ytarchive` process, line by line.
pub struct YTAOutputParser {
    pub video_status: VideoStatus,
}

impl YTAOutputParser {
    /// A parser that has read nothing yet.
    pub fn new() -> (r: Self)
        ensures
            r.video_status@ == super::initial_status(r.video_status.last_update),
    {
        YTAOutputParser { video_status: VideoStatus::new() }
    }

    /// Takes note of what a line says. A line that names a state that may
    /// not follow the present one is passed over.
    pub fn apply(&mut self, line: Line)
        ensures
            final(self).video_status@ == applied(old(self).video_status@, line@),
    {
        let state = self.video_status.state;
        match line {
            Line::Progress { video, audio, size } => {
                if state.allows(RecorderState::Recording) {
                    self.video_status.state = RecorderState::Recording;
                    if let Some(n) = video {
                        self.video_status.video_fragments = n;
                    }
                    if let Some(n) = audio {
                        self.video_status.audio_fragments = n;
                    }
                    if let Some(t) = size {
                        self.video_status.total_size = Some(t);
                    }
                }
            },
            Line::Version(t) => {
                self.video_status.version = Some(t);
            },
            Line::Quality(t) => {
                self.video_status.video_quality = Some(t);
            },
            Line::Starts(_) => {
                if state.allows(RecorderState::Waiting(None)) {
                    self.video_status.state = RecorderState::Waiting(None);
                }
            },
            Line::State(next) => {
                if state.allows(next) {
                    self.video_status.state = next;
                }
            },
            Line::FinalFile(t) => {
                if state.allows(RecorderState::Finished) {
                    self.video_status.state = RecorderState::Finished;
                    self.video_status.output_file = Some(t);
                }
            },
            Line::Noise => {},
            Line::Other => {},
        }
    }

    /// Reads one line of output at the present time. The status becomes
    /// what `next_status` gives for the time that was read from the clock,
    /// which is then the status's `last_update`.
    pub fn parse_line(&mut self, line: &str)
        ensures
            final(self).video_status@ == next_status(
                old(self).video_status@,
                line@,
                final(self).video_status.last_update,
            ),
    {
        let now = current_time();
        self.parse_line_at(line, now);
    }

    /// Reads one line of output at the time `now`.
    pub fn parse_line_at(&mut self, line: &str, now: Timestamp)
        ensures
            final(self).video_status@ == next_status(old(self).video_status@, line@, now),
    {
        let what = read(
            self.video_status.version.is_some(),
            self.video_status.video_quality.is_some(),
            line,
        );
        self.video_status.last_output = Some(line.to_owned());
        self.video_status.last_update = now;
        self.apply(settle(what));
    }
}

/// The address under which the recorder is given a video.
pub const VIDEO_ADDRESS: &'static str = "https://youtu.be/";

/// The driver of `ytarchive` processes.
pub struct YTArchive;

impl YTArchive {
    /// The recorder's arguments: the configured ones, with `--wait` added
    /// unless they ask for waiting already, then the video's address and
    /// the quality.
    pub open spec fn command_line(
        args: Seq<Seq<char>>,
        video_id: Seq<char>,
        quality: Seq<char>,
    ) -> Seq<Seq<char>> {
        let waiting = if args.contains("-w"@) {
            args
        } else {
            with_flag(args, "--wait"@)
        };
        waiting.push(VIDEO_ADDRESS@ + video_id).push(quality)
    }

    /// The arguments with which the recorder is started for `task`.
    pub fn arguments(cfg: &YtarchiveConfig, task: &Task) -> (r: Vec<String>)
        ensures
            texts(r@) == YTArchive::command_line(texts(cfg.args@), task.video_id@, cfg.quality@),
    {
        let mut args = clone_texts(&cfg.args);
        if !has_text(&args, "-w") {
            ensure_flag(&mut args, "--wait");
        }
        push_text(&mut args, join(VIDEO_ADDRESS, task.video_id.as_str()));
        push_text(&mut args, cfg.quality.clone());
        args
    }

    /// Reads one line of the recorder's output at the time `now` and says
    /// what is to be published, in order.
    pub fn read_line_at(parser: &mut YTAOutputParser, task: &Task, line: &str, now: Timestamp) -> (r:
        Vec<Message>)
        ensures
            final(parser).video_status@ == next_status(old(parser).video_status@, line@, now),
            r@ == messages_after(
                *task,
                old(parser).video_status.state,
                final(parser).video_status,
            ),
    {
        let before = parser.video_status.state;
        parser.parse_line_at(line, now);
        status_messages(task, before, &parser.video_status)
    }

    /// Reads one line of the recorder's output at the present time and says
    /// what is to be published, in order.
    pub fn read_line(parser: &mut YTAOutputParser, task: &Task, line: &str) -> (r: Vec<Message>)
        ensures
            final(parser).video_status@ == next_status(
                old(parser).video_status@,
                line@,
                final(parser).video_status.last_update,
            ),
            r@ == messages_after(
                *task,
                old(parser).video_status.state,
                final(parser).video_status,
            ),
    {
        let before = parser.video_status.state;
        parser.parse_line(line);
        status_messages(task, before, &parser.video_status)
    }
}

} // verus!
