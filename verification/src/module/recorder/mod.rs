//! The recorder supervisor's state: what a recording has reached, what is
//! known of it, and which recordings are live.

use super::{Message, Notification, RecordingStatus, Task, TaskStatus};
use crate::id_set::IdSet;
use crate::pattern::text_of;
use crate::text::{same_text, to_chars, utf8_text};
use crate::time::Timestamp;
use vstd::prelude::*;
use vstd::utf8::*;

pub mod ytarchive;
pub mod ytdlp;

verus! {

/// How far a recording has come.
#[derive(Clone, Copy, Debug, PartialEq, Eq, Structural)]
pub enum RecorderState {
    Idle,
    Waiting(Option<Timestamp>),
    Recording,
    Muxing,
    Finished,
    AlreadyProcessed,
    Ended,
    Interrupted,
    Errored,
}

/// What is known of one recording: its state and the figures last read from
/// the recorder's output.
#[derive(Debug)]
pub struct VideoStatus {
    pub version: Option<String>,
    pub state: RecorderState,
    pub last_output: Option<String>,
    pub last_update: Timestamp,
    pub video_fragments: Option<u32>,
    pub audio_fragments: Option<u32>,
    pub total_size: Option<String>,
    pub video_quality: Option<String>,
    pub output_file: Option<String>,
}

/// A `VideoStatus` with its texts as sequences of characters.
pub struct StatusView {
    pub version: Option<Seq<char>>,
    pub state: RecorderState,
    pub last_output: Option<Seq<char>>,
    pub last_update: Timestamp,
    pub video_fragments: Option<u32>,
    pub audio_fragments: Option<u32>,
    pub total_size: Option<Seq<char>>,
    pub video_quality: Option<Seq<char>>,
    pub output_file: Option<Seq<char>>,
}

impl View for VideoStatus {
    type V = StatusView;

    open spec fn view(&self) -> StatusView {
        StatusView {
            version: text_of(self.version),
            state: self.state,
            last_output: text_of(self.last_output),
            last_update: self.last_update,
            video_fragments: self.video_fragments,
            audio_fragments: self.audio_fragments,
            total_size: text_of(self.total_size),
            video_quality: text_of(self.video_quality),
            output_file: text_of(self.output_file),
        }
    }
}

/// A status in which nothing has been read yet, stamped `now`.
pub open spec fn initial_status(now: Timestamp) -> StatusView {
    StatusView {
        version: None,
        state: RecorderState::Idle,
        last_output: None,
        last_update: now,
        video_fragments: None,
        audio_fragments: None,
        total_size: None,
        video_quality: None,
        output_file: None,
    }
}

impl RecorderState {
    /// The recording has ended without a file: it was processed before, the
    /// stream is over, the recorder was interrupted, or it failed.
    pub open spec fn is_failure(self) -> bool {
        self == RecorderState::AlreadyProcessed || self == RecorderState::Ended || self
            == RecorderState::Interrupted || self == RecorderState::Errored
    }

    /// No state follows this one.
    pub open spec fn is_terminal(self) -> bool {
        self == RecorderState::Finished || self.is_failure()
    }

    /// The recording has begun: it records, is muxed, or is over.
    pub open spec fn has_begun(self) -> bool {
        !(self == RecorderState::Idle || self is Waiting)
    }

    /// The graph of a recording's states: whether `next` may be the state
    /// right after `self`. Two things are ruled out and nothing else: no
    /// state follows a terminal state but itself, and a recording that has
    /// begun does not go back to waiting. (Nor does any state go back to
    /// `Idle`.) So a state may stay, a wait may be rescheduled, and a
    /// recording may reach any later state at once: a file may be final
    /// though no muxing was seen, and muxing may be the first thing seen.
    pub open spec fn may_follow(self, next: RecorderState) -> bool {
        if self.is_terminal() {
            next == self
        } else if self.has_begun() {
            next.has_begun()
        } else if self is Waiting {
            next != RecorderState::Idle
        } else {
            true
        }
    }

    /// Whether `next` may be the state right after `self`.
    pub fn allows(self, next: RecorderState) -> (b: bool)
        ensures
            b == self.may_follow(next),
    {
        match self {
            RecorderState::Idle => true,
            RecorderState::Waiting(_) => match next {
                RecorderState::Idle => false,
                _ => true,
            },
            RecorderState::Recording | RecorderState::Muxing => match next {
                RecorderState::Idle => false,
                RecorderState::Waiting(_) => false,
                _ => true,
            },
            _ => next == self,
        }
    }

    /// Along an edge of the graph a terminal state is kept, a recording
    /// that has begun has still begun, and `Idle` is reached from `Idle`
    /// alone. Every state may follow itself.
    pub proof fn lemma_edges_advance(self, next: RecorderState)
        requires
            self.may_follow(next),
        ensures
            self.is_terminal() ==> next == self,
            self.has_begun() ==> next.has_begun(),
            next == RecorderState::Idle ==> self == RecorderState::Idle,
            self.may_follow(self),
    {
    }
}

/// Whether each state of a sequence may follow the one before it.
pub open spec fn is_path(states: Seq<RecorderState>) -> bool {
    forall|i: int| 0 <= i < states.len() - 1 ==> (#[trigger] states[i]).may_follow(states[i + 1])
}

/// A copy of an optional string.
pub fn clone_text(s: &Option<String>) -> (r: Option<String>)
    ensures
        r == *s,
{
    match s {
        Some(t) => Some(t.clone()),
        None => None,
    }
}

impl Clone for VideoStatus {
    fn clone(&self) -> (r: Self)
        ensures
            r == *self,
    {
        VideoStatus {
            version: clone_text(&self.version),
            state: self.state,
            last_output: clone_text(&self.last_output),
            last_update: self.last_update,
            video_fragments: self.video_fragments,
            audio_fragments: self.audio_fragments,
            total_size: clone_text(&self.total_size),
            video_quality: clone_text(&self.video_quality),
            output_file: clone_text(&self.output_file),
        }
    }
}

impl VideoStatus {
    /// A status in which nothing has been read yet, stamped with the
    /// present time.
    pub fn new() -> (r: Self)
        ensures
            r@ == initial_status(r.last_update),
    {
        VideoStatus::new_at(crate::time::current_time())
    }

    /// A status in which nothing has been read yet, stamped `now`.
    pub fn new_at(now: Timestamp) -> (r: Self)
        ensures
            r@ == initial_status(now),
    {
        VideoStatus {
            version: None,
            state: RecorderState::Idle,
            last_output: None,
            last_update: now,
            video_fragments: None,
            audio_fragments: None,
            total_size: None,
            video_quality: None,
            output_file: None,
        }
    }
}

/// The notification that entering a state calls for, if any.
pub open spec fn notification_for(state: RecorderState) -> Option<TaskStatus> {
    match state {
        RecorderState::Waiting(_) => Some(TaskStatus::Waiting),
        RecorderState::Recording => Some(TaskStatus::Recording),
        RecorderState::Finished => Some(TaskStatus::Done),
        RecorderState::Interrupted => Some(TaskStatus::Failed),
        _ => None,
    }
}

/// The notification that entering a state calls for, if any.
pub fn task_status_for(state: RecorderState) -> (r: Option<TaskStatus>)
    ensures
        r == notification_for(state),
{
    match state {
        RecorderState::Waiting(_) => Some(TaskStatus::Waiting),
        RecorderState::Recording => Some(TaskStatus::Recording),
        RecorderState::Finished => Some(TaskStatus::Done),
        RecorderState::Interrupted => Some(TaskStatus::Failed),
        _ => None,
    }
}

/// What is published after a line has been read: always the status, and
/// after it a notification if the state has changed to one that calls for
/// it.
pub open spec fn messages_after(task: Task, before: RecorderState, status: VideoStatus) -> Seq<
    Message,
> {
    let report = Message::RecordingStatus(RecordingStatus { task, status });
    match notification_for(status.state) {
        Some(s) => if before != status.state {
            seq![report, Message::ToNotify(Notification { task, status: s })]
        } else {
            seq![report]
        },
        None => seq![report],
    }
}

/// The messages to publish, in order, after a line has taken the recording
/// of `task` from the state `before` to `status`.
pub fn status_messages(task: &Task, before: RecorderState, status: &VideoStatus) -> (r: Vec<
    Message,
>)
    ensures
        r@ == messages_after(*task, before, *status),
{
    let mut r: Vec<Message> = Vec::new();
    r.push(Message::RecordingStatus(RecordingStatus { task: task.clone(), status: status.clone() }));
    if before != status.state {
        if let Some(s) = task_status_for(status.state) {
            r.push(Message::ToNotify(Notification { task: task.clone(), status: s }));
        }
    }
    assert(r@ =~= messages_after(*task, before, *status));
    r
}

/// Why a finished recording could not be put in its place.
#[derive(Clone, Copy, Debug, PartialEq, Eq, Structural)]
pub enum RecordError {
    /// The recorder finished without naming its output file.
    NoOutputFile,
    /// The output file's path ends in no file name.
    NoFileName,
    /// The output file could be neither renamed nor copied into the output
    /// directory.
    CopyFailed,
    /// The output file was copied, but the working copy could not be removed.
    RemoveFailed,
}

/// The file that is to be moved once the recorder has exited: none unless
/// the recording finished; for a finished one the output file, which must
/// have been named.
pub open spec fn file_to_move(status: StatusView) -> Result<Option<Seq<char>>, RecordError> {
    if status.state != RecorderState::Finished {
        Ok(None)
    } else {
        match status.output_file {
            Some(path) => Ok(Some(path)),
            None => Err(RecordError::NoOutputFile),
        }
    }
}

/// The file that is to be moved once the recorder has exited.
pub fn finished_file(status: &VideoStatus) -> (r: Result<Option<String>, RecordError>)
    ensures
        match r {
            Ok(Some(path)) => file_to_move(status@) == Ok::<Option<Seq<char>>, RecordError>(
                Some(path@),
            ),
            Ok(None) => file_to_move(status@) == Ok::<Option<Seq<char>>, RecordError>(None),
            Err(e) => file_to_move(status@) == Err::<Option<Seq<char>>, RecordError>(e),
        },
{
    if status.state != RecorderState::Finished {
        return Ok(None);
    }
    match &status.output_file {
        Some(path) => Ok(Some(path.clone())),
        None => Err(RecordError::NoOutputFile),
    }
}

/// Asks `std::path::Path::file_name` for the file name in which a path
/// ends. Nothing is promised of the answer: what counts as a file name
/// follows the platform's rules for paths.
#[verifier::external_body]
pub(crate) fn file_name_of(path: &str) -> (r: Option<String>) {
    std::path::Path::new(path).file_name().map(|name| name.to_string_lossy().into_owned())
}

/// Puts a file name behind a directory with `std::path::Path::join`.
/// Nothing is promised of the answer: how the two are joined follows the
/// platform's rules for paths.
#[verifier::external_body]
pub(crate) fn joined_path(directory: &str, name: &str) -> (r: String) {
    std::path::Path::new(directory).join(name).to_string_lossy().into_owned()
}

/// The file name of a finished file, given what the platform found at the
/// end of its path: a path that ends in no file name is refused.
pub fn file_name_for(found: Option<String>) -> (r: Result<String, RecordError>)
    ensures
        r == match found {
            Some(name) => Ok::<String, RecordError>(name),
            None => Err::<String, RecordError>(RecordError::NoFileName),
        },
{
    match found {
        Some(name) => Ok(name),
        None => Err(RecordError::NoFileName),
    }
}

/// Where the finished file `from` is to stand: under its own file name in
/// the output directory. The platform tells the name and joins the two; a
/// path that ends in no file name is refused, and nothing else is.
pub fn destination(from: &str, output_directory: &str) -> (r: Result<String, RecordError>)
    ensures
        r matches Err(e) ==> e == RecordError::NoFileName,
{
    match file_name_for(file_name_of(from)) {
        Ok(name) => Ok(joined_path(output_directory, name.as_str())),
        Err(e) => Err(e),
    }
}

/// How a step of a relocation went.
#[derive(Clone, Copy, Debug, PartialEq, Eq, Structural)]
pub enum Attempt {
    /// The step was done.
    Succeeded,
    /// The step could not be done.
    Failed,
    /// The step could not be done, but there is nothing left to do: the
    /// working copy is gone and the file stands in the output directory.
    InPlace,
}

/// A step in moving the finished file to the output directory. The caller
/// performs the step and reports how it went.
#[derive(Clone, Copy, Debug, PartialEq, Eq, Structural)]
pub enum Relocation {
    /// Rename the file into the output directory.
    Rename,
    /// Copy the file into the output directory.
    Copy,
    /// Remove the working copy, now that it has been copied.
    RemoveSource,
    /// The file is in its place.
    Done,
    /// The file could not be moved.
    Failed(RecordError),
}

impl Relocation {
    /// The step that follows `self` once it has been attempted: a rename
    /// that fails is made up for by a copy and the removal of the working
    /// copy. A step that finds the file in its place already ends the
    /// relocation well.
    pub open spec fn after(self, attempt: Attempt) -> Relocation {
        match self {
            Relocation::Rename => match attempt {
                Attempt::Succeeded => Relocation::Done,
                Attempt::InPlace => Relocation::Done,
                Attempt::Failed => Relocation::Copy,
            },
            Relocation::Copy => match attempt {
                Attempt::Succeeded => Relocation::RemoveSource,
                Attempt::InPlace => Relocation::Done,
                Attempt::Failed => Relocation::Failed(RecordError::CopyFailed),
            },
            Relocation::RemoveSource => match attempt {
                Attempt::Succeeded => Relocation::Done,
                Attempt::InPlace => Relocation::Done,
                Attempt::Failed => Relocation::Failed(RecordError::RemoveFailed),
            },
            other => other,
        }
    }

    /// Whether nothing is left to do.
    pub open spec fn is_over(self) -> bool {
        self == Relocation::Done || self is Failed
    }

    /// The first step.
    pub fn start() -> (r: Relocation)
        ensures
            r == Relocation::Rename,
    {
        Relocation::Rename
    }

    /// The step that follows `self` once it has been attempted.
    pub fn next(self, attempt: Attempt) -> (r: Relocation)
        ensures
            r == self.after(attempt),
    {
        match self {
            Relocation::Rename => match attempt {
                Attempt::Succeeded => Relocation::Done,
                Attempt::InPlace => Relocation::Done,
                Attempt::Failed => Relocation::Copy,
            },
            Relocation::Copy => match attempt {
                Attempt::Succeeded => Relocation::RemoveSource,
                Attempt::InPlace => Relocation::Done,
                Attempt::Failed => Relocation::Failed(RecordError::CopyFailed),
            },
            Relocation::RemoveSource => match attempt {
                Attempt::Succeeded => Relocation::Done,
                Attempt::InPlace => Relocation::Done,
                Attempt::Failed => Relocation::Failed(RecordError::RemoveFailed),
            },
            other => other,
        }
    }

    /// Whether nothing is left to do.
    pub fn over(self) -> (b: bool)
        ensures
            b == self.is_over(),
    {
        match self {
            Relocation::Done => true,
            Relocation::Failed(_) => true,
            _ => false,
        }
    }

    /// How an attempt went, told from whether it succeeded and, for one
    /// that did not, whether the working copy is gone and the file stands
    /// in the output directory.
    pub open spec fn judged(succeeded: bool, source_gone: bool, destination_there: bool) -> Attempt {
        if succeeded {
            Attempt::Succeeded
        } else if source_gone && destination_there {
            Attempt::InPlace
        } else {
            Attempt::Failed
        }
    }

    /// How an attempt went.
    pub fn judge(succeeded: bool, source_gone: bool, destination_there: bool) -> (r: Attempt)
        ensures
            r == Relocation::judged(succeeded, source_gone, destination_there),
    {
        if succeeded {
            Attempt::Succeeded
        } else if source_gone && destination_there {
            Attempt::InPlace
        } else {
            Attempt::Failed
        }
    }

    /// Whatever the attempts give, a relocation is over after three steps.
    pub proof fn lemma_over_after_three(first: Attempt, second: Attempt, third: Attempt)
        ensures
            Relocation::Rename.after(first).after(second).after(third).is_over(),
    {
    }

    /// Relocating again what has been relocated changes nothing: where the
    /// working copy is gone and the file stands in the output directory,
    /// the first step ends the relocation well, and neither a copy nor a
    /// removal is asked for.
    pub proof fn lemma_relocated_stays_relocated()
        ensures
            Relocation::Rename.after(Relocation::judged(false, true, true)) == Relocation::Done,
            forall|s: Relocation| !s.is_over() ==> #[trigger] s.after(Attempt::InPlace)
                == Relocation::Done,
    {
    }

    /// The working copy is removed only after a copy has succeeded: where
    /// the file can be neither renamed nor copied and is not in its place,
    /// the relocation fails and has asked for nothing but those two
    /// attempts.
    pub proof fn lemma_fails_without_removal()
        ensures
            Relocation::Rename.after(Attempt::Failed) == Relocation::Copy,
            Relocation::Rename.after(Attempt::Failed).after(Attempt::Failed) == Relocation::Failed(
                RecordError::CopyFailed,
            ),
            forall|s: Relocation, a: Attempt| #[trigger]
                s.after(a) == Relocation::RemoveSource ==> s == Relocation::Copy && a
                    == Attempt::Succeeded,
    {
    }
}

/// The recorders that can be driven.
#[derive(Clone, Copy, Debug, PartialEq, Eq, Structural)]
pub enum Backend {
    YTArchive,
    YTDlp,
}

impl Backend {
    /// The recorder that a channel's `recorder` setting names.
    pub open spec fn named(name: Seq<char>) -> Option<Backend> {
        if name == "ytarchive"@ {
            Some(Backend::YTArchive)
        } else if name == "yt-dlp"@ {
            Some(Backend::YTDlp)
        } else {
            None
        }
    }

    /// The recorder that `name` names; `None` for any other text.
    pub fn from_name(name: &str) -> (r: Option<Backend>)
        ensures
            r == Backend::named(name@),
    {
        let n = to_chars(name);
        if same_text(n.as_slice(), to_chars("ytarchive").as_slice()) {
            Some(Backend::YTArchive)
        } else if same_text(n.as_slice(), to_chars("yt-dlp").as_slice()) {
            Some(Backend::YTDlp)
        } else {
            None
        }
    }
}

/// The supervisor's admission control: the videos that are being recorded.
pub struct RecorderRunner {
    active_ids: IdSet,
}

impl RecorderRunner {
    /// The ids of the videos that are being recorded.
    pub closed spec fn active(&self) -> Set<Seq<char>> {
        self.active_ids@
    }

    /// A supervisor that records nothing yet.
    pub fn new() -> (r: Self)
        ensures
            r.active() == Set::<Seq<char>>::empty(),
    {
        RecorderRunner { active_ids: IdSet::new() }
    }

    /// Whether the video is being recorded.
    pub fn is_active(&self, video_id: &str) -> (b: bool)
        ensures
            b == self.active().contains(video_id@),
    {
        self.active_ids.contains(video_id)
    }

    /// What a message asks the supervisor to do: a request to record a
    /// video that is not being recorded is taken up; a request for one that
    /// is, and any other message, is passed over.
    pub open spec fn accepted(&self, message: Message) -> Option<Task> {
        match message {
            Message::ToRecord(task) => if self.active().contains(task.video_id@) {
                None
            } else {
                Some(task)
            },
            _ => None,
        }
    }

    /// The task to start for a message, if it asks for one that may start.
    pub fn accept(&self, message: &Message) -> (r: Option<Task>)
        ensures
            r == self.accepted(*message),
    {
        match message {
            Message::ToRecord(task) => if self.is_active(task.video_id.as_str()) {
                None
            } else {
                Some(task.clone())
            },
            _ => None,
        }
    }

    /// Takes up a message as `accept` does and, where it gives a task,
    /// marks the task's video as being recorded at once: of two requests
    /// for one video that arrive before either recording has ended, only
    /// the first gives a task.
    pub fn take_up(&mut self, message: &Message) -> (r: Option<Task>)
        ensures
            r == old(self).accepted(*message),
            final(self).active() == match old(self).accepted(*message) {
                Some(task) => old(self).active().insert(task.video_id@),
                None => old(self).active(),
            },
    {
        match self.accept(message) {
            Some(task) => {
                self.active_ids.insert(task.video_id.as_str());
                Some(task)
            },
            None => None,
        }
    }

    /// Marks the video as being recorded. Says whether it was not yet: two
    /// recordings that were both told so never have the same id while both
    /// last.
    pub fn begin(&mut self, video_id: &str) -> (admitted: bool)
        ensures
            admitted == !old(self).active().contains(video_id@),
            final(self).active() == old(self).active().insert(video_id@),
    {
        self.active_ids.insert(video_id)
    }

    /// Marks the video as no longer being recorded. Says whether it was.
    pub fn finish(&mut self, video_id: &str) -> (was_active: bool)
        ensures
            was_active == old(self).active().contains(video_id@),
            final(self).active() == old(self).active().remove(video_id@),
    {
        self.active_ids.remove(video_id)
    }

    /// The ids of the videos that are being recorded: pairwise distinct.
    pub fn active_ids(&self) -> (r: Vec<String>)
        ensures
            crate::text::texts(r@).no_duplicates(),
            crate::text::texts(r@).to_set() == self.active(),
    {
        self.active_ids.to_vec()
    }
}

/// Whether a byte ends a line of recorder output: carriage return or line
/// feed.
pub open spec fn is_line_end(byte: u8) -> bool {
    byte == 0x0D || byte == 0x0A
}

/// What a reader has after one more byte.
#[derive(Debug, PartialEq, Eq)]
pub enum Reading {
    /// No line is complete yet.
    Nothing,
    /// A line is complete.
    Line(String),
    /// A line is complete, but it is not valid UTF-8.
    Invalid,
}

/// Cuts a stream of bytes into lines at carriage returns and line feeds.
/// Empty lines are passed over.
pub struct LineReader {
    pub pending: Vec<u8>,
}

impl LineReader {
    pub fn new() -> (r: Self)
        ensures
            r.pending@ == Seq::<u8>::empty(),
    {
        LineReader { pending: Vec::new() }
    }

    /// Ends the line that is being gathered.
    fn flush(&mut self) -> (r: Reading)
        ensures
            final(self).pending@ == Seq::<u8>::empty(),
            old(self).pending@.len() == 0 ==> r == Reading::Nothing,
            old(self).pending@.len() > 0 && !valid_utf8(old(self).pending@) ==> r
                == Reading::Invalid,
            old(self).pending@.len() > 0 && valid_utf8(old(self).pending@) ==> (r matches Reading::Line(
                s,
            ) && s@ == decode_utf8(old(self).pending@)),
    {
        let mut line: Vec<u8> = Vec::new();
        std::mem::swap(&mut self.pending, &mut line);
        if line.len() == 0 {
            return Reading::Nothing;
        }
        match utf8_text(line) {
            Some(s) => Reading::Line(s),
            None => Reading::Invalid,
        }
    }

    /// Takes the next byte of the stream. A carriage return or a line feed
    /// ends the line gathered so far, which is handed out unless it is
    /// empty; any other byte is added to it.
    pub fn push(&mut self, byte: u8) -> (r: Reading)
        ensures
            !is_line_end(byte) ==> r == Reading::Nothing && final(self).pending@ == old(
                self,
            ).pending@.push(byte),
            is_line_end(byte) ==> final(self).pending@ == Seq::<u8>::empty(),
            is_line_end(byte) && old(self).pending@.len() == 0 ==> r == Reading::Nothing,
            is_line_end(byte) && old(self).pending@.len() > 0 && !valid_utf8(old(self).pending@)
                ==> r == Reading::Invalid,
            is_line_end(byte) && old(self).pending@.len() > 0 && valid_utf8(old(self).pending@)
                ==> (r matches Reading::Line(s) && s@ == decode_utf8(old(self).pending@)),
    {
        if byte == 0x0D || byte == 0x0A {
            self.flush()
        } else {
            self.pending.push(byte);
            Reading::Nothing
        }
    }

    /// Takes the end of the stream: what was gathered is the last line.
    pub fn end(&mut self) -> (r: Reading)
        ensures
            final(self).pending@ == Seq::<u8>::empty(),
            old(self).pending@.len() == 0 ==> r == Reading::Nothing,
            old(self).pending@.len() > 0 && !valid_utf8(old(self).pending@) ==> r
                == Reading::Invalid,
            old(self).pending@.len() > 0 && valid_utf8(old(self).pending@) ==> (r matches Reading::Line(
                s,
            ) && s@ == decode_utf8(old(self).pending@)),
    {
        self.flush()
    }
}

} // verus!
