//! The messages that the components exchange, and the components' rules.

use self::recorder::VideoStatus;
use crate::text::{same_text, to_chars};
use vstd::prelude::*;

pub mod notifier;
pub mod recorder;
pub mod scraper;
pub mod web;

verus! {

/// A request to record one video, with what is needed to identify it and to
/// file its output.
#[derive(Debug)]
pub struct Task {
    pub title: String,
    pub video_id: String,
    pub video_picture: String,
    pub channel_name: String,
    pub channel_id: String,
    pub channel_picture: Option<String>,
    pub output_directory: String,
    pub recorder: String,
}

impl Clone for Task {
    fn clone(&self) -> (r: Self)
        ensures
            r == *self,
    {
        Task {
            title: self.title.clone(),
            video_id: self.video_id.clone(),
            video_picture: self.video_picture.clone(),
            channel_name: self.channel_name.clone(),
            channel_id: self.channel_id.clone(),
            channel_picture: match &self.channel_picture {
                Some(p) => Some(p.clone()),
                None => None,
            },
            output_directory: self.output_directory.clone(),
            recorder: self.recorder.clone(),
        }
    }
}

/// The stage of a task that a notification reports.
#[derive(Clone, Copy, Debug, PartialEq, Eq, Structural)]
pub enum TaskStatus {
    Waiting,
    Recording,
    Done,
    Failed,
}

/// Whether a video can be played, as the video platform reports it.
#[derive(Clone, Copy, Debug, PartialEq, Eq, Structural)]
pub enum PlayabilityStatus {
    MembersOnly,
    Privated,
    Copyrighted,
    Removed,
    Unlisted,
    OnLive,
    Playable,
    Offline,
    LoginRequired,
    Unknown,
}

/// A status of either kind.
#[derive(Clone, Copy, Debug, PartialEq, Eq, Structural)]
pub enum Status {
    Task(TaskStatus),
    Playability(PlayabilityStatus),
}

/// A request to notify of a task's transition.
#[derive(Debug)]
pub struct Notification {
    pub task: Task,
    pub status: TaskStatus,
}

impl Clone for Notification {
    fn clone(&self) -> (r: Self)
        ensures
            r == *self,
    {
        Notification { task: self.task.clone(), status: self.status }
    }
}

/// The latest status of a task's recording.
#[derive(Debug)]
pub struct RecordingStatus {
    pub task: Task,
    pub status: VideoStatus,
}

impl Clone for RecordingStatus {
    fn clone(&self) -> (r: Self)
        ensures
            r == *self,
    {
        RecordingStatus { task: self.task.clone(), status: self.status.clone() }
    }
}

/// What the bus carries.
#[derive(Debug)]
pub enum Message {
    ToRecord(Task),
    ToNotify(Notification),
    RecordingStatus(RecordingStatus),
}

impl Clone for Message {
    fn clone(&self) -> (r: Self)
        ensures
            r == *self,
    {
        match self {
            Message::ToRecord(t) => Message::ToRecord(t.clone()),
            Message::ToNotify(n) => Message::ToNotify(n.clone()),
            Message::RecordingStatus(s) => Message::RecordingStatus(s.clone()),
        }
    }
}

impl TaskStatus {
    /// The name under which the status is written in configuration and on
    /// the wire.
    pub open spec fn spec_name(self) -> Seq<char> {
        match self {
            TaskStatus::Waiting => "waiting"@,
            TaskStatus::Recording => "recording"@,
            TaskStatus::Done => "done"@,
            TaskStatus::Failed => "failed"@,
        }
    }

    /// The status that a name stands for.
    pub open spec fn spec_from_name(name: Seq<char>) -> Option<TaskStatus> {
        if name == "waiting"@ {
            Some(TaskStatus::Waiting)
        } else if name == "recording"@ {
            Some(TaskStatus::Recording)
        } else if name == "done"@ {
            Some(TaskStatus::Done)
        } else if name == "failed"@ {
            Some(TaskStatus::Failed)
        } else {
            None
        }
    }

    /// The name under which the status is written.
    pub fn name(&self) -> (r: &'static str)
        ensures
            r@ == self.spec_name(),
    {
        match self {
            TaskStatus::Waiting => "waiting",
            TaskStatus::Recording => "recording",
            TaskStatus::Done => "done",
            TaskStatus::Failed => "failed",
        }
    }

    /// The status that `name` stands for; `None` for any other text.
    pub fn from_name(name: &str) -> (r: Option<TaskStatus>)
        ensures
            r == TaskStatus::spec_from_name(name@),
    {
        let n = to_chars(name);
        if same_text(n.as_slice(), to_chars("waiting").as_slice()) {
            Some(TaskStatus::Waiting)
        } else if same_text(n.as_slice(), to_chars("recording").as_slice()) {
            Some(TaskStatus::Recording)
        } else if same_text(n.as_slice(), to_chars("done").as_slice()) {
            Some(TaskStatus::Done)
        } else if same_text(n.as_slice(), to_chars("failed").as_slice()) {
            Some(TaskStatus::Failed)
        } else {
            None
        }
    }

    /// Reading a status's name gives the status back.
    pub proof fn lemma_name_round_trip(self)
        ensures
            TaskStatus::spec_from_name(self.spec_name()) == Some(self),
    {
        reveal_strlit("waiting");
        reveal_strlit("recording");
        reveal_strlit("done");
        reveal_strlit("failed");
        assert("waiting"@.len() == 7);
        assert("recording"@.len() == 9);
        assert("done"@.len() == 4);
        assert("failed"@.len() == 6);
    }
}

impl PlayabilityStatus {
    /// The name under which the status is written.
    pub open spec fn spec_name(self) -> Seq<char> {
        match self {
            PlayabilityStatus::Playable => "ok"@,
            PlayabilityStatus::OnLive => "live"@,
            PlayabilityStatus::Removed => "removed"@,
            PlayabilityStatus::Offline => "offline"@,
            PlayabilityStatus::MembersOnly => "members_only"@,
            PlayabilityStatus::Unknown => "unknown"@,
            PlayabilityStatus::Privated => "privated"@,
            PlayabilityStatus::Unlisted => "unlisted"@,
            PlayabilityStatus::Copyrighted => "copyrighted"@,
            PlayabilityStatus::LoginRequired => "login_required"@,
        }
    }

    /// The status that a name stands for.
    pub open spec fn spec_from_name(name: Seq<char>) -> Option<PlayabilityStatus> {
        if name == "ok"@ {
            Some(PlayabilityStatus::Playable)
        } else if name == "live"@ {
            Some(PlayabilityStatus::OnLive)
        } else if name == "removed"@ {
            Some(PlayabilityStatus::Removed)
        } else if name == "offline"@ {
            Some(PlayabilityStatus::Offline)
        } else if name == "members_only"@ {
            Some(PlayabilityStatus::MembersOnly)
        } else if name == "unknown"@ {
            Some(PlayabilityStatus::Unknown)
        } else if name == "privated"@ {
            Some(PlayabilityStatus::Privated)
        } else if name == "unlisted"@ {
            Some(PlayabilityStatus::Unlisted)
        } else if name == "copyrighted"@ {
            Some(PlayabilityStatus::Copyrighted)
        } else if name == "login_required"@ {
            Some(PlayabilityStatus::LoginRequired)
        } else {
            None
        }
    }

    /// The name under which the status is written.
    pub fn name(&self) -> (r: &'static str)
        ensures
            r@ == self.spec_name(),
    {
        match self {
            PlayabilityStatus::Playable => "ok",
            PlayabilityStatus::OnLive => "live",
            PlayabilityStatus::Removed => "removed",
            PlayabilityStatus::Offline => "offline",
            PlayabilityStatus::MembersOnly => "members_only",
            PlayabilityStatus::Unknown => "unknown",
            PlayabilityStatus::Privated => "privated",
            PlayabilityStatus::Unlisted => "unlisted",
            PlayabilityStatus::Copyrighted => "copyrighted",
            PlayabilityStatus::LoginRequired => "login_required",
        }
    }

    /// The status that `name` stands for; `None` for any other text.
    pub fn from_name(name: &str) -> (r: Option<PlayabilityStatus>)
        ensures
            r == PlayabilityStatus::spec_from_name(name@),
    {
        let n = to_chars(name);
        if same_text(n.as_slice(), to_chars("ok").as_slice()) {
            Some(PlayabilityStatus::Playable)
        } else if same_text(n.as_slice(), to_chars("live").as_slice()) {
            Some(PlayabilityStatus::OnLive)
        } else if same_text(n.as_slice(), to_chars("removed").as_slice()) {
            Some(PlayabilityStatus::Removed)
        } else if same_text(n.as_slice(), to_chars("offline").as_slice()) {
            Some(PlayabilityStatus::Offline)
        } else if same_text(n.as_slice(), to_chars("members_only").as_slice()) {
            Some(PlayabilityStatus::MembersOnly)
        } else if same_text(n.as_slice(), to_chars("unknown").as_slice()) {
            Some(PlayabilityStatus::Unknown)
        } else if same_text(n.as_slice(), to_chars("privated").as_slice()) {
            Some(PlayabilityStatus::Privated)
        } else if same_text(n.as_slice(), to_chars("unlisted").as_slice()) {
            Some(PlayabilityStatus::Unlisted)
        } else if same_text(n.as_slice(), to_chars("copyrighted").as_slice()) {
            Some(PlayabilityStatus::Copyrighted)
        } else if same_text(n.as_slice(), to_chars("login_required").as_slice()) {
            Some(PlayabilityStatus::LoginRequired)
        } else {
            None
        }
    }

    /// Reading a status's name gives the status back.
    pub proof fn lemma_name_round_trip(self)
        ensures
            PlayabilityStatus::spec_from_name(self.spec_name()) == Some(self),
    {
        reveal_strlit("ok");
        reveal_strlit("live");
        reveal_strlit("removed");
        reveal_strlit("offline");
        reveal_strlit("members_only");
        reveal_strlit("unknown");
        reveal_strlit("privated");
        reveal_strlit("unlisted");
        reveal_strlit("copyrighted");
        reveal_strlit("login_required");
        assert("ok"@.len() == 2);
        assert("live"@.len() == 4);
        assert("removed"@.len() == 7 && "removed"@[0] == 'r');
        assert("offline"@.len() == 7 && "offline"@[0] == 'o');
        assert("members_only"@.len() == 12);
        assert("unknown"@.len() == 7 && "unknown"@[0] == 'u');
        assert("privated"@.len() == 8 && "privated"@[0] == 'p');
        assert("unlisted"@.len() == 8 && "unlisted"@[0] == 'u');
        assert("copyrighted"@.len() == 11);
        assert("login_required"@.len() == 14);
    }
}

impl Status {
    /// The name under which the status is written.
    pub open spec fn spec_name(self) -> Seq<char> {
        match self {
            Status::Task(s) => s.spec_name(),
            Status::Playability(s) => s.spec_name(),
        }
    }

    /// The status that a name stands for: the names of playability are
    /// tried first, then those of tasks.
    pub open spec fn spec_from_name(name: Seq<char>) -> Option<Status> {
        match PlayabilityStatus::spec_from_name(name) {
            Some(s) => Some(Status::Playability(s)),
            None => match TaskStatus::spec_from_name(name) {
                Some(s) => Some(Status::Task(s)),
                None => None,
            },
        }
    }

    /// The name under which the status is written.
    pub fn name(&self) -> (r: &'static str)
        ensures
            r@ == self.spec_name(),
    {
        match self {
            Status::Task(s) => s.name(),
            Status::Playability(s) => s.name(),
        }
    }

    /// The status that `name` stands for; `None` for any other text.
    pub fn from_name(name: &str) -> (r: Option<Status>)
        ensures
            r == Status::spec_from_name(name@),
    {
        match PlayabilityStatus::from_name(name) {
            Some(s) => Some(Status::Playability(s)),
            None => match TaskStatus::from_name(name) {
                Some(s) => Some(Status::Task(s)),
                None => None,
            },
        }
    }

    /// Reading a status's name gives the status back: no name stands for
    /// two statuses.
    pub proof fn lemma_name_round_trip(self)
        ensures
            Status::spec_from_name(self.spec_name()) == Some(self),
    {
        match self {
            Status::Playability(s) => {
                s.lemma_name_round_trip();
            },
            Status::Task(s) => {
                s.lemma_name_round_trip();
                reveal_strlit("waiting");
                reveal_strlit("recording");
                reveal_strlit("done");
                reveal_strlit("failed");
                reveal_strlit("ok");
                reveal_strlit("live");
                reveal_strlit("removed");
                reveal_strlit("offline");
                reveal_strlit("members_only");
                reveal_strlit("unknown");
                reveal_strlit("privated");
                reveal_strlit("unlisted");
                reveal_strlit("copyrighted");
                reveal_strlit("login_required");
                assert("waiting"@.len() == 7 && "waiting"@[0] == 'w');
                assert("recording"@.len() == 9);
                assert("done"@.len() == 4 && "done"@[0] == 'd');
                assert("failed"@.len() == 6);
                assert("ok"@.len() == 2);
                assert("live"@.len() == 4 && "live"@[0] == 'l');
                assert("removed"@.len() == 7 && "removed"@[0] == 'r');
                assert("offline"@.len() == 7 && "offline"@[0] == 'o');
                assert("members_only"@.len() == 12);
                assert("unknown"@.len() == 7 && "unknown"@[0] == 'u');
                assert("privated"@.len() == 8);
                assert("unlisted"@.len() == 8);
                assert("copyrighted"@.len() == 11);
                assert("login_required"@.len() == 14);
            },
        }
    }
}

} // verus!
