//! What the HTTP surface shows and accepts: the latest status of every
//! task, and tasks submitted by hand.

use super::recorder::VideoStatus;
use super::{Message, RecordingStatus, Task};
use crate::config::Config;
use crate::text::join;
use crate::youtube::video::{
    InitialPlayerResponseVideoDetails, InitialPlayerResponseVideoDetailsThumbnailThumbnail,
};
use crate::youtube::{
    is_supported_host, url_host, url_path, url_query, url_valid, video_id_of, URLParseError, URL,
};
use vstd::prelude::*;
use vstd::string::*;

verus! {

/// A task with the latest status of its recording.
#[derive(Debug)]
pub struct TaskWithStatus {
    pub task: Task,
    pub status: VideoStatus,
}

impl Clone for TaskWithStatus {
    fn clone(&self) -> (r: Self)
        ensures
            r == *self,
    {
        TaskWithStatus { task: self.task.clone(), status: self.status.clone() }
    }
}

/// The address under which a video is watched, without the video's id.
pub const WATCH_ADDRESS: &'static str = "https://www.youtube.com/watch?v=";

/// The file that is served where no path is asked for.
pub const INDEX_FILE: &'static str = "index.html";

/// Index of the first entry for the video `id`; the number of entries if
/// there is none.
pub open spec fn slot(entries: Seq<TaskWithStatus>, id: Seq<char>) -> int
    decreases entries.len(),
{
    if entries.len() == 0 || entries[0].task.video_id@ == id {
        0
    } else {
        1 + slot(entries.drop_first(), id)
    }
}

/// The entries after a status has been noted: it takes the place of the
/// entry for its video, or is added at the end if there is none.
pub open spec fn noted(entries: Seq<TaskWithStatus>, report: RecordingStatus) -> Seq<
    TaskWithStatus,
> {
    let entry = TaskWithStatus { task: report.task, status: report.status };
    let i = slot(entries, report.task.video_id@);
    if i < entries.len() {
        entries.update(i, entry)
    } else {
        entries.push(entry)
    }
}

/// The entries after a message from the bus: a status is noted, any other
/// message changes nothing.
pub open spec fn observed(entries: Seq<TaskWithStatus>, message: Message) -> Seq<TaskWithStatus> {
    match message {
        Message::RecordingStatus(report) => noted(entries, report),
        _ => entries,
    }
}

/// No two entries are for the same video.
pub open spec fn one_per_video(entries: Seq<TaskWithStatus>) -> bool {
    forall|i: int, j: int|
        0 <= i < j < entries.len() ==> (#[trigger] entries[i]).task.video_id@ != (
        #[trigger] entries[j]).task.video_id@
}

/// `slot` lies within the entries, the entry there is for the video, and
/// none before it is.
proof fn lemma_slot(entries: Seq<TaskWithStatus>, id: Seq<char>)
    ensures
        0 <= slot(entries, id) <= entries.len(),
        slot(entries, id) < entries.len() ==> entries[slot(entries, id)].task.video_id@ == id,
        forall|j: int| 0 <= j < slot(entries, id) ==> (#[trigger] entries[j]).task.video_id@ != id,
    decreases entries.len(),
{
    if entries.len() == 0 || entries[0].task.video_id@ == id {
    } else {
        lemma_slot(entries.drop_first(), id);
        assert forall|j: int| 0 <= j < slot(entries, id) implies (
        #[trigger] entries[j]).task.video_id@ != id by {
            if j > 0 {
                assert(entries.drop_first()[j - 1] == entries[j]);
            }
        }
    }
}

/// The slot of a video is `i`, given that no entry before `i` is for it
/// and the entry at `i`, if there is one, is.
proof fn lemma_slot_is(entries: Seq<TaskWithStatus>, id: Seq<char>, i: int)
    requires
        0 <= i <= entries.len(),
        forall|j: int| 0 <= j < i ==> (#[trigger] entries[j]).task.video_id@ != id,
        i < entries.len() ==> entries[i].task.video_id@ == id,
    ensures
        slot(entries, id) == i,
    decreases entries.len(),
{
    if entries.len() == 0 || entries[0].task.video_id@ == id {
        if i > 0 {
            assert(entries[0].task.video_id@ != id);
        }
    } else {
        let rest = entries.drop_first();
        assert forall|j: int| 0 <= j < i - 1 implies (#[trigger] rest[j]).task.video_id@ != id by {
            assert(rest[j] == entries[j + 1]);
        }
        lemma_slot_is(rest, id, i - 1);
    }
}

/// Noting a status keeps one entry per video, and the entry for the
/// status's video then holds the status.
pub proof fn lemma_noted_keeps_one_per_video(entries: Seq<TaskWithStatus>, report: RecordingStatus)
    requires
        one_per_video(entries),
    ensures
        one_per_video(noted(entries, report)),
        ({
            let after = noted(entries, report);
            let i = slot(after, report.task.video_id@);
            i < after.len() && after[i].status == report.status && after[i].task == report.task
        }),
{
    let id = report.task.video_id@;
    lemma_slot(entries, id);
    let after = noted(entries, report);
    let i = slot(entries, id);
    assert forall|a: int, b: int| 0 <= a < b < after.len() implies (
    #[trigger] after[a]).task.video_id@ != (#[trigger] after[b]).task.video_id@ by {
        if i < entries.len() {
            assert(entries[i].task.video_id@ == id);
            assert(entries[a].task.video_id@ != entries[b].task.video_id@);
        } else {
            if b == entries.len() {
                assert(entries[a].task.video_id@ != id);
            } else {
                assert(entries[a].task.video_id@ != entries[b].task.video_id@);
            }
        }
    }
    assert forall|j: int| 0 <= j < i implies (#[trigger] after[j]).task.video_id@ != id by {
        assert(entries[j].task.video_id@ != id);
    }
    lemma_slot_is(after, id, i);
}

/// Index of the widest picture, the last of them where several are as
/// wide; 0 where there is none.
pub open spec fn widest(thumbs: Seq<InitialPlayerResponseVideoDetailsThumbnailThumbnail>) -> int
    decreases thumbs.len(),
{
    if thumbs.len() <= 1 {
        0
    } else {
        let w = widest(thumbs.drop_last());
        if thumbs.last().width >= thumbs[w].width {
            thumbs.len() - 1
        } else {
            w
        }
    }
}

/// The address of the best picture: the widest, or none where there is no
/// picture.
pub open spec fn best_picture(
    thumbs: Seq<InitialPlayerResponseVideoDetailsThumbnailThumbnail>,
) -> Seq<char> {
    if thumbs.len() == 0 {
        Seq::empty()
    } else {
        thumbs[widest(thumbs)].url@
    }
}

/// The widest picture is as wide as any, and wider than all after it.
pub proof fn lemma_widest(thumbs: Seq<InitialPlayerResponseVideoDetailsThumbnailThumbnail>)
    requires
        thumbs.len() > 0,
    ensures
        0 <= widest(thumbs) < thumbs.len(),
        forall|j: int| 0 <= j < thumbs.len() ==> (#[trigger] thumbs[j]).width <= thumbs[widest(
            thumbs,
        )].width,
        forall|j: int| widest(thumbs) < j < thumbs.len() ==> (#[trigger] thumbs[j]).width
            < thumbs[widest(thumbs)].width,
    decreases thumbs.len(),
{
    if thumbs.len() > 1 {
        lemma_widest(thumbs.drop_last());
        let w = widest(thumbs.drop_last());
        assert forall|j: int| 0 <= j < thumbs.len() implies (#[trigger] thumbs[j]).width
            <= thumbs[widest(thumbs)].width by {
            if j < thumbs.len() - 1 {
                assert(thumbs.drop_last()[j] == thumbs[j]);
            }
        }
        assert forall|j: int| widest(thumbs) < j < thumbs.len() implies (#[trigger] thumbs[j]).width
            < thumbs[widest(thumbs)].width by {
            if j < thumbs.len() - 1 {
                assert(thumbs.drop_last()[j] == thumbs[j]);
            }
        }
    }
}

/// The task for a video that was submitted by hand.
pub open spec fn is_submitted_task(
    task: Task,
    details: InitialPlayerResponseVideoDetails,
    channel_picture: Seq<char>,
    output_directory: Seq<char>,
    recorder: Seq<char>,
) -> bool {
    &&& task.title@ == details.title@
    &&& task.video_id@ == details.video_id@
    &&& task.video_picture@ == best_picture(details.thumbnail.thumbnails@)
    &&& task.channel_name@ == details.author@
    &&& task.channel_id@ == details.channel_id@
    &&& crate::pattern::text_of(task.channel_picture) == Some(channel_picture)
    &&& task.output_directory@ == output_directory
    &&& task.recorder@ == recorder
}

/// Why a submitted address is refused.
#[derive(Debug)]
pub enum SubmitError {
    /// It is no address of the video platform.
    BadUrl(URLParseError),
    /// It is an address of the platform, but of no video.
    NotAVideo,
}

/// The HTTP surface's state: every task of which a status was seen, with
/// the latest status.
pub struct WebServer {
    pub tasks: Vec<TaskWithStatus>,
}

impl WebServer {
    /// A surface that has seen no task.
    pub fn new() -> (r: Self)
        ensures
            r.tasks@ == Seq::<TaskWithStatus>::empty(),
    {
        WebServer { tasks: Vec::new() }
    }

    /// Whether the configuration asks for the HTTP surface: it names an
    /// address or a socket path to listen on.
    pub fn is_enabled(cfg: &Config) -> (b: bool)
        ensures
            b == match cfg.webserver {
                Some(ws) => ws.bind_address is Some || ws.unix_path is Some,
                None => false,
            },
    {
        match &cfg.webserver {
            Some(ws) => ws.is_configured(),
            None => false,
        }
    }

    /// Takes a message from the bus.
    pub fn observe(&mut self, message: &Message)
        ensures
            final(self).tasks@ == observed(old(self).tasks@, *message),
    {
        match message {
            Message::RecordingStatus(report) => {
                let entry = TaskWithStatus {
                    task: report.task.clone(),
                    status: report.status.clone(),
                };
                let mut i: usize = 0;
                while i < self.tasks.len()
                    invariant
                        i <= self.tasks.len(),
                        self.tasks@ == old(self).tasks@,
                        *message == Message::RecordingStatus(*report),
                        entry == (TaskWithStatus { task: report.task, status: report.status }),
                        forall|j: int|
                            0 <= j < i ==> (#[trigger] self.tasks@[j]).task.video_id@
                                != report.task.video_id@,
                    decreases self.tasks.len() - i,
                {
                    if self.tasks[i].task.video_id == report.task.video_id {
                        proof {
                            lemma_slot_is(self.tasks@, report.task.video_id@, i as int);
                        }
                        let ghost before = self.tasks@;
                        self.tasks[i] = entry;
                        assert(self.tasks@ =~= before.update(i as int, entry));
                        return ;
                    }
                    i += 1;
                }
                proof {
                    lemma_slot_is(self.tasks@, report.task.video_id@, i as int);
                }
                self.tasks.push(entry);
            },
            _ => {},
        }
    }

    /// Every task of which a status was seen, with its latest status.
    pub fn get_tasks(&self) -> (r: Vec<TaskWithStatus>)
        ensures
            r@ == self.tasks@,
    {
        let mut r: Vec<TaskWithStatus> = Vec::new();
        let mut i: usize = 0;
        while i < self.tasks.len()
            invariant
                i <= self.tasks.len(),
                r@ == self.tasks@.take(i as int),
            decreases self.tasks.len() - i,
        {
            let entry = self.tasks[i].clone();
            r.push(entry);
            assert(r@ =~= self.tasks@.take(i + 1));
            i += 1;
        }
        assert(self.tasks@.take(i as int) =~= self.tasks@);
        r
    }

    /// The address of the best of a video's pictures: the widest, the last
    /// of them where several are as wide; empty where there is none.
    pub fn best_thumbnail(
        thumbs: &Vec<InitialPlayerResponseVideoDetailsThumbnailThumbnail>,
    ) -> (r: String)
        ensures
            r@ == best_picture(thumbs@),
    {
        if thumbs.len() == 0 {
            return String::new();
        }
        let mut best: usize = 0;
        let mut i: usize = 1;
        assert(thumbs@.take(1).len() == 1);
        while i < thumbs.len()
            invariant
                1 <= i <= thumbs.len(),
                best < i,
                best == widest(thumbs@.take(i as int)),
            decreases thumbs.len() - i,
        {
            proof {
                assert(thumbs@.take(i + 1).drop_last() =~= thumbs@.take(i as int));
                assert(thumbs@.take(i + 1).last() == thumbs@[i as int]);
                assert(thumbs@.take(i + 1)[best as int] == thumbs@[best as int]);
            }
            if thumbs[i].width >= thumbs[best].width {
                best = i;
            }
            i += 1;
        }
        assert(thumbs@.take(i as int) =~= thumbs@);
        thumbs[best].url.clone()
    }

    /// The address under which a video is watched.
    pub fn watch_url(video_id: &str) -> (r: String)
        ensures
            r@ == WATCH_ADDRESS@ + video_id@,
    {
        join(WATCH_ADDRESS, video_id)
    }

    /// The address from which the page of a submitted video is fetched:
    /// the watch address of the video that the submitted address names. An
    /// address that `URL::parse` refuses is refused with its error, one
    /// that names no video as no video's.
    pub fn video_page_url(video_url: &str) -> (r: Result<String, SubmitError>)
        ensures
            r matches Err(SubmitError::BadUrl(URLParseError::InvalidUri(_, _))) <==> !url_valid(
                video_url@,
            ),
            r matches Err(SubmitError::BadUrl(URLParseError::UnsupportedUri)) <==> url_valid(
                video_url@,
            ) && match url_host(video_url@) {
                Some(h) => !is_supported_host(h),
                None => true,
            },
            r matches Ok(page) ==> url_host(video_url@) is Some && Some(
                page@.skip(WATCH_ADDRESS@.len() as int),
            ) == video_id_of(
                url_host(video_url@).unwrap(),
                url_path(video_url@),
                url_query(video_url@),
            ) && WATCH_ADDRESS@.is_prefix_of(page@),
            r matches Err(SubmitError::NotAVideo) ==> url_host(video_url@) is Some && video_id_of(
                url_host(video_url@).unwrap(),
                url_path(video_url@),
                url_query(video_url@),
            ) is None,
    {
        let url = match URL::parse(video_url) {
            Ok(u) => u,
            Err(e) => {
                return Err(SubmitError::BadUrl(e));
            },
        };
        match url.video_id() {
            Some(id) => {
                let page = WebServer::watch_url(id.as_str());
                assert(page@.skip(WATCH_ADDRESS@.len() as int) =~= id@);
                Ok(page)
            },
            None => Err(SubmitError::NotAVideo),
        }
    }

    /// The task for a video that was submitted by hand, to be recorded
    /// with the recorder that is used where none is named.
    pub fn submitted_task(
        details: &InitialPlayerResponseVideoDetails,
        channel_picture: &str,
        output_directory: &str,
    ) -> (r: Task)
        ensures
            is_submitted_task(
                r,
                *details,
                channel_picture@,
                output_directory@,
                crate::config::DEFAULT_RECORDER@,
            ),
    {
        WebServer::make_task(
            details,
            channel_picture,
            output_directory,
            crate::config::DEFAULT_RECORDER,
        )
    }

    /// The task for a video that was submitted by hand, made of what the
    /// video's page tells, the channel's picture, and where and with which
    /// recorder to record.
    pub fn make_task(
        details: &InitialPlayerResponseVideoDetails,
        channel_picture: &str,
        output_directory: &str,
        recorder: &str,
    ) -> (r: Task)
        ensures
            is_submitted_task(r, *details, channel_picture@, output_directory@, recorder@),
    {
        Task {
            title: details.title.clone(),
            video_id: details.video_id.clone(),
            video_picture: WebServer::best_thumbnail(&details.thumbnail.thumbnails),
            channel_name: details.author.clone(),
            channel_id: details.channel_id.clone(),
            channel_picture: Some(String::from_str(channel_picture)),
            output_directory: String::from_str(output_directory),
            recorder: String::from_str(recorder),
        }
    }

    /// The file to serve for a path: the path itself, or the index file
    /// where the path is empty.
    pub fn static_path(path: &str) -> (r: String)
        ensures
            r@ == if path@.len() == 0 {
                INDEX_FILE@
            } else {
                path@
            },
    {
        if path.unicode_len() == 0 {
            String::from_str(INDEX_FILE)
        } else {
            String::from_str(path)
        }
    }
}

} // verus!
