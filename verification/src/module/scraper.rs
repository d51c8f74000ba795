//! The feed poller: which entries of a channel's feed become tasks.

use super::Task;
use crate::config::ChannelConfig;
use crate::id_set::IdSet;
use crate::pattern::{is_match, regex_matches, regex_valid};
use crate::text::join;
use crate::time::{current_time, Span, Timestamp};
use vstd::prelude::*;

verus! {

/// The address of a channel's feed, without the channel's id.
pub const FEED_ADDRESS: &'static str = "https://www.youtube.com/feeds/videos.xml?channel_id=";

/// One entry of a channel's feed.
#[derive(Debug)]
pub struct FeedEntry {
    pub video_id: String,
    pub channel_id: String,
    pub title: String,
    pub author_name: String,
    pub thumbnail_url: String,
    pub description: String,
    pub updated: Timestamp,
}

/// Whether a pattern fits an entry: it matches the title, or the
/// description where descriptions count. A pattern that does not compile
/// fits nothing.
pub open spec fn filter_fits(
    filter: Seq<char>,
    title: Seq<char>,
    description: Seq<char>,
    match_description: bool,
) -> bool {
    regex_valid(filter) && (regex_matches(filter, title) || (match_description && regex_matches(
        filter,
        description,
    )))
}

/// Whether one of a channel's patterns fits an entry.
pub open spec fn any_filter_fits(channel: ChannelConfig, entry: FeedEntry) -> bool {
    exists|i: int|
        0 <= i < channel.filters@.len() && filter_fits(
            (#[trigger] channel.filters@[i])@,
            entry.title@,
            entry.description@,
            channel.match_description,
        )
}

/// Whether an entry becomes a task, given whether one of the channel's
/// patterns fits it: its video has not been seen, it was updated no longer
/// ago than `max_age`, and a pattern fits.
pub open spec fn qualifies(
    seen: Set<Seq<char>>,
    entry: FeedEntry,
    fits: bool,
    now: Timestamp,
    max_age: Span,
) -> bool {
    &&& !seen.contains(entry.video_id@)
    &&& !entry.updated.older_than(now, max_age)
    &&& fits
}

/// For each entry of a feed, whether one of the channel's patterns fits it.
pub open spec fn fitting(channel: ChannelConfig, entries: Seq<FeedEntry>) -> Seq<bool> {
    Seq::new(entries.len(), |i: int| any_filter_fits(channel, entries[i]))
}

/// The task for an entry of a channel's feed.
pub open spec fn task_for(channel: ChannelConfig, entry: FeedEntry) -> Task {
    Task {
        title: entry.title,
        video_id: entry.video_id,
        video_picture: entry.thumbnail_url,
        channel_name: entry.author_name,
        channel_id: entry.channel_id,
        channel_picture: channel.picture_url,
        output_directory: channel.outpath,
        recorder: channel.recorder,
    }
}

/// Whether a pattern fits the `i`-th entry, as `fits` tells it; an entry of
/// which it tells nothing is taken not to fit.
pub open spec fn fit_at(fits: Seq<bool>, i: int) -> bool {
    0 <= i < fits.len() && fits[i]
}

/// The tasks that a feed gives rise to, and the videos seen after it, given
/// for each entry whether a pattern fits it. The entries are taken in
/// order; each one that qualifies adds its task and is seen from then on.
pub open spec fn selection_among(
    seen: Set<Seq<char>>,
    channel: ChannelConfig,
    entries: Seq<FeedEntry>,
    fits: Seq<bool>,
    now: Timestamp,
    max_age: Span,
) -> (Seq<Task>, Set<Seq<char>>)
    decreases entries.len(),
{
    if entries.len() == 0 {
        (Seq::empty(), seen)
    } else {
        let (tasks, known) = selection_among(
            seen,
            channel,
            entries.drop_last(),
            fits,
            now,
            max_age,
        );
        let entry = entries.last();
        if qualifies(known, entry, fit_at(fits, entries.len() - 1), now, max_age) {
            (tasks.push(task_for(channel, entry)), known.insert(entry.video_id@))
        } else {
            (tasks, known)
        }
    }
}

/// The tasks that a feed gives rise to, and the videos seen after it.
pub open spec fn selection(
    seen: Set<Seq<char>>,
    channel: ChannelConfig,
    entries: Seq<FeedEntry>,
    now: Timestamp,
    max_age: Span,
) -> (Seq<Task>, Set<Seq<char>>) {
    selection_among(seen, channel, entries, fitting(channel, entries), now, max_age)
}

/// Every task that a feed gives rise to is for a video that was not seen
/// before and is seen afterwards; no two are for the same video; and what
/// was seen stays seen.
pub proof fn lemma_selection_is_new(
    seen: Set<Seq<char>>,
    channel: ChannelConfig,
    entries: Seq<FeedEntry>,
    fits: Seq<bool>,
    now: Timestamp,
    max_age: Span,
)
    ensures
        ({
            let (tasks, known) = selection_among(seen, channel, entries, fits, now, max_age);
            &&& seen.subset_of(known)
            &&& forall|i: int|
                0 <= i < tasks.len() ==> !seen.contains((#[trigger] tasks[i]).video_id@)
                    && known.contains(tasks[i].video_id@)
            &&& forall|i: int, j: int|
                0 <= i < j < tasks.len() ==> (#[trigger] tasks[i]).video_id@ != (
                #[trigger] tasks[j]).video_id@
            &&& forall|id: Seq<char>|
                known.contains(id) ==> seen.contains(id) || exists|i: int|
                    0 <= i < tasks.len() && (#[trigger] tasks[i]).video_id@ == id
        }),
    decreases entries.len(),
{
    if entries.len() > 0 {
        lemma_selection_is_new(seen, channel, entries.drop_last(), fits, now, max_age);
        let (before, known) = selection_among(
            seen,
            channel,
            entries.drop_last(),
            fits,
            now,
            max_age,
        );
        let (tasks, after) = selection_among(seen, channel, entries, fits, now, max_age);
        let entry = entries.last();
        if qualifies(known, entry, fit_at(fits, entries.len() - 1), now, max_age) {
            assert(tasks == before.push(task_for(channel, entry)));
            assert forall|id: Seq<char>| after.contains(id) implies seen.contains(id) || exists|
                i: int,
            |
                0 <= i < tasks.len() && (#[trigger] tasks[i]).video_id@ == id by {
                if id == entry.video_id@ {
                    assert(tasks[tasks.len() - 1].video_id@ == id);
                } else if !seen.contains(id) {
                    let i = choose|i: int|
                        0 <= i < before.len() && (#[trigger] before[i]).video_id@ == id;
                    assert(tasks[i].video_id@ == id);
                }
            }
        }
    }
}

/// Polling the same feed again, at the same time or later, gives rise to no
/// task.
pub proof fn lemma_second_poll_is_empty(
    seen: Set<Seq<char>>,
    channel: ChannelConfig,
    entries: Seq<FeedEntry>,
    fits: Seq<bool>,
    now: Timestamp,
    later: Timestamp,
    max_age: Span,
)
    requires
        now.total_nanos() <= later.total_nanos(),
    ensures
        ({
            let known = selection_among(seen, channel, entries, fits, now, max_age).1;
            selection_among(known, channel, entries, fits, later, max_age) == (
                Seq::<Task>::empty(),
                known,
            )
        }),
{
    let known = selection_among(seen, channel, entries, fits, now, max_age).1;
    lemma_seen_entries_give_nothing(
        seen,
        known,
        channel,
        entries,
        fits,
        entries.len() as int,
        now,
        later,
        max_age,
    );
    assert(entries.take(entries.len() as int) =~= entries);
}

/// Entries that qualified or were seen at a first poll give rise to no task
/// at a second.
proof fn lemma_seen_entries_give_nothing(
    seen: Set<Seq<char>>,
    known: Set<Seq<char>>,
    channel: ChannelConfig,
    entries: Seq<FeedEntry>,
    fits: Seq<bool>,
    k: int,
    now: Timestamp,
    later: Timestamp,
    max_age: Span,
)
    requires
        0 <= k <= entries.len(),
        known == selection_among(seen, channel, entries, fits, now, max_age).1,
        now.total_nanos() <= later.total_nanos(),
    ensures
        selection_among(known, channel, entries.take(k), fits, later, max_age) == (
            Seq::<Task>::empty(),
            known,
        ),
    decreases k,
{
    if k > 0 {
        lemma_seen_entries_give_nothing(
            seen,
            known,
            channel,
            entries,
            fits,
            k - 1,
            now,
            later,
            max_age,
        );
        assert(entries.take(k).drop_last() =~= entries.take(k - 1));
        let entry = entries[k - 1];
        assert(entries.take(k).last() == entry);
        if qualifies(known, entry, fit_at(fits, k - 1), later, max_age) {
            lemma_fitting_entries_are_seen(seen, channel, entries, fits, k - 1, now, max_age);
        }
    }
}

/// After a poll, an entry of the feed that a pattern fits is seen or was
/// too old.
proof fn lemma_fitting_entries_are_seen(
    seen: Set<Seq<char>>,
    channel: ChannelConfig,
    entries: Seq<FeedEntry>,
    fits: Seq<bool>,
    i: int,
    now: Timestamp,
    max_age: Span,
)
    requires
        0 <= i < entries.len(),
        fit_at(fits, i),
        !entries[i].updated.older_than(now, max_age),
    ensures
        selection_among(seen, channel, entries, fits, now, max_age).1.contains(
            entries[i].video_id@,
        ),
    decreases entries.len(),
{
    lemma_selection_is_new(seen, channel, entries.drop_last(), fits, now, max_age);
    if i == entries.len() - 1 {
    } else {
        assert(entries.drop_last()[i] == entries[i]);
        lemma_fitting_entries_are_seen(seen, channel, entries.drop_last(), fits, i, now, max_age);
    }
}

/// Whether one of a channel's patterns fits an entry.
pub fn matches_filters(channel: &ChannelConfig, entry: &FeedEntry) -> (b: bool)
    ensures
        b == any_filter_fits(*channel, *entry),
{
    let mut i: usize = 0;
    while i < channel.filters.len()
        invariant
            i <= channel.filters.len(),
            forall|j: int|
                0 <= j < i ==> !filter_fits(
                    (#[trigger] channel.filters@[j])@,
                    entry.title@,
                    entry.description@,
                    channel.match_description,
                ),
        decreases channel.filters.len() - i,
    {
        let filter = channel.filters[i].as_str();
        let fits = match is_match(filter, entry.title.as_str()) {
            Some(true) => true,
            Some(false) => channel.match_description && match is_match(
                filter,
                entry.description.as_str(),
            ) {
                Some(b) => b,
                None => false,
            },
            None => false,
        };
        if fits {
            return true;
        }
        i += 1;
    }
    false
}

/// For each entry of a feed, whether one of the channel's patterns fits it.
pub fn fits_each(channel: &ChannelConfig, entries: &Vec<FeedEntry>) -> (r: Vec<bool>)
    ensures
        r@ == fitting(*channel, entries@),
{
    let mut r: Vec<bool> = Vec::new();
    let mut i: usize = 0;
    while i < entries.len()
        invariant
            i <= entries.len(),
            r@ == fitting(*channel, entries@).take(i as int),
        decreases entries.len() - i,
    {
        r.push(matches_filters(channel, &entries[i]));
        assert(r@ =~= fitting(*channel, entries@).take(i + 1));
        i += 1;
    }
    assert(fitting(*channel, entries@).take(i as int) =~= fitting(*channel, entries@));
    r
}

/// The task for an entry of a channel's feed.
pub fn make_task(channel: &ChannelConfig, entry: &FeedEntry) -> (r: Task)
    ensures
        r == task_for(*channel, *entry),
{
    Task {
        title: entry.title.clone(),
        video_id: entry.video_id.clone(),
        video_picture: entry.thumbnail_url.clone(),
        channel_name: entry.author_name.clone(),
        channel_id: entry.channel_id.clone(),
        channel_picture: match &channel.picture_url {
            Some(p) => Some(p.clone()),
            None => None,
        },
        output_directory: channel.outpath.clone(),
        recorder: channel.recorder.clone(),
    }
}

/// What a look at the bus gave while the poller waits.
#[derive(Clone, Copy, Debug, PartialEq, Eq, Structural)]
pub enum Polled {
    /// A message was there.
    Message,
    /// Nothing was there.
    Empty,
    /// The bus is closed.
    Closed,
}

/// What the poller does next while it waits for its next pass.
#[derive(Clone, Copy, Debug, PartialEq, Eq, Structural)]
pub enum Wait {
    /// The interval is over: poll the feeds.
    Poll,
    /// Look at the bus again at once.
    Look,
    /// Sleep for `PAUSE_MILLIS`, then look at the bus again.
    Pause,
    /// Stop polling.
    Stop,
}

/// How long the poller sleeps between two looks at the bus, in
/// milliseconds.
pub const PAUSE_MILLIS: u64 = 100;

/// The feed poller, with the videos it has seen.
pub struct RSS {
    scraped: IdSet,
}

impl RSS {
    /// The ids of the videos for which a task has been made.
    pub closed spec fn seen(&self) -> Set<Seq<char>> {
        self.scraped@
    }

    /// A poller that has seen nothing.
    pub fn new() -> (r: Self)
        ensures
            r.seen() == Set::<Seq<char>>::empty(),
    {
        RSS { scraped: IdSet::new() }
    }

    /// The address of a channel's feed.
    pub fn feed_url(channel_id: &str) -> (r: String)
        ensures
            r@ == FEED_ADDRESS@ + channel_id@,
    {
        join(FEED_ADDRESS, channel_id)
    }

    /// Whether a task has been made for the video.
    pub fn has_seen(&self, video_id: &str) -> (b: bool)
        ensures
            b == self.seen().contains(video_id@),
    {
        self.scraped.contains(video_id)
    }

    /// Makes the tasks for a channel's feed as it is at `now`, given for
    /// each entry whether one of the channel's patterns fits it, and
    /// remembers their videos as seen.
    pub fn select_among(
        &mut self,
        channel: &ChannelConfig,
        entries: &Vec<FeedEntry>,
        fits: &Vec<bool>,
        now: Timestamp,
        max_age: Span,
    ) -> (r: Vec<Task>)
        ensures
            (r@, final(self).seen()) == selection_among(
                old(self).seen(),
                *channel,
                entries@,
                fits@,
                now,
                max_age,
            ),
    {
        let mut tasks: Vec<Task> = Vec::new();
        let mut i: usize = 0;
        assert(entries@.take(0) =~= Seq::<FeedEntry>::empty());
        while i < entries.len()
            invariant
                i <= entries.len(),
                (tasks@, self.seen()) == selection_among(
                    old(self).seen(),
                    *channel,
                    entries@.take(i as int),
                    fits@,
                    now,
                    max_age,
                ),
            decreases entries.len() - i,
        {
            let entry = &entries[i];
            proof {
                assert(entries@.take(i + 1).drop_last() =~= entries@.take(i as int));
                assert(entries@.take(i + 1).last() == *entry);
            }
            if !self.scraped.contains(entry.video_id.as_str()) && !entry.updated.is_older_than(
                now,
                max_age,
            ) && i < fits.len() && fits[i] {
                self.scraped.insert(entry.video_id.as_str());
                tasks.push(make_task(channel, entry));
            }
            i += 1;
        }
        assert(entries@.take(i as int) =~= entries@);
        tasks
    }

    /// Makes the tasks for a channel's feed as it is at `now`, and
    /// remembers their videos as seen.
    pub fn select(
        &mut self,
        channel: &ChannelConfig,
        entries: &Vec<FeedEntry>,
        now: Timestamp,
        max_age: Span,
    ) -> (r: Vec<Task>)
        ensures
            (r@, final(self).seen()) == selection(old(self).seen(), *channel, entries@, now, max_age),
    {
        let fits = fits_each(channel, entries);
        self.select_among(channel, entries, &fits, now, max_age)
    }

    /// Makes the tasks for a channel's feed as it is at the present time,
    /// and remembers their videos as seen. Whatever the clock says, every
    /// task is for a video that was not seen before and is seen afterwards.
    pub fn run_one(&mut self, channel: &ChannelConfig, entries: &Vec<FeedEntry>, max_age: Span) -> (r:
        Vec<Task>)
        ensures
            exists|now: Timestamp|
                (r@, final(self).seen()) == #[trigger] selection(
                    old(self).seen(),
                    *channel,
                    entries@,
                    now,
                    max_age,
                ),
            old(self).seen().subset_of(final(self).seen()),
            forall|i: int|
                0 <= i < r@.len() ==> !old(self).seen().contains((#[trigger] r@[i]).video_id@)
                    && final(self).seen().contains(r@[i].video_id@),
    {
        let now = current_time();
        proof {
            lemma_selection_is_new(
                self.seen(),
                *channel,
                entries@,
                fitting(*channel, entries@),
                now,
                max_age,
            );
        }
        self.select(channel, entries, now, max_age)
    }

    /// What the poller does next while it waits: it polls once the interval
    /// is over; until then it stops if the bus is closed, looks again at
    /// once after a message, and pauses when nothing was there.
    pub open spec fn waiting(due: bool, polled: Polled) -> Wait {
        if due {
            Wait::Poll
        } else {
            match polled {
                Polled::Message => Wait::Look,
                Polled::Closed => Wait::Stop,
                Polled::Empty => Wait::Pause,
            }
        }
    }

    /// What the poller does next while it waits. `due` says whether the
    /// poll interval is over, `polled` what the last look at the bus gave.
    pub fn wait_step(due: bool, polled: Polled) -> (r: Wait)
        ensures
            r == RSS::waiting(due, polled),
    {
        if due {
            Wait::Poll
        } else {
            match polled {
                Polled::Message => Wait::Look,
                Polled::Closed => Wait::Stop,
                Polled::Empty => Wait::Pause,
            }
        }
    }
}

} // verus!
