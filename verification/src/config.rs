//! The configuration snapshot that every component reads.

use crate::module::TaskStatus;
use crate::pattern::{is_valid, regex_valid};
use crate::time::Span;
use vstd::prelude::*;
use vstd::string::*;

verus! {

/// Settings of the `ytarchive` recorder.
#[derive(Clone, Debug)]
pub struct YtarchiveConfig {
    pub executable_path: String,
    pub working_directory: String,
    pub args: Vec<String>,
    pub quality: String,
    /// The least time between two recorder starts.
    pub delay_start: Span,
}

/// Settings of the `yt-dlp` recorder.
#[derive(Clone, Debug)]
pub struct YtdlpConfig {
    pub executable_path: String,
    pub working_directory: String,
    pub args: Vec<String>,
    pub quality: String,
}

/// Settings of the scrapers.
#[derive(Clone, Debug)]
pub struct ScraperConfig {
    pub rss: ScraperRSSConfig,
}

/// Settings of the feed poller.
#[derive(Clone, Debug)]
pub struct ScraperRSSConfig {
    pub poll_interval: Span,
    /// Feed entries updated longer ago than this are passed over.
    pub ignore_older_than: Span,
}

/// Settings of the notifiers.
#[derive(Clone, Debug)]
pub struct NotifierConfig {
    pub discord: Option<NotifierDiscordConfig>,
}

/// Settings of the webhook notifier.
#[derive(Clone, Debug)]
pub struct NotifierDiscordConfig {
    pub webhook_url: String,
    pub notify_on: Vec<TaskStatus>,
}

/// Where the HTTP surface listens.
#[derive(Clone, Debug)]
pub struct WebserverConfig {
    pub bind_address: Option<String>,
    pub unix_path: Option<String>,
}

/// One channel to watch.
#[derive(Clone, Debug)]
pub struct ChannelConfig {
    pub id: String,
    pub name: String,
    /// Patterns, each a regular expression; one match is enough.
    pub filters: Vec<String>,
    pub outpath: String,
    /// If absent, looked up while running.
    pub picture_url: Option<String>,
    /// Whether the patterns are also tried on a video's description.
    pub match_description: bool,
    /// The recorder to use: `ytarchive` or `yt-dlp`.
    pub recorder: String,
}

/// The whole configuration, with the path of the file it was read from.
#[derive(Clone, Debug)]
pub struct Config {
    pub ytarchive: YtarchiveConfig,
    pub ytdlp: YtdlpConfig,
    pub scraper: ScraperConfig,
    pub notifier: Option<NotifierConfig>,
    pub webserver: Option<WebserverConfig>,
    pub channel: Vec<ChannelConfig>,
    pub config_path: String,
}

/// The recorder that is used where none is named.
pub const DEFAULT_RECORDER: &'static str = "ytarchive";

/// The executable of the `yt-dlp` recorder where none is configured.
pub const DEFAULT_YTDLP_EXECUTABLE: &'static str = "yt-dlp";

/// The quality that the `yt-dlp` recorder is asked for where none is
/// configured.
pub const DEFAULT_YTDLP_QUALITY: &'static str = "best";

impl YtdlpConfig {
    /// The settings of the `yt-dlp` recorder where the configuration has
    /// none: the recorder is found by its name, works where `ytarchive`
    /// works, gets no further arguments, and is asked for the best
    /// quality.
    pub fn standing_in(ytarchive: &YtarchiveConfig) -> (r: YtdlpConfig)
        ensures
            r.executable_path@ == DEFAULT_YTDLP_EXECUTABLE@,
            r.working_directory@ == ytarchive.working_directory@,
            r.args@ == Seq::<String>::empty(),
            r.quality@ == DEFAULT_YTDLP_QUALITY@,
    {
        YtdlpConfig {
            executable_path: String::from_str(DEFAULT_YTDLP_EXECUTABLE),
            working_directory: ytarchive.working_directory.clone(),
            args: Vec::new(),
            quality: String::from_str(DEFAULT_YTDLP_QUALITY),
        }
    }
}

impl NotifierDiscordConfig {
    /// Whether a notification is wanted for `status`.
    pub fn notifies_on(&self, status: TaskStatus) -> (b: bool)
        ensures
            b == self.notify_on@.contains(status),
    {
        let mut i: usize = 0;
        while i < self.notify_on.len()
            invariant
                i <= self.notify_on.len(),
                forall|j: int| 0 <= j < i ==> self.notify_on@[j] != status,
            decreases self.notify_on.len() - i,
        {
            if self.notify_on[i] == status {
                return true;
            }
            i += 1;
        }
        false
    }
}

impl WebserverConfig {
    /// Whether there is anything to listen on.
    pub fn is_configured(&self) -> (b: bool)
        ensures
            b == (self.bind_address is Some || self.unix_path is Some),
    {
        self.bind_address.is_some() || self.unix_path.is_some()
    }
}

impl ChannelConfig {
    /// Every pattern of the channel is a regular expression that compiles.
    pub open spec fn filters_compile(&self) -> bool {
        forall|i: int| 0 <= i < self.filters@.len() ==> regex_valid(#[trigger] self.filters@[i]@)
    }

    /// Whether every pattern of the channel compiles.
    pub fn has_valid_filters(&self) -> (b: bool)
        ensures
            b == self.filters_compile(),
    {
        let mut i: usize = 0;
        while i < self.filters.len()
            invariant
                i <= self.filters.len(),
                forall|j: int| 0 <= j < i ==> regex_valid(#[trigger] self.filters@[j]@),
            decreases self.filters.len() - i,
        {
            if !is_valid(self.filters[i].as_str()) {
                return false;
            }
            i += 1;
        }
        true
    }
}

impl Config {
    /// The webhook settings, if a notifier with a webhook is configured.
    pub open spec fn spec_discord(&self) -> Option<NotifierDiscordConfig> {
        match self.notifier {
            Some(n) => n.discord,
            None => None,
        }
    }

    /// The webhook settings, if a notifier with a webhook is configured.
    pub fn discord(&self) -> (r: Option<&NotifierDiscordConfig>)
        ensures
            r.is_some() == self.spec_discord().is_some(),
            r matches Some(d) ==> self.spec_discord() == Some(*d),
    {
        match &self.notifier {
            Some(n) => match &n.discord {
                Some(d) => Some(d),
                None => None,
            },
            None => None,
        }
    }

    /// Every channel's patterns compile.
    pub open spec fn is_valid(&self) -> bool {
        forall|i: int| 0 <= i < self.channel@.len() ==> (#[trigger] self.channel@[i]).filters_compile()
    }

    /// Whether every channel's patterns compile.
    pub fn validate(&self) -> (b: bool)
        ensures
            b == self.is_valid(),
    {
        let mut i: usize = 0;
        while i < self.channel.len()
            invariant
                i <= self.channel.len(),
                forall|j: int| 0 <= j < i ==> (#[trigger] self.channel@[j]).filters_compile(),
            decreases self.channel.len() - i,
        {
            if !self.channel[i].has_valid_filters() {
                return false;
            }
            i += 1;
        }
        true
    }

    /// Index of the first channel at or after `from` that has no picture
    /// yet; the number of channels if every one has.
    pub open spec fn without_picture_from(&self, from: int) -> int
        decreases self.channel@.len() - from,
    {
        if from < 0 || from >= self.channel@.len() {
            self.channel@.len() as int
        } else if self.channel@[from].picture_url is None {
            from
        } else {
            self.without_picture_from(from + 1)
        }
    }

    /// The first channel at or after `from` whose picture is still to be
    /// looked up, if there is one.
    pub fn next_without_picture(&self, from: usize) -> (r: Option<usize>)
        ensures
            match r {
                Some(i) => i == self.without_picture_from(from as int) && i < self.channel@.len(),
                None => self.without_picture_from(from as int) == self.channel@.len(),
            },
    {
        let mut i: usize = from;
        while i < self.channel.len()
            invariant
                from <= i,
                self.without_picture_from(from as int) == self.without_picture_from(i as int),
            decreases self.channel.len() - i,
        {
            if self.channel[i].picture_url.is_none() {
                return Some(i);
            }
            i += 1;
        }
        None
    }

    /// Remembers the picture that was looked up for channel `index`. Says
    /// whether there is such a channel.
    pub fn set_picture_url(&mut self, index: usize, url: String) -> (done: bool)
        ensures
            done == (index < old(self).channel@.len()),
            !done ==> *final(self) == *old(self),
            done ==> final(self).channel@ == old(self).channel@.update(
                index as int,
                (ChannelConfig { picture_url: Some(url), ..old(self).channel@[index as int] }),
            ) && (Config { channel: old(self).channel, ..*final(self) }) == *old(self),
    {
        if index < self.channel.len() {
            let ghost before = self.channel@;
            self.channel[index].picture_url = Some(url);
            assert(self.channel@ =~= before.update(
                index as int,
                (ChannelConfig { picture_url: Some(url), ..before[index as int] }),
            ));
            true
        } else {
            false
        }
    }

    /// Takes the outcome of reading the configuration file anew: a fresh
    /// snapshot replaces the current one whole, keeping the remembered path;
    /// a failed read leaves the current snapshot as it is. Says whether the
    /// snapshot was replaced.
    pub fn install(&mut self, fresh: Option<Config>) -> (replaced: bool)
        ensures
            replaced == fresh is Some,
            fresh is None ==> *final(self) == *old(self),
            fresh matches Some(c) ==> *final(self) == (Config {
                config_path: old(self).config_path,
                ..c
            }),
    {
        match fresh {
            Some(c) => {
                let path = self.config_path.clone();
                *self = c;
                self.config_path = path;
                true
            },
            None => false,
        }
    }
}

/// Why a new source text was not taken.
#[derive(Clone, Copy, Debug, PartialEq, Eq, Structural)]
pub enum UpdateError {
    /// The text does not read as a configuration.
    Invalid,
    /// The file could not be written.
    WriteFailed,
    /// The file was written, but could not be read anew.
    ReloadFailed,
}

/// A step in replacing the source of the configuration. The caller performs
/// the step and reports whether it succeeded.
#[derive(Clone, Copy, Debug, PartialEq, Eq, Structural)]
pub enum SourceUpdate {
    /// Read the new text as a configuration, without taking it.
    Validate,
    /// Write the new text to the file.
    Write,
    /// Read the file anew.
    Reload,
    /// The new text is in the file and the snapshot is made of it.
    Done,
    /// The update has failed.
    Failed(UpdateError),
}

impl SourceUpdate {
    /// The step that follows `self` once it has succeeded or failed: each
    /// step is taken only after the one before has succeeded.
    pub open spec fn after(self, succeeded: bool) -> SourceUpdate {
        match self {
            SourceUpdate::Validate => if succeeded {
                SourceUpdate::Write
            } else {
                SourceUpdate::Failed(UpdateError::Invalid)
            },
            SourceUpdate::Write => if succeeded {
                SourceUpdate::Reload
            } else {
                SourceUpdate::Failed(UpdateError::WriteFailed)
            },
            SourceUpdate::Reload => if succeeded {
                SourceUpdate::Done
            } else {
                SourceUpdate::Failed(UpdateError::ReloadFailed)
            },
            other => other,
        }
    }

    /// Whether nothing is left to do.
    pub open spec fn is_over(self) -> bool {
        self == SourceUpdate::Done || self is Failed
    }

    /// The first step.
    pub fn start() -> (r: SourceUpdate)
        ensures
            r == SourceUpdate::Validate,
    {
        SourceUpdate::Validate
    }

    /// The step that follows `self` once it has succeeded or failed.
    pub fn next(self, succeeded: bool) -> (r: SourceUpdate)
        ensures
            r == self.after(succeeded),
    {
        match self {
            SourceUpdate::Validate => if succeeded {
                SourceUpdate::Write
            } else {
                SourceUpdate::Failed(UpdateError::Invalid)
            },
            SourceUpdate::Write => if succeeded {
                SourceUpdate::Reload
            } else {
                SourceUpdate::Failed(UpdateError::WriteFailed)
            },
            SourceUpdate::Reload => if succeeded {
                SourceUpdate::Done
            } else {
                SourceUpdate::Failed(UpdateError::ReloadFailed)
            },
            other => other,
        }
    }

    /// Whether nothing is left to do.
    pub fn over(self) -> (b: bool)
        ensures
            b == self.is_over(),
    {
        match self {
            SourceUpdate::Done => true,
            SourceUpdate::Failed(_) => true,
            _ => false,
        }
    }

    /// The file is written only with a text that has been read as a
    /// configuration: a text that does not read as one ends the update
    /// before anything is written.
    pub proof fn lemma_invalid_text_is_not_written()
        ensures
            SourceUpdate::Validate.after(false) == SourceUpdate::Failed(UpdateError::Invalid),
            forall|s: SourceUpdate, ok: bool| #[trigger]
                s.after(ok) == SourceUpdate::Write ==> s == SourceUpdate::Validate && ok,
    {
    }
}

} // verus!
