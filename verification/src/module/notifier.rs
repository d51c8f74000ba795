//! The notifier: which notifications go to the webhook, and what is posted
//! for them.

use super::{Message, Notification, Status, TaskStatus};
use crate::config::Config;
use crate::text::join;
use crate::time::{current_time, to_rfc3339, written_instant, Timestamp};
use vstd::prelude::*;
use vstd::string::*;

verus! {

/// What is posted to the webhook.
#[derive(Debug)]
pub struct WebhookMessage {
    pub content: String,
    pub embeds: Vec<DiscordEmbed>,
}

/// One embed of a webhook message.
#[derive(Debug)]
pub struct DiscordEmbed {
    pub title: String,
    pub description: String,
    pub color: u32,
    pub author: DiscordEmbedAuthor,
    pub footer: DiscordEmbedFooter,
    pub timestamp: String,
    pub thumbnail: DiscordEmbedThumbnail,
}

/// Whom an embed names as its author.
#[derive(Debug)]
pub struct DiscordEmbedAuthor {
    pub name: String,
    pub url: String,
    pub icon_url: Option<String>,
}

/// The line at the foot of an embed.
#[derive(Debug)]
pub struct DiscordEmbedFooter {
    pub text: String,
}

/// The small picture of an embed.
#[derive(Debug)]
pub struct DiscordEmbedThumbnail {
    pub url: String,
}

/// The colour of a task that waits for its stream.
pub const WAITING_COLOR: u32 = 0xebd045;

/// The colour of a task that is being recorded.
pub const RECORDING_COLOR: u32 = 0x58b9ff;

/// The colour of a task that is done.
pub const DONE_COLOR: u32 = 0x45eb45;

/// The colour of a task that has failed.
pub const FAILED_COLOR: u32 = 0xeb4545;

/// The address of a video, without the video's id.
pub const VIDEO_ADDRESS: &'static str = "https://youtu.be/";

/// The address of a channel, without the channel's id.
pub const CHANNEL_ADDRESS: &'static str = "https://www.youtube.com/channel/";

/// The title under which a status is announced.
pub open spec fn title_for(status: Status) -> Seq<char> {
    match status {
        Status::Task(TaskStatus::Waiting) => "Waiting for Live"@,
        Status::Task(TaskStatus::Recording) => "Recording"@,
        Status::Task(TaskStatus::Done) => "Done"@,
        _ => "Failed"@,
    }
}

/// The colour in which a status is announced.
pub open spec fn color_for(status: Status) -> u32 {
    match status {
        Status::Task(TaskStatus::Waiting) => WAITING_COLOR,
        Status::Task(TaskStatus::Recording) => RECORDING_COLOR,
        Status::Task(TaskStatus::Done) => DONE_COLOR,
        _ => FAILED_COLOR,
    }
}

/// The webhook to which a message is to be announced: that of the
/// configured notifier, if the message is a notification of a status that
/// the notifier is set to announce.
pub open spec fn webhook_for(cfg: Config, message: Message) -> Option<Seq<char>> {
    match message {
        Message::ToNotify(n) => match cfg.spec_discord() {
            Some(d) => if d.notify_on@.contains(n.status) {
                Some(d.webhook_url@)
            } else {
                None
            },
            None => None,
        },
        _ => None,
    }
}

/// Whether `m` is what is posted for notification `n` under the name `app`
/// at the time written as `timestamp`: no text, and one embed with the
/// status's title and colour, the video's title as a link to the video, the
/// channel as author, the application's name as footer, and the video's
/// picture.
pub open spec fn is_payload(
    m: WebhookMessage,
    n: Notification,
    app: Seq<char>,
    timestamp: Seq<char>,
) -> bool {
    &&& m.content@ == Seq::<char>::empty()
    &&& m.embeds@.len() == 1
    &&& m.embeds@[0].title@ == title_for(Status::Task(n.status))
    &&& m.embeds@[0].description@ == "["@ + n.task.title@ + "]("@ + VIDEO_ADDRESS@
        + n.task.video_id@ + ")"@
    &&& m.embeds@[0].color == color_for(Status::Task(n.status))
    &&& m.embeds@[0].author.name@ == n.task.channel_name@
    &&& m.embeds@[0].author.url@ == CHANNEL_ADDRESS@ + n.task.channel_id@
    &&& m.embeds@[0].author.icon_url == n.task.channel_picture
    &&& m.embeds@[0].footer.text@ == app
    &&& m.embeds@[0].timestamp@ == timestamp
    &&& m.embeds@[0].thumbnail.url@ == n.task.video_picture@
}

/// How an instant is written in a payload: as `written_instant` gives it,
/// empty where that gives nothing.
pub open spec fn written(now: Timestamp) -> Seq<char> {
    match written_instant(now) {
        Some(t) => t,
        None => Seq::empty(),
    }
}

/// The notifier that posts to a Discord webhook.
pub struct Discord;

impl Discord {
    /// The title and the colour under which a status is announced.
    pub fn presentation(status: Status) -> (r: (&'static str, u32))
        ensures
            r.0@ == title_for(status),
            r.1 == color_for(status),
    {
        match status {
            Status::Task(TaskStatus::Waiting) => ("Waiting for Live", WAITING_COLOR),
            Status::Task(TaskStatus::Recording) => ("Recording", RECORDING_COLOR),
            Status::Task(TaskStatus::Done) => ("Done", DONE_COLOR),
            _ => ("Failed", FAILED_COLOR),
        }
    }

    /// The webhook to which `message` is to be announced, if any.
    pub fn webhook(cfg: &Config, message: &Message) -> (r: Option<String>)
        ensures
            crate::pattern::text_of(r) == webhook_for(*cfg, *message),
    {
        match message {
            Message::ToNotify(n) => match cfg.discord() {
                Some(d) => if d.notifies_on(n.status) {
                    Some(d.webhook_url.clone())
                } else {
                    None
                },
                None => None,
            },
            _ => None,
        }
    }

    /// What is posted for a notification at the time `now`.
    pub fn compose_at(notification: &Notification, app: &str, now: Timestamp) -> (r: WebhookMessage)
        ensures
            is_payload(r, *notification, app@, written(now)),
    {
        let timestamp = match to_rfc3339(now) {
            Some(t) => t,
            None => String::new(),
        };
        Discord::compose_with(notification, app, timestamp)
    }

    /// What is posted for a notification at the time written as
    /// `timestamp`.
    pub fn compose_with(notification: &Notification, app: &str, timestamp: String) -> (r:
        WebhookMessage)
        ensures
            is_payload(r, *notification, app@, timestamp@),
    {
        let task = &notification.task;
        let (title, color) = Discord::presentation(Status::Task(notification.status));
        let description = String::from_str("[").concat(task.title.as_str()).concat("](").concat(
            VIDEO_ADDRESS,
        ).concat(task.video_id.as_str()).concat(")");
        let embed = DiscordEmbed {
            title: String::from_str(title),
            description,
            color,
            author: DiscordEmbedAuthor {
                name: task.channel_name.clone(),
                url: join(CHANNEL_ADDRESS, task.channel_id.as_str()),
                icon_url: match &task.channel_picture {
                    Some(p) => Some(p.clone()),
                    None => None,
                },
            },
            footer: DiscordEmbedFooter { text: String::from_str(app) },
            timestamp,
            thumbnail: DiscordEmbedThumbnail { url: task.video_picture.clone() },
        };
        let mut embeds: Vec<DiscordEmbed> = Vec::new();
        embeds.push(embed);
        WebhookMessage { content: String::new(), embeds }
    }

    /// What is posted for a notification at the present time: the payload
    /// for the time that the clock gave, whatever that was.
    pub fn compose(notification: &Notification, app: &str) -> (r: WebhookMessage)
        ensures
            exists|now: Timestamp| is_payload(r, *notification, app@, #[trigger] written(now)),
    {
        let now = current_time();
        Discord::compose_at(notification, app, now)
    }
}

} // verus!
