use ytarchive_manager::config::{
    ChannelConfig, Config, NotifierConfig, NotifierDiscordConfig, ScraperConfig, ScraperRSSConfig,
    SourceUpdate, UpdateError, WebserverConfig, YtarchiveConfig, YtdlpConfig,
};
use ytarchive_manager::module::notifier::Discord;
use ytarchive_manager::module::recorder::{RecorderState, VideoStatus};
use ytarchive_manager::module::web::WebServer;
use ytarchive_manager::module::{
    Message, Notification, PlayabilityStatus, RecordingStatus, Status, Task, TaskStatus,
};
use ytarchive_manager::time::{Span, Timestamp};
use ytarchive_manager::youtube::video::{
    InitialPlayerResponseVideoDetails, InitialPlayerResponseVideoDetailsThumbnail,
    InitialPlayerResponseVideoDetailsThumbnailThumbnail,
};

fn task(video_id: &str) -> Task {
    Task {
        title: "A stream".to_string(),
        video_id: video_id.to_string(),
        video_picture: "https://img.example/v.jpg".to_string(),
        channel_name: "Channel".to_string(),
        channel_id: "UCabc".to_string(),
        channel_picture: Some("https://img.example/c.jpg".to_string()),
        output_directory: "/out".to_string(),
        recorder: "ytarchive".to_string(),
    }
}

fn channel(id: &str, picture: Option<&str>) -> ChannelConfig {
    ChannelConfig {
        id: id.to_string(),
        name: id.to_string(),
        filters: vec!["LIVE".to_string()],
        outpath: "/out".to_string(),
        picture_url: picture.map(|p| p.to_string()),
        match_description: false,
        recorder: "ytarchive".to_string(),
    }
}

fn config() -> Config {
    Config {
        ytarchive: YtarchiveConfig {
            executable_path: "ytarchive".to_string(),
            working_directory: "/w".to_string(),
            args: vec![],
            quality: "best".to_string(),
            delay_start: Span { seconds: 1, nanos: 0 },
        },
        ytdlp: YtdlpConfig {
            executable_path: "yt-dlp".to_string(),
            working_directory: "/w".to_string(),
            args: vec![],
            quality: "best".to_string(),
        },
        scraper: ScraperConfig {
            rss: ScraperRSSConfig {
                poll_interval: Span { seconds: 60, nanos: 0 },
                ignore_older_than: Span { seconds: 86400, nanos: 0 },
            },
        },
        notifier: Some(NotifierConfig {
            discord: Some(NotifierDiscordConfig {
                webhook_url: "https://hook.example/1".to_string(),
                notify_on: vec![TaskStatus::Recording, TaskStatus::Done],
            }),
        }),
        webserver: None,
        channel: vec![channel("a", Some("pa")), channel("b", None), channel("c", None)],
        config_path: "config.toml".to_string(),
    }
}

#[test]
fn titles_and_colours() {
    assert_eq!(Discord::presentation(Status::Task(TaskStatus::Waiting)), ("Waiting for Live", 0xebd045));
    assert_eq!(Discord::presentation(Status::Task(TaskStatus::Recording)), ("Recording", 0x58b9ff));
    assert_eq!(Discord::presentation(Status::Task(TaskStatus::Done)), ("Done", 0x45eb45));
    assert_eq!(Discord::presentation(Status::Task(TaskStatus::Failed)), ("Failed", 0xeb4545));
    assert_eq!(Discord::presentation(Status::Playability(PlayabilityStatus::Playable)), ("Failed", 0xeb4545));
    assert_eq!(Discord::presentation(Status::Playability(PlayabilityStatus::OnLive)), ("Failed", 0xeb4545));
}

#[test]
fn only_wanted_notifications_go_to_the_webhook() {
    let mut cfg = config();
    let recording = Message::ToNotify(Notification { task: task("v"), status: TaskStatus::Recording });
    let waiting = Message::ToNotify(Notification { task: task("v"), status: TaskStatus::Waiting });
    assert_eq!(Discord::webhook(&cfg, &recording), Some("https://hook.example/1".to_string()));
    assert_eq!(Discord::webhook(&cfg, &waiting), None);
    assert_eq!(Discord::webhook(&cfg, &Message::ToRecord(task("v"))), None);
    cfg.notifier = Some(NotifierConfig { discord: None });
    assert_eq!(Discord::webhook(&cfg, &recording), None);
    cfg.notifier = None;
    assert_eq!(Discord::webhook(&cfg, &recording), None);
}

#[test]
fn payload_for_a_notification() {
    let n = Notification { task: task("v1"), status: TaskStatus::Done };
    let m = Discord::compose_at(&n, "manager v1", Timestamp { seconds: 1647266400, nanos: 0 });
    assert_eq!(m.content, "");
    assert_eq!(m.embeds.len(), 1);
    let e = &m.embeds[0];
    assert_eq!(e.title, "Done");
    assert_eq!(e.description, "[A stream](https://youtu.be/v1)");
    assert_eq!(e.color, 0x45eb45);
    assert_eq!(e.author.name, "Channel");
    assert_eq!(e.author.url, "https://www.youtube.com/channel/UCabc");
    assert_eq!(e.author.icon_url, Some("https://img.example/c.jpg".to_string()));
    assert_eq!(e.footer.text, "manager v1");
    assert_eq!(e.timestamp, "2022-03-14T14:00:00+00:00");
    assert_eq!(e.thumbnail.url, "https://img.example/v.jpg");
    let with = Discord::compose_with(&n, "app", "then".to_string());
    assert_eq!(with.embeds[0].timestamp, "then");
    assert_eq!(with.embeds[0].footer.text, "app");
    assert_eq!(with.embeds[0].description, "[A stream](https://youtu.be/v1)");
    let now = Discord::compose(&n, "manager v1");
    assert_eq!(now.embeds.len(), 1);
    assert!(now.embeds[0].timestamp.len() >= 20);
}

#[test]
fn an_instant_that_cannot_be_written_is_left_empty() {
    let n = Notification { task: task("v1"), status: TaskStatus::Failed };
    let m = Discord::compose_at(&n, "app", Timestamp { seconds: i64::MAX, nanos: 0 });
    assert_eq!(m.embeds[0].timestamp, "");
    assert_eq!(m.embeds[0].title, "Failed");
}

#[test]
fn status_names() {
    for (s, name) in [
        (TaskStatus::Waiting, "waiting"),
        (TaskStatus::Recording, "recording"),
        (TaskStatus::Done, "done"),
        (TaskStatus::Failed, "failed"),
    ] {
        assert_eq!(s.name(), name);
        assert_eq!(TaskStatus::from_name(name), Some(s));
        assert_eq!(Status::from_name(name), Some(Status::Task(s)));
        assert_eq!(Status::Task(s).name(), name);
        assert_eq!(PlayabilityStatus::from_name(name), None);
    }
    for (s, name) in [
        (PlayabilityStatus::Playable, "ok"),
        (PlayabilityStatus::OnLive, "live"),
        (PlayabilityStatus::Removed, "removed"),
        (PlayabilityStatus::Offline, "offline"),
        (PlayabilityStatus::MembersOnly, "members_only"),
        (PlayabilityStatus::Unknown, "unknown"),
        (PlayabilityStatus::Privated, "privated"),
        (PlayabilityStatus::Unlisted, "unlisted"),
        (PlayabilityStatus::Copyrighted, "copyrighted"),
        (PlayabilityStatus::LoginRequired, "login_required"),
    ] {
        assert_eq!(s.name(), name);
        assert_eq!(PlayabilityStatus::from_name(name), Some(s));
        assert_eq!(Status::from_name(name), Some(Status::Playability(s)));
        assert_eq!(TaskStatus::from_name(name), None);
    }
    assert_eq!(Status::from_name("Waiting"), None);
    assert_eq!(Status::from_name(""), None);
}

fn report(video_id: &str, state: RecorderState, seconds: i64) -> Message {
    let mut status = VideoStatus::new_at(Timestamp { seconds, nanos: 0 });
    status.state = state;
    Message::RecordingStatus(RecordingStatus { task: task(video_id), status })
}

#[test]
fn the_latest_status_of_each_task_is_shown() {
    let mut web = WebServer::new();
    assert!(web.get_tasks().is_empty());
    web.observe(&report("v1", RecorderState::Waiting(None), 1));
    web.observe(&report("v2", RecorderState::Recording, 2));
    web.observe(&Message::ToRecord(task("v3")));
    web.observe(&report("v1", RecorderState::Recording, 3));
    let tasks = web.get_tasks();
    assert_eq!(tasks.len(), 2);
    assert_eq!(tasks[0].task.video_id, "v1");
    assert_eq!(tasks[0].status.state, RecorderState::Recording);
    assert_eq!(tasks[0].status.last_update, Timestamp { seconds: 3, nanos: 0 });
    assert_eq!(tasks[1].task.video_id, "v2");
    assert_eq!(tasks[1].status.last_update, Timestamp { seconds: 2, nanos: 0 });
}

fn thumb(url: &str, width: u32) -> InitialPlayerResponseVideoDetailsThumbnailThumbnail {
    InitialPlayerResponseVideoDetailsThumbnailThumbnail { url: url.to_string(), width, height: 1 }
}

#[test]
fn the_widest_picture_is_the_best() {
    assert_eq!(WebServer::best_thumbnail(&vec![]), "");
    assert_eq!(WebServer::best_thumbnail(&vec![thumb("a", 1)]), "a");
    assert_eq!(
        WebServer::best_thumbnail(&vec![thumb("a", 120), thumb("b", 1280), thumb("c", 640)]),
        "b"
    );
    assert_eq!(
        WebServer::best_thumbnail(&vec![thumb("a", 640), thumb("b", 120), thumb("c", 640)]),
        "c"
    );
    let mut sorted = vec![thumb("a", 640), thumb("b", 120), thumb("c", 640), thumb("d", 3)];
    let best = WebServer::best_thumbnail(&sorted);
    sorted.sort_by_key(|t| t.width);
    assert_eq!(Some(best), sorted.last().map(|t| t.url.clone()));
}

#[test]
fn a_submitted_task() {
    let details = InitialPlayerResponseVideoDetails {
        video_id: "v9".to_string(),
        title: "Title".to_string(),
        channel_id: "UCx".to_string(),
        author: "Author".to_string(),
        thumbnail: InitialPlayerResponseVideoDetailsThumbnail {
            thumbnails: vec![thumb("small", 1), thumb("big", 9)],
        },
    };
    let t = WebServer::make_task(&details, "pic", "/out", "yt-dlp");
    assert_eq!(t.title, "Title");
    assert_eq!(t.video_id, "v9");
    assert_eq!(t.video_picture, "big");
    assert_eq!(t.channel_name, "Author");
    assert_eq!(t.channel_id, "UCx");
    assert_eq!(t.channel_picture, Some("pic".to_string()));
    assert_eq!(t.output_directory, "/out");
    assert_eq!(t.recorder, "yt-dlp");
    assert_eq!(WebServer::watch_url("v9"), "https://www.youtube.com/watch?v=v9");
    let by_hand = WebServer::submitted_task(&details, "pic", "/out");
    assert_eq!(by_hand.recorder, "ytarchive");
    assert_eq!(by_hand.video_id, "v9");
    assert_eq!(by_hand.video_picture, "big");
    assert_eq!(by_hand.channel_picture, Some("pic".to_string()));
    assert_eq!(by_hand.output_directory, "/out");
}

#[test]
fn static_paths() {
    assert_eq!(WebServer::static_path(""), "index.html");
    assert_eq!(WebServer::static_path("assets/app.js"), "assets/app.js");
}

#[test]
fn the_surface_is_enabled_by_an_address_or_a_socket() {
    let mut cfg = config();
    assert!(!WebServer::is_enabled(&cfg));
    cfg.webserver = Some(WebserverConfig { bind_address: None, unix_path: None });
    assert!(!WebServer::is_enabled(&cfg));
    cfg.webserver = Some(WebserverConfig { bind_address: Some("127.0.0.1:8000".to_string()), unix_path: None });
    assert!(WebServer::is_enabled(&cfg));
    cfg.webserver = Some(WebserverConfig { bind_address: None, unix_path: Some("/run/x.sock".to_string()) });
    assert!(WebServer::is_enabled(&cfg));
}

#[test]
fn pictures_are_looked_up_where_missing() {
    let mut cfg = config();
    assert_eq!(cfg.next_without_picture(0), Some(1));
    assert!(cfg.set_picture_url(1, "pb".to_string()));
    assert_eq!(cfg.channel[1].picture_url, Some("pb".to_string()));
    assert_eq!(cfg.channel[1].id, "b");
    assert_eq!(cfg.next_without_picture(0), Some(2));
    assert_eq!(cfg.next_without_picture(3), None);
    assert!(!cfg.set_picture_url(3, "x".to_string()));
    assert!(cfg.set_picture_url(2, "pc".to_string()));
    assert_eq!(cfg.next_without_picture(0), None);
}

#[test]
fn a_reload_replaces_the_snapshot_or_nothing() {
    let mut cfg = config();
    assert!(!cfg.install(None));
    assert_eq!(cfg.channel.len(), 3);
    let mut fresh = config();
    fresh.channel = vec![channel("z", None)];
    fresh.config_path = "elsewhere.toml".to_string();
    fresh.ytarchive.quality = "1080p".to_string();
    assert!(cfg.install(Some(fresh)));
    assert_eq!(cfg.channel.len(), 1);
    assert_eq!(cfg.channel[0].id, "z");
    assert_eq!(cfg.ytarchive.quality, "1080p");
    assert_eq!(cfg.config_path, "config.toml");
}

#[test]
fn configuration_is_valid_where_every_pattern_compiles() {
    let mut cfg = config();
    assert!(cfg.validate());
    cfg.channel[2].filters.push("[".to_string());
    assert!(!cfg.validate());
    cfg.channel.clear();
    assert!(cfg.validate());
    let discord = NotifierDiscordConfig { webhook_url: "u".to_string(), notify_on: vec![TaskStatus::Failed] };
    assert!(discord.notifies_on(TaskStatus::Failed));
    assert!(!discord.notifies_on(TaskStatus::Done));
}

#[test]
fn yt_dlp_settings_where_none_are_configured() {
    let cfg = config();
    let standing_in = YtdlpConfig::standing_in(&cfg.ytarchive);
    assert_eq!(standing_in.executable_path, "yt-dlp");
    assert_eq!(standing_in.working_directory, "/w");
    assert!(standing_in.args.is_empty());
    assert_eq!(standing_in.quality, "best");
}

#[test]
fn readings_of_the_clock() {
    let span = |seconds: u64, nanos: u32| Span { seconds, nanos };
    let at = |seconds: i64, nanos: u32| Timestamp { seconds, nanos };
    assert_eq!(Timestamp::from_clock(Ok(span(10, 5))), at(10, 5));
    assert_eq!(Timestamp::from_clock(Ok(span(0, 0))), at(0, 0));
    assert_eq!(Timestamp::from_clock(Ok(span(u64::MAX, 7))), at(i64::MAX, 7));
    assert_eq!(Timestamp::from_clock(Err(span(10, 0))), at(-10, 0));
    assert_eq!(Timestamp::from_clock(Err(span(10, 250_000_000))), at(-11, 750_000_000));
    assert_eq!(Timestamp::from_clock(Err(span(0, 1))), at(-1, 999_999_999));
    assert_eq!(Timestamp::from_clock(Err(span(u64::MAX, 1))), at(i64::MIN, 999_999_999));
    assert_eq!(Timestamp::from_clock(Err(span(u64::MAX, 0))), at(-i64::MAX, 0));
    assert_eq!(Timestamp::from_clock(Err(span(3, 1_000_000_000))), at(-3, 0));
}

#[test]
fn instants_and_spans() {
    let t = Timestamp { seconds: 10, nanos: 5 };
    assert_eq!(t.add_seconds(5), Some(Timestamp { seconds: 15, nanos: 5 }));
    assert_eq!(t.add_seconds(-20), Some(Timestamp { seconds: -10, nanos: 5 }));
    assert_eq!(t.add_seconds(i64::MAX), None);
    let extreme = Timestamp { seconds: i64::MIN, nanos: 0 };
    assert!(extreme.is_older_than(Timestamp { seconds: i64::MAX, nanos: 0 }, Span { seconds: 0, nanos: 0 }));
    assert!(!Timestamp { seconds: i64::MAX, nanos: 0 }.is_older_than(extreme, Span { seconds: u64::MAX, nanos: u32::MAX }));
    let status = VideoStatus::new();
    assert!(status.last_update.seconds > 1_600_000_000);
    assert_eq!(status.state, RecorderState::Idle);
}

#[test]
fn a_new_source_is_validated_written_and_reloaded() {
    assert_eq!(SourceUpdate::start(), SourceUpdate::Validate);
    assert_eq!(SourceUpdate::Validate.next(true), SourceUpdate::Write);
    assert_eq!(SourceUpdate::Validate.next(false), SourceUpdate::Failed(UpdateError::Invalid));
    assert_eq!(SourceUpdate::Write.next(true), SourceUpdate::Reload);
    assert_eq!(SourceUpdate::Write.next(false), SourceUpdate::Failed(UpdateError::WriteFailed));
    assert_eq!(SourceUpdate::Reload.next(true), SourceUpdate::Done);
    assert_eq!(SourceUpdate::Reload.next(false), SourceUpdate::Failed(UpdateError::ReloadFailed));
    assert_eq!(SourceUpdate::Done.next(false), SourceUpdate::Done);
    assert_eq!(
        SourceUpdate::Failed(UpdateError::Invalid).next(true),
        SourceUpdate::Failed(UpdateError::Invalid)
    );
    assert!(SourceUpdate::Done.over());
    assert!(SourceUpdate::Failed(UpdateError::WriteFailed).over());
    assert!(!SourceUpdate::Validate.over());
    assert!(!SourceUpdate::Write.over());
    assert!(!SourceUpdate::Reload.over());
}
