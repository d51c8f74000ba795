use ytarchive_manager::config::ChannelConfig;
use ytarchive_manager::module::scraper::{
    fits_each, matches_filters, FeedEntry, Polled, Wait, RSS,
};
use ytarchive_manager::time::{Span, Timestamp};

const NOW: i64 = 1_700_000_000;
const HOUR: u64 = 3600;

fn at(seconds: i64) -> Timestamp {
    Timestamp { seconds, nanos: 0 }
}

fn channel(filters: &[&str]) -> ChannelConfig {
    ChannelConfig {
        id: "UCabc".to_string(),
        name: "Channel".to_string(),
        filters: filters.iter().map(|f| f.to_string()).collect(),
        outpath: "/out/abc".to_string(),
        picture_url: Some("https://img.example/c.jpg".to_string()),
        match_description: false,
        recorder: "ytarchive".to_string(),
    }
}

fn entry(id: &str, title: &str, updated: i64) -> FeedEntry {
    FeedEntry {
        video_id: id.to_string(),
        channel_id: "UCabc".to_string(),
        title: title.to_string(),
        author_name: "Author".to_string(),
        thumbnail_url: format!("https://img.example/{}.jpg", id),
        description: "about [LIVE] things".to_string(),
        updated: at(updated),
    }
}

#[test]
fn feed_poller_emits_each_match_once() {
    let ch = channel(&[r"^\[LIVE\]"]);
    let feed = vec![entry("v1", "[LIVE] A", NOW), entry("v2", "Vlog", NOW)];
    let mut rss = RSS::new();
    let max_age = Span { seconds: 24 * HOUR, nanos: 0 };
    let first = rss.select(&ch, &feed, at(NOW), max_age);
    assert_eq!(first.len(), 1);
    assert_eq!(first[0].video_id, "v1");
    assert_eq!(first[0].title, "[LIVE] A");
    assert_eq!(first[0].video_picture, "https://img.example/v1.jpg");
    assert_eq!(first[0].channel_name, "Author");
    assert_eq!(first[0].channel_id, "UCabc");
    assert_eq!(first[0].channel_picture, Some("https://img.example/c.jpg".to_string()));
    assert_eq!(first[0].output_directory, "/out/abc");
    assert_eq!(first[0].recorder, "ytarchive");
    assert!(rss.has_seen("v1"));
    assert!(!rss.has_seen("v2"));
    let second = rss.select(&ch, &feed, at(NOW + 60), max_age);
    assert!(second.is_empty());
    assert!(rss.has_seen("v1"));
}

#[test]
fn old_entries_are_passed_over() {
    let ch = channel(&[r"^\[LIVE\]"]);
    let max_age = Span { seconds: 24 * HOUR, nanos: 0 };
    let feed = vec![entry("v3", "[LIVE] Old", NOW - 48 * 3600)];
    let mut rss = RSS::new();
    assert!(rss.select(&ch, &feed, at(NOW), max_age).is_empty());
    assert!(!rss.has_seen("v3"));
}

#[test]
fn cutoff_is_exact() {
    let ch = channel(&["LIVE"]);
    let max_age = Span { seconds: 10, nanos: 5 };
    let mut rss = RSS::new();
    let on_the_line = FeedEntry { updated: Timestamp { seconds: NOW - 10, nanos: 95 }, ..entry("a", "LIVE", 0) };
    let just_older = FeedEntry { updated: Timestamp { seconds: NOW - 10, nanos: 94 }, ..entry("b", "LIVE", 0) };
    let now = Timestamp { seconds: NOW, nanos: 100 };
    assert!(!on_the_line.updated.is_older_than(now, max_age));
    assert!(just_older.updated.is_older_than(now, max_age));
    let tasks = rss.select(&ch, &vec![on_the_line, just_older], now, max_age);
    assert_eq!(tasks.len(), 1);
    assert_eq!(tasks[0].video_id, "a");
}

#[test]
fn filters_are_alternatives() {
    let mut ch = channel(&["^Sing", "karaoke$"]);
    assert!(matches_filters(&ch, &entry("a", "Singing", NOW)));
    assert!(matches_filters(&ch, &entry("a", "late karaoke", NOW)));
    assert!(!matches_filters(&ch, &entry("a", "Chatting", NOW)));
    ch.filters = vec![];
    assert!(!matches_filters(&ch, &entry("a", "Singing", NOW)));
}

#[test]
fn fits_are_told_for_each_entry() {
    let ch = channel(&["^Sing"]);
    let feed = vec![entry("a", "Singing", NOW), entry("b", "Chatting", NOW), entry("c", "Sing", NOW)];
    assert_eq!(fits_each(&ch, &feed), vec![true, false, true]);
    assert_eq!(fits_each(&ch, &vec![]), Vec::<bool>::new());
}

#[test]
fn descriptions_count_only_where_asked() {
    let mut ch = channel(&[r"\[LIVE\]"]);
    let e = entry("a", "Vlog", NOW);
    assert!(!matches_filters(&ch, &e));
    ch.match_description = true;
    assert!(matches_filters(&ch, &e));
}

#[test]
fn a_pattern_that_does_not_compile_fits_nothing() {
    let ch = channel(&["(", "Vlog"]);
    assert!(!ch.has_valid_filters());
    assert!(matches_filters(&ch, &entry("a", "Vlog", NOW)));
    assert!(!matches_filters(&channel(&["("]), &entry("a", "(", NOW)));
    assert!(channel(&["Vlog"]).has_valid_filters());
}

#[test]
fn a_video_listed_twice_is_taken_once() {
    let ch = channel(&["LIVE"]);
    let feed = vec![
        entry("v1", "LIVE one", NOW),
        entry("v1", "LIVE one again", NOW),
        entry("v2", "LIVE two", NOW),
    ];
    let mut rss = RSS::new();
    let tasks = rss.run_one(&ch, &feed, Span { seconds: u64::MAX, nanos: 0 });
    assert_eq!(tasks.len(), 2);
    assert_eq!(tasks[0].title, "LIVE one");
    assert_eq!(tasks[1].video_id, "v2");
}

#[test]
fn feed_address() {
    assert_eq!(
        RSS::feed_url("UCabc"),
        "https://www.youtube.com/feeds/videos.xml?channel_id=UCabc"
    );
}

#[test]
fn waiting_between_polls() {
    assert_eq!(RSS::wait_step(true, Polled::Empty), Wait::Poll);
    assert_eq!(RSS::wait_step(true, Polled::Closed), Wait::Poll);
    assert_eq!(RSS::wait_step(false, Polled::Empty), Wait::Pause);
    assert_eq!(RSS::wait_step(false, Polled::Message), Wait::Look);
    assert_eq!(RSS::wait_step(false, Polled::Closed), Wait::Stop);
}

#[test]
fn selection_with_given_fits() {
    let ch = channel(&[]);
    let feed = vec![
        entry("a", "one", NOW),
        entry("b", "two", NOW),
        entry("a", "three", NOW),
        entry("c", "four", NOW - 100),
        entry("d", "five", NOW),
    ];
    let mut rss = RSS::new();
    let tasks = rss.select_among(
        &ch,
        &feed,
        &vec![true, false, true, true],
        at(NOW),
        Span { seconds: 50, nanos: 0 },
    );
    assert_eq!(tasks.len(), 1);
    assert_eq!(tasks[0].video_id, "a");
    assert_eq!(tasks[0].title, "one");
    assert!(rss.has_seen("a"));
    assert!(!rss.has_seen("b"));
    assert!(!rss.has_seen("c"));
    assert!(!rss.has_seen("d"));
    let again = rss.select_among(
        &ch,
        &feed,
        &vec![true, true, true, true, true],
        at(NOW),
        Span { seconds: 50, nanos: 0 },
    );
    assert_eq!(again.len(), 2);
    assert_eq!(again[0].video_id, "b");
    assert_eq!(again[1].video_id, "d");
}
