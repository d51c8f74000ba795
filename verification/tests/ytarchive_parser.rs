use ytarchive_manager::module::recorder::ytarchive::{
    drop_erase_line, read, settle, strip_ansi, Line, YTAOutputParser,
};
use ytarchive_manager::module::recorder::RecorderState;
use ytarchive_manager::time::Timestamp;

fn at(seconds: i64) -> Timestamp {
    Timestamp { seconds, nanos: 0 }
}

#[test]
fn happy_path_reaches_finished() {
    let mut parser = YTAOutputParser::new();
    assert_eq!(parser.video_status.state, RecorderState::Idle);

    parser.parse_line_at("ytarchive 0.3.1-15663af", at(1));
    assert_eq!(parser.video_status.version, Some("0.3.1-15663af".to_string()));
    assert_eq!(parser.video_status.state, RecorderState::Idle);

    parser.parse_line_at(
        "Stream starts at 2022-03-14T14:00:00+00:00 in 100 seconds. Waiting for this time to elapse...",
        at(2),
    );
    assert_eq!(
        parser.video_status.state,
        RecorderState::Waiting(Some(Timestamp { seconds: 1647266400, nanos: 0 }))
    );

    parser.parse_line_at("Selected quality: 1080p60 (h264)", at(3));
    assert_eq!(parser.video_status.video_quality, Some("1080p60 (h264)".to_string()));

    parser.parse_line_at(
        "Video Fragments: 10; Audio Fragments: 10; Total Downloaded: 1.00MiB",
        at(4),
    );
    assert_eq!(parser.video_status.state, RecorderState::Recording);
    assert_eq!(parser.video_status.video_fragments, Some(10));
    assert_eq!(parser.video_status.audio_fragments, Some(10));
    assert_eq!(parser.video_status.total_size, Some("1.00MiB".to_string()));

    parser.parse_line_at("Muxing final file...", at(5));
    assert_eq!(parser.video_status.state, RecorderState::Muxing);

    parser.parse_line_at("Final file: /w/out.mp4", at(6));
    assert_eq!(parser.video_status.state, RecorderState::Finished);
    assert_eq!(parser.video_status.output_file, Some("/w/out.mp4".to_string()));
    assert_eq!(parser.video_status.version, Some("0.3.1-15663af".to_string()));
    assert_eq!(parser.video_status.video_quality, Some("1080p60 (h264)".to_string()));
    assert_eq!(parser.video_status.video_fragments, Some(10));
    assert_eq!(parser.video_status.audio_fragments, Some(10));
    assert_eq!(parser.video_status.last_output, Some("Final file: /w/out.mp4".to_string()));
    assert_eq!(parser.video_status.last_update, at(6));
}

#[test]
fn strip_ansi_removes_control_sequences() {
    assert_eq!(strip_ansi("\u{1b}[H1.00MiB"), "1.00MiB");
    assert_eq!(strip_ansi("\u{1b}[31mred\u{1b}[0m"), "red");
    assert_eq!(strip_ansi("\u{1b}[1;32mbold\u{1b}[m text"), "bold text");
    assert_eq!(strip_ansi("a\u{1b}[2Kb\u{1b}[10;20Hc"), "abc");
    assert_eq!(strip_ansi("\u{9b}1Ax"), "x");
    assert_eq!(strip_ansi("\u{1b}]0;title\u{7}x"), "x");
    assert_eq!(strip_ansi("\u{1b}(B1.00MiB"), "1.00MiB");
    assert_eq!(strip_ansi("1.00\u{1b}MMiB"), "1.00MiB");
    assert_eq!(strip_ansi("plain [1m \\d"), "plain [1m \\d");
    assert_eq!(strip_ansi(""), "");
}

#[test]
fn strip_ansi_removes_erase_line() {
    assert_eq!(strip_ansi("1.00MiB\u{1b}[K"), "1.00MiB");
    assert_eq!(strip_ansi("\u{1b}[K1.00MiB"), "1.00MiB");
    assert_eq!(strip_ansi("x\u{1b}\u{1b}[K[K"), "x");
    assert_eq!(drop_erase_line("\u{1b}[Kx".to_string()), "\u{1b}[Kx");
}

#[test]
fn progress_lines_are_idempotent() {
    let line = "Video Fragments: 1215; Audio Fragments: 1215; Total Downloaded: 133.12MiB";
    let mut once = YTAOutputParser::new();
    once.parse_line_at(line, at(9));
    let mut twice = YTAOutputParser::new();
    twice.parse_line_at(line, at(3));
    twice.parse_line_at(line, at(9));
    assert_eq!(format!("{:?}", once.video_status), format!("{:?}", twice.video_status));
    assert_eq!(once.video_status.video_fragments, Some(1215));
    assert_eq!(once.video_status.total_size, Some("133.12MiB".to_string()));
}

#[test]
fn audio_progress_lines() {
    let mut parser = YTAOutputParser::new();
    parser.parse_line_at("Audio Fragments: 7; Total Downloaded: 2.5MiB\u{1b}[K", at(1));
    assert_eq!(parser.video_status.state, RecorderState::Recording);
    assert_eq!(parser.video_status.audio_fragments, Some(7));
    assert_eq!(parser.video_status.video_fragments, None);
    assert_eq!(parser.video_status.total_size, Some("2.5MiB".to_string()));
}

#[test]
fn malformed_progress_lines() {
    let mut parser = YTAOutputParser::new();
    parser.parse_line_at("Video Fragments: 3; Audio Fragments: 4; Total Downloaded: 1KiB", at(1));
    parser.parse_line_at("Video Fragments: x", at(2));
    assert_eq!(parser.video_status.video_fragments, None);
    assert_eq!(parser.video_status.audio_fragments, Some(4));
    assert_eq!(parser.video_status.total_size, Some("1KiB".to_string()));
    parser.parse_line_at("Video Fragments: 5; nothing; also nothing", at(3));
    assert_eq!(parser.video_status.video_fragments, Some(5));
    assert_eq!(parser.video_status.audio_fragments, None);
    assert_eq!(parser.video_status.total_size, Some("".to_string()));
}

#[test]
fn time_stamped_lines_lose_their_stamp() {
    let mut parser = YTAOutputParser::new();
    parser.parse_line_at("2024/04/16 16:25:31 ytarchive 0.4.0-abc", at(1));
    assert_eq!(parser.video_status.version, Some("0.4.0-abc".to_string()));
    parser.parse_line_at("2024/04/16 16:25:32 Selected quality: 720p (h264)  ", at(2));
    assert_eq!(parser.video_status.video_quality, Some("720p (h264)".to_string()));
    parser.parse_line_at("2024/04/16 16:25:33 Muxing final file...", at(3));
    assert_eq!(parser.video_status.state, RecorderState::Muxing);
    parser.parse_line_at("2024/04/16 16:25:34 Final file: /w/a b.mp4", at(4));
    assert_eq!(parser.video_status.state, RecorderState::Finished);
    assert_eq!(parser.video_status.output_file, Some("/w/a b.mp4".to_string()));
    assert_eq!(
        parser.video_status.last_output,
        Some("2024/04/16 16:25:34 Final file: /w/a b.mp4".to_string())
    );
}

#[test]
fn short_or_unstamped_lines_are_read_whole() {
    let mut parser = YTAOutputParser::new();
    parser.parse_line_at("2024/04/16 16:25:31 ", at(1));
    assert_eq!(parser.video_status.state, RecorderState::Idle);
    parser.parse_line_at("abcd/ Muxing final file and more than twenty", at(2));
    assert_eq!(parser.video_status.state, RecorderState::Idle);
    parser.parse_line_at("abcd/efghijklmnopqrMuxing final file", at(2));
    assert_eq!(parser.video_status.state, RecorderState::Idle);
    parser.parse_line_at("abcd/efghijklmnopqrsMuxing final file", at(2));
    assert_eq!(parser.video_status.state, RecorderState::Muxing);
    parser.parse_line_at("abcd/efghijklmnopq\u{e9}Final file: x", at(3));
    assert_eq!(parser.video_status.state, RecorderState::Finished);
    assert_eq!(parser.video_status.output_file, Some("x".to_string()));
    parser.parse_line_at("abcd/efghijklmnopqr\u{e9}Livestream has been processed", at(4));
    assert_eq!(parser.video_status.state, RecorderState::Finished);
}

#[test]
fn version_and_quality_are_taken_once() {
    let mut parser = YTAOutputParser::new();
    parser.parse_line_at("ytarchive 0.3.1", at(1));
    parser.parse_line_at("ytarchive 0.3.2", at(2));
    assert_eq!(parser.video_status.version, Some("0.3.1".to_string()));
    parser.parse_line_at("Selected quality: best", at(3));
    parser.parse_line_at("Selected quality: worst", at(4));
    assert_eq!(parser.video_status.video_quality, Some("best".to_string()));
    parser.parse_line_at("ytarchive User Interrupt", at(5));
    assert_eq!(parser.video_status.state, RecorderState::Interrupted);
}

#[test]
fn messages_name_states() {
    let cases = [
        ("Stream is 30 seconds late...", RecorderState::Waiting(None)),
        ("Waiting for stream, retrying in 15 seconds", RecorderState::Waiting(None)),
        ("Stream starts at soon", RecorderState::Waiting(None)),
        ("Stream starts at 2022-03-14T14:00:00+0000 in 100 seconds and so on", RecorderState::Waiting(None)),
        (
            "Stream starts at 2022-03-14T16:00:00+02:00 in 100 seconds",
            RecorderState::Waiting(Some(Timestamp { seconds: 1647266400, nanos: 0 })),
        ),
        ("Muxing final file...", RecorderState::Muxing),
        ("Livestream has been processed.", RecorderState::AlreadyProcessed),
        ("Livestream has ended and is being processed.", RecorderState::Ended),
        ("This video is private, use yt-dlp to download it.", RecorderState::Ended),
        ("Final file: use yt-dlp to download it.", RecorderState::Ended),
        ("Final file: /w/out.mp4", RecorderState::Finished),
        ("User Interrupt, stopping", RecorderState::Interrupted),
        ("fatal: User Interrupt", RecorderState::Interrupted),
        ("Error retrieving player response: 403", RecorderState::Errored),
        ("unable to retrieve the stream", RecorderState::Errored),
        ("there was an error writing the muxcmd file", RecorderState::Errored),
        ("Something must have gone wrong with ffmpeg", RecorderState::Errored),
        ("At least one error occurred", RecorderState::Errored),
    ];
    for (line, state) in cases {
        let mut parser = YTAOutputParser::new();
        parser.parse_line_at(line, at(1));
        assert_eq!(parser.video_status.state, state, "{}", line);
    }
}

#[test]
fn other_lines_change_only_the_last_output() {
    let noise = [
        "",
        "   ",
        "Loaded cookie file cookies.txt",
        "Video Title: something",
        "Channel: someone",
        "Waiting for this time to elapse...",
        "Download Finished",
        "error retrieving player response",
        "something never seen before",
    ];
    for line in noise {
        let mut parser = YTAOutputParser::new();
        parser.parse_line_at("Stream is late", at(1));
        parser.parse_line_at(line, at(2));
        assert_eq!(parser.video_status.state, RecorderState::Waiting(None), "{}", line);
        assert_eq!(parser.video_status.last_output, Some(line.to_string()));
        assert_eq!(parser.video_status.last_update, at(2));
        assert_eq!(parser.video_status.output_file, None);
    }
}

#[test]
fn the_clock_stamps_each_line() {
    let mut parser = YTAOutputParser::new();
    let before = parser.video_status.last_update;
    parser.parse_line("Muxing final file...");
    assert_eq!(parser.video_status.state, RecorderState::Muxing);
    assert!(parser.video_status.last_update.seconds >= before.seconds);
    assert!(before.seconds > 1_600_000_000);
}

#[test]
fn a_recording_that_has_begun_does_not_wait_again() {
    let mut parser = YTAOutputParser::new();
    parser.parse_line_at("Video Fragments: 1; Audio Fragments: 1; Total Downloaded: 1KiB", at(1));
    parser.parse_line_at("Stream is 30 seconds late...", at(2));
    assert_eq!(parser.video_status.state, RecorderState::Recording);
    assert_eq!(
        parser.video_status.last_output,
        Some("Stream is 30 seconds late...".to_string())
    );
    assert_eq!(parser.video_status.last_update, at(2));
    assert_eq!(parser.video_status.video_fragments, Some(1));
    parser.parse_line_at("Stream starts at 2022-03-14T14:00:00+00:00 in 100 seconds", at(3));
    assert_eq!(parser.video_status.state, RecorderState::Recording);
    parser.parse_line_at("Muxing final file...", at(4));
    assert_eq!(parser.video_status.state, RecorderState::Muxing);
    parser.parse_line_at("Waiting for stream, retrying", at(5));
    assert_eq!(parser.video_status.state, RecorderState::Muxing);
    parser.parse_line_at("Final file: /w/out.mp4", at(6));
    assert_eq!(parser.video_status.state, RecorderState::Finished);
    parser.parse_line_at("Stream is 30 seconds late...", at(7));
    assert_eq!(parser.video_status.state, RecorderState::Finished);
    assert_eq!(parser.video_status.output_file, Some("/w/out.mp4".to_string()));
}

#[test]
fn a_terminal_state_is_kept() {
    for last in [
        "Final file: /w/out.mp4",
        "Livestream has been processed.",
        "Livestream has ended and is being processed.",
        "User Interrupt",
        "At least one error occurred",
    ] {
        let mut parser = YTAOutputParser::new();
        parser.parse_line_at(last, at(1));
        let state = parser.video_status.state;
        let file = parser.video_status.output_file.clone();
        for line in [
            "Video Fragments: 9; Audio Fragments: 9; Total Downloaded: 9KiB",
            "Stream is late",
            "Muxing final file...",
            "Final file: /w/other.mp4",
            "Livestream has been processed.",
            "User Interrupt",
            "At least one error occurred",
            "something else",
        ] {
            if line == last || (line.starts_with("Final file: ") && last.starts_with("Final file: ")) {
                continue;
            }
            parser.parse_line_at(line, at(2));
            assert_eq!(parser.video_status.state, state, "{} then {}", last, line);
            assert_eq!(parser.video_status.output_file, file);
            assert_eq!(parser.video_status.video_fragments, None);
            assert_eq!(parser.video_status.total_size, None);
            assert_eq!(parser.video_status.last_output, Some(line.to_string()));
            assert_eq!(parser.video_status.last_update, at(2));
        }
    }
}

#[test]
fn later_states_are_reached_at_once() {
    let mut parser = YTAOutputParser::new();
    parser.parse_line_at("Video Fragments: 1; Audio Fragments: 1; Total Downloaded: 1KiB", at(1));
    parser.parse_line_at("Final file: /w/out.mp4", at(2));
    assert_eq!(parser.video_status.state, RecorderState::Finished);
    assert_eq!(parser.video_status.output_file, Some("/w/out.mp4".to_string()));
    let mut parser = YTAOutputParser::new();
    parser.parse_line_at("Muxing final file...", at(1));
    assert_eq!(parser.video_status.state, RecorderState::Muxing);
    parser.parse_line_at("Video Fragments: 2; Audio Fragments: 2; Total Downloaded: 2KiB", at(2));
    assert_eq!(parser.video_status.state, RecorderState::Recording);
    assert_eq!(parser.video_status.video_fragments, Some(2));
    let mut parser = YTAOutputParser::new();
    parser.parse_line_at("Stream is late", at(1));
    parser.parse_line_at("Stream starts at 2022-03-14T14:00:00+00:00 in 100 seconds", at(2));
    assert_eq!(
        parser.video_status.state,
        RecorderState::Waiting(Some(Timestamp { seconds: 1647266400, nanos: 0 }))
    );
    parser.parse_line_at("Livestream has been processed.", at(3));
    assert_eq!(parser.video_status.state, RecorderState::AlreadyProcessed);
}

#[test]
fn the_graph_of_states() {
    let waiting = RecorderState::Waiting(None);
    let all = [
        RecorderState::Idle,
        waiting,
        RecorderState::Waiting(Some(at(1))),
        RecorderState::Recording,
        RecorderState::Muxing,
        RecorderState::Finished,
        RecorderState::AlreadyProcessed,
        RecorderState::Ended,
        RecorderState::Interrupted,
        RecorderState::Errored,
    ];
    for a in all {
        assert!(a.allows(a));
        assert!(RecorderState::Idle.allows(a));
        assert_eq!(waiting.allows(a), a != RecorderState::Idle);
        let begun = !matches!(a, RecorderState::Idle | RecorderState::Waiting(_));
        assert_eq!(RecorderState::Recording.allows(a), begun);
        assert_eq!(RecorderState::Muxing.allows(a), begun);
        for end in [
            RecorderState::Finished,
            RecorderState::AlreadyProcessed,
            RecorderState::Ended,
            RecorderState::Interrupted,
            RecorderState::Errored,
        ] {
            assert_eq!(end.allows(a), a == end);
        }
    }
}

#[test]
fn lines_are_read_before_they_are_cleaned() {
    assert_eq!(
        read(false, false, "ytarchive 0.3.1\u{1b}[K"),
        Line::Version("0.3.1\u{1b}[K".to_string())
    );
    assert_eq!(read(true, false, "ytarchive 0.3.1"), Line::Other);
    assert_eq!(read(true, true, "something never seen before"), Line::Other);
    for noise in [
        "",
        "  \t",
        "x Loaded cookie file y",
        "Video Title: t",
        "Channel: c",
        "Waiting for this time to elapse...",
        "Download Finished",
        "2024/04/16 16:25:31 Download Finished",
    ] {
        assert_eq!(read(true, true, noise), Line::Noise, "{}", noise);
    }
    assert_eq!(
        read(false, false, "Selected quality: best"),
        Line::Quality("best".to_string())
    );
    assert_eq!(read(false, true, "Selected quality: best"), Line::Other);
    assert_eq!(
        read(true, true, "Stream starts at 2022-03-14T14:00:00+00:00 in 100 seconds"),
        Line::Starts(Some("2022-03-14T14:00:00+00:00".to_string()))
    );
    assert_eq!(read(true, true, "Stream starts at 2022-03-14"), Line::Starts(None));
    assert_eq!(
        read(true, true, "Final file: /w/out.mp4\u{1b}[K"),
        Line::FinalFile("/w/out.mp4\u{1b}[K".to_string())
    );
    assert_eq!(
        read(true, true, "Video Fragments: 3; Audio Fragments: x; Total Downloaded: 1KiB "),
        Line::Progress { video: Some(Some(3)), audio: Some(None), size: Some("1KiB".to_string()) }
    );
    assert_eq!(
        read(true, true, "Audio Fragments: 4"),
        Line::Progress { video: None, audio: Some(Some(4)), size: None }
    );
}

#[test]
fn settling_cleans_texts_and_reads_times() {
    assert_eq!(
        settle(Line::Version("0.3.1\u{1b}[K".to_string())),
        Line::Version("0.3.1".to_string())
    );
    assert_eq!(
        settle(Line::FinalFile("\u{1b}(B/w/a.mp4".to_string())),
        Line::FinalFile("/w/a.mp4".to_string())
    );
    assert_eq!(
        settle(Line::Progress { video: None, audio: Some(Some(1)), size: Some("1KiB\u{1b}[K".to_string()) }),
        Line::Progress { video: None, audio: Some(Some(1)), size: Some("1KiB".to_string()) }
    );
    assert_eq!(
        settle(Line::Starts(Some("2022-03-14T14:00:00+00:00".to_string()))),
        Line::State(RecorderState::Waiting(Some(Timestamp { seconds: 1647266400, nanos: 0 })))
    );
    assert_eq!(
        settle(Line::Starts(Some("2022-03-14T14:00:00.5+00:00 ".to_string()))),
        Line::State(RecorderState::Waiting(None))
    );
    assert_eq!(settle(Line::Starts(None)), Line::State(RecorderState::Waiting(None)));
    assert_eq!(settle(Line::Other), Line::Other);
    assert_eq!(settle(Line::Noise), Line::Noise);
    assert_eq!(settle(Line::State(RecorderState::Muxing)), Line::State(RecorderState::Muxing));
    assert_eq!(drop_erase_line("x\u{1b}[K".to_string()), "x");
    assert_eq!(drop_erase_line("x\u{1b}[K ".to_string()), "x\u{1b}[K ");
}

#[test]
fn what_a_line_says_is_taken_note_of() {
    let mut parser = YTAOutputParser::new();
    parser.apply(Line::Progress { video: Some(Some(3)), audio: None, size: Some("1KiB".to_string()) });
    assert_eq!(parser.video_status.state, RecorderState::Recording);
    assert_eq!(parser.video_status.video_fragments, Some(3));
    assert_eq!(parser.video_status.audio_fragments, None);
    parser.apply(Line::Progress { video: Some(None), audio: Some(Some(2)), size: None });
    assert_eq!(parser.video_status.video_fragments, None);
    assert_eq!(parser.video_status.audio_fragments, Some(2));
    assert_eq!(parser.video_status.total_size, Some("1KiB".to_string()));
    parser.apply(Line::Version("v".to_string()));
    parser.apply(Line::Quality("q".to_string()));
    parser.apply(Line::Other);
    parser.apply(Line::Noise);
    assert_eq!(parser.video_status.version, Some("v".to_string()));
    assert_eq!(parser.video_status.video_quality, Some("q".to_string()));
    assert_eq!(parser.video_status.state, RecorderState::Recording);
    parser.apply(Line::Starts(None));
    assert_eq!(parser.video_status.state, RecorderState::Recording);
    parser.apply(Line::State(RecorderState::Waiting(None)));
    assert_eq!(parser.video_status.state, RecorderState::Recording);
    parser.apply(Line::FinalFile("f".to_string()));
    assert_eq!(parser.video_status.state, RecorderState::Finished);
    assert_eq!(parser.video_status.output_file, Some("f".to_string()));
    parser.apply(Line::State(RecorderState::Ended));
    assert_eq!(parser.video_status.state, RecorderState::Finished);
    parser.apply(Line::FinalFile("g".to_string()));
    assert_eq!(parser.video_status.state, RecorderState::Finished);
    assert_eq!(parser.video_status.output_file, Some("g".to_string()));
    parser.apply(Line::Progress { video: Some(Some(9)), audio: None, size: None });
    assert_eq!(parser.video_status.state, RecorderState::Finished);
    assert_eq!(parser.video_status.video_fragments, None);
    assert_eq!(parser.video_status.last_output, None);
    let mut waiting = YTAOutputParser::new();
    waiting.apply(Line::Starts(None));
    assert_eq!(waiting.video_status.state, RecorderState::Waiting(None));
    waiting.apply(Line::State(RecorderState::Ended));
    assert_eq!(waiting.video_status.state, RecorderState::Ended);
}
