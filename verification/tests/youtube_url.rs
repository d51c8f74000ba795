use ytarchive_manager::module::web::{SubmitError, WebServer};
use ytarchive_manager::youtube::channel::{channel_url, picture_url_in};
use ytarchive_manager::youtube::video::{
    check_host, check_page_url, player_response_in, PageError,
};
use ytarchive_manager::youtube::{supported_host, URLParseError, UrlParts, URL};

#[test]
fn test_parse_url() {
    URL::parse("meow nyan").expect_err("Should not parse");
    URL::parse("https://random.website").expect_err("Should be unsupported");
    assert_eq!(
        URL::parse("https://youtu.be/IKKar5SS29E")
            .expect("Should parse")
            .video_id(),
        Some("IKKar5SS29E".into()),
    );
    assert_eq!(
        URL::parse("https://youtube.com/watch?v=stmZAThUl64&blah=1")
            .expect("Should parse")
            .video_id(),
        Some("stmZAThUl64".into()),
    );
    assert_eq!(
        URL::parse("https://www.youtube.com/watch?asdf=2&v=8ZdLXELdF9Q")
            .expect("Should parse")
            .video_id(),
        Some("8ZdLXELdF9Q".into()),
    );
    assert_eq!(
        URL::parse("https://www.youtube.com/channel/UCjLEmnpCNeisMxy134KPwWw")
            .expect("Should parse")
            .channel_id(),
        Some("UCjLEmnpCNeisMxy134KPwWw".into()),
    );
    assert_eq!(
        URL::parse("https://www.youtube.com/c/loudnessfete")
            .expect("Should parse")
            .channel_vanity(),
        Some("loudnessfete".into()),
    );
}

#[test]
fn parse_errors_tell_invalid_from_unsupported() {
    match URL::parse("meow nyan") {
        Err(URLParseError::InvalidUri(_, _)) => {}
        other => panic!("unexpected: {:?}", other),
    }
    match URL::parse("https://random.website") {
        Err(URLParseError::UnsupportedUri) => {}
        other => panic!("unexpected: {:?}", other),
    }
    match URL::parse("mailto:someone@youtube.com") {
        Err(URLParseError::UnsupportedUri) => {}
        other => panic!("unexpected: {:?}", other),
    }
    assert_eq!(URLParseError::UnsupportedUri.message(), "Unsupported URI");
    let invalid = URL::parse("meow nyan").expect_err("no address");
    match &invalid {
        URLParseError::InvalidUri(e, said) => {
            assert_eq!(said, &e.to_string());
            assert!(!said.is_empty());
            assert_eq!(invalid.message(), format!("Invalid URI: {}", e));
        }
        other => panic!("unexpected: {:?}", other),
    }
}

#[test]
fn parsed_parts_are_kept() {
    let url = URL::parse("https://www.youtube.com/playlist?list=PL123&x=%20y").expect("parses");
    assert_eq!(url.host, "www.youtube.com");
    assert_eq!(url.path, "/playlist");
    assert_eq!(
        url.query,
        vec![
            ("list".to_string(), "PL123".to_string()),
            ("x".to_string(), " y".to_string())
        ]
    );
    assert_eq!(url.playlist_id(), Some("PL123".to_string()));
    assert_eq!(url.video_id(), None);
    assert_eq!(url.channel_id(), None);
    assert_eq!(url.channel_vanity(), None);
}

#[test]
fn video_ids_of_other_shapes() {
    assert_eq!(
        URL::parse("https://www.youtube.com/live/abc123").expect("parses").video_id(),
        Some("abc123".to_string())
    );
    assert_eq!(
        URL::parse("https://www.youtube.com/watch?x=1").expect("parses").video_id(),
        None
    );
    assert_eq!(
        URL::parse("https://www.youtube.com/watch?v=a&v=b").expect("parses").video_id(),
        Some("a".to_string())
    );
    assert_eq!(
        URL::parse("https://youtu.be").expect("parses").video_id(),
        Some("".to_string())
    );
    assert_eq!(
        URL::parse("https://www.youtube.com/channel").expect("parses").channel_id(),
        None
    );
    assert_eq!(
        URL::parse("https://www.youtube.com/channel/").expect("parses").channel_id(),
        Some("".to_string())
    );
    assert_eq!(
        URL::parse("https://www.youtube.com/c/name/videos").expect("parses").channel_vanity(),
        Some("name".to_string())
    );
}

#[test]
fn supported_hosts() {
    assert!(supported_host("www.youtube.com"));
    assert!(supported_host("youtube.com"));
    assert!(supported_host("youtu.be"));
    assert!(!supported_host("m.youtube.com"));
    assert!(!supported_host(""));
}

#[test]
fn channel_page_names_its_picture() {
    assert_eq!(channel_url("UCabc"), "https://www.youtube.com/channel/UCabc");
    let page = r#"<head><meta name="twitter:image" content="https://img.example/a.jpg"><meta name="x" content="y"></head>"#;
    assert_eq!(picture_url_in(page), Some("https://img.example/a.jpg".to_string()));
    assert_eq!(picture_url_in("<head></head>"), None);
}

#[test]
fn video_page_holds_the_player_response() {
    let html = r#"<script>var ytInitialPlayerResponse = {"videoDetails":{"videoId":"v1"}};var x = 1;</script>"#;
    assert_eq!(
        player_response_in(html),
        Some(r#"{"videoDetails":{"videoId":"v1"}}"#.to_string())
    );
    assert_eq!(player_response_in("<html></html>"), None);
}

#[test]
fn page_urls_are_checked() {
    assert_eq!(check_page_url("https://www.youtube.com/watch?v=v1"), Ok(()));
    assert_eq!(check_page_url("https://youtu.be/v1"), Ok(()));
    assert_eq!(check_page_url("https://example.org/watch?v=v1"), Err(PageError::UnsupportedUrl));
    assert_eq!(check_page_url("/watch?v=v1"), Err(PageError::InvalidUrl));
    assert_eq!(check_page_url("not a uri"), Err(PageError::UnparsableUrl));
}

#[test]
fn submitted_addresses_become_watch_addresses() {
    assert_eq!(
        WebServer::video_page_url("https://youtu.be/IKKar5SS29E").expect("a video"),
        "https://www.youtube.com/watch?v=IKKar5SS29E"
    );
    match WebServer::video_page_url("https://www.youtube.com/c/loudnessfete") {
        Err(SubmitError::NotAVideo) => {}
        other => panic!("unexpected: {:?}", other),
    }
    match WebServer::video_page_url("https://random.website/watch?v=1") {
        Err(SubmitError::BadUrl(URLParseError::UnsupportedUri)) => {}
        other => panic!("unexpected: {:?}", other),
    }
    match WebServer::video_page_url("meow nyan") {
        Err(SubmitError::BadUrl(URLParseError::InvalidUri(_, _))) => {}
        other => panic!("unexpected: {:?}", other),
    }
}

#[test]
fn addresses_from_parts() {
    let parts = |host: Option<&str>| UrlParts {
        host: host.map(|h| h.to_string()),
        path: "/watch".to_string(),
        query: vec![("v".to_string(), "x".to_string())],
    };
    let url = URL::from_parts(parts(Some("youtube.com"))).expect("supported");
    assert_eq!(url.host, "youtube.com");
    assert_eq!(url.path, "/watch");
    assert_eq!(url.video_id(), Some("x".to_string()));
    match URL::from_parts(parts(Some("example.org"))) {
        Err(URLParseError::UnsupportedUri) => {}
        other => panic!("unexpected: {:?}", other),
    }
    match URL::from_parts(parts(None)) {
        Err(URLParseError::UnsupportedUri) => {}
        other => panic!("unexpected: {:?}", other),
    }
}

#[test]
fn hosts_are_checked() {
    assert_eq!(check_host(&None), Err(PageError::UnparsableUrl));
    assert_eq!(check_host(&Some(None)), Err(PageError::InvalidUrl));
    assert_eq!(check_host(&Some(Some("youtu.be".to_string()))), Ok(()));
    assert_eq!(
        check_host(&Some(Some("youtu.be.example".to_string()))),
        Err(PageError::UnsupportedUrl)
    );
}
