//! What the video page tells about a video.

use super::{is_supported_host, supported_host};
use crate::pattern::{capture, regex_capture, regex_valid, text_of};
use vstd::prelude::*;

verus! {

/// The player's initial response, as far as it is read.
#[derive(Clone, Debug)]
pub struct InitialPlayerResponse {
    pub video_details: InitialPlayerResponseVideoDetails,
}

/// What the response tells of the video.
#[derive(Clone, Debug)]
pub struct InitialPlayerResponseVideoDetails {
    pub video_id: String,
    pub title: String,
    pub channel_id: String,
    pub author: String,
    pub thumbnail: InitialPlayerResponseVideoDetailsThumbnail,
}

/// The video's pictures.
#[derive(Clone, Debug)]
pub struct InitialPlayerResponseVideoDetailsThumbnail {
    pub thumbnails: Vec<InitialPlayerResponseVideoDetailsThumbnailThumbnail>,
}

/// One picture of the video.
#[derive(Clone, Debug)]
pub struct InitialPlayerResponseVideoDetailsThumbnailThumbnail {
    pub url: String,
    pub width: u32,
    pub height: u32,
}

/// The pattern that finds the player's initial response in a video page.
pub const RESPONSE_PATTERN: &'static str = r#"ytInitialPlayerResponse = (.*?});"#;

/// Whether `http::Uri`'s `from_str` accepts a text.
pub uninterp spec fn uri_valid(text: Seq<char>) -> bool;

/// The host of the address that `http::Uri`'s `from_str` reads from a text,
/// as `Uri::host` gives it.
pub uninterp spec fn uri_host(text: Seq<char>) -> Option<Seq<char>>;

/// Parses a text as an `http::Uri`, which `actix_web` hands on, and asks
/// `Uri::host` for its host. `None` where the text does not parse; otherwise
/// the host, if the address has one. The contract names both.
#[verifier::external_body]
pub(crate) fn host_of_uri(text: &str) -> (r: Option<Option<String>>)
    ensures
        r is Some <==> uri_valid(text@),
        r matches Some(h) ==> text_of(h) == uri_host(text@),
{
    match text.parse::<actix_web::http::Uri>() {
        Ok(uri) => Some(uri.host().map(|h| h.to_string())),
        Err(_) => None,
    }
}

/// Why a video's page is not fetched.
#[derive(Clone, Copy, Debug, PartialEq, Eq, Structural)]
pub enum PageError {
    /// The address does not parse.
    UnparsableUrl,
    /// The address has no host.
    InvalidUrl,
    /// The address is not the video platform's.
    UnsupportedUrl,
}

/// Whether a video's page may be fetched from an address of which `parsed`
/// tells whether it parses and what its host is, and if not, why.
pub open spec fn host_check(parsed: Option<Option<Seq<char>>>) -> Result<(), PageError> {
    match parsed {
        None => Err(PageError::UnparsableUrl),
        Some(None) => Err(PageError::InvalidUrl),
        Some(Some(h)) => if is_supported_host(h) {
            Ok(())
        } else {
            Err(PageError::UnsupportedUrl)
        },
    }
}

/// Whether a video's page may be fetched from an address, and if not, why.
pub open spec fn page_check(url: Seq<char>) -> Result<(), PageError> {
    host_check(
        if uri_valid(url) {
            Some(uri_host(url))
        } else {
            None
        },
    )
}

/// The view of what parsing an address gave.
pub open spec fn parsed_view(parsed: Option<Option<String>>) -> Option<Option<Seq<char>>> {
    match parsed {
        Some(h) => Some(text_of(h)),
        None => None,
    }
}

/// Whether a video's page may be fetched from an address that did not
/// parse (`None`), has no host (`Some(None)`), or has the host given.
pub fn check_host(parsed: &Option<Option<String>>) -> (r: Result<(), PageError>)
    ensures
        r == host_check(parsed_view(*parsed)),
{
    match parsed {
        None => Err(PageError::UnparsableUrl),
        Some(None) => Err(PageError::InvalidUrl),
        Some(Some(h)) => if supported_host(h.as_str()) {
            Ok(())
        } else {
            Err(PageError::UnsupportedUrl)
        },
    }
}

/// Whether a video's page may be fetched from an address: it must parse,
/// have a host, and the host must be the video platform's.
pub fn check_page_url(url: &str) -> (r: Result<(), PageError>)
    ensures
        r == page_check(url@),
{
    let parsed = host_of_uri(url);
    check_host(&parsed)
}

/// The player's initial response that a video page holds, as JSON text.
pub open spec fn response_in(html: Seq<char>) -> Option<Seq<char>> {
    if regex_valid(RESPONSE_PATTERN@) {
        regex_capture(RESPONSE_PATTERN@, html, 1)
    } else {
        None
    }
}

/// The player's initial response, read from a video page as JSON text;
/// `None` where the page holds none.
pub fn player_response_in(html: &str) -> (r: Option<String>)
    ensures
        text_of(r) == response_in(html@),
{
    capture(RESPONSE_PATTERN, html, 1)
}

} // verus!
