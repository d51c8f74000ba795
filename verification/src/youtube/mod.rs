//! What the library knows of the video platform's addresses and pages.

use crate::pattern::text_of;
use crate::text::{after_prefix, begins, from_chars, nth_field, same_text, to_chars};
use url::Url;
use vstd::prelude::*;
use vstd::slice::*;
use vstd::string::*;

pub mod channel;
pub mod video;

verus! {

#[verifier::external_type_specification]
#[verifier::external_body]
pub struct ExParseError(url::ParseError);

/// Whether `url::Url::parse` accepts a text.
pub uninterp spec fn url_valid(text: Seq<char>) -> bool;

/// The host of the address that `Url::parse` reads from a text, written as
/// `Url::host` gives it; `None` where the address has no host.
pub uninterp spec fn url_host(text: Seq<char>) -> Option<Seq<char>>;

/// The path of the address that `Url::parse` reads from a text, as
/// `Url::path` gives it.
pub uninterp spec fn url_path(text: Seq<char>) -> Seq<char>;

/// The keys and values of the query of the address that `Url::parse` reads
/// from a text, in order, as `Url::query_pairs` gives them.
pub uninterp spec fn url_query(text: Seq<char>) -> Seq<(Seq<char>, Seq<char>)>;

/// The texts of a sequence of pairs of strings.
pub open spec fn pairs(q: Seq<(String, String)>) -> Seq<(Seq<char>, Seq<char>)> {
    q.map_values(|p: (String, String)| (p.0@, p.1@))
}

/// The parts of an address that the library reads.
#[derive(Debug)]
pub struct UrlParts {
    pub host: Option<String>,
    pub path: String,
    pub query: Vec<(String, String)>,
}

/// What the `Display` of `url::ParseError` writes for the error with which
/// `Url::parse` refuses a text.
pub uninterp spec fn url_error_text(text: Seq<char>) -> Seq<char>;

/// Parses a text with `Url::parse`. Where that fails, its error comes back
/// with what its `Display` writes. Otherwise the address's host, path and
/// query pairs come back as the methods `host`, `path` and `query_pairs`
/// give them. The contract names each of these.
#[verifier::external_body]
pub(crate) fn parse_parts(text: &str) -> (r: Result<UrlParts, (url::ParseError, String)>)
    ensures
        r is Ok <==> url_valid(text@),
        r matches Ok(p) ==> text_of(p.host) == url_host(text@) && p.path@ == url_path(text@)
            && pairs(p.query@) == url_query(text@),
        r matches Err(e) ==> e.1@ == url_error_text(text@),
{
    match Url::parse(text) {
        Ok(url) => Ok(
            UrlParts {
                host: url.host().map(|h| h.to_string()),
                path: url.path().to_string(),
                query: url.query_pairs().map(|(k, v)| (k.into_owned(), v.into_owned())).collect(),
            },
        ),
        Err(e) => Err((e, e.to_string())),
    }
}

/// Whether a host is one of the video platform's.
pub open spec fn is_supported_host(host: Seq<char>) -> bool {
    host == "www.youtube.com"@ || host == "youtube.com"@ || host == "youtu.be"@
}

/// Whether a host is one of the video platform's.
pub fn supported_host(host: &str) -> (b: bool)
    ensures
        b == is_supported_host(host@),
{
    let h = to_chars(host);
    same_text(h.as_slice(), to_chars("www.youtube.com").as_slice()) || same_text(
        h.as_slice(),
        to_chars("youtube.com").as_slice(),
    ) || same_text(h.as_slice(), to_chars("youtu.be").as_slice())
}

/// The value of the first pair of a query whose key is `key`.
pub open spec fn query_value(q: Seq<(Seq<char>, Seq<char>)>, key: Seq<char>) -> Option<Seq<char>>
    decreases q.len(),
{
    if q.len() == 0 {
        None
    } else if q[0].0 == key {
        Some(q[0].1)
    } else {
        query_value(q.drop_first(), key)
    }
}

/// The `n`-th segment of a path: what `/` cuts from the path after its
/// leading `/`. A path that does not begin with `/` has no segments.
pub open spec fn path_segment(path: Seq<char>, n: nat) -> Option<Seq<char>> {
    if path.len() > 0 && path[0] == '/' {
        crate::text::field(path.drop_first(), '/', n)
    } else {
        None
    }
}

/// What follows the segment `kind` where it is a path's first segment.
pub open spec fn segment_after(path: Seq<char>, kind: Seq<char>) -> Option<Seq<char>> {
    if path_segment(path, 0) == Some(kind) {
        path_segment(path, 1)
    } else {
        None
    }
}

/// The video that an address names: the path of a `youtu.be` address, what
/// follows `/live/`, or the `v` of a `/watch` address.
pub open spec fn video_id_of(
    host: Seq<char>,
    path: Seq<char>,
    query: Seq<(Seq<char>, Seq<char>)>,
) -> Option<Seq<char>> {
    if host == "youtu.be"@ {
        Some(if path.len() > 0 {
            path.skip(1)
        } else {
            path
        })
    } else if "/live/"@.is_prefix_of(path) {
        Some(path.skip("/live/"@.len() as int))
    } else if path == "/watch"@ {
        query_value(query, "v"@)
    } else {
        None
    }
}

/// An address of the video platform: of a video (`/watch?v=`, `/live/`,
/// `youtu.be/`), a channel (`/channel/`, `/c/`) or a playlist
/// (`/playlist?list=`).
#[derive(Debug)]
pub struct URL {
    pub host: String,
    pub path: String,
    pub query: Vec<(String, String)>,
}

/// Why a text is no address of the video platform.
#[derive(Debug)]
pub enum URLParseError {
    /// It is no address at all: the parser's error, and what the parser
    /// says of the text.
    InvalidUri(url::ParseError, String),
    /// It is an address of something else.
    UnsupportedUri,
}

impl URLParseError {
    /// The error in words: `Unsupported URI`, or `Invalid URI: ` and what
    /// the parser says of the text.
    pub open spec fn worded(self) -> Seq<char> {
        match self {
            URLParseError::InvalidUri(_, said) => "Invalid URI: "@ + said@,
            URLParseError::UnsupportedUri => "Unsupported URI"@,
        }
    }

    /// The error in words.
    pub fn message(&self) -> (r: String)
        ensures
            r@ == self.worded(),
    {
        match self {
            URLParseError::InvalidUri(_, said) => crate::text::join("Invalid URI: ", said.as_str()),
            URLParseError::UnsupportedUri => String::from_str("Unsupported URI"),
        }
    }
}

impl URL {
    /// Reads an address of the video platform. A text that is no address
    /// is refused as invalid; an address without a host, or with a host
    /// that is not the platform's, as unsupported.
    pub fn parse(s: &str) -> (r: Result<URL, URLParseError>)
        ensures
            !url_valid(s@) <==> r matches Err(URLParseError::InvalidUri(_, _)),
            r matches Err(URLParseError::InvalidUri(_, said)) ==> said@ == url_error_text(s@),
            r matches Err(URLParseError::UnsupportedUri) <==> url_valid(s@) && match url_host(s@) {
                Some(h) => !is_supported_host(h),
                None => true,
            },
            r matches Ok(u) ==> Some(u.host@) == url_host(s@) && u.path@ == url_path(s@) && pairs(
                u.query@,
            ) == url_query(s@),
    {
        match parse_parts(s) {
            Ok(parts) => URL::from_parts(parts),
            Err(e) => Err(URLParseError::InvalidUri(e.0, e.1)),
        }
    }

    /// Makes an address of the video platform of the parts of an address:
    /// one without a host, or with a host that is not the platform's, is
    /// refused as unsupported.
    pub fn from_parts(parts: UrlParts) -> (r: Result<URL, URLParseError>)
        ensures
            match parts.host {
                Some(h) => if is_supported_host(h@) {
                    r matches Ok(u) && u.host == h && u.path == parts.path && u.query
                        == parts.query
                } else {
                    r matches Err(URLParseError::UnsupportedUri)
                },
                None => r matches Err(URLParseError::UnsupportedUri),
            },
    {
        let host = match parts.host {
            Some(h) => h,
            None => {
                return Err(URLParseError::UnsupportedUri);
            },
        };
        if !supported_host(host.as_str()) {
            return Err(URLParseError::UnsupportedUri);
        }
        Ok(URL { host, path: parts.path, query: parts.query })
    }

    /// The value of the first pair of the query whose key is `key`.
    fn query_lookup(&self, key: &str) -> (r: Option<String>)
        ensures
            text_of(r) == query_value(pairs(self.query@), key@),
    {
        let wanted = String::from_str(key);
        let mut i: usize = 0;
        assert(pairs(self.query@).skip(0) =~= pairs(self.query@));
        while i < self.query.len()
            invariant
                i <= self.query.len(),
                wanted@ == key@,
                query_value(pairs(self.query@), key@) == query_value(
                    pairs(self.query@).skip(i as int),
                    key@,
                ),
            decreases self.query.len() - i,
        {
            let ghost rest = pairs(self.query@).skip(i as int);
            assert(rest[0] == (self.query@[i as int].0@, self.query@[i as int].1@));
            assert(rest.drop_first() =~= pairs(self.query@).skip(i + 1));
            if self.query[i].0 == wanted {
                return Some(self.query[i].1.clone());
            }
            i += 1;
        }
        None
    }

    /// The `n`-th segment of the path.
    fn segment(&self, n: usize) -> (r: Option<String>)
        ensures
            text_of(r) == path_segment(self.path@, n as nat),
    {
        let path = to_chars(self.path.as_str());
        if path.len() > 0 && path[0] == '/' {
            let rest = slice_subrange(path.as_slice(), 1, path.len());
            assert(rest@ =~= self.path@.drop_first());
            match nth_field(rest, '/', n) {
                Some(f) => Some(from_chars(f)),
                None => None,
            }
        } else {
            None
        }
    }

    /// What follows the segment `kind` where it is the path's first.
    fn after_segment(&self, kind: &str) -> (r: Option<String>)
        ensures
            text_of(r) == segment_after(self.path@, kind@),
    {
        match self.segment(0) {
            Some(first) => {
                let wanted = String::from_str(kind);
                if first == wanted {
                    self.segment(1)
                } else {
                    None
                }
            },
            None => None,
        }
    }

    /// The video that the address names, if it names one.
    pub fn video_id(&self) -> (r: Option<String>)
        ensures
            text_of(r) == video_id_of(self.host@, self.path@, pairs(self.query@)),
    {
        let path = to_chars(self.path.as_str());
        let host = to_chars(self.host.as_str());
        if same_text(host.as_slice(), to_chars("youtu.be").as_slice()) {
            let from: usize = if path.len() > 0 {
                1
            } else {
                0
            };
            let id = slice_subrange(path.as_slice(), from, path.len());
            assert(path.len() > 0 ==> id@ =~= self.path@.skip(1));
            assert(path.len() == 0 ==> id@ =~= self.path@);
            return Some(from_chars(id));
        }
        if begins(path.as_slice(), "/live/") {
            return Some(from_chars(after_prefix(path.as_slice(), "/live/")));
        }
        if same_text(path.as_slice(), to_chars("/watch").as_slice()) {
            return self.query_lookup("v");
        }
        None
    }

    /// The channel that a `/channel/` address names.
    pub fn channel_id(&self) -> (r: Option<String>)
        ensures
            text_of(r) == segment_after(self.path@, "channel"@),
    {
        self.after_segment("channel")
    }

    /// The channel's own name that a `/c/` address holds.
    pub fn channel_vanity(&self) -> (r: Option<String>)
        ensures
            text_of(r) == segment_after(self.path@, "c"@),
    {
        self.after_segment("c")
    }

    /// The playlist that the address names: the `list` of its query.
    pub fn playlist_id(&self) -> (r: Option<String>)
        ensures
            text_of(r) == query_value(pairs(self.query@), "list"@),
    {
        self.query_lookup("list")
    }
}

} // verus!
