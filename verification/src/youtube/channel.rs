//! A channel's page.

use crate::pattern::{capture, regex_capture, regex_valid, text_of};
use crate::text::join;
use vstd::prelude::*;

verus! {

/// The address of a channel's page, without the channel's id.
pub const CHANNEL_ADDRESS: &'static str = "https://www.youtube.com/channel/";

/// The pattern that finds the channel's picture in its page.
pub const PICTURE_PATTERN: &'static str = r#"<meta name="twitter:image" content="(.*?)""#;

/// The address of a channel's page.
pub fn channel_url(channel_id: &str) -> (r: String)
    ensures
        r@ == CHANNEL_ADDRESS@ + channel_id@,
{
    join(CHANNEL_ADDRESS, channel_id)
}

/// The address of the channel's picture that a page names.
pub open spec fn picture_in(page: Seq<char>) -> Option<Seq<char>> {
    if regex_valid(PICTURE_PATTERN@) {
        regex_capture(PICTURE_PATTERN@, page, 1)
    } else {
        None
    }
}

/// The address of the channel's picture, read from the channel's page;
/// `None` where the page names none.
pub fn picture_url_in(page: &str) -> (r: Option<String>)
    ensures
        text_of(r) == picture_in(page@),
{
    capture(PICTURE_PATTERN, page, 1)
}

} // verus!
