//! Regular-expression captures: the video identifier in a request path and
//! the expiration marker in a media URL.

use vstd::prelude::*;

verus! {

/// Matches a request path that holds an 11-character video identifier, bare or
/// inside a watch, shorts or short-link URL; the identifier is group 1.
pub const VIDEO_ID_PATTERN: &'static str = r"(?x)^/
    (?:https?://)?
    (?:www\.)?
    (?:
        youtube\.com/watch\?v=|
        youtube\.com/shorts/|
        youtu\.be/
    )?
    ([0-9A-Za-z_-]{11})
    (?:.+)?
$";

/// Matches an expiration key (`exp`, `expire`, `expires` or `expiration`)
/// followed by `=` and digits; the digits are group 1.
pub const EXPIRE_PATTERN: &'static str = r"exp(?:ir(?:es?|ation))?=(\d+)";

/// The text of capture group `group` in the leftmost-first match of the regular
/// expression `pattern` in `haystack`; `None` where the pattern does not compile,
/// nothing matches, or the group takes no part in the match.
pub uninterp spec fn regex_group(pattern: Seq<char>, haystack: Seq<char>, group: nat) -> Option<
    Seq<char>,
>;

/// The view of an optional string.
pub open spec fn opt_view(o: Option<String>) -> Option<Seq<char>> {
    match o {
        Some(s) => Some(s@),
        None => None,
    }
}

/// Relies on `regex::Regex::new`, `Regex::captures` and `Captures::get`:
/// compiles `pattern`, takes its leftmost-first match in `haystack` and reads
/// capture group `group` of it.
#[verifier::external_body]
fn capture_group(pattern: &str, haystack: &str, group: usize) -> (r: Option<String>)
    ensures
        opt_view(r) == regex_group(pattern@, haystack@, group as nat),
{
    let re = regex::Regex::new(pattern).ok()?;
    let caps = re.captures(haystack)?;
    caps.get(group).map(|m| m.as_str().to_string())
}

/// The identifier that a request path names, if it names one.
pub open spec fn video_id_of(path: Seq<char>) -> Option<Seq<char>> {
    regex_group(VIDEO_ID_PATTERN@, path, 1)
}

/// The digits of the first expiration marker in a URL, if it has one.
pub open spec fn marker_digits(url: Seq<char>) -> Option<Seq<char>> {
    regex_group(EXPIRE_PATTERN@, url, 1)
}

/// Finds the video identifier in a request path such as `/dQw4w9WgXcQ` or
/// `/https://www.youtube.com/watch?v=dQw4w9WgXcQ`.
pub fn extract_video_id(path: &str) -> (r: Option<String>)
    ensures
        opt_view(r) == video_id_of(path@),
{
    capture_group(VIDEO_ID_PATTERN, path, 1)
}

/// Finds the digits of the first expiration marker in a media URL.
pub fn find_marker_digits(url: &str) -> (r: Option<String>)
    ensures
        opt_view(r) == marker_digits(url@),
{
    capture_group(EXPIRE_PATTERN, url, 1)
}

} // verus!
