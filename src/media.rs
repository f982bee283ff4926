//! What the extraction tool reports about a URL, as far as this library reads it.

use vstd::prelude::*;

verus! {

/// One of the formats a video is offered in.
#[derive(Clone, Debug, PartialEq, Eq)]
pub struct Format {
    /// The format's description, as the tool names it.
    pub format: Option<String>,
    /// Where the media of this format can be fetched.
    pub url: Option<String>,
}

/// What the tool reports about a single video.
#[derive(Clone, Debug, PartialEq, Eq)]
pub struct SingleVideo {
    pub id: String,
    pub title: Option<String>,
    pub channel: Option<String>,
    pub channel_id: Option<String>,
    pub tags: Option<Vec<Option<String>>>,
    /// The description of the format the tool selected.
    pub format: Option<String>,
    pub formats: Option<Vec<Format>>,
}

/// What the tool reports about a playlist, such as a channel's uploads.
#[derive(Clone, Debug, PartialEq, Eq)]
pub struct Playlist {
    pub entries: Option<Vec<SingleVideo>>,
    pub uploader: Option<String>,
    pub uploader_id: Option<String>,
}

/// The tool's answer for a URL.
#[derive(Clone, Debug, PartialEq, Eq)]
pub enum YoutubeDlOutput {
    Playlist(Box<Playlist>),
    SingleVideo(Box<SingleVideo>),
}

/// Whether a format carries the description `name`.
pub open spec fn format_named(f: Format, name: Seq<char>) -> bool {
    match f.format {
        Some(s) => s@ == name,
        None => false,
    }
}

/// The first of `formats` that carries the description `name`.
pub open spec fn first_format_named(formats: Seq<Format>, name: Seq<char>) -> Option<Format>
    decreases formats.len(),
{
    if formats.len() == 0 {
        None
    } else if format_named(formats[0], name) {
        Some(formats[0])
    } else {
        first_format_named(formats.drop_first(), name)
    }
}

/// Finds the first of `formats` that carries the description `name`.
pub fn find_format<'a>(formats: &'a Vec<Format>, name: &String) -> (r: Option<&'a Format>)
    ensures
        match r {
            Some(f) => first_format_named(formats@, name@) == Some(*f),
            None => first_format_named(formats@, name@) is None,
        },
{
    let n = formats.len();
    let mut i: usize = 0;
    assert(formats@.subrange(0, n as int) =~= formats@);
    while i < n
        invariant
            n == formats@.len(),
            i <= n,
            first_format_named(formats@, name@) == first_format_named(
                formats@.subrange(i as int, n as int),
                name@,
            ),
        decreases n - i,
    {
        let f = &formats[i];
        let ghost rest = formats@.subrange(i as int, n as int);
        assert(rest[0] == *f);
        let named = match &f.format {
            Some(s) => *s == *name,
            None => false,
        };
        if named {
            return Some(f);
        }
        assert(rest.drop_first() =~= formats@.subrange(i + 1, n as int));
        i = i + 1;
    }
    None
}

} // verus!
