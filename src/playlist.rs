//! Text of the catalog tooling: the URLs the extraction tool is pointed at,
//! the entries of a generated playlist file, and lines read from a terminal.

use vstd::prelude::*;

use crate::catalog::Video;

verus! {

/// What starts the link line of a playlist entry; the video identifier follows.
pub const ENTRY_LINK_PREFIX: &'static str = "@https://shay.loan/";

/// Words joined with one space between each two.
pub open spec fn join_words(words: Seq<Seq<char>>) -> Seq<char>
    decreases words.len(),
{
    if words.len() == 0 {
        Seq::empty()
    } else if words.len() == 1 {
        words[0]
    } else {
        join_words(words.drop_last()) + " "@ + words.last()
    }
}

/// The words of a video's tag line: its identifier, then its tags.
pub open spec fn tag_words(video: Video) -> Seq<Seq<char>> {
    let tags = match video.tags {
        Some(t) => t@.map_values(|s: String| s@),
        None => Seq::empty(),
    };
    seq![video.id@] + tags
}

/// The four lines a playlist file holds for a video of the channel named
/// `channel_name`: the link, `#` and the tag line, `<channel> - <title>`,
/// and an empty line.
pub open spec fn entry_text(channel_name: Seq<char>, video: Video) -> Seq<char> {
    ENTRY_LINK_PREFIX@ + video.id@ + "\n#"@ + join_words(tag_words(video)) + "\n"@ + channel_name
        + " - "@ + video.title@ + "\n\n"@
}

/// The playlist file entry of a video of the channel named `channel_name`.
pub fn playlist_entry(channel_name: &str, video: &Video) -> (r: String)
    ensures
        r@ == entry_text(channel_name@, *video),
{
    let ghost words = tag_words(*video);
    let mut out = ENTRY_LINK_PREFIX.to_owned();
    out.append(video.id.as_str());
    out.append("\n#");
    let ghost head = ENTRY_LINK_PREFIX@ + video.id@ + "\n#"@;
    out.append(video.id.as_str());
    proof {
        assert(words.subrange(0, 1) =~= seq![video.id@]);
    }
    match &video.tags {
        Some(tags) => {
            let n = tags.len();
            let mut i: usize = 0;
            while i < n
                invariant
                    n == tags@.len(),
                    i <= n,
                    words == tag_words(*video),
                    video.tags == Some(*tags),
                    words.len() == n + 1,
                    out@ == head + join_words(words.subrange(0, i + 1)),
                decreases n - i,
            {
                proof {
                    let next = words.subrange(0, i + 2);
                    assert(next.drop_last() =~= words.subrange(0, i + 1));
                    assert(next.last() == tags@[i as int]@);
                }
                out.append(" ");
                out.append(tags[i].as_str());
                i = i + 1;
            }
        },
        None => {},
    }
    assert(words.subrange(0, words.len() as int) =~= words);
    out.append("\n");
    out.append(channel_name);
    out.append(" - ");
    out.append(video.title.as_str());
    out.append("\n\n");
    out
}

/// The page listing a channel's uploads, which the tool reads as a playlist.
pub fn channel_videos_url(channel_id: &str) -> (r: String)
    ensures
        r@ == "https://youtube.com/channel/"@ + channel_id@ + "/videos"@,
{
    let mut url = "https://youtube.com/channel/".to_owned();
    url.append(channel_id);
    url.append("/videos");
    url
}

/// The watch page of a video.
pub fn watch_url(video_id: &str) -> (r: String)
    ensures
        r@ == "https://youtube.com/watch?v="@ + video_id@,
{
    let mut url = "https://youtube.com/watch?v=".to_owned();
    url.append(video_id);
    url
}

/// A line without its line ending: a final `\r\n`, or else a final `\n`.
pub open spec fn without_line_ending(line: Seq<char>) -> Seq<char> {
    let n = line.len();
    if n >= 2 && line[n - 2] == '\r' && line[n - 1] == '\n' {
        line.subrange(0, n - 2)
    } else if n >= 1 && line[n - 1] == '\n' {
        line.subrange(0, n - 1)
    } else {
        line
    }
}

/// Removes the line ending that a line read from a terminal ends with.
pub fn strip_line_ending(line: &str) -> (r: String)
    ensures
        r@ == without_line_ending(line@),
{
    let n = line.unicode_len();
    let mut keep = n;
    if n >= 2 && line.get_char(n - 2) == '\r' && line.get_char(n - 1) == '\n' {
        keep = n - 2;
    } else if n >= 1 && line.get_char(n - 1) == '\n' {
        keep = n - 1;
    }
    line.substring_char(0, keep).to_owned()
}

} // verus!
