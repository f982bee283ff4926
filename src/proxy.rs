//! From a request to the URL to resolve, and from the tool's answer to the
//! media URL to redirect to.

use vstd::prelude::*;

use crate::cache::ResolveError;
use crate::media::YoutubeDlOutput;
use crate::pattern::{extract_video_id, video_id_of};
use crate::youtube::{format_url_of, get_format_url, YoutubeError};

verus! {

/// Why the tool's answer gives no media URL.
#[derive(Clone, Debug, PartialEq, Eq)]
pub enum Error {
    /// The tool itself failed; its message.
    YoutubeDL(String),
    /// The answer is a playlist.
    SingleVideo,
    /// The answer lists no formats, names none, or names one it does not list.
    FormatsNotFound,
    /// The selected format has no URL.
    UrlNotFound,
}

impl Error {
    /// The error's message.
    pub fn message(&self) -> (r: String)
        ensures
            r@ == match self {
                Error::YoutubeDL(e) => e@,
                Error::SingleVideo => "Single videos only supported"@,
                Error::FormatsNotFound => "Video formats were not found"@,
                Error::UrlNotFound => "Video URL was not found"@,
            },
    {
        match self {
            Error::YoutubeDL(e) => e.clone(),
            Error::SingleVideo => "Single videos only supported".to_owned(),
            Error::FormatsNotFound => "Video formats were not found".to_owned(),
            Error::UrlNotFound => "Video URL was not found".to_owned(),
        }
    }
}

/// The media URL that the tool's answer gives, or why it gives none.
pub open spec fn media_url_of(output: Result<YoutubeDlOutput, String>) -> Result<Seq<char>, Error> {
    match output {
        Err(e) => Err(Error::YoutubeDL(e)),
        Ok(YoutubeDlOutput::Playlist(_)) => Err(Error::SingleVideo),
        Ok(YoutubeDlOutput::SingleVideo(v)) => match format_url_of(*v) {
            Ok(u) => Ok(u),
            Err(YoutubeError::VideoUrl) => Err(Error::UrlNotFound),
            Err(_) => Err(Error::FormatsNotFound),
        },
    }
}

/// The media URL of the format that the tool selected for a single video.
pub fn proxy_video(output: Result<YoutubeDlOutput, String>) -> (r: Result<String, Error>)
    ensures
        match media_url_of(output) {
            Ok(u) => r matches Ok(s) && s@ == u,
            Err(e) => r == Err::<String, Error>(e),
        },
{
    let single_video = match output {
        Err(e) => {
            return Err(Error::YoutubeDL(e));
        },
        Ok(YoutubeDlOutput::Playlist(_)) => {
            return Err(Error::SingleVideo);
        },
        Ok(YoutubeDlOutput::SingleVideo(v)) => v,
    };
    match get_format_url(&single_video) {
        Ok(u) => Ok(u),
        Err(YoutubeError::VideoUrl) => Err(Error::UrlNotFound),
        Err(_) => Err(Error::FormatsNotFound),
    }
}

/// The video identifier that a request path names, or `NoMatch`.
pub fn video_id_from_request(path: &str) -> (r: Result<String, ResolveError>)
    ensures
        match video_id_of(path@) {
            Some(id) => r matches Ok(s) && s@ == id,
            None => r == Err::<String, ResolveError>(ResolveError::NoMatch),
        },
{
    match extract_video_id(path) {
        Some(id) => Ok(id),
        None => Err(ResolveError::NoMatch),
    }
}

/// The short link `https://youtu.be/<id>` that the tool is given for a video.
pub fn short_url(video_id: &str) -> (r: String)
    ensures
        r@ == "https://youtu.be/"@ + video_id@,
{
    let mut url = "https://youtu.be/".to_owned();
    url.append(video_id);
    url
}

} // verus!
