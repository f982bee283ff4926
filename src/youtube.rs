//! Reading the extraction tool's answers: the kind of result asked for, and
//! the URL of the selected format.

use vstd::prelude::*;

use crate::media::{find_format, first_format_named, Playlist, SingleVideo, YoutubeDlOutput};

verus! {

/// Why the tool's answer gives no result of the kind asked for.
#[derive(Clone, Debug, PartialEq, Eq)]
pub enum YoutubeError {
    /// The tool itself failed; its message.
    YoutubeDL(String),
    /// A playlist was asked for, and the answer is a single video.
    Playlist,
    /// A single video was asked for, and the answer is a playlist.
    SingleVideo,
    /// The video lists no formats.
    VideoFormats,
    /// The video names no selected format.
    VideoFormatString,
    /// No listed format carries the selected format's description.
    VideoFormat,
    /// The selected format has no URL.
    VideoUrl,
}

impl YoutubeError {
    /// The error's message.
    pub fn message(&self) -> (r: String)
        ensures
            r@ == match self {
                YoutubeError::YoutubeDL(e) => e@,
                YoutubeError::Playlist => "Playlists only"@,
                YoutubeError::SingleVideo => "Single videos only"@,
                YoutubeError::VideoFormats => "Unable to find video formats"@,
                YoutubeError::VideoFormatString => "Unable to find video format string"@,
                YoutubeError::VideoFormat => "Unable to find video format"@,
                YoutubeError::VideoUrl => "Unable to find video url"@,
            },
    {
        match self {
            YoutubeError::YoutubeDL(e) => e.clone(),
            YoutubeError::Playlist => "Playlists only".to_owned(),
            YoutubeError::SingleVideo => "Single videos only".to_owned(),
            YoutubeError::VideoFormats => "Unable to find video formats".to_owned(),
            YoutubeError::VideoFormatString => "Unable to find video format string".to_owned(),
            YoutubeError::VideoFormat => "Unable to find video format".to_owned(),
            YoutubeError::VideoUrl => "Unable to find video url".to_owned(),
        }
    }
}

/// The URL of the format that a video report selected, or why there is none.
pub open spec fn format_url_of(v: SingleVideo) -> Result<Seq<char>, YoutubeError> {
    match v.formats {
        None => Err(YoutubeError::VideoFormats),
        Some(formats) => match v.format {
            None => Err(YoutubeError::VideoFormatString),
            Some(name) => match first_format_named(formats@, name@) {
                None => Err(YoutubeError::VideoFormat),
                Some(f) => match f.url {
                    None => Err(YoutubeError::VideoUrl),
                    Some(u) => Ok(u@),
                },
            },
        },
    }
}

/// The URL of the format that the report selected: the first listed format
/// whose description equals the selected one.
pub fn get_format_url(single_video: &SingleVideo) -> (r: Result<String, YoutubeError>)
    ensures
        match format_url_of(*single_video) {
            Ok(u) => r matches Ok(s) && s@ == u,
            Err(e) => r == Err::<String, YoutubeError>(e),
        },
{
    let video_formats = match &single_video.formats {
        Some(f) => f,
        None => {
            return Err(YoutubeError::VideoFormats);
        },
    };
    let video_format_string = match &single_video.format {
        Some(s) => s,
        None => {
            return Err(YoutubeError::VideoFormatString);
        },
    };
    let video_format = match find_format(video_formats, video_format_string) {
        Some(f) => f,
        None => {
            return Err(YoutubeError::VideoFormat);
        },
    };
    match &video_format.url {
        Some(u) => Ok(u.clone()),
        None => Err(YoutubeError::VideoUrl),
    }
}

/// The playlist in the tool's answer.
pub fn get_playlist(output: Result<YoutubeDlOutput, String>) -> (r: Result<Box<Playlist>, YoutubeError>)
    ensures
        r == match output {
            Err(e) => Err(YoutubeError::YoutubeDL(e)),
            Ok(YoutubeDlOutput::Playlist(p)) => Ok(p),
            Ok(YoutubeDlOutput::SingleVideo(_)) => Err(YoutubeError::Playlist),
        },
{
    match output {
        Err(e) => Err(YoutubeError::YoutubeDL(e)),
        Ok(YoutubeDlOutput::Playlist(p)) => Ok(p),
        Ok(YoutubeDlOutput::SingleVideo(_)) => Err(YoutubeError::Playlist),
    }
}

/// The single video in the tool's answer.
pub fn get_single_video(output: Result<YoutubeDlOutput, String>) -> (r: Result<
    Box<SingleVideo>,
    YoutubeError,
>)
    ensures
        r == match output {
            Err(e) => Err(YoutubeError::YoutubeDL(e)),
            Ok(YoutubeDlOutput::SingleVideo(v)) => Ok(v),
            Ok(YoutubeDlOutput::Playlist(_)) => Err(YoutubeError::SingleVideo),
        },
{
    match output {
        Err(e) => Err(YoutubeError::YoutubeDL(e)),
        Ok(YoutubeDlOutput::SingleVideo(v)) => Ok(v),
        Ok(YoutubeDlOutput::Playlist(_)) => Err(YoutubeError::SingleVideo),
    }
}

} // verus!
