use vrc_yt_proxy::media::{Format, Playlist, SingleVideo, YoutubeDlOutput};
use vrc_yt_proxy::proxy::{short_url, video_id_from_request};
use vrc_yt_proxy::cache::ResolveError;
use vrc_yt_proxy::youtube::{get_format_url, get_playlist, get_single_video, YoutubeError};
use vrc_yt_proxy::{proxy_video, Error};

fn format(name: Option<&str>, url: Option<&str>) -> Format {
    Format { format: name.map(str::to_string), url: url.map(str::to_string) }
}

fn video(format_name: Option<&str>, formats: Option<Vec<Format>>) -> SingleVideo {
    SingleVideo {
        id: "dQw4w9WgXcQ".to_string(),
        title: Some("Never Gonna Give You Up".to_string()),
        channel: Some("Rick Astley".to_string()),
        channel_id: Some("UCuAXFkgsw1L7xaCfnd5JJOw".to_string()),
        tags: None,
        format: format_name.map(str::to_string),
        formats,
    }
}

fn listed_formats() -> Vec<Format> {
    vec![
        format(None, Some("https://media/none")),
        format(Some("18 - 640x360"), Some("https://media/18")),
        format(Some("22 - 1280x720"), Some("https://media/22-first")),
        format(Some("22 - 1280x720"), Some("https://media/22-second")),
        format(Some("137 - 1920x1080"), None),
    ]
}

#[test]
fn selected_format_url() {
    let v = video(Some("22 - 1280x720"), Some(listed_formats()));
    assert_eq!(get_format_url(&v), Ok("https://media/22-first".to_string()));
    let v = video(Some("18 - 640x360"), Some(listed_formats()));
    assert_eq!(get_format_url(&v), Ok("https://media/18".to_string()));
}

#[test]
fn format_url_errors() {
    assert_eq!(get_format_url(&video(Some("18 - 640x360"), None)), Err(YoutubeError::VideoFormats));
    assert_eq!(get_format_url(&video(None, Some(listed_formats()))), Err(YoutubeError::VideoFormatString));
    assert_eq!(get_format_url(&video(Some("99 - x"), Some(listed_formats()))), Err(YoutubeError::VideoFormat));
    assert_eq!(get_format_url(&video(Some("99 - x"), Some(vec![]))), Err(YoutubeError::VideoFormat));
    assert_eq!(
        get_format_url(&video(Some("137 - 1920x1080"), Some(listed_formats()))),
        Err(YoutubeError::VideoUrl)
    );
}

#[test]
fn proxy_video_gives_media_url() {
    let output = Ok(YoutubeDlOutput::SingleVideo(Box::new(video(Some("22 - 1280x720"), Some(listed_formats())))));
    assert_eq!(proxy_video(output), Ok("https://media/22-first".to_string()));
}

#[test]
fn proxy_video_errors() {
    assert_eq!(proxy_video(Err("tool failed".to_string())), Err(Error::YoutubeDL("tool failed".to_string())));
    let playlist = Playlist { entries: None, uploader: None, uploader_id: None };
    assert_eq!(proxy_video(Ok(YoutubeDlOutput::Playlist(Box::new(playlist)))), Err(Error::SingleVideo));
    let none = |name: Option<&str>, formats| Ok(YoutubeDlOutput::SingleVideo(Box::new(video(name, formats))));
    assert_eq!(proxy_video(none(Some("18 - 640x360"), None)), Err(Error::FormatsNotFound));
    assert_eq!(proxy_video(none(None, Some(listed_formats()))), Err(Error::FormatsNotFound));
    assert_eq!(proxy_video(none(Some("99 - x"), Some(listed_formats()))), Err(Error::FormatsNotFound));
    assert_eq!(proxy_video(none(Some("137 - 1920x1080"), Some(listed_formats()))), Err(Error::UrlNotFound));
}

#[test]
fn proxy_error_messages() {
    assert_eq!(Error::YoutubeDL("boom".to_string()).message(), "boom");
    assert_eq!(Error::SingleVideo.message(), "Single videos only supported");
    assert_eq!(Error::FormatsNotFound.message(), "Video formats were not found");
    assert_eq!(Error::UrlNotFound.message(), "Video URL was not found");
}

#[test]
fn kind_of_answer() {
    let v = video(None, None);
    let p = Playlist { entries: Some(vec![]), uploader: None, uploader_id: Some("UC1".to_string()) };
    let single = || Ok(YoutubeDlOutput::SingleVideo(Box::new(v.clone())));
    let list = || Ok(YoutubeDlOutput::Playlist(Box::new(p.clone())));
    assert_eq!(get_single_video(single()), Ok(Box::new(v.clone())));
    assert_eq!(get_single_video(list()), Err(YoutubeError::SingleVideo));
    assert_eq!(get_playlist(list()), Ok(Box::new(p.clone())));
    assert_eq!(get_playlist(single()), Err(YoutubeError::Playlist));
    assert_eq!(get_single_video(Err("x".to_string())), Err(YoutubeError::YoutubeDL("x".to_string())));
    assert_eq!(get_playlist(Err("y".to_string())), Err(YoutubeError::YoutubeDL("y".to_string())));
}

#[test]
fn youtube_error_messages() {
    assert_eq!(YoutubeError::YoutubeDL("e".to_string()).message(), "e");
    assert_eq!(YoutubeError::Playlist.message(), "Playlists only");
    assert_eq!(YoutubeError::SingleVideo.message(), "Single videos only");
    assert_eq!(YoutubeError::VideoFormats.message(), "Unable to find video formats");
    assert_eq!(YoutubeError::VideoFormatString.message(), "Unable to find video format string");
    assert_eq!(YoutubeError::VideoFormat.message(), "Unable to find video format");
    assert_eq!(YoutubeError::VideoUrl.message(), "Unable to find video url");
}

#[test]
fn request_to_video_id() {
    assert_eq!(video_id_from_request("/watch?v=dQw4w9WgXcQ"), Err(ResolveError::NoMatch));
    assert_eq!(video_id_from_request("/youtu.be/dQw4w9WgXcQ"), Ok("dQw4w9WgXcQ".to_string()));
    assert_eq!(short_url("dQw4w9WgXcQ"), "https://youtu.be/dQw4w9WgXcQ");
}
