use vrc_yt_proxy::catalog::{get_tags, Channel, PlaylistWrapper, Video};
use vrc_yt_proxy::media::{Playlist, SingleVideo};
use vrc_yt_proxy::playlist::{channel_videos_url, playlist_entry, strip_line_ending, watch_url};

fn s(x: &str) -> String {
    x.to_string()
}

fn report(id: &str, title: Option<&str>, tags: Option<Vec<Option<String>>>) -> SingleVideo {
    SingleVideo {
        id: s(id),
        title: title.map(s),
        channel: Some(s("Chan")),
        channel_id: Some(s("UC1")),
        tags,
        format: None,
        formats: None,
    }
}

#[test]
fn tags_keep_present_ones() {
    assert_eq!(
        get_tags(Some(vec![Some(s("a")), None, Some(s("b")), None]), None),
        Some(vec![s("a"), s("b")])
    );
    assert_eq!(get_tags(Some(vec![]), Some(vec![s("d")])), Some(vec![]));
    assert_eq!(get_tags(None, Some(vec![])), Some(vec![]));
    assert_eq!(get_tags(None, Some(vec![s("d")])), Some(vec![s("d")]));
    assert_eq!(get_tags(None, None), None);
}

#[test]
fn channel_from_video_report() {
    let c = Channel::try_from_single_video(report("v1", Some("t"), None)).unwrap();
    assert_eq!(
        c,
        Channel { id: s("UC1"), name: Some(s("Chan")), updated_at: None, video_count: 1, playlist: None }
    );
    let mut r = report("v1", Some("t"), None);
    r.channel_id = None;
    assert_eq!(Channel::try_from_single_video(r), Err(()));
}

#[test]
fn channel_from_playlist_report() {
    let p = Playlist {
        entries: Some(vec![report("v1", Some("t"), None), report("v2", None, None)]),
        uploader: Some(s("Chan")),
        uploader_id: Some(s("UC1")),
    };
    let c = Channel::try_from_playlist(p, 1700000000).unwrap();
    assert_eq!(
        c,
        Channel {
            id: s("UC1"),
            name: Some(s("Chan")),
            updated_at: Some(1700000000),
            video_count: 2,
            playlist: None
        }
    );
    let empty = Playlist { entries: None, uploader: None, uploader_id: Some(s("UC2")) };
    assert_eq!(Channel::try_from_playlist(empty, 0).unwrap().video_count, 0);
    let anonymous = Playlist { entries: None, uploader: None, uploader_id: None };
    assert_eq!(Channel::try_from_playlist(anonymous, 0), Err(()));
}

#[test]
fn channel_display_name() {
    let mut c = Channel { id: s("UC1"), name: Some(s("Chan")), updated_at: None, video_count: 0, playlist: None };
    assert_eq!(c.display_name(), "Chan");
    c.name = None;
    assert_eq!(c.display_name(), "UC1");
}

#[test]
fn video_from_report() {
    let v = Video::try_from_single_video(report("v1", Some("Title"), Some(vec![Some(s("x")), None]))).unwrap();
    assert_eq!(v, Video { id: s("v1"), title: s("Title"), tags: Some(vec![s("x")]), channel_id: s("UC1") });
    assert_eq!(Video::try_from_single_video(report("v1", None, None)), Err(()));
    let mut r = report("v1", Some("Title"), None);
    r.channel_id = None;
    assert_eq!(Video::try_from_single_video(r), Err(()));
}

#[test]
fn videos_of_playlist() {
    let p = Playlist {
        entries: Some(vec![
            report("v1", Some("One"), None),
            report("v2", None, None),
            report("v3", Some("Three"), Some(vec![Some(s("t"))])),
        ]),
        uploader: None,
        uploader_id: Some(s("UCX")),
    };
    let videos = PlaylistWrapper::from(p.clone()).into_videos();
    assert_eq!(
        videos,
        vec![
            Video { id: s("v1"), title: s("One"), tags: None, channel_id: s("UCX") },
            Video { id: s("v3"), title: s("Three"), tags: Some(vec![s("t")]), channel_id: s("UCX") },
        ]
    );
    let mut anonymous = p;
    anonymous.uploader_id = None;
    assert!(PlaylistWrapper::from(anonymous).into_videos().is_empty());
}

#[test]
fn playlist_file_entry() {
    let v = Video { id: s("v1"), title: s("One"), tags: Some(vec![s("a"), s("b")]), channel_id: s("UC1") };
    assert_eq!(playlist_entry("Chan", &v), "@https://shay.loan/v1\n#v1 a b\nChan - One\n\n");
    let bare = Video { id: s("v2"), title: s("Two"), tags: None, channel_id: s("UC1") };
    assert_eq!(playlist_entry("UC1", &bare), "@https://shay.loan/v2\n#v2\nUC1 - Two\n\n");
}

#[test]
fn fetch_urls() {
    assert_eq!(channel_videos_url("UC1"), "https://youtube.com/channel/UC1/videos");
    assert_eq!(watch_url("v1"), "https://youtube.com/watch?v=v1");
}

#[test]
fn line_endings() {
    assert_eq!(strip_line_ending("list\r\n"), "list");
    assert_eq!(strip_line_ending("list\n"), "list");
    assert_eq!(strip_line_ending("list\n\n"), "list\n");
    assert_eq!(strip_line_ending("list\r"), "list\r");
    assert_eq!(strip_line_ending("list"), "list");
    assert_eq!(strip_line_ending("\n"), "");
    assert_eq!(strip_line_ending(""), "");
}
