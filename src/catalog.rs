//! Channel and video records kept for the playlist catalog, built from the
//! extraction tool's reports, and the text a playlist file holds for a video.

use vstd::prelude::*;

use crate::media::{Playlist, SingleVideo};

verus! {

/// A channel whose uploads are catalogued.
#[derive(Clone, Debug, PartialEq, Eq, Hash)]
pub struct Channel {
    pub id: String,
    pub name: Option<String>,
    /// When the channel's uploads were last fetched, in epoch seconds.
    pub updated_at: Option<i64>,
    pub video_count: u64,
    /// The catalog playlist the channel belongs to.
    pub playlist: Option<String>,
}

/// A catalogued video.
#[derive(Clone, Debug, PartialEq, Eq, Hash)]
pub struct Video {
    pub id: String,
    pub title: String,
    pub tags: Option<Vec<String>>,
    pub channel_id: String,
}

/// A playlist report, read as the videos it lists.
pub struct PlaylistWrapper(pub Playlist);

/// A batch of records to refresh.
pub enum Entries {
    Channels(Vec<Channel>),
    Videos(Vec<Video>),
}

/// The tags that are present, in order.
pub open spec fn present_tags(tags: Seq<Option<String>>) -> Seq<String>
    decreases tags.len(),
{
    if tags.len() == 0 {
        Seq::empty()
    } else {
        let rest = present_tags(tags.drop_last());
        match tags.last() {
            Some(t) => rest.push(t),
            None => rest,
        }
    }
}

/// The view of optional tags.
pub open spec fn opt_tags(tags: Option<Vec<Option<String>>>) -> Option<Seq<Option<String>>> {
    match tags {
        Some(t) => Some(t@),
        None => None,
    }
}

/// The view of an optional list of strings.
pub open spec fn opt_strings(v: Option<Vec<String>>) -> Option<Seq<String>> {
    match v {
        Some(s) => Some(s@),
        None => None,
    }
}

/// The tags a record keeps: the present ones of a report that has tags, else
/// the default.
pub open spec fn kept_tags(tags: Option<Seq<Option<String>>>, default: Option<Seq<String>>) -> Option<
    Seq<String>,
> {
    match tags {
        Some(t) => Some(present_tags(t)),
        None => default,
    }
}

/// The tags of `tags` that are present, in order.
pub fn present_tags_of(tags: &Vec<Option<String>>) -> (r: Vec<String>)
    ensures
        r@ == present_tags(tags@),
{
    let n = tags.len();
    let mut out: Vec<String> = Vec::new();
    let mut i: usize = 0;
    while i < n
        invariant
            n == tags@.len(),
            i <= n,
            out@ == present_tags(tags@.subrange(0, i as int)),
        decreases n - i,
    {
        proof {
            let next = tags@.subrange(0, i + 1);
            assert(next.drop_last() =~= tags@.subrange(0, i as int));
            assert(next.last() == tags@[i as int]);
        }
        match &tags[i] {
            Some(t) => out.push(t.clone()),
            None => {},
        }
        i = i + 1;
    }
    assert(tags@.subrange(0, n as int) =~= tags@);
    out
}

/// The tags to store for a video: the present ones of the report's tags, or
/// `default` where the report has none.
pub fn get_tags(tags: Option<Vec<Option<String>>>, default: Option<Vec<String>>) -> (r: Option<
    Vec<String>,
>)
    ensures
        opt_strings(r) == kept_tags(opt_tags(tags), opt_strings(default)),
{
    match tags {
        Some(t) => Some(present_tags_of(&t)),
        None => default,
    }
}

/// Whether `v` is the record of the titled report `e` of a video of channel
/// `channel_id`.
pub open spec fn video_record(v: Video, e: SingleVideo, channel_id: Seq<char>) -> bool {
    &&& v.id@ == e.id@
    &&& e.title matches Some(t) && v.title@ == t@
    &&& opt_strings(v.tags) == kept_tags(opt_tags(e.tags), None)
    &&& v.channel_id@ == channel_id
}

/// The reports among `entries` that have a title, in order.
pub open spec fn titled(entries: Seq<SingleVideo>) -> Seq<SingleVideo>
    decreases entries.len(),
{
    if entries.len() == 0 {
        Seq::empty()
    } else {
        let rest = titled(entries.drop_last());
        if entries.last().title is Some {
            rest.push(entries.last())
        } else {
            rest
        }
    }
}

/// The entries of a playlist report.
pub open spec fn playlist_entries(p: Playlist) -> Seq<SingleVideo> {
    match p.entries {
        Some(e) => e@,
        None => Seq::empty(),
    }
}

impl Channel {
    /// The channel of a video report, which must name its channel.
    pub fn try_from_single_video(single_video: SingleVideo) -> (r: Result<Channel, ()>)
        ensures
            match single_video.channel_id {
                Some(id) => r == Ok::<Channel, ()>(
                    (Channel {
                        id,
                        name: single_video.channel,
                        updated_at: None,
                        video_count: 1,
                        playlist: None,
                    }),
                ),
                None => r is Err,
            },
    {
        match single_video.channel_id {
            Some(id) => Ok(
                Channel {
                    id,
                    name: single_video.channel,
                    updated_at: None,
                    video_count: 1,
                    playlist: None,
                },
            ),
            None => Err(()),
        }
    }

    /// The channel whose uploads a playlist report lists, fetched at `now`
    /// (epoch seconds); the report must name its uploader.
    pub fn try_from_playlist(playlist: Playlist, now: i64) -> (r: Result<Channel, ()>)
        ensures
            match playlist.uploader_id {
                Some(id) => r == Ok::<Channel, ()>(
                    (Channel {
                        id,
                        name: playlist.uploader,
                        updated_at: Some(now),
                        video_count: playlist_entries(playlist).len() as u64,
                        playlist: None,
                    }),
                ),
                None => r is Err,
            },
    {
        let count: u64 = match &playlist.entries {
            Some(e) => e.len() as u64,
            None => 0,
        };
        match playlist.uploader_id {
            Some(id) => Ok(
                Channel {
                    id,
                    name: playlist.uploader,
                    updated_at: Some(now),
                    video_count: count,
                    playlist: None,
                },
            ),
            None => Err(()),
        }
    }

    /// The channel's name, or its identifier where it has none.
    pub fn display_name(&self) -> (r: String)
        ensures
            r@ == match self.name {
                Some(n) => n@,
                None => self.id@,
            },
    {
        match &self.name {
            Some(n) => n.clone(),
            None => self.id.clone(),
        }
    }
}

/// The record of a titled video report of channel `channel_id`.
fn record_of(single_video: &SingleVideo, title: &String, channel_id: &String) -> (r: Video)
    requires
        single_video.title == Some(*title),
    ensures
        video_record(r, *single_video, channel_id@),
{
    let tags = match &single_video.tags {
        Some(t) => Some(present_tags_of(t)),
        None => None,
    };
    Video {
        id: single_video.id.clone(),
        title: title.clone(),
        tags,
        channel_id: channel_id.clone(),
    }
}

impl Video {
    /// The record of a video report, which must name its channel and title.
    pub fn try_from_single_video(single_video: SingleVideo) -> (r: Result<Video, ()>)
        ensures
            match r {
                Ok(v) => single_video.channel_id matches Some(c) && video_record(
                    v,
                    single_video,
                    c@,
                ),
                Err(_) => single_video.channel_id is None || single_video.title is None,
            },
    {
        let channel_id = match &single_video.channel_id {
            Some(c) => c,
            None => {
                return Err(());
            },
        };
        let title = match &single_video.title {
            Some(t) => t,
            None => {
                return Err(());
            },
        };
        Ok(record_of(&single_video, title, channel_id))
    }
}

impl PlaylistWrapper {
    /// The records of the titled videos that the playlist lists, each of the
    /// playlist's uploader; none where the playlist names no uploader.
    pub fn into_videos(self) -> (r: Vec<Video>)
        ensures
            match self.0.uploader_id {
                Some(c) => {
                    &&& r@.len() == titled(playlist_entries(self.0)).len()
                    &&& forall|i: int|
                        0 <= i < r@.len() ==> video_record(
                            #[trigger] r@[i],
                            titled(playlist_entries(self.0))[i],
                            c@,
                        )
                },
                None => r@.len() == 0,
            },
    {
        let mut out: Vec<Video> = Vec::new();
        let channel_id = match &self.0.uploader_id {
            Some(c) => c,
            None => {
                return out;
            },
        };
        let entries = match &self.0.entries {
            Some(e) => e,
            None => {
                assert(titled(Seq::<SingleVideo>::empty()).len() == 0);
                return out;
            },
        };
        let n = entries.len();
        let mut i: usize = 0;
        while i < n
            invariant
                n == entries@.len(),
                i <= n,
                out@.len() == titled(entries@.subrange(0, i as int)).len(),
                forall|k: int|
                    0 <= k < out@.len() ==> video_record(
                        #[trigger] out@[k],
                        titled(entries@.subrange(0, i as int))[k],
                        channel_id@,
                    ),
            decreases n - i,
        {
            let e = &entries[i];
            proof {
                let next = entries@.subrange(0, i + 1);
                assert(next.drop_last() =~= entries@.subrange(0, i as int));
                assert(next.last() == *e);
            }
            match &e.title {
                Some(t) => {
                    let v = record_of(e, t, channel_id);
                    out.push(v);
                },
                None => {},
            }
            i = i + 1;
        }
        assert(entries@.subrange(0, n as int) =~= entries@);
        out
    }
}

impl From<Playlist> for PlaylistWrapper {
    fn from(playlist: Playlist) -> (r: PlaylistWrapper)
        ensures
            r.0 == playlist,
    {
        PlaylistWrapper(playlist)
    }
}

impl vstd::std_specs::convert::FromSpecImpl<Playlist> for PlaylistWrapper {
    open spec fn obeys_from_spec() -> bool {
        true
    }

    open spec fn from_spec(playlist: Playlist) -> PlaylistWrapper {
        PlaylistWrapper(playlist)
    }
}

} // verus!
