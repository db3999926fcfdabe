//! The track model: the typed shape of one raw track entry from the
//! scrobbling API, the display-ready record handed to the page, and the
//! transformation from one to the other.

use vstd::prelude::*;
use vstd::string::*;

use crate::timefmt::{bucket_label, time_ago_spec, format_time_ago_at};

verus! {

/// One image variant of a track entry: a size label and a URL.
pub struct Image {
    pub size: String,
    pub url: String,
}

/// The play timestamp of a historical track entry, in Unix seconds as the API
/// sends it: a decimal string.
pub struct Date {
    pub uts: String,
}

/// One raw track entry, as the API's wire schema carries it: names copied
/// verbatim, a permalink, the image variants, and a play timestamp that is
/// absent for the currently-playing entry.
pub struct Track {
    pub artist: String,
    pub album: String,
    pub name: String,
    pub url: String,
    pub images: Vec<Image>,
    pub date: Option<Date>,
}

/// The raw track entries of one response, in the API's own order.
pub struct RecentTracks {
    pub tracks: Vec<Track>,
}

/// The root of the API's response payload.
pub struct LastFmResponse {
    pub recenttracks: RecentTracks,
}

/// The display-ready record of one track play: every field is populated with
/// something renderable.
pub struct DisplayTrack {
    pub artist: String,
    pub image_url: String,
    pub time_ago: String,
    pub album: String,
    pub name: String,
}

/// The mathematical view of one raw track entry: the same fields as `Track`,
/// with the image variants as a sequence. The wire layer's contracts speak of
/// entries in this form.
#[verifier::ext_equal]
pub ghost struct TrackView {
    pub artist: String,
    pub album: String,
    pub name: String,
    pub url: String,
    pub images: Seq<Image>,
    pub date: Option<Date>,
}

/// The view of a raw track entry.
pub open spec fn track_view(t: Track) -> TrackView {
    TrackView {
        artist: t.artist,
        album: t.album,
        name: t.name,
        url: t.url,
        images: t.images@,
        date: t.date,
    }
}

/// The URL of the first image variant labeled "small", or the empty
/// placeholder when no variant matches.
pub open spec fn small_image_url(images: Seq<Image>) -> Seq<char>
    decreases images.len(),
{
    if images.len() == 0 {
        ""@
    } else if images[0].size@ == "small"@ {
        images[0].url@
    } else {
        small_image_url(images.drop_first())
    }
}

/// The relative-time label of a track: the explicit now-playing marker when
/// the play timestamp is absent, otherwise the timestamp's label.
pub open spec fn track_label(t: TrackView, now: int) -> Seq<char> {
    match t.date {
        None => "now playing"@,
        Some(d) => time_ago_spec(d.uts@, now),
    }
}

/// `d` is the display record of raw entry `t` as seen at time `now`.
pub open spec fn display_matches(t: TrackView, now: int, d: DisplayTrack) -> bool {
    &&& d.artist@ == t.artist@
    &&& d.album@ == t.album@
    &&& d.name@ == t.name@
    &&& d.image_url@ == small_image_url(t.images)
    &&& d.time_ago@ == track_label(t, now)
}

/// `out` is the display sequence of the entries `l` as seen at time `now`: one
/// record per entry, in order.
pub open spec fn displays_at(l: Seq<TrackView>, now: int, out: Seq<DisplayTrack>) -> bool {
    &&& out.len() == l.len()
    &&& forall|i: int| 0 <= i < out.len() ==> display_matches(l[i], now, #[trigger] out[i])
}

/// A relative-time label the library can produce: a sentinel, the now-playing
/// marker, or some elapsed-time bucket.
pub open spec fn wf_label(l: Seq<char>) -> bool {
    ||| l == "Invalid timestamp"@
    ||| l == "now playing"@
    ||| exists|d: int| 0 <= d && l == bucket_label(d)
}

/// A display record whose relative-time label is one the library produces.
pub open spec fn wf_display_track(d: DisplayTrack) -> bool {
    wf_label(d.time_ago@)
}

/// A display record of any raw entry carries a well-formed label.
pub proof fn lemma_display_matches_wf(t: TrackView, now: int, d: DisplayTrack)
    requires
        display_matches(t, now, d),
    ensures
        wf_display_track(d),
{
    match t.date {
        None => {},
        Some(pd) => {
            match crate::numtext::parse_i64_spec(pd.uts@) {
                None => {},
                Some(ts) => {
                    if crate::timefmt::chrono_ts_ok(ts) {
                        let delta: int = if now >= ts {
                            now - ts
                        } else {
                            0
                        };
                        assert(0 <= delta && d.time_ago@ == bucket_label(delta));
                    }
                },
            }
        },
    }
}

/// An entry none of whose image variants is labeled "small" gets the empty
/// placeholder URL.
pub proof fn lemma_no_small_image_placeholder(images: Seq<Image>)
    requires
        forall|i: int| 0 <= i < images.len() ==> (#[trigger] images[i].size@) != "small"@,
    ensures
        small_image_url(images) == ""@,
    decreases images.len(),
{
    if images.len() > 0 {
        assert(forall|i: int|
            0 <= i < images.drop_first().len() ==> (#[trigger] images.drop_first()[i].size@)
                != "small"@) by {
            assert(forall|i: int|
                0 <= i < images.drop_first().len() ==> images.drop_first()[i] == images[i + 1]);
        }
        lemma_no_small_image_placeholder(images.drop_first());
    }
}

/// A display record of an entry none of whose image variants is labeled
/// "small" carries the empty placeholder URL; the rest of the record is
/// unaffected.
pub proof fn lemma_missing_small_image_is_placeholder(t: TrackView, now: int, d: DisplayTrack)
    requires
        forall|i: int| 0 <= i < t.images.len() ==> (#[trigger] t.images[i].size@) != "small"@,
        display_matches(t, now, d),
    ensures
        d.image_url@ == ""@,
{
    lemma_no_small_image_placeholder(t.images);
}

/// A display record of an entry without a play timestamp is labeled
/// "now playing": the timestamp formatter is never invoked on missing data.
pub proof fn lemma_missing_timestamp_is_now_playing(t: TrackView, now: int, d: DisplayTrack)
    requires
        t.date is None,
        display_matches(t, now, d),
    ensures
        d.time_ago@ == "now playing"@,
{
}

/// Picks the URL of the first image variant labeled "small", or the empty
/// placeholder when no variant matches.
fn pick_small_image(images: &Vec<Image>) -> (r: String)
    ensures
        r@ == small_image_url(images@),
{
    let small = String::from_str("small");
    let mut i: usize = 0;
    proof {
        assert(images@.skip(0) =~= images@);
    }
    while i < images.len()
        invariant
            0 <= i <= images@.len(),
            small@ == "small"@,
            small_image_url(images@) == small_image_url(images@.skip(i as int)),
        decreases images@.len() - i,
    {
        proof {
            assert(images@.skip(i as int)[0] == images@[i as int]);
            assert(images@.skip(i as int).drop_first() =~= images@.skip(i + 1));
        }
        if images[i].size == small {
            return images[i].url.clone();
        }
        i = i + 1;
    }
    proof {
        assert(images@.skip(i as int).len() == 0);
        reveal_strlit("");
        assert(""@ =~= Seq::<char>::empty());
    }
    String::new()
}

/// Builds the display record of one raw entry as seen at `now_seconds`.
fn display_track(t: &Track, now_seconds: i64) -> (d: DisplayTrack)
    ensures
        display_matches(track_view(*t), now_seconds as int, d),
{
    let time_ago = match &t.date {
        None => String::from_str("now playing"),
        Some(d) => format_time_ago_at(d.uts.as_str(), now_seconds),
    };
    DisplayTrack {
        artist: t.artist.clone(),
        image_url: pick_small_image(&t.images),
        time_ago,
        album: t.album.clone(),
        name: t.name.clone(),
    }
}

/// Maps every raw entry of a payload to its display record, in the payload's
/// own order: one output per entry, missing image variants and missing play
/// timestamps handled per entry, never aborting the batch.
pub fn transform_payload(resp: &LastFmResponse, now_seconds: i64) -> (out: Vec<DisplayTrack>)
    ensures
        out@.len() == resp.recenttracks.tracks@.len(),
        forall|i: int|
            0 <= i < out@.len() ==> display_matches(
                track_view(resp.recenttracks.tracks@[i]),
                now_seconds as int,
                #[trigger] out@[i],
            ),
        displays_at(
            resp.recenttracks.tracks@.map_values(|t: Track| track_view(t)),
            now_seconds as int,
            out@,
        ),
{
    let tracks = &resp.recenttracks.tracks;
    let mut out: Vec<DisplayTrack> = Vec::new();
    let mut i: usize = 0;
    while i < tracks.len()
        invariant
            0 <= i <= tracks@.len(),
            out@.len() == i,
            forall|k: int|
                0 <= k < i ==> display_matches(
                    track_view(tracks@[k]),
                    now_seconds as int,
                    #[trigger] out@[k],
                ),
        decreases tracks@.len() - i,
    {
        let d = display_track(&tracks[i], now_seconds);
        out.push(d);
        i = i + 1;
    }
    out
}

} // verus!
