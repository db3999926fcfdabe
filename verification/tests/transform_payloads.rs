use recent_tracks::model::{Date, Image, LastFmResponse, RecentTracks, Track};
use recent_tracks::model::transform_payload;
use recent_tracks::wire::{parse_payload, transform, TransformError};

fn track(name: &str, date: Option<&str>, images: Vec<(&str, &str)>) -> Track {
    Track {
        artist: format!("{} artist", name),
        album: format!("{} album", name),
        name: name.to_string(),
        url: format!("https://example.invalid/{}", name),
        images: images
            .into_iter()
            .map(|(size, url)| Image { size: size.to_string(), url: url.to_string() })
            .collect(),
        date: date.map(|uts| Date { uts: uts.to_string() }),
    }
}

#[test]
fn empty_payload_gives_empty_sequence() {
    let payload = LastFmResponse { recenttracks: RecentTracks { tracks: vec![] } };
    let out = transform_payload(&payload, 1000);
    assert_eq!(out.len(), 0);
}

#[test]
fn empty_payload_text_is_not_an_error() {
    let text = r##"{"recenttracks":{"track":[],"@attr":{"user":"u","totalPages":"1","total":"0","perPage":"10"}}}"##;
    let (tracks, skipped) = transform(text, 1000).expect("empty list is not malformed");
    assert_eq!(tracks.len(), 0);
    assert_eq!(skipped, 0);
}

#[test]
fn missing_small_image_gets_placeholder() {
    let payload = LastFmResponse {
        recenttracks: RecentTracks {
            tracks: vec![
                track("a", Some("400"), vec![("medium", "https://img/m"), ("large", "https://img/l")]),
                track("b", Some("400"), vec![("small", "https://img/s")]),
            ],
        },
    };
    let out = transform_payload(&payload, 1000);
    assert_eq!(out.len(), 2);
    assert_eq!(out[0].image_url, "");
    assert_eq!(out[1].image_url, "https://img/s");
}

#[test]
fn missing_timestamp_is_now_playing() {
    let payload = LastFmResponse {
        recenttracks: RecentTracks { tracks: vec![track("a", None, vec![("small", "u")])] },
    };
    let out = transform_payload(&payload, 1000);
    assert_eq!(out[0].time_ago, "now playing");
}

#[test]
fn timestamps_are_bucketed_relative_to_now() {
    let payload = LastFmResponse {
        recenttracks: RecentTracks { tracks: vec![track("a", Some("400"), vec![])] },
    };
    let out = transform_payload(&payload, 1000);
    assert_eq!(out[0].time_ago, "10 mins ago");
}

#[test]
fn malformed_text_is_malformed_payload() {
    assert!(matches!(
        transform("not json at all", 1000),
        Err(TransformError::MalformedPayload)
    ));
    assert!(matches!(transform("", 1000), Err(TransformError::MalformedPayload)));
    assert!(matches!(transform("{}", 1000), Err(TransformError::MalformedPayload)));
    assert!(matches!(
        transform(r##"{"recenttracks":{"track":"not an array"}}"##, 1000),
        Err(TransformError::MalformedPayload)
    ));
    assert!(matches!(
        transform(r##"{"recenttracks":{}}"##, 1000),
        Err(TransformError::MalformedPayload)
    ));
}

#[test]
fn malformed_entry_is_skipped_not_fatal() {
    let text = r##"{"recenttracks":{"track":[
        {"artist":{"#text":"A"},"album":{"#text":"B"},"name":"C","url":"u","image":[]},
        {"artist":{"#text":"A"}}
    ]}}"##;
    let (payload, skipped) = parse_payload(text).expect("payload parses");
    assert_eq!(payload.recenttracks.tracks.len(), 1);
    assert_eq!(skipped, 1);
    assert_eq!(payload.recenttracks.tracks[0].name, "C");
}

#[test]
fn end_to_end_three_entries_preserve_order() {
    // One entry missing its timestamp, one missing a "small" image variant,
    // one fully populated.
    let text = r##"{"recenttracks":{"track":[
        {"artist":{"#text":"Artist One","mbid":""},
         "album":{"#text":"Album One","mbid":""},
         "name":"Track One",
         "url":"https://example.invalid/1",
         "streamable":"0",
         "image":[{"size":"small","url":"x","#text":"https://img/1-small"}]},
        {"artist":{"#text":"Artist Two"},
         "album":{"#text":"Album Two"},
         "name":"Track Two",
         "url":"https://example.invalid/2",
         "image":[{"size":"large","#text":"https://img/2-large"}],
         "date":{"uts":"1000","#text":"whenever"}},
        {"artist":{"#text":"Artist Three"},
         "album":{"#text":"Album Three"},
         "name":"Track Three",
         "url":"https://example.invalid/3",
         "image":[{"size":"small","#text":"https://img/3-small"}],
         "date":{"uts":"100000","#text":"whenever"}}
    ],"@attr":{"user":"u"}}}"##;
    let now = 100000 + 7200;
    let (out, skipped) = transform(text, now).expect("payload parses");
    assert_eq!(skipped, 0);
    assert_eq!(out.len(), 3);

    assert_eq!(out[0].artist, "Artist One");
    assert_eq!(out[0].album, "Album One");
    assert_eq!(out[0].name, "Track One");
    assert_eq!(out[0].image_url, "https://img/1-small");
    assert_eq!(out[0].time_ago, "now playing");

    assert_eq!(out[1].artist, "Artist Two");
    assert_eq!(out[1].image_url, "");
    assert_eq!(out[1].time_ago, "1 days ago");

    assert_eq!(out[2].artist, "Artist Three");
    assert_eq!(out[2].image_url, "https://img/3-small");
    assert_eq!(out[2].time_ago, "2 hrs ago");
}

#[test]
fn image_variant_without_url_is_dropped() {
    let text = r##"{"recenttracks":{"track":[
        {"artist":{"#text":"A"},"album":{"#text":"B"},"name":"C","url":"u",
         "image":[{"size":"small"},{"size":"small","#text":"https://img/kept"}]}
    ]}}"##;
    let (out, skipped) = transform(text, 0).expect("payload parses");
    assert_eq!(skipped, 0);
    assert_eq!(out[0].image_url, "https://img/kept");
}
