//! Defensive parsing of the API's JSON payload. The raw response text is
//! parsed by serde_json behind one trusted boundary that abstracts the parse
//! result into the library's own JSON tree; everything after that — checking
//! the root shape, extracting each entry's fields, skipping malformed entries
//! — is verified code whose contracts pin the result over that tree.

use vstd::prelude::*;
use vstd::string::*;

use crate::model::{Date, Image, LastFmResponse, RecentTracks, Track, TrackView, DisplayTrack,
    track_view, displays_at, wf_display_track, transform_payload, lemma_display_matches_wf};

verus! {

/// The one way a payload can fail as a whole: its text is not valid JSON, or
/// the root does not hold the expected list of track entries.
#[derive(Debug, Clone, Copy, PartialEq, Eq, Structural)]
pub enum TransformError {
    MalformedPayload,
}

/// The library's own shape of a parsed JSON document: numbers are kept as
/// their rendered text, objects as their key/value pairs in serde_json's
/// iteration order.
pub enum JsonTree {
    Null,
    Bool(bool),
    Num(String),
    Str(String),
    Arr(Vec<JsonTree>),
    Obj(Vec<(String, JsonTree)>),
}

/// The JSON document a text parses to, abstracted into the library's tree:
/// nothing when the text is not valid JSON. A function of the text alone.
pub uninterp spec fn json_doc_of(text: Seq<char>) -> Option<JsonTree>;

#[verifier::external_type_specification]
#[verifier::external_body]
pub struct ExJsonValue(serde_json::Value);

/// Converts serde_json's value tree into the library's own, variant by
/// variant; used only inside the trusted parse boundary.
#[verifier::external_body]
fn to_json_tree(v: &serde_json::Value) -> JsonTree {
    match v {
        serde_json::Value::Null => JsonTree::Null,
        serde_json::Value::Bool(b) => JsonTree::Bool(*b),
        serde_json::Value::Number(n) => JsonTree::Num(n.to_string()),
        serde_json::Value::String(s) => JsonTree::Str(s.clone()),
        serde_json::Value::Array(a) => JsonTree::Arr(a.iter().map(to_json_tree).collect()),
        serde_json::Value::Object(o) => JsonTree::Obj(
            o.iter().map(|(k, t)| (k.clone(), to_json_tree(t))).collect(),
        ),
    }
}

/// Relies on `serde_json::from_str::<Value>`: parses the text as JSON, `None`
/// exactly when the text is not valid JSON; the result is a function of the
/// text alone, named `json_doc_of`.
#[verifier::external_body]
fn json_parse(text: &str) -> (r: Option<JsonTree>)
    ensures
        r == json_doc_of(text@),
{
    match serde_json::from_str::<serde_json::Value>(text) {
        Ok(v) => Some(to_json_tree(&v)),
        Err(_) => None,
    }
}

/// The value under `key` among an object's fields: the first pair whose key
/// matches, as serde_json's map lookup finds it.
pub open spec fn obj_lookup(fields: Seq<(String, JsonTree)>, key: Seq<char>) -> Option<JsonTree>
    decreases fields.len(),
{
    if fields.len() == 0 {
        None
    } else if fields[0].0@ == key {
        Some(fields[0].1)
    } else {
        obj_lookup(fields.drop_first(), key)
    }
}

/// The value under `key` of a JSON object; nothing when the tree is not an
/// object or lacks the key.
pub open spec fn tree_get(t: JsonTree, key: Seq<char>) -> Option<JsonTree> {
    match t {
        JsonTree::Obj(fields) => obj_lookup(fields@, key),
        _ => None,
    }
}

/// The text of a JSON string; nothing when the tree is not a string.
pub open spec fn tree_str(t: JsonTree) -> Option<String> {
    match t {
        JsonTree::Str(s) => Some(s),
        _ => None,
    }
}

/// The text under a string-valued field of an object.
pub open spec fn text_field(t: JsonTree, key: Seq<char>) -> Option<String> {
    match tree_get(t, key) {
        Some(f) => tree_str(f),
        None => None,
    }
}

/// The text one object deep, as the API writes names:
/// `{"artist": {"#text": "..."}}`.
pub open spec fn nested_text(t: JsonTree, key: Seq<char>) -> Option<String> {
    match tree_get(t, key) {
        Some(inner) => text_field(inner, "#text"@),
        None => None,
    }
}

/// One image variant of an entry's image list; nothing when its fields are
/// missing or mistyped.
pub open spec fn image_of_tree(t: JsonTree) -> Option<Image> {
    match (text_field(t, "size"@), text_field(t, "#text"@)) {
        (Some(size), Some(url)) => Some(Image { size, url }),
        _ => None,
    }
}

/// The usable image variants of an entry's image list, in order, the
/// malformed ones dropped.
pub open spec fn images_of_list(l: Seq<JsonTree>) -> Seq<Image>
    decreases l.len(),
{
    if l.len() == 0 {
        Seq::empty()
    } else {
        images_of_list(l.drop_last()) + match image_of_tree(l.last()) {
            Some(im) => seq![im],
            None => Seq::<Image>::empty(),
        }
    }
}

/// The entry's image list; nothing when the `image` field is missing or not
/// an array.
pub open spec fn image_list_of(e: JsonTree) -> Option<Seq<JsonTree>> {
    match tree_get(e, "image"@) {
        Some(JsonTree::Arr(l)) => Some(l@),
        _ => None,
    }
}

/// The entry's optional play timestamp: no `date` field is the now-playing
/// case; a `date` field without a string `uts` makes the entry malformed.
pub open spec fn date_of_tree(e: JsonTree) -> Option<Option<Date>> {
    match tree_get(e, "date"@) {
        None => Some(None),
        Some(dv) => match text_field(dv, "uts"@) {
            Some(uts) => Some(Some(Date { uts })),
            None => None,
        },
    }
}

/// The view of one raw track entry read from its JSON tree; nothing when a
/// required field is missing or mistyped, the per-entry skip condition.
pub open spec fn track_of_tree(e: JsonTree) -> Option<TrackView> {
    match (nested_text(e, "artist"@), nested_text(e, "album"@)) {
        (Some(artist), Some(album)) => match (text_field(e, "name"@), text_field(e, "url"@)) {
            (Some(name), Some(url)) => match (image_list_of(e), date_of_tree(e)) {
                (Some(imgs), Some(date)) => Some(
                    TrackView { artist, album, name, url, images: images_of_list(imgs), date },
                ),
                _ => None,
            },
            _ => None,
        },
        _ => None,
    }
}

/// The usable entries of the payload's track list, in order, the malformed
/// ones skipped.
pub open spec fn tracks_of_list(l: Seq<JsonTree>) -> Seq<TrackView>
    decreases l.len(),
{
    if l.len() == 0 {
        Seq::empty()
    } else {
        tracks_of_list(l.drop_last()) + match track_of_tree(l.last()) {
            Some(t) => seq![t],
            None => Seq::<TrackView>::empty(),
        }
    }
}

/// How many entries of the payload's track list are skipped as malformed.
pub open spec fn skipped_of_list(l: Seq<JsonTree>) -> nat
    decreases l.len(),
{
    if l.len() == 0 {
        0
    } else {
        skipped_of_list(l.drop_last()) + if track_of_tree(l.last()) is None {
            1nat
        } else {
            0nat
        }
    }
}

/// The payload's track list: the array under `recenttracks.track` of the
/// parsed document; nothing when the document or that shape is missing.
pub open spec fn track_list_of_doc(doc: Option<JsonTree>) -> Option<Seq<JsonTree>> {
    match doc {
        None => None,
        Some(root) => match tree_get(root, "recenttracks"@) {
            None => None,
            Some(rt) => match tree_get(rt, "track"@) {
                Some(JsonTree::Arr(l)) => Some(l@),
                _ => None,
            },
        },
    }
}

/// The document holds the expected root shape: a `recenttracks` object with a
/// `track` array.
pub open spec fn payload_shape_ok(doc: Option<JsonTree>) -> bool {
    track_list_of_doc(doc) is Some
}

/// Looks up a field of a JSON object tree.
fn get_field<'a>(t: &'a JsonTree, key: &str) -> (r: Option<&'a JsonTree>)
    ensures
        r matches Some(f) ==> tree_get(*t, key@) == Some(*f),
        r is None ==> tree_get(*t, key@) is None,
{
    match t {
        JsonTree::Obj(fields) => {
            let key_string = String::from_str(key);
            let mut i: usize = 0;
            proof {
                assert(fields@.skip(0) =~= fields@);
            }
            while i < fields.len()
                invariant
                    0 <= i <= fields@.len(),
                    key_string@ == key@,
                    tree_get(*t, key@) == obj_lookup(fields@, key@),
                    obj_lookup(fields@, key@) == obj_lookup(fields@.skip(i as int), key@),
                decreases fields@.len() - i,
            {
                proof {
                    assert(fields@.skip(i as int)[0] == fields@[i as int]);
                    assert(fields@.skip(i as int).drop_first() =~= fields@.skip(i + 1));
                }
                if fields[i].0 == key_string {
                    return Some(&fields[i].1);
                }
                i = i + 1;
            }
            proof {
                assert(fields@.skip(i as int).len() == 0);
            }
            None
        },
        _ => None,
    }
}

/// Reads a JSON string tree as an owned string.
fn as_string_tree(t: &JsonTree) -> (r: Option<String>)
    ensures
        r == tree_str(*t),
{
    match t {
        JsonTree::Str(s) => Some(s.clone()),
        _ => None,
    }
}

/// Reads a string field of a JSON object tree.
fn string_field(t: &JsonTree, key: &str) -> (r: Option<String>)
    ensures
        r == text_field(*t, key@),
{
    match get_field(t, key) {
        None => None,
        Some(f) => as_string_tree(f),
    }
}

/// Reads a string field nested one object deep.
fn nested_text_field(t: &JsonTree, key: &str) -> (r: Option<String>)
    ensures
        r == nested_text(*t, key@),
{
    match get_field(t, key) {
        None => None,
        Some(inner) => string_field(inner, "#text"),
    }
}

/// Reads the image variants of one entry: a variant with missing or mistyped
/// fields is dropped, the others keep their order.
fn parse_images(v: &JsonTree) -> (r: Option<Vec<Image>>)
    ensures
        r is Some <==> image_list_of(*v) is Some,
        r matches Some(images) ==> images@ == images_of_list(image_list_of(*v)->0),
{
    let arr = match get_field(v, "image") {
        None => {
            return None;
        },
        Some(f) => match f {
            JsonTree::Arr(a) => a,
            _ => {
                return None;
            },
        },
    };
    let ghost l = arr@;
    let mut images: Vec<Image> = Vec::new();
    let mut i: usize = 0;
    proof {
        assert(l.take(0) =~= Seq::<JsonTree>::empty());
    }
    while i < arr.len()
        invariant
            0 <= i <= l.len(),
            l == arr@,
            images@ == images_of_list(l.take(i as int)),
        decreases l.len() - i,
    {
        proof {
            assert(l.take(i + 1).drop_last() =~= l.take(i as int));
            assert(l.take(i + 1).last() == l[i as int]);
        }
        let size = string_field(&arr[i], "size");
        let url = string_field(&arr[i], "#text");
        match (size, url) {
            (Some(size), Some(url)) => {
                images.push(Image { size, url });
                proof {
                    assert(images@ =~= images_of_list(l.take(i + 1)));
                }
            },
            _ => {
                proof {
                    assert(images@ =~= images_of_list(l.take(i + 1)));
                }
            },
        }
        i = i + 1;
    }
    proof {
        assert(l.take(i as int) =~= l);
    }
    Some(images)
}

/// Reads one raw track entry; `None` when a required field is missing or
/// mistyped, the per-entry skip condition.
fn parse_track(v: &JsonTree) -> (r: Option<Track>)
    ensures
        r is Some <==> track_of_tree(*v) is Some,
        r matches Some(t) ==> track_of_tree(*v) == Some(track_view(t)),
{
    let artist = match nested_text_field(v, "artist") {
        None => {
            return None;
        },
        Some(s) => s,
    };
    let album = match nested_text_field(v, "album") {
        None => {
            return None;
        },
        Some(s) => s,
    };
    let name = match string_field(v, "name") {
        None => {
            return None;
        },
        Some(s) => s,
    };
    let url = match string_field(v, "url") {
        None => {
            return None;
        },
        Some(s) => s,
    };
    let images = match parse_images(v) {
        None => {
            return None;
        },
        Some(im) => im,
    };
    let date = match get_field(v, "date") {
        None => None,
        Some(dv) => match string_field(dv, "uts") {
            None => {
                return None;
            },
            Some(uts) => Some(Date { uts }),
        },
    };
    let t = Track { artist, album, name, url, images, date };
    proof {
        assert(track_of_tree(*v) matches Some(tv) && tv =~= track_view(t));
    }
    Some(t)
}

/// Parses the raw response text into the typed payload: `Err` exactly when
/// the text is not valid JSON or its root is not the expected shape, `Ok`
/// carrying the usable entries in order and the count of entries skipped for
/// missing or mistyped fields.
pub fn parse_payload(text: &str) -> (r: Result<(LastFmResponse, usize), TransformError>)
    ensures
        r is Ok <==> payload_shape_ok(json_doc_of(text@)),
        r is Err ==> r->Err_0 == TransformError::MalformedPayload,
        r matches Ok((resp, skipped)) ==> {
            let l = track_list_of_doc(json_doc_of(text@))->0;
            &&& resp.recenttracks.tracks@.map_values(|t: Track| track_view(t))
                == tracks_of_list(l)
            &&& skipped == skipped_of_list(l)
        },
{
    let root = match json_parse(text) {
        None => {
            return Err(TransformError::MalformedPayload);
        },
        Some(v) => v,
    };
    let recent = match get_field(&root, "recenttracks") {
        None => {
            return Err(TransformError::MalformedPayload);
        },
        Some(v) => v,
    };
    let arr = match get_field(recent, "track") {
        None => {
            return Err(TransformError::MalformedPayload);
        },
        Some(v) => match v {
            JsonTree::Arr(a) => a,
            _ => {
                return Err(TransformError::MalformedPayload);
            },
        },
    };
    let ghost l = arr@;
    let mut tracks: Vec<Track> = Vec::new();
    let mut skipped: usize = 0;
    let mut i: usize = 0;
    proof {
        assert(l.take(0) =~= Seq::<JsonTree>::empty());
        assert(tracks@.map_values(|t: Track| track_view(t)) =~= tracks_of_list(l.take(0)));
    }
    while i < arr.len()
        invariant
            0 <= i <= l.len(),
            l == arr@,
            skipped <= i,
            tracks@.map_values(|t: Track| track_view(t)) == tracks_of_list(l.take(i as int)),
            skipped == skipped_of_list(l.take(i as int)),
        decreases l.len() - i,
    {
        proof {
            assert(l.take(i + 1).drop_last() =~= l.take(i as int));
            assert(l.take(i + 1).last() == l[i as int]);
        }
        match parse_track(&arr[i]) {
            Some(t) => {
                tracks.push(t);
                proof {
                    assert(tracks@.map_values(|t: Track| track_view(t)) =~= tracks_of_list(
                        l.take(i + 1),
                    ));
                }
            },
            None => {
                skipped = skipped + 1;
                proof {
                    assert(tracks@.map_values(|t: Track| track_view(t)) =~= tracks_of_list(
                        l.take(i + 1),
                    ));
                }
            },
        }
        i = i + 1;
    }
    proof {
        assert(l.take(i as int) =~= l);
    }
    Ok((LastFmResponse { recenttracks: RecentTracks { tracks } }, skipped))
}

/// Parses the raw response text and maps every usable entry to its display
/// record as seen at `now_seconds`: `Err` exactly when the payload is
/// malformed as a whole, `Ok` carrying one display record per usable entry,
/// in the payload's order, and the count of skipped entries.
pub fn transform(text: &str, now_seconds: i64) -> (r: Result<
    (Vec<DisplayTrack>, usize),
    TransformError,
>)
    ensures
        r is Ok <==> payload_shape_ok(json_doc_of(text@)),
        r is Err ==> r->Err_0 == TransformError::MalformedPayload,
        r matches Ok((out, skipped)) ==> {
            let l = track_list_of_doc(json_doc_of(text@))->0;
            &&& displays_at(tracks_of_list(l), now_seconds as int, out@)
            &&& skipped == skipped_of_list(l)
        },
        r matches Ok((out, _)) ==> forall|i: int|
            0 <= i < out@.len() ==> wf_display_track(#[trigger] out@[i]),
{
    let (payload, skipped) = match parse_payload(text) {
        Err(e) => {
            return Err(e);
        },
        Ok(p) => p,
    };
    let out = transform_payload(&payload, now_seconds);
    proof {
        let l = track_list_of_doc(json_doc_of(text@))->0;
        let views = payload.recenttracks.tracks@.map_values(|t: Track| track_view(t));
        assert(views == tracks_of_list(l));
        assert(displays_at(tracks_of_list(l), now_seconds as int, out@));
        assert forall|i: int| 0 <= i < out@.len() implies wf_display_track(#[trigger] out@[i]) by {
            lemma_display_matches_wf(
                track_view(payload.recenttracks.tracks@[i]),
                now_seconds as int,
                out@[i],
            );
        }
    }
    Ok((out, skipped))
}

} // verus!
