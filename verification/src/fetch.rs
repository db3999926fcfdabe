//! Fetch planning and result handling for the one outbound request to the
//! scrobbling API. The network call itself is the caller's: this module builds
//! the request URL (refusing an absent credential before any request could be
//! attempted), classifies what came back into the fetch error taxonomy, and
//! absorbs every error into an empty track list so the page always renders.

use vstd::prelude::*;
use vstd::string::*;

use crate::numtext::{dec_digits, u64_to_string};
use crate::model::{DisplayTrack, displays_at, wf_display_track};
use crate::wire::{transform, TransformError, json_doc_of, payload_shape_ok, track_list_of_doc,
    tracks_of_list, skipped_of_list};
use crate::timefmt::now_unix_seconds;

verus! {

/// Why no response text was obtained: no credential is configured, the request
/// could not be sent, the response status was not a success, or the body of a
/// success response could not be read.
#[derive(Debug, Clone, Copy, PartialEq, Eq, Structural)]
pub enum FetchError {
    NoCredential,
    TransportFailure,
    HttpStatus(u16),
    BodyReadFailure,
}

/// What one attempted HTTP exchange produced: no response at all, or a status
/// code with the body text where it could be read.
pub enum HttpOutcome {
    NoResponse,
    Response { status: u16, body: Option<String> },
}

/// The GET request URL for the recent-tracks query of one user with an API
/// key and a page-size limit.
pub open spec fn request_url_spec(api_key: Seq<char>, user: Seq<char>, limit: int) -> Seq<char> {
    "http://ws.audioscrobbler.com/2.0/?method=user.getrecenttracks&user="@ + user
        + "&api_key="@ + api_key + "&format=json&limit="@ + dec_digits(limit as nat)
}

/// Builds the recent-tracks request URL, refusing an empty credential before
/// any request could be attempted.
pub fn build_request_url(api_key: &str, user: &str, limit: u32) -> (r: Result<String, FetchError>)
    ensures
        api_key@.len() == 0 ==> r == Err::<String, FetchError>(FetchError::NoCredential),
        api_key@.len() > 0 ==> r is Ok && r->Ok_0@ == request_url_spec(
            api_key@,
            user@,
            limit as int,
        ),
{
    if api_key.unicode_len() == 0 {
        return Err(FetchError::NoCredential);
    }
    let mut url = String::from_str(
        "http://ws.audioscrobbler.com/2.0/?method=user.getrecenttracks&user=",
    );
    url.append(user);
    url.append("&api_key=");
    url.append(api_key);
    url.append("&format=json&limit=");
    let limit_text = u64_to_string(limit as u64);
    url.append(limit_text.as_str());
    Ok(url)
}

/// Plans the fetch from the configured credential: no URL when the credential
/// is absent or empty (the feature is silently disabled and no request may be
/// attempted), otherwise the request URL.
pub fn plan_fetch(credential: &Option<String>, user: &str, limit: u32) -> (r: Option<String>)
    ensures
        r is Some <==> (credential is Some && credential->0@.len() > 0),
        r matches Some(url) ==> url@ == request_url_spec(
            credential->0@,
            user@,
            limit as int,
        ),
{
    match credential {
        None => None,
        Some(key) => match build_request_url(key.as_str(), user, limit) {
            Ok(url) => Some(url),
            Err(_) => None,
        },
    }
}

/// Classifies one HTTP exchange: no response is a transport failure, a
/// non-success status is refused with its code and its body is never read,
/// and an unreadable body of a success response is a body-read failure;
/// only a readable body of a success response is handed on, unmodified.
pub fn interpret_fetch(outcome: HttpOutcome) -> (r: Result<String, FetchError>)
    ensures
        outcome is NoResponse ==> r == Err::<String, FetchError>(FetchError::TransportFailure),
        outcome matches HttpOutcome::Response { status, body } ==> {
            &&& !(200 <= status < 300) ==> r == Err::<String, FetchError>(
                FetchError::HttpStatus(status),
            )
            &&& 200 <= status < 300 && body is None ==> r == Err::<String, FetchError>(
                FetchError::BodyReadFailure,
            )
            &&& 200 <= status < 300 && body is Some ==> r is Ok && r->Ok_0@ == body->0@
        },
{
    match outcome {
        HttpOutcome::NoResponse => Err(FetchError::TransportFailure),
        HttpOutcome::Response { status, body } => {
            if !(200 <= status && status < 300) {
                Err(FetchError::HttpStatus(status))
            } else {
                match body {
                    None => Err(FetchError::BodyReadFailure),
                    Some(text) => Ok(text),
                }
            }
        },
    }
}

/// A condition absorbed at the orchestration boundary: the fetch failed, or
/// the fetched body was malformed as a whole.
#[derive(Debug, Clone, Copy, PartialEq, Eq, Structural)]
pub enum AbsorbedFault {
    Fetch(FetchError),
    Transform(TransformError),
}

/// What collapsing one fetch result produced: the display list the page
/// renders, the absorbed fault if one was absorbed, and how many entries of a
/// good payload were skipped as malformed — the observability hook at the
/// point every error is absorbed.
pub struct CollectReport {
    pub tracks: Vec<DisplayTrack>,
    pub fault: Option<AbsorbedFault>,
    pub skipped: usize,
}

/// Collapses the fetch result into the display list the page renders,
/// reporting what was absorbed: a fetch error or a payload malformed as a
/// whole gives the empty list and names the fault; a good payload gives one
/// display record per usable entry, in the payload's order, each read as of
/// some one clock value, with the count of skipped entries. Never fails.
pub fn collect_display_tracks_observed(fetch: Result<String, FetchError>) -> (r: CollectReport)
    ensures
        forall|i: int| 0 <= i < r.tracks@.len() ==> wf_display_track(#[trigger] r.tracks@[i]),
        fetch matches Err(e) ==> r.tracks@.len() == 0 && r.fault == Some(AbsorbedFault::Fetch(e))
            && r.skipped == 0,
        fetch matches Ok(text) ==> {
            &&& !payload_shape_ok(json_doc_of(text@)) ==> r.tracks@.len() == 0 && r.fault
                == Some(AbsorbedFault::Transform(TransformError::MalformedPayload))
                && r.skipped == 0
            &&& payload_shape_ok(json_doc_of(text@)) ==> {
                let l = track_list_of_doc(json_doc_of(text@))->0;
                &&& r.fault is None
                &&& r.skipped == skipped_of_list(l)
                &&& exists|now: int| displays_at(tracks_of_list(l), now, r.tracks@)
            }
        },
{
    match fetch {
        Err(e) => CollectReport {
            tracks: Vec::new(),
            fault: Some(AbsorbedFault::Fetch(e)),
            skipped: 0,
        },
        Ok(text) => {
            let now = now_unix_seconds();
            match transform(text.as_str(), now) {
                Err(e) => CollectReport {
                    tracks: Vec::new(),
                    fault: Some(AbsorbedFault::Transform(e)),
                    skipped: 0,
                },
                Ok((tracks, skipped)) => {
                    let report = CollectReport { tracks, fault: None, skipped };
                    proof {
                        let l = track_list_of_doc(json_doc_of(text@))->0;
                        assert(displays_at(tracks_of_list(l), now as int, report.tracks@));
                    }
                    report
                },
            }
        },
    }
}

/// Collapses the fetch result into the display list the page renders: any
/// fetch error and any malformed payload give the empty list, a good payload
/// gives one well-formed display record per usable entry, in the payload's
/// order. Never fails.
pub fn collect_display_tracks(fetch: Result<String, FetchError>) -> (r: Vec<DisplayTrack>)
    ensures
        fetch is Err ==> r@.len() == 0,
        forall|i: int| 0 <= i < r@.len() ==> wf_display_track(#[trigger] r@[i]),
        fetch matches Ok(text) ==> {
            &&& !payload_shape_ok(json_doc_of(text@)) ==> r@.len() == 0
            &&& payload_shape_ok(json_doc_of(text@)) ==> (exists|now: int|
                displays_at(tracks_of_list(track_list_of_doc(json_doc_of(text@))->0), now, r@))
        },
{
    let report = collect_display_tracks_observed(fetch);
    report.tracks
}

/// The short label of a fetch error, for the observability hook.
pub open spec fn fetch_error_label(e: FetchError) -> Seq<char> {
    match e {
        FetchError::NoCredential => "no credential configured"@,
        FetchError::TransportFailure => "request could not be sent"@,
        FetchError::HttpStatus(code) => "http status "@ + dec_digits(code as nat),
        FetchError::BodyReadFailure => "response body could not be read"@,
    }
}

impl FetchError {
    /// A short label of the error, for the observability hook at the point the
    /// error is absorbed.
    pub fn description(&self) -> (s: String)
        ensures
            s@ == fetch_error_label(*self),
    {
        match self {
            FetchError::NoCredential => String::from_str("no credential configured"),
            FetchError::TransportFailure => String::from_str("request could not be sent"),
            FetchError::HttpStatus(code) => {
                let mut s = String::from_str("http status ");
                let num = u64_to_string(*code as u64);
                s.append(num.as_str());
                s
            },
            FetchError::BodyReadFailure => String::from_str("response body could not be read"),
        }
    }
}

impl AbsorbedFault {
    /// A short label of the absorbed condition, for the observability hook.
    pub fn description(&self) -> (s: String)
        ensures
            self matches AbsorbedFault::Fetch(e) ==> s@ == fetch_error_label(*e),
            *self is Transform ==> s@ == "malformed payload"@,
    {
        match self {
            AbsorbedFault::Fetch(e) => e.description(),
            AbsorbedFault::Transform(_) => String::from_str("malformed payload"),
        }
    }
}

} // verus!
