//! The decisions of one lookup, as a machine from stage and event to the next
//! stage and an action. The caller performs each action (a GET request, the
//! file write) and hands back what came of it as the next event.
use vstd::prelude::*;
use crate::geocode::{box_of_response, joined_box, parse_geocoding_response, GeocodeError};
use crate::query::{geocode_pairs, geocoding_url, parcel_pairs, parcels_url, url_with_query};
use crate::query::{GEOCODE_URL, PARCELS_URL};

verus! {

/// The file that receives the parcel response.
pub const OUTPUT_FILE: &'static str = "parcels.geojson";

/// Where a run stands.
#[derive(Clone, Copy, Debug, PartialEq, Eq, Structural)]
pub enum Stage {
    /// Waiting for the API key and the address.
    Configure,
    /// Waiting for the geocoding response.
    Geocode,
    /// Waiting for the parcel response.
    Parcels,
    /// Waiting for the output file to be written.
    Persist,
    /// The run is over.
    Finished,
}

/// How a GET request failed.
#[derive(Clone, Copy, Debug, PartialEq, Eq, Structural)]
pub enum FetchError {
    /// The request could not be sent or no response came.
    Transport,
    /// The response had a status other than success.
    Status,
    /// The response body could not be read as text.
    Body,
}

/// Why a run stopped without its output.
#[derive(Clone, Copy, Debug, PartialEq, Eq, Structural)]
pub enum PipelineError {
    /// The API key is not set.
    MissingKey,
    /// A request URL could not be built.
    BadUrl,
    /// The geocoding request failed.
    GeocodeFetch(FetchError),
    /// The geocoding response gave no bounding box.
    Geocode(GeocodeError),
    /// The parcel request failed.
    ParcelFetch(FetchError),
    /// The output file could not be written.
    WriteFailed,
    /// An event came that the stage does not wait for.
    UnexpectedEvent,
}

/// What the caller reports back.
pub enum Event {
    /// The configuration was read: the API key where it is set, and the address.
    Configured { key: Option<String>, address: String },
    /// A GET request completed with this body, or failed.
    Fetched(Result<String, FetchError>),
    /// The output file was written (`true`) or not.
    Written(bool),
}

/// What the caller is to do next.
pub enum Action {
    /// Send a GET request to this URL.
    Get(String),
    /// Write `contents` to the file `path`, replacing what it held.
    Write { path: String, contents: String },
    /// End the run with this outcome.
    Stop(Result<(), PipelineError>),
}

/// An event, with texts as sequences of characters.
pub enum EventView {
    Configured { key: Option<Seq<char>>, address: Seq<char> },
    Fetched(Result<Seq<char>, FetchError>),
    Written(bool),
}

/// An action, with texts as sequences of characters.
pub enum ActionView {
    Get(Seq<char>),
    Write { path: Seq<char>, contents: Seq<char> },
    Stop(Result<(), PipelineError>),
}

impl Event {
    pub open spec fn view(&self) -> EventView {
        match self {
            Event::Configured { key, address } => EventView::Configured {
                key: match key {
                    Some(k) => Some(k@),
                    None => None,
                },
                address: address@,
            },
            Event::Fetched(Ok(body)) => EventView::Fetched(Ok(body@)),
            Event::Fetched(Err(e)) => EventView::Fetched(Err(*e)),
            Event::Written(ok) => EventView::Written(*ok),
        }
    }
}

impl Action {
    pub open spec fn view(&self) -> ActionView {
        match self {
            Action::Get(url) => ActionView::Get(url@),
            Action::Write { path, contents } => ActionView::Write { path: path@, contents: contents@ },
            Action::Stop(outcome) => ActionView::Stop(*outcome),
        }
    }
}

/// Ends the run with an error.
pub open spec fn fail(e: PipelineError) -> (Stage, ActionView) {
    (Stage::Finished, ActionView::Stop(Err(e)))
}

/// Requests `url` where it was built, and moves on to `next`.
pub open spec fn request(url: Option<Seq<char>>, next: Stage) -> (Stage, ActionView) {
    match url {
        Some(u) => (next, ActionView::Get(u)),
        None => fail(PipelineError::BadUrl),
    }
}

/// The next stage and the action, from a stage and an event.
pub open spec fn step_spec(stage: Stage, event: EventView) -> (Stage, ActionView) {
    match (stage, event) {
        (Stage::Configure, EventView::Configured { key: None, .. }) => fail(PipelineError::MissingKey),
        (Stage::Configure, EventView::Configured { key: Some(k), address }) => request(
            url_with_query(GEOCODE_URL@, geocode_pairs(address, k)),
            Stage::Geocode,
        ),
        (Stage::Geocode, EventView::Fetched(Err(f))) => fail(PipelineError::GeocodeFetch(f)),
        (Stage::Geocode, EventView::Fetched(Ok(body))) => match box_of_response(body) {
            Ok(b) => request(url_with_query(PARCELS_URL@, parcel_pairs(joined_box(b))), Stage::Parcels),
            Err(e) => fail(PipelineError::Geocode(e)),
        },
        (Stage::Parcels, EventView::Fetched(Err(f))) => fail(PipelineError::ParcelFetch(f)),
        (Stage::Parcels, EventView::Fetched(Ok(body))) => (
            Stage::Persist,
            ActionView::Write { path: OUTPUT_FILE@, contents: body },
        ),
        (Stage::Persist, EventView::Written(true)) => (Stage::Finished, ActionView::Stop(Ok(()))),
        (Stage::Persist, EventView::Written(false)) => fail(PipelineError::WriteFailed),
        _ => fail(PipelineError::UnexpectedEvent),
    }
}

/// Takes one event: returns the next stage and the action to perform.
pub fn step(stage: Stage, event: Event) -> (r: (Stage, Action))
    ensures
        (r.0, r.1@) == step_spec(stage, event@),
{
    match (stage, event) {
        (Stage::Configure, Event::Configured { key, address }) => match key {
            None => (Stage::Finished, Action::Stop(Err(PipelineError::MissingKey))),
            Some(key) => match geocoding_url(address.as_str(), key.as_str()) {
                Some(url) => (Stage::Geocode, Action::Get(url)),
                None => (Stage::Finished, Action::Stop(Err(PipelineError::BadUrl))),
            },
        },
        (Stage::Geocode, Event::Fetched(Err(f))) => (
            Stage::Finished,
            Action::Stop(Err(PipelineError::GeocodeFetch(f))),
        ),
        (Stage::Geocode, Event::Fetched(Ok(body))) => match parse_geocoding_response(body.as_str()) {
            Ok(bbox) => match parcels_url(&bbox) {
                Some(url) => (Stage::Parcels, Action::Get(url)),
                None => (Stage::Finished, Action::Stop(Err(PipelineError::BadUrl))),
            },
            Err(e) => (Stage::Finished, Action::Stop(Err(PipelineError::Geocode(e)))),
        },
        (Stage::Parcels, Event::Fetched(Err(f))) => (
            Stage::Finished,
            Action::Stop(Err(PipelineError::ParcelFetch(f))),
        ),
        (Stage::Parcels, Event::Fetched(Ok(body))) => (
            Stage::Persist,
            Action::Write { path: OUTPUT_FILE.to_owned(), contents: body },
        ),
        (Stage::Persist, Event::Written(written)) => if written {
            (Stage::Finished, Action::Stop(Ok(())))
        } else {
            (Stage::Finished, Action::Stop(Err(PipelineError::WriteFailed)))
        },
        _ => (Stage::Finished, Action::Stop(Err(PipelineError::UnexpectedEvent))),
    }
}

/// The actions of a run that is at `stage` and receives `events` in turn.
pub open spec fn run_actions(stage: Stage, events: Seq<EventView>) -> Seq<ActionView>
    decreases events.len(),
{
    if events.len() == 0 {
        seq![]
    } else {
        let (next, action) = step_spec(stage, events[0]);
        seq![action] + run_actions(next, events.drop_first())
    }
}

/// Whether an action reaches outside the process: a request or a write.
pub open spec fn is_effect(a: ActionView) -> bool {
    a is Get || a is Write
}

/// A finished run only stops, whatever comes to it.
pub proof fn finished_run_only_stops(events: Seq<EventView>)
    ensures
        forall|i: int|
            0 <= i < run_actions(Stage::Finished, events).len() ==> (#[trigger] run_actions(
                Stage::Finished,
                events,
            )[i]) is Stop,
    decreases events.len(),
{
    if events.len() > 0 {
        finished_run_only_stops(events.drop_first());
        let rest = run_actions(Stage::Finished, events.drop_first());
        assert(run_actions(Stage::Finished, events) == seq![
            ActionView::Stop(Err(PipelineError::UnexpectedEvent)),
        ] + rest);
    }
}

/// A run that ends at its first event with an error performs no request and
/// no write, whatever events follow.
proof fn failing_first_event_has_no_effect(
    stage: Stage,
    first: EventView,
    rest: Seq<EventView>,
    e: PipelineError,
)
    requires
        step_spec(stage, first) == fail(e),
    ensures
        run_actions(stage, seq![first] + rest)[0] == ActionView::Stop(Err(e)),
        forall|i: int|
            0 <= i < run_actions(stage, seq![first] + rest).len() ==> !is_effect(
                #[trigger] run_actions(stage, seq![first] + rest)[i],
            ),
{
    let events = seq![first] + rest;
    assert(events[0] == first);
    assert(events.drop_first() =~= rest);
    finished_run_only_stops(rest);
    let tail = run_actions(Stage::Finished, rest);
    assert(run_actions(stage, events) == seq![ActionView::Stop(Err(e))] + tail);
    assert forall|i: int| 0 <= i < run_actions(stage, events).len() implies !is_effect(
        #[trigger] run_actions(stage, events)[i],
    ) by {
        if i > 0 {
            assert(run_actions(stage, events)[i] == tail[i - 1]);
        }
    }
}

/// Without an API key the run stops with a configuration error before any
/// request, and never requests or writes afterwards.
pub proof fn missing_key_stops_before_any_request(address: Seq<char>, rest: Seq<EventView>)
    ensures
        ({
            let run = run_actions(
                Stage::Configure,
                seq![EventView::Configured { key: None, address }] + rest,
            );
            &&& run[0] == ActionView::Stop(Err(PipelineError::MissingKey))
            &&& forall|i: int| 0 <= i < run.len() ==> !is_effect(#[trigger] run[i])
        }),
{
    failing_first_event_has_no_effect(
        Stage::Configure,
        EventView::Configured { key: None, address },
        rest,
        PipelineError::MissingKey,
    );
}

/// When the geocoding request fails, the run stops with that failure: no
/// parcel request is sent and no file is written.
pub proof fn geocode_failure_ends_run(f: FetchError, rest: Seq<EventView>)
    ensures
        ({
            let run = run_actions(Stage::Geocode, seq![EventView::Fetched(Err(f))] + rest);
            &&& run[0] == ActionView::Stop(Err(PipelineError::GeocodeFetch(f)))
            &&& forall|i: int| 0 <= i < run.len() ==> !is_effect(#[trigger] run[i])
        }),
{
    failing_first_event_has_no_effect(
        Stage::Geocode,
        EventView::Fetched(Err(f)),
        rest,
        PipelineError::GeocodeFetch(f),
    );
}

/// When the geocoding response has an empty `results` array, the run stops
/// with "no results" and never sends the parcel request.
pub proof fn no_results_ends_run(body: Seq<char>, rest: Seq<EventView>)
    requires
        box_of_response(body) == Err::<Seq<Seq<char>>, GeocodeError>(GeocodeError::NoResults),
    ensures
        ({
            let run = run_actions(Stage::Geocode, seq![EventView::Fetched(Ok(body))] + rest);
            &&& run[0] == ActionView::Stop(Err(PipelineError::Geocode(GeocodeError::NoResults)))
            &&& forall|i: int| 0 <= i < run.len() ==> !is_effect(#[trigger] run[i])
        }),
{
    failing_first_event_has_no_effect(
        Stage::Geocode,
        EventView::Fetched(Ok(body)),
        rest,
        PipelineError::Geocode(GeocodeError::NoResults),
    );
}

/// The parcel request's `geometry` parameter is the extracted box joined by
/// commas in the order xmin, ymin, xmax, ymax.
pub proof fn parcel_request_carries_joined_box(body: Seq<char>)
    requires
        box_of_response(body) is Ok,
    ensures
        ({
            let b = box_of_response(body)->Ok_0;
            let pairs = parcel_pairs(b[0] + ","@ + b[1] + ","@ + b[2] + ","@ + b[3]);
            &&& step_spec(Stage::Geocode, EventView::Fetched(Ok(body))) == request(
                url_with_query(PARCELS_URL@, pairs),
                Stage::Parcels,
            )
            &&& pairs[2] == ("geometry"@, b[0] + ","@ + b[1] + ","@ + b[2] + ","@ + b[3])
        }),
{
}

/// A parcel response is written to the output file exactly as received.
pub proof fn parcel_body_written_unchanged(body: Seq<char>)
    ensures
        step_spec(Stage::Parcels, EventView::Fetched(Ok(body))) == (
            Stage::Persist,
            ActionView::Write { path: OUTPUT_FILE@, contents: body },
        ),
{
}

} // verus!
