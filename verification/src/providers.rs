//! The update protocol, one step at a time.
//!
//! The library sends nothing itself. An update starts at `Stage::Start`
//! with no reply. Each step either ends the update (`Step::Done`) or names a
//! request to send and the stage to come back with (`Step::Fetch`). The
//! caller sends the request, decodes the reply into a `Payload` (`None` where
//! no reply could be had or decoded), and takes the next step with that stage
//! and that reply.

use vstd::prelude::*;
use vstd::string::*;
use hyper::header::HeaderValue;
use hyper::{HeaderMap, Method};
use crate::http::{header_map_values, header_text_ok, method_text};

pub mod cloudflare;
pub mod namesilo;

verus! {

/// The zone could not be had: no reply, or none that names a zone.
pub const ZONE_ERR: &'static str = "Error parsing zone_id";

/// The records could not be had: no reply, one that reports failure, or one
/// without a list.
pub const RECORD_ERR: &'static str = "Error parsing record_id";

/// No record is published under the name.
pub const RECORD_NOT_FOUND_ERR: &'static str = "Cannot find record id, the sub domain is a new item";

/// The update was not made: no reply, or one that reports failure.
pub const UPDATE_ERR: &'static str = "IP update failed";

/// The backend's name is none of those known.
pub const UNKNOWN_BACKEND_ERR: &'static str = "Unknown backend";

/// How far one update has come: which reply it waits for, and what it has
/// to remember until then.
pub enum Stage {
    /// Nothing has been asked yet.
    Start,
    /// The list of zones has been asked for.
    Zones,
    /// The list of records has been asked for, in the zone named; a provider
    /// without zones leaves the name empty.
    Records { zone_id: String },
    /// The update has been sent.
    Update,
}

/// A stage as contracts see it.
pub enum StageView {
    Start,
    Zones,
    Records { zone_id: Seq<char> },
    Update,
}

impl View for Stage {
    type V = StageView;

    open spec fn view(&self) -> StageView {
        match self {
            Stage::Start => StageView::Start,
            Stage::Zones => StageView::Zones,
            Stage::Records { zone_id } => StageView::Records { zone_id: zone_id@ },
            Stage::Update => StageView::Update,
        }
    }
}

/// A decoded reply of a provider.
pub enum Payload {
    /// The zone list of the zone-based provider, as a JSON document.
    Zones(serde_json::Value),
    /// The record list of the zone-based provider.
    Records(cloudflare::Reply),
    /// The zone-based provider's answer to an update.
    Updated(cloudflare::UpdateReply),
    /// Any answer of the key-in-query provider.
    Content(namesilo::Content),
}

/// A request for the caller to send. `body` is the JSON body, still to be
/// serialised; a request without one has an empty body.
pub struct FetchRequest {
    pub url: String,
    pub headers: HeaderMap<HeaderValue>,
    pub method: Method,
    pub body: Option<cloudflare::RequestData>,
}

/// What one step of an update comes to: a request to send, with the stage to
/// hand back together with its reply, or the update's outcome.
pub enum Step {
    Fetch(FetchRequest, Stage),
    Done(Result<bool, &'static str>),
}

impl Step {
    /// The step ends the update with `outcome`, an error given by its text.
    pub open spec fn ends_with(self, outcome: Result<bool, Seq<char>>) -> bool {
        match self {
            Step::Done(Ok(updated)) => outcome == Ok::<bool, Seq<char>>(updated),
            Step::Done(Err(reason)) => outcome == Err::<bool, Seq<char>>(reason@),
            Step::Fetch(_, _) => false,
        }
    }

    /// The step asks for `url` with `method` and `headers` and the body
    /// `body`, and goes on to the stage `next`.
    pub open spec fn asks(
        self,
        method: Seq<char>,
        url: Seq<char>,
        headers: Map<Seq<char>, Seq<Seq<u8>>>,
        body: Option<cloudflare::RequestDataView>,
        next: StageView,
    ) -> bool {
        match self {
            Step::Fetch(request, stage) => {
                &&& method_text(request.method) == method
                &&& request.url@ == url
                &&& header_map_values(request.headers) == headers
                &&& match request.body {
                    Some(data) => body == Some(data@),
                    None => body is None,
                }
                &&& stage@ == next
            },
            Step::Done(_) => false,
        }
    }
}

/// Equality of two string slices, as std documents it: they are equal where
/// they hold the same characters.
pub assume_specification[ <str as PartialEq>::eq ](a: &str, b: &str) -> (same: bool)
    ensures
        same == (a@ == b@),
;

/// One step of an update at the provider that `backend` names: the
/// zone-based one for `cloudflare`, the key-in-query one for `namesilo`, each
/// by its own rule. Any other name ends the update with
/// `UNKNOWN_BACKEND_ERR`, with nothing asked and nothing changed.
pub fn update_dns_record(
    stage: Stage,
    response: Option<Payload>,
    current_ip: &mut String,
    recorded_ip: &mut String,
    domain: &str,
    host: &str,
    api_key: &str,
    backend: &str,
) -> (step: Step)
    requires
        backend@ == "cloudflare"@ && cloudflare::may_ask(stage, old(current_ip)@, old(recorded_ip)@)
            ==> header_text_ok(api_key@),
    ensures
        final(current_ip)@ == old(current_ip)@,
        backend@ == "cloudflare"@ ==> cloudflare::follows(
            stage,
            response,
            old(current_ip)@,
            old(recorded_ip)@,
            domain@,
            host@,
            api_key@,
            step,
            final(recorded_ip)@,
        ),
        backend@ == "namesilo"@ ==> namesilo::follows(
            stage,
            response,
            old(current_ip)@,
            old(recorded_ip)@,
            domain@,
            host@,
            api_key@,
            step,
            final(recorded_ip)@,
        ),
        backend@ != "cloudflare"@ && backend@ != "namesilo"@ ==> step.ends_with(Err(UNKNOWN_BACKEND_ERR@))
            && final(recorded_ip)@ == old(recorded_ip)@,
{
    proof {
        reveal_strlit("cloudflare");
        reveal_strlit("namesilo");
        assert("cloudflare"@.len() != "namesilo"@.len());
    }
    if backend.eq("cloudflare") {
        cloudflare::update_dns_record(stage, response, current_ip, recorded_ip, domain, host, api_key)
    } else if backend.eq("namesilo") {
        namesilo::update_dns_record(stage, response, current_ip, recorded_ip, domain, host, api_key)
    } else {
        Step::Done(Err(UNKNOWN_BACKEND_ERR))
    }
}

/// The minutes to wait before the next update, by the outcome of the last.
pub struct RetryPeriods {
    pub on_err: u64,
    pub on_success: u64,
    pub on_skip: u64,
}

/// The wait that follows an update: one period after an update that was
/// made, one after an update that was not needed, one after a failure.
pub fn retry_period(outcome: &Result<bool, &'static str>, periods: &RetryPeriods) -> (minutes: u64)
    ensures
        minutes == (match *outcome {
            Ok(true) => periods.on_success,
            Ok(false) => periods.on_skip,
            Err(_) => periods.on_err,
        }),
{
    match outcome {
        Ok(true) => periods.on_success,
        Ok(false) => periods.on_skip,
        Err(_) => periods.on_err,
    }
}

} // verus!
