//! The key-in-query provider: an API with XML replies, which takes the key
//! as a parameter of every address and lists a domain's records directly.

use vstd::prelude::*;
use vstd::string::*;
use hyper::header::HeaderValue;
use hyper::HeaderMap;
use crate::http::{header_map_new, header_map_values, method_get, no_headers};
use crate::providers::{
    FetchRequest, Payload, Stage, StageView, Step, RECORD_ERR, RECORD_NOT_FOUND_ERR, UPDATE_ERR,
};
use crate::utils::{
    first_record, get_record_id_and_ip, lemma_find_record, HasSuccessField, RecordParsable,
};

verus! {

/// Any reply of the provider: the request as the provider understood it, and
/// its answer.
pub struct Content {
    pub request: Request,
    pub reply: Reply,
}

/// The request as the provider understood it.
pub struct Request {
    pub operation: String,
    pub ip: String,
}

/// The provider's answer: its code, and what the operation gave.
pub struct Reply {
    pub code: u32,
    pub detail: String,
    pub resource_record: Option<Vec<ResourceRecord>>,
    pub record_id: Option<String>,
}

/// A record as the provider lists it.
pub struct ResourceRecord {
    pub record_id: String,
    pub record_type: String,
    pub host: String,
    pub value: String,
    pub ttl: u32,
    pub distance: u32,
}

impl HasSuccessField for Content {
    /// The codes 200 and 300 report success, and no other.
    open spec fn reports_success(&self) -> bool {
        self.reply.code == 200 || self.reply.code == 300
    }

    fn success(&self) -> (ok: bool) {
        self.reply.code == 200 || self.reply.code == 300
    }
}

impl RecordParsable for ResourceRecord {
    open spec fn record_name(&self) -> Seq<char> {
        self.host@
    }

    open spec fn record_id(&self) -> Seq<char> {
        self.record_id@
    }

    open spec fn record_ip(&self) -> Seq<char> {
        self.value@
    }

    fn name(&self) -> (name: &String) {
        &self.host
    }

    fn id(&self) -> (id: &String) {
        &self.record_id
    }

    fn ip(&self) -> (ip: &String) {
        &self.value
    }
}

/// The address that lists the records of `domain`.
pub open spec fn list_records_url(api_key: Seq<char>, domain: Seq<char>) -> Seq<char> {
    "https://www.namesilo.com/api/dnsListRecords?version=1&type=xml&key="@ + api_key + "&domain="@
        + domain
}

/// A subdomain prefix without its last character, the dot that it is kept
/// with; an empty prefix stays empty.
pub open spec fn without_last(host: Seq<char>) -> Seq<char> {
    if host.len() > 0 {
        host.drop_last()
    } else {
        host
    }
}

/// The address that sets the record `record_id` of `domain` to `ip`, under
/// the prefix without its last character and with a time to live of 3600.
pub open spec fn update_url(
    api_key: Seq<char>,
    domain: Seq<char>,
    record_id: Seq<char>,
    host: Seq<char>,
    ip: Seq<char>,
) -> Seq<char> {
    "https://www.namesilo.com/api/dnsUpdateRecord?version=1&type=xml&key="@ + api_key + "&domain="@
        + domain + "&rrid="@ + record_id + "&rrhost="@ + without_last(host) + "&rrvalue="@ + ip
        + "&rrttl=3600"@
}

/// Builds the address that lists the records of `domain`.
pub fn dns_list_records_url(api_key: &str, domain: &str) -> (url: String)
    ensures
        url@ == list_records_url(api_key@, domain@),
{
    let mut url = String::from_str("https://www.namesilo.com/api/dnsListRecords?version=1&type=xml&key=");
    url.append(api_key);
    url.append("&domain=");
    url.append(domain);
    url
}

/// Builds the address that sets a record of `domain` to `ip`.
pub fn dns_update_url(api_key: &str, domain: &str, record_id: &str, host: &str, ip: &str) -> (url: String)
    ensures
        url@ == update_url(api_key@, domain@, record_id@, host@, ip@),
{
    let len: usize = host.unicode_len();
    let new_host = if len > 0 {
        host.substring_char(0, len - 1)
    } else {
        host
    };
    let mut url = String::from_str("https://www.namesilo.com/api/dnsUpdateRecord?version=1&type=xml&key=");
    url.append(api_key);
    url.append("&domain=");
    url.append(domain);
    url.append("&rrid=");
    url.append(record_id);
    url.append("&rrhost=");
    url.append(new_host);
    url.append("&rrvalue=");
    url.append(ip);
    url.append("&rrttl=3600");
    url
}

/// The headers of every request: none, the key travels in the address.
pub fn get_headers() -> (headers: HeaderMap<HeaderValue>)
    ensures
        header_map_values(headers) == no_headers(),
{
    header_map_new()
}

/// The records that a reply to the record query lists, if it is a reply of
/// this provider, reports success and holds a list.
pub open spec fn listed_records(response: Option<Payload>) -> Option<Seq<ResourceRecord>> {
    match response {
        Some(Payload::Content(content)) => if content.reports_success() {
            match content.reply.resource_record {
                Some(records) => Some(records@),
                None => None,
            }
        } else {
            None
        },
        _ => None,
    }
}

/// Whether a reply to the update is a reply of this provider and reports
/// success.
pub open spec fn update_accepted(response: Option<Payload>) -> bool {
    match response {
        Some(Payload::Content(content)) => content.reports_success(),
        _ => false,
    }
}

/// The rule of one step of an update at this provider: from the stage, the
/// reply that came in and the two addresses to the step `step` and the
/// recorded address `recorded_after`. This provider has no zones to ask for:
/// the stage `Zones`, which it never hands out, is taken as the start.
///
/// - At the start, equal addresses end the update with nothing done and
///   nothing asked; otherwise the records of `domain` are asked for.
/// - A record reply that is missing, reports failure or holds no list ends
///   it with `RECORD_ERR`; one without a record under `host` followed by
///   `domain` ends it with `RECORD_NOT_FOUND_ERR`. Otherwise the first such
///   record's address becomes the recorded one; if it is the current one,
///   the update ends with nothing done, and if not, the record is sent its
///   new address.
/// - An update reply that reports success makes the current address the
///   recorded one and ends the update as done; any other ends it with
///   `UPDATE_ERR`.
pub open spec fn follows(
    stage: Stage,
    response: Option<Payload>,
    current_ip: Seq<char>,
    recorded_ip: Seq<char>,
    domain: Seq<char>,
    host: Seq<char>,
    api_key: Seq<char>,
    step: Step,
    recorded_after: Seq<char>,
) -> bool {
    match stage {
        Stage::Start | Stage::Zones => {
            &&& recorded_after == recorded_ip
            &&& if current_ip == recorded_ip {
                step.ends_with(Ok(false))
            } else {
                step.asks(
                    "GET"@,
                    list_records_url(api_key, domain),
                    no_headers(),
                    None,
                    StageView::Records { zone_id: Seq::empty() },
                )
            }
        },
        Stage::Records { .. } => match listed_records(response) {
            None => recorded_after == recorded_ip && step.ends_with(Err(RECORD_ERR@)),
            Some(records) => match first_record(records, host + domain) {
                None => recorded_after == recorded_ip && step.ends_with(Err(RECORD_NOT_FOUND_ERR@)),
                Some(at) => {
                    &&& recorded_after == records[at].record_ip()
                    &&& if current_ip == records[at].record_ip() {
                        step.ends_with(Ok(false))
                    } else {
                        step.asks(
                            "GET"@,
                            update_url(api_key, domain, records[at].record_id(), host, current_ip),
                            no_headers(),
                            None,
                            StageView::Update,
                        )
                    }
                },
            },
        },
        Stage::Update => if update_accepted(response) {
            recorded_after == current_ip && step.ends_with(Ok(true))
        } else {
            recorded_after == recorded_ip && step.ends_with(Err(UPDATE_ERR@))
        },
    }
}

/// One step of an update: decides from the stage and the reply that came in
/// what is to be done next, and keeps the recorded address up to date.
pub fn update_dns_record(
    stage: Stage,
    response: Option<Payload>,
    current_ip: &mut String,
    recorded_ip: &mut String,
    domain: &str,
    host: &str,
    api_key: &str,
) -> (step: Step)
    ensures
        final(current_ip)@ == old(current_ip)@,
        follows(
            stage,
            response,
            old(current_ip)@,
            old(recorded_ip)@,
            domain@,
            host@,
            api_key@,
            step,
            final(recorded_ip)@,
        ),
{
    match stage {
        Stage::Start | Stage::Zones => {
            if *current_ip == *recorded_ip {
                return Step::Done(Ok(false));
            }
            let request = FetchRequest {
                url: dns_list_records_url(api_key, domain),
                headers: get_headers(),
                method: method_get(),
                body: None,
            };
            Step::Fetch(request, Stage::Records { zone_id: String::new() })
        },
        Stage::Records { .. } => {
            let dns_result = match response {
                Some(Payload::Content(content)) => content,
                _ => return Step::Done(Err(RECORD_ERR)),
            };
            if !dns_result.success() {
                return Step::Done(Err(RECORD_ERR));
            }
            let resource_records = match dns_result.reply.resource_record {
                Some(records) => records,
                None => return Step::Done(Err(RECORD_ERR)),
            };
            let (record_id, ip) = match get_record_id_and_ip(resource_records.as_slice(), domain, host) {
                Some(pair) => (pair.0.clone(), pair.1.clone()),
                None => return Step::Done(Err(RECORD_NOT_FOUND_ERR)),
            };
            *recorded_ip = ip;
            if *current_ip == *recorded_ip {
                return Step::Done(Ok(false));
            }
            let request = FetchRequest {
                url: dns_update_url(api_key, domain, record_id.as_str(), host, current_ip.as_str()),
                headers: get_headers(),
                method: method_get(),
                body: None,
            };
            Step::Fetch(request, Stage::Update)
        },
        Stage::Update => {
            let accepted = match response {
                Some(Payload::Content(content)) => content.success(),
                _ => false,
            };
            if accepted {
                *recorded_ip = current_ip.clone();
                Step::Done(Ok(true))
            } else {
                Step::Done(Err(UPDATE_ERR))
            }
        },
    }
}

/// Equal addresses need no update: from the start, with the current address
/// equal to the recorded one, the update ends with nothing done, no request
/// is made and the recorded address stays.
pub proof fn lemma_equal_addresses_end_update(
    response: Option<Payload>,
    ip: Seq<char>,
    domain: Seq<char>,
    host: Seq<char>,
    api_key: Seq<char>,
    step: Step,
    recorded_after: Seq<char>,
)
    requires
        follows(Stage::Start, response, ip, ip, domain, host, api_key, step, recorded_after),
    ensures
        step.ends_with(Ok(false)),
        !(step is Fetch),
        recorded_after == ip,
{
}

/// A record list that reports failure ends the update with `RECORD_ERR`: no
/// update is sent, and the recorded address stays.
pub proof fn lemma_failed_listing_ends_update(
    stage: Stage,
    reply: Content,
    current_ip: Seq<char>,
    recorded_ip: Seq<char>,
    domain: Seq<char>,
    host: Seq<char>,
    api_key: Seq<char>,
    step: Step,
    recorded_after: Seq<char>,
)
    requires
        stage is Records,
        !reply.reports_success(),
        follows(
            stage,
            Some(Payload::Content(reply)),
            current_ip,
            recorded_ip,
            domain,
            host,
            api_key,
            step,
            recorded_after,
        ),
    ensures
        step.ends_with(Err(RECORD_ERR@)),
        !(step is Fetch),
        recorded_after == recorded_ip,
{
}

/// A record list in which no record is published under `host` followed by
/// `domain` ends the update with `RECORD_NOT_FOUND_ERR`.
pub proof fn lemma_unlisted_name_ends_update(
    stage: Stage,
    response: Option<Payload>,
    current_ip: Seq<char>,
    recorded_ip: Seq<char>,
    domain: Seq<char>,
    host: Seq<char>,
    api_key: Seq<char>,
    step: Step,
    recorded_after: Seq<char>,
)
    requires
        stage is Records,
        listed_records(response) is Some,
        forall|i: int|
            0 <= i < listed_records(response)->0.len() ==> (#[trigger] listed_records(response)->0[i]).record_name()
                != host + domain,
        follows(stage, response, current_ip, recorded_ip, domain, host, api_key, step, recorded_after),
    ensures
        step.ends_with(Err(RECORD_NOT_FOUND_ERR@)),
        !(step is Fetch),
        recorded_after == recorded_ip,
{
    lemma_find_record(listed_records(response)->0, host + domain, 0);
}

/// An update that the provider reports as done ends the update as done, and
/// the current address is then the recorded one.
pub proof fn lemma_accepted_update_is_recorded(
    response: Option<Payload>,
    current_ip: Seq<char>,
    recorded_ip: Seq<char>,
    domain: Seq<char>,
    host: Seq<char>,
    api_key: Seq<char>,
    step: Step,
    recorded_after: Seq<char>,
)
    requires
        update_accepted(response),
        follows(Stage::Update, response, current_ip, recorded_ip, domain, host, api_key, step, recorded_after),
    ensures
        step.ends_with(Ok(true)),
        recorded_after == current_ip,
{
}

} // verus!
