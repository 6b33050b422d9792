//! The zone-based provider: a REST API with JSON bodies and a bearer token,
//! which wants the zone of a domain before it lists the zone's records.

use vstd::prelude::*;
use vstd::string::*;
use vstd::utf8::*;
use hyper::header::HeaderValue;
use hyper::HeaderMap;
use crate::http::{
    authorization, content_type, header_map_append, header_map_new, header_map_values,
    header_text_ok, header_value_from_str, method_get, method_put, no_headers,
};
use crate::json::{json_of, value_as_array, value_as_str, value_member, Json};
use crate::providers::{
    FetchRequest, Payload, Stage, StageView, Step, RECORD_ERR, RECORD_NOT_FOUND_ERR, UPDATE_ERR,
    ZONE_ERR,
};
use crate::utils::{
    first_record, get_record_id_and_ip, lemma_find_record, HasSuccessField, RecordParsable,
};

verus! {

/// The body of an update, before it is serialised.
pub struct RequestData {
    pub record_type: String,
    pub name: String,
    pub content: String,
    pub ttl: u32,
    pub proxied: bool,
}

/// The body of an update as contracts see it.
pub struct RequestDataView {
    pub record_type: Seq<char>,
    pub name: Seq<char>,
    pub content: Seq<char>,
    pub ttl: u32,
    pub proxied: bool,
}

impl View for RequestData {
    type V = RequestDataView;

    open spec fn view(&self) -> RequestDataView {
        RequestDataView {
            record_type: self.record_type@,
            name: self.name@,
            content: self.content@,
            ttl: self.ttl,
            proxied: self.proxied,
        }
    }
}

/// The part that every reply of the provider has.
pub struct ReplyData {
    pub success: bool,
    pub errors: Vec<ErrorRecord>,
    pub messages: Option<Vec<String>>,
    pub result_info: Option<ResultInfo>,
}

/// The reply to a query for records.
pub struct Reply {
    pub result: Option<Vec<DnsRecord>>,
    pub reply_data: ReplyData,
}

/// The reply to an update.
pub struct UpdateReply {
    pub result: Option<DnsRecord>,
    pub reply_data: ReplyData,
}

/// A record as the provider lists it.
pub struct DnsRecord {
    pub id: String,
    pub zone_id: String,
    pub zone_name: String,
    pub name: String,
    pub record_type: String,
    pub content: String,
    pub proxiable: bool,
    pub proxied: bool,
    pub ttl: u32,
    pub meta: DnsRecordMeta,
    pub created_on: String,
    pub modified_on: String,
}

/// An error that a reply carries.
pub struct ErrorRecord {
    pub code: u32,
    pub message: String,
}

/// Where in a paged result a reply stands.
pub struct ResultInfo {
    pub page: i32,
    pub per_page: i32,
    pub count: i32,
    pub total_count: i32,
    pub total_pages: i32,
}

/// What the provider notes of a record's making.
pub struct DnsRecordMeta {
    pub auto_added: bool,
    pub managed_by_apps: bool,
    pub managed_by_argo_tunnel: bool,
    pub source: Option<String>,
}

impl HasSuccessField for Reply {
    open spec fn reports_success(&self) -> bool {
        self.reply_data.success
    }

    fn success(&self) -> (ok: bool) {
        self.reply_data.success
    }
}

impl HasSuccessField for UpdateReply {
    open spec fn reports_success(&self) -> bool {
        self.reply_data.success
    }

    fn success(&self) -> (ok: bool) {
        self.reply_data.success
    }
}

impl RecordParsable for DnsRecord {
    open spec fn record_name(&self) -> Seq<char> {
        self.name@
    }

    open spec fn record_id(&self) -> Seq<char> {
        self.id@
    }

    open spec fn record_ip(&self) -> Seq<char> {
        self.content@
    }

    fn name(&self) -> (name: &String) {
        &self.name
    }

    fn id(&self) -> (id: &String) {
        &self.id
    }

    fn ip(&self) -> (ip: &String) {
        &self.content
    }
}

/// The address that lists the active zones of `domain`.
pub open spec fn list_zones_url(domain: Seq<char>) -> Seq<char> {
    "https://api.cloudflare.com/client/v4/zones?name="@ + domain + "&status=active"@
}

/// The address that lists the A records of the zone `zone_id`.
pub open spec fn list_records_url(zone_id: Seq<char>) -> Seq<char> {
    "https://api.cloudflare.com/client/v4/zones/"@ + zone_id + "/dns_records?type=A"@
}

/// The address of the record `record_id` in the zone `zone_id`.
pub open spec fn update_url(zone_id: Seq<char>, record_id: Seq<char>) -> Seq<char> {
    "https://api.cloudflare.com/client/v4/zones/"@ + zone_id + "/dns_records/"@ + record_id
}

/// Builds the address that lists the active zones of `domain`.
pub fn dns_list_zones_url(domain: &str) -> (url: String)
    ensures
        url@ == list_zones_url(domain@),
{
    let mut url = String::from_str("https://api.cloudflare.com/client/v4/zones?name=");
    url.append(domain);
    url.append("&status=active");
    url
}

/// Builds the address that lists the A records of a zone.
pub fn dns_list_records_url(zone_id: &str) -> (url: String)
    ensures
        url@ == list_records_url(zone_id@),
{
    let mut url = String::from_str("https://api.cloudflare.com/client/v4/zones/");
    url.append(zone_id);
    url.append("/dns_records?type=A");
    url
}

/// Builds the address of one record of a zone.
pub fn dns_update_url(zone_id: &str, record_id: &str) -> (url: String)
    ensures
        url@ == update_url(zone_id@, record_id@),
{
    let mut url = String::from_str("https://api.cloudflare.com/client/v4/zones/");
    url.append(zone_id);
    url.append("/dns_records/");
    url.append(record_id);
    url
}

/// The identifier of the first zone that a zone list names: the text under
/// `id` in the first element of the list under `result`. Further zones are
/// not looked at.
pub open spec fn zone_id_of(resp: Json) -> Option<Seq<char>> {
    match resp.member("result"@) {
        Json::List(zones) => if zones.len() > 0 {
            match zones[0].member("id"@) {
                Json::Text(id) => Some(id),
                _ => None,
            }
        } else {
            None
        },
        _ => None,
    }
}

/// Reads the identifier of the first zone out of a zone list.
pub fn parse_zone_id(resp: serde_json::Value) -> (zone_id: Option<String>)
    ensures
        match zone_id_of(json_of(resp)) {
            Some(id) => zone_id matches Some(found) && found@ == id,
            None => zone_id is None,
        },
{
    let zones = match value_as_array(value_member(&resp, "result")) {
        Some(zones) => zones,
        None => return None,
    };
    if zones.len() == 0 {
        return None;
    }
    match value_as_str(value_member(&zones[0], "id")) {
        Some(id) => Some(String::from_str(id)),
        None => None,
    }
}

/// The body that sets the record of `host` followed by `domain` to `ip`: an A
/// record with the provider's automatic time to live, not proxied.
pub open spec fn update_data(host: Seq<char>, domain: Seq<char>, ip: Seq<char>) -> RequestDataView {
    RequestDataView { record_type: "A"@, name: host + domain, content: ip, ttl: 1, proxied: false }
}

/// Builds the body that sets the record of `host` followed by `domain` to
/// `ip`.
pub fn update_dns_record_data(host: &str, domain: &str, ip: &str) -> (data: RequestData)
    ensures
        data@ == update_data(host@, domain@, ip@),
{
    let mut name = String::from_str(host);
    name.append(domain);
    RequestData {
        record_type: String::from_str("A"),
        name,
        content: String::from_str(ip),
        ttl: 1,
        proxied: false,
    }
}

/// The headers of every request: the key as a bearer token, and the JSON
/// content type.
pub open spec fn headers_of(api_key: Seq<char>) -> Map<Seq<char>, Seq<Seq<u8>>> {
    no_headers().insert("authorization"@, seq![encode_utf8("Bearer "@ + api_key)]).insert(
        "content-type"@,
        seq![encode_utf8("application/json"@)],
    )
}

/// Builds the headers of a request. The key has to be a text that a header
/// can hold.
pub fn get_headers(api_key: &str) -> (headers: HeaderMap<HeaderValue>)
    requires
        header_text_ok(api_key@),
    ensures
        header_map_values(headers) == headers_of(api_key@),
{
    let mut bearer = String::from_str("Bearer ");
    bearer.append(api_key);
    proof {
        reveal_strlit("Bearer ");
        reveal_strlit("application/json");
        reveal_strlit("authorization");
        reveal_strlit("content-type");
    }
    let token = header_value_from_str(bearer.as_str()).unwrap();
    let json = header_value_from_str("application/json").unwrap();
    let mut headers = header_map_new();
    header_map_append(&mut headers, authorization(), token);
    assert(header_map_values(headers).dom() =~= set!["authorization"@]);
    assert("authorization"@.len() != "content-type"@.len());
    header_map_append(&mut headers, content_type(), json);
    headers
}

/// The zone that a reply to the zone query names, if it is such a reply and
/// names one.
pub open spec fn named_zone(response: Option<Payload>) -> Option<Seq<char>> {
    match response {
        Some(Payload::Zones(resp)) => zone_id_of(json_of(resp)),
        _ => None,
    }
}

/// The records that a reply to the record query lists, if it is such a
/// reply, reports success and holds a list.
pub open spec fn listed_records(response: Option<Payload>) -> Option<Seq<DnsRecord>> {
    match response {
        Some(Payload::Records(reply)) => if reply.reports_success() {
            match reply.result {
                Some(records) => Some(records@),
                None => None,
            }
        } else {
            None
        },
        _ => None,
    }
}

/// Whether a reply to the update is such a reply and reports success.
pub open spec fn update_accepted(response: Option<Payload>) -> bool {
    match response {
        Some(Payload::Updated(reply)) => reply.reports_success(),
        _ => false,
    }
}

/// Whether a step from `stage` may have to send a request, for which the key
/// must fit into a header.
pub open spec fn may_ask(stage: Stage, current_ip: Seq<char>, recorded_ip: Seq<char>) -> bool {
    match stage {
        Stage::Start => current_ip != recorded_ip,
        Stage::Zones => true,
        Stage::Records { .. } => true,
        Stage::Update => false,
    }
}

/// The rule of one step of an update at this provider: from the stage, the
/// reply that came in and the two addresses to the step `step` and the
/// recorded address `recorded_after`.
///
/// - At the start, equal addresses end the update with nothing done and
///   nothing asked; otherwise the zones of `domain` are asked for.
/// - A zone reply that names a zone leads to the query for that zone's
///   records; any other ends the update with `ZONE_ERR`.
/// - A record reply that is missing, reports failure or holds no list ends
///   it with `RECORD_ERR`; one without a record under `host` followed by
///   `domain` ends it with `RECORD_NOT_FOUND_ERR`. Otherwise the first such
///   record's address becomes the recorded one; if it is the current one,
///   the update ends with nothing done, and if not, the record is sent its
///   new address.
/// - An update reply that reports success makes the current address the
///   recorded one and ends the update as done; any other ends it with
///   `UPDATE_ERR`.
pub open spec fn follows(
    stage: Stage,
    response: Option<Payload>,
    current_ip: Seq<char>,
    recorded_ip: Seq<char>,
    domain: Seq<char>,
    host: Seq<char>,
    api_key: Seq<char>,
    step: Step,
    recorded_after: Seq<char>,
) -> bool {
    match stage {
        Stage::Start => {
            &&& recorded_after == recorded_ip
            &&& if current_ip == recorded_ip {
                step.ends_with(Ok(false))
            } else {
                step.asks("GET"@, list_zones_url(domain), headers_of(api_key), None, StageView::Zones)
            }
        },
        Stage::Zones => {
            &&& recorded_after == recorded_ip
            &&& match named_zone(response) {
                Some(zone_id) => step.asks(
                    "GET"@,
                    list_records_url(zone_id),
                    headers_of(api_key),
                    None,
                    StageView::Records { zone_id },
                ),
                None => step.ends_with(Err(ZONE_ERR@)),
            }
        },
        Stage::Records { zone_id } => match listed_records(response) {
            None => recorded_after == recorded_ip && step.ends_with(Err(RECORD_ERR@)),
            Some(records) => match first_record(records, host + domain) {
                None => recorded_after == recorded_ip && step.ends_with(Err(RECORD_NOT_FOUND_ERR@)),
                Some(at) => {
                    &&& recorded_after == records[at].record_ip()
                    &&& if current_ip == records[at].record_ip() {
                        step.ends_with(Ok(false))
                    } else {
                        step.asks(
                            "PUT"@,
                            update_url(zone_id@, records[at].record_id()),
                            headers_of(api_key),
                            Some(update_data(host, domain, current_ip)),
                            StageView::Update,
                        )
                    }
                },
            },
        },
        Stage::Update => if update_accepted(response) {
            recorded_after == current_ip && step.ends_with(Ok(true))
        } else {
            recorded_after == recorded_ip && step.ends_with(Err(UPDATE_ERR@))
        },
    }
}

/// One step of an update: decides from the stage and the reply that came in
/// what is to be done next, and keeps the recorded address up to date.
pub fn update_dns_record(
    stage: Stage,
    response: Option<Payload>,
    current_ip: &mut String,
    recorded_ip: &mut String,
    domain: &str,
    host: &str,
    api_key: &str,
) -> (step: Step)
    requires
        may_ask(stage, old(current_ip)@, old(recorded_ip)@) ==> header_text_ok(api_key@),
    ensures
        final(current_ip)@ == old(current_ip)@,
        follows(
            stage,
            response,
            old(current_ip)@,
            old(recorded_ip)@,
            domain@,
            host@,
            api_key@,
            step,
            final(recorded_ip)@,
        ),
{
    match stage {
        Stage::Start => {
            if *current_ip == *recorded_ip {
                return Step::Done(Ok(false));
            }
            let request = FetchRequest {
                url: dns_list_zones_url(domain),
                headers: get_headers(api_key),
                method: method_get(),
                body: None,
            };
            Step::Fetch(request, Stage::Zones)
        },
        Stage::Zones => {
            let zone_id = match response {
                Some(Payload::Zones(resp)) => parse_zone_id(resp),
                _ => None,
            };
            match zone_id {
                Some(zone_id) => {
                    let request = FetchRequest {
                        url: dns_list_records_url(zone_id.as_str()),
                        headers: get_headers(api_key),
                        method: method_get(),
                        body: None,
                    };
                    Step::Fetch(request, Stage::Records { zone_id })
                },
                None => Step::Done(Err(ZONE_ERR)),
            }
        },
        Stage::Records { zone_id } => {
            let dns_result = match response {
                Some(Payload::Records(reply)) => reply,
                _ => return Step::Done(Err(RECORD_ERR)),
            };
            if !dns_result.success() {
                return Step::Done(Err(RECORD_ERR));
            }
            let resource_records = match dns_result.result {
                Some(records) => records,
                None => return Step::Done(Err(RECORD_ERR)),
            };
            let (record_id, ip) = match get_record_id_and_ip(resource_records.as_slice(), domain, host) {
                Some(pair) => (pair.0.clone(), pair.1.clone()),
                None => return Step::Done(Err(RECORD_NOT_FOUND_ERR)),
            };
            *recorded_ip = ip;
            if *current_ip == *recorded_ip {
                return Step::Done(Ok(false));
            }
            let request = FetchRequest {
                url: dns_update_url(zone_id.as_str(), record_id.as_str()),
                headers: get_headers(api_key),
                method: method_put(),
                body: Some(update_dns_record_data(host, domain, current_ip.as_str())),
            };
            Step::Fetch(request, Stage::Update)
        },
        Stage::Update => {
            let accepted = match response {
                Some(Payload::Updated(reply)) => reply.success(),
                _ => false,
            };
            if accepted {
                *recorded_ip = current_ip.clone();
                Step::Done(Ok(true))
            } else {
                Step::Done(Err(UPDATE_ERR))
            }
        },
    }
}

/// Equal addresses need no update: from the start, with the current address
/// equal to the recorded one, the update ends with nothing done, no request
/// is made and the recorded address stays.
pub proof fn lemma_equal_addresses_end_update(
    response: Option<Payload>,
    ip: Seq<char>,
    domain: Seq<char>,
    host: Seq<char>,
    api_key: Seq<char>,
    step: Step,
    recorded_after: Seq<char>,
)
    requires
        follows(Stage::Start, response, ip, ip, domain, host, api_key, step, recorded_after),
    ensures
        step.ends_with(Ok(false)),
        !(step is Fetch),
        recorded_after == ip,
{
}

/// A record list that reports failure ends the update with `RECORD_ERR`: no
/// update is sent, and the recorded address stays.
pub proof fn lemma_failed_listing_ends_update(
    stage: Stage,
    reply: Reply,
    current_ip: Seq<char>,
    recorded_ip: Seq<char>,
    domain: Seq<char>,
    host: Seq<char>,
    api_key: Seq<char>,
    step: Step,
    recorded_after: Seq<char>,
)
    requires
        stage is Records,
        !reply.reports_success(),
        follows(
            stage,
            Some(Payload::Records(reply)),
            current_ip,
            recorded_ip,
            domain,
            host,
            api_key,
            step,
            recorded_after,
        ),
    ensures
        step.ends_with(Err(RECORD_ERR@)),
        !(step is Fetch),
        recorded_after == recorded_ip,
{
}

/// A record list in which no record is published under `host` followed by
/// `domain` ends the update with `RECORD_NOT_FOUND_ERR`.
pub proof fn lemma_unlisted_name_ends_update(
    stage: Stage,
    response: Option<Payload>,
    current_ip: Seq<char>,
    recorded_ip: Seq<char>,
    domain: Seq<char>,
    host: Seq<char>,
    api_key: Seq<char>,
    step: Step,
    recorded_after: Seq<char>,
)
    requires
        stage is Records,
        listed_records(response) is Some,
        forall|i: int|
            0 <= i < listed_records(response)->0.len() ==> (#[trigger] listed_records(response)->0[i]).record_name()
                != host + domain,
        follows(stage, response, current_ip, recorded_ip, domain, host, api_key, step, recorded_after),
    ensures
        step.ends_with(Err(RECORD_NOT_FOUND_ERR@)),
        !(step is Fetch),
        recorded_after == recorded_ip,
{
    lemma_find_record(listed_records(response)->0, host + domain, 0);
}

/// An update that the provider reports as done ends the update as done, and
/// the current address is then the recorded one.
pub proof fn lemma_accepted_update_is_recorded(
    response: Option<Payload>,
    current_ip: Seq<char>,
    recorded_ip: Seq<char>,
    domain: Seq<char>,
    host: Seq<char>,
    api_key: Seq<char>,
    step: Step,
    recorded_after: Seq<char>,
)
    requires
        update_accepted(response),
        follows(Stage::Update, response, current_ip, recorded_ip, domain, host, api_key, step, recorded_after),
    ensures
        step.ends_with(Ok(true)),
        recorded_after == current_ip,
{
}

} // verus!
