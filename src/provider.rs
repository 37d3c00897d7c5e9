use vstd::prelude::*;
use crate::address::AddressFamily;
use crate::http::{Method, Reply, is_success, success};
use crate::json::{Json, json_of, json_string, json_string_of, parse_json, result_array, result_items, text_field, text_member};

verus! {

/// Why a call to the DNS provider failed.
#[derive(Debug)]
pub enum ProviderError {
    /// The provider could not be reached.
    Unreachable,
    /// The provider answered with a status outside 2xx.
    HttpStatus(u16),
    /// No zone of this name belongs to the account.
    ZoneNotFound(String),
    /// The provider's answer did not have the expected shape.
    MalformedResponse,
}

/// A call to the DNS provider; whoever sends it attaches the account's credentials.
#[derive(Debug)]
pub struct ProviderRequest {
    pub method: Method,
    pub url: String,
    pub body: Option<String>,
}

/// A request as values: the method, the URL and the body text.
pub struct RequestView {
    pub method: Method,
    pub url: Seq<char>,
    pub body: Option<Seq<char>>,
}

impl View for ProviderRequest {
    type V = RequestView;

    open spec fn view(&self) -> RequestView {
        RequestView {
            method: self.method,
            url: self.url@,
            body: match self.body {
                Some(b) => Some(b@),
                None => None,
            },
        }
    }
}

/// A DNS record as the provider lists it: only its id and its content matter here.
#[derive(Debug)]
pub struct ExistingRecord {
    pub id: String,
    pub content: String,
}

/// What has to happen to bring a record name to the desired address.
pub ghost enum Plan {
    Keep,
    Create,
    Update(Seq<char>),
}

/// The executable form of a `Plan`.
#[derive(Debug)]
pub enum Decision {
    Unchanged,
    Create,
    Update { id: String },
}

impl View for Decision {
    type V = Plan;

    open spec fn view(&self) -> Plan {
        match self {
            Decision::Unchanged => Plan::Keep,
            Decision::Create => Plan::Create,
            Decision::Update { id } => Plan::Update(id@),
        }
    }
}

/// How a reconciliation ended; a write keeps the record that the provider sent back.
#[derive(Debug)]
pub enum Outcome {
    Unchanged,
    Created { record: String },
    Updated { record: String },
}

pub open spec fn api_base() -> Seq<char> {
    "https://api.cloudflare.com/client/v4"@
}

pub open spec fn zones_url_of(zone_name: Seq<char>) -> Seq<char> {
    api_base() + "/zones?name="@ + zone_name
}

pub open spec fn records_url_of(zone_id: Seq<char>) -> Seq<char> {
    api_base() + "/zones/"@ + zone_id + "/dns_records"@
}

pub open spec fn matching_records_url_of(
    zone_id: Seq<char>,
    name: Seq<char>,
    record_type: Seq<char>,
) -> Seq<char> {
    records_url_of(zone_id) + "?name="@ + name + "&type="@ + record_type
}

pub open spec fn record_url_of(zone_id: Seq<char>, id: Seq<char>) -> Seq<char> {
    records_url_of(zone_id) + "/"@ + id
}

pub open spec fn record_type_of(family: AddressFamily) -> Seq<char> {
    match family {
        AddressFamily::V4 => "A"@,
        AddressFamily::V6 => "AAAA"@,
    }
}

/// The JSON object sent to create or update a record: automatic TTL, not proxied.
pub open spec fn record_body_of(record_type: Seq<char>, name: Seq<char>, content: Seq<char>) -> Seq<
    char,
> {
    "{\"type\":"@ + json_string_of(record_type) + ",\"name\":"@ + json_string_of(name)
        + ",\"content\":"@ + json_string_of(content) + ",\"ttl\":1,\"proxied\":false}"@
}

/// The write that `plan` calls for: a create, or an update of the record `id`.
pub open spec fn planned_write(
    zone_id: Seq<char>,
    name: Seq<char>,
    family: AddressFamily,
    desired: Seq<char>,
    plan: Plan,
) -> RequestView {
    let body = Some(record_body_of(record_type_of(family), name, desired));
    match plan {
        Plan::Update(id) => RequestView {
            method: Method::Put,
            url: record_url_of(zone_id, id),
            body,
        },
        _ => RequestView { method: Method::Post, url: records_url_of(zone_id), body },
    }
}

/// The ids and contents of `records`.
pub open spec fn record_views(records: Seq<ExistingRecord>) -> Seq<(Seq<char>, Seq<char>)> {
    records.map_values(|r: ExistingRecord| (r.id@, r.content@))
}

/// Only the first record listed is inspected: one record per name and type is expected.
pub open spec fn plan_for(records: Seq<(Seq<char>, Seq<char>)>, desired: Seq<char>) -> Plan {
    if records.len() == 0 {
        Plan::Create
    } else if records[0].1 == desired {
        Plan::Keep
    } else {
        Plan::Update(records[0].0)
    }
}

/// The records that the provider holds after the write that `plan` calls for;
/// `new_id` is the id that the provider gives a created record.
pub open spec fn stored_after(
    records: Seq<(Seq<char>, Seq<char>)>,
    plan: Plan,
    desired: Seq<char>,
    new_id: Seq<char>,
) -> Seq<(Seq<char>, Seq<char>)> {
    match plan {
        Plan::Keep => records,
        Plan::Create => records.push((new_id, desired)),
        Plan::Update(id) => records.update(0, (id, desired)),
    }
}

/// Reconciling again with the same address, after the write that the first
/// reconciliation made went through, leaves the record as it is.
pub proof fn lemma_reconcile_idempotent(
    records: Seq<(Seq<char>, Seq<char>)>,
    desired: Seq<char>,
    new_id: Seq<char>,
)
    ensures
        plan_for(stored_after(records, plan_for(records, desired), desired, new_id), desired)
            == Plan::Keep,
{
}

/// A record whose content differs from the desired address, or a missing one,
/// calls for exactly one write: a create where none exists, else an update.
pub proof fn lemma_one_write_when_content_differs(
    records: Seq<(Seq<char>, Seq<char>)>,
    desired: Seq<char>,
)
    requires
        records.len() == 0 || records[0].1 != desired,
    ensures
        plan_for(records, desired) != Plan::Keep,
        (plan_for(records, desired) == Plan::Create) <==> records.len() == 0,
{
}

fn concat3(a: String, b: &str, c: &str) -> (r: String)
    ensures
        r@ == a@ + b@ + c@,
{
    a.concat(b).concat(c)
}

pub fn record_type_name(family: AddressFamily) -> (r: String)
    ensures
        r@ == record_type_of(family),
{
    match family {
        AddressFamily::V4 => String::from_str("A"),
        AddressFamily::V6 => String::from_str("AAAA"),
    }
}

fn records_url(zone_id: &str) -> (r: String)
    ensures
        r@ == records_url_of(zone_id@),
{
    let base = String::from_str("https://api.cloudflare.com/client/v4");
    concat3(base, "/zones/", zone_id).concat("/dns_records")
}

/// The request that lists the zones called `zone_name`.
pub fn zone_query(zone_name: &str) -> (r: ProviderRequest)
    ensures
        r.method == Method::Get,
        r.url@ == zones_url_of(zone_name@),
        r.body is None,
{
    let base = String::from_str("https://api.cloudflare.com/client/v4");
    ProviderRequest { method: Method::Get, url: concat3(base, "/zones?name=", zone_name), body: None }
}

/// The request that lists the records of `zone_id` with this name and type.
pub fn records_query(zone_id: &str, name: &str, family: AddressFamily) -> (r: ProviderRequest)
    ensures
        r.method == Method::Get,
        r.url@ == matching_records_url_of(zone_id@, name@, record_type_of(family)),
        r.body is None,
{
    let url = concat3(records_url(zone_id), "?name=", name);
    let rtype = record_type_name(family);
    let url = concat3(url, "&type=", rtype.as_str());
    ProviderRequest { method: Method::Get, url, body: None }
}

/// The body of a create or update request.
pub fn record_body(record_type: &str, name: &str, content: &str) -> (r: String)
    ensures
        r@ == record_body_of(record_type@, name@, content@),
{
    let t = json_string(record_type);
    let n = json_string(name);
    let c = json_string(content);
    let body = concat3(String::from_str("{\"type\":"), t.as_str(), ",\"name\":");
    let body = concat3(body, n.as_str(), ",\"content\":");
    concat3(body, c.as_str(), ",\"ttl\":1,\"proxied\":false}")
}

/// What a zone listing gives: the id of the first zone listed, whatever the
/// listing's size; `ZoneNotFound` where none is listed; `MalformedResponse`
/// where the document has no `result` array or the first zone no string `id`.
pub open spec fn zone_in_fits(
    zone_name: Seq<char>,
    doc: Option<Json>,
    r: Result<String, ProviderError>,
) -> bool {
    match result_items(doc) {
        None => r matches Err(ProviderError::MalformedResponse),
        Some(items) => if items.len() == 0 {
            match r {
                Err(ProviderError::ZoneNotFound(z)) => z@ == zone_name,
                _ => false,
            }
        } else {
            match text_field(items[0], "id"@) {
                Some(id) => match r {
                    Ok(x) => x@ == id,
                    _ => false,
                },
                None => r matches Err(ProviderError::MalformedResponse),
            }
        },
    }
}

/// What a zone lookup answered 2xx with `listing` gives; text that is not JSON
/// gives `MalformedResponse`.
pub open spec fn zone_result_fits(
    zone_name: Seq<char>,
    listing: Seq<char>,
    r: Result<String, ProviderError>,
) -> bool {
    zone_in_fits(zone_name, json_of(listing), r)
}

/// What the records listed under a name and type call for, read from the
/// first record alone: a create where none is listed, nothing where its
/// content is the desired address, else an update of it by its id. `None`
/// where the document has no `result` array, or where an update is due and
/// the first record has no string `id`.
pub open spec fn plan_in(doc: Option<Json>, desired: Seq<char>) -> Option<Plan> {
    match result_items(doc) {
        None => None,
        Some(items) => if items.len() == 0 {
            Some(Plan::Create)
        } else if text_field(items[0], "content"@) == Some(desired) {
            Some(Plan::Keep)
        } else {
            match text_field(items[0], "id"@) {
                Some(id) => Some(Plan::Update(id)),
                None => None,
            }
        },
    }
}

/// Where a listing's first record has both fields, the listing calls for what
/// `plan_for` gives on that record; an empty listing calls for a create.
pub proof fn lemma_listing_follows_first_record(doc: Option<Json>, desired: Seq<char>)
    ensures
        result_items(doc) matches Some(items) ==> (items.len() == 0 ==> plan_in(doc, desired)
            == Some(plan_for(Seq::empty(), desired))),
        result_items(doc) matches Some(items) ==> (items.len() > 0 && text_field(
            items[0],
            "id"@,
        ) is Some && text_field(items[0], "content"@) is Some ==> plan_in(doc, desired) == Some(
            plan_for(
                seq![(text_field(items[0], "id"@)->0, text_field(items[0], "content"@)->0)],
                desired,
            ),
        )),
{
}

/// What the reply to a zone lookup gives, as `resolve_zone_reply` reads it.
pub open spec fn zone_lookup_fits(
    zone_name: Seq<char>,
    reply: Reply,
    r: Result<String, ProviderError>,
) -> bool {
    match reply {
        Reply::Unreachable => r matches Err(ProviderError::Unreachable),
        Reply::Received { status, body } => if is_success(status) {
            zone_result_fits(zone_name, body@, r)
        } else {
            match r {
                Err(ProviderError::HttpStatus(s)) => s == status,
                _ => false,
            }
        },
    }
}

/// The zone id that a zone listing gives.
pub fn zone_id_in(zone_name: &str, doc: &Json) -> (r: Result<String, ProviderError>)
    ensures
        zone_in_fits(zone_name@, Some(*doc), r),
{
    match result_array(doc) {
        None => Err(ProviderError::MalformedResponse),
        Some(items) => {
            if items.len() == 0 {
                Err(ProviderError::ZoneNotFound(zone_name.to_owned()))
            } else {
                match text_member(&items[0], "id") {
                    Some(id) => Ok(id),
                    None => Err(ProviderError::MalformedResponse),
                }
            }
        },
    }
}

/// What a record listing calls for, so that the target's name points to `desired`.
pub fn decision_in(doc: &Json, desired: &String) -> (r: Option<Decision>)
    ensures
        r matches Some(d) ==> plan_in(Some(*doc), desired@) == Some(d@),
        r is None ==> plan_in(Some(*doc), desired@) is None,
{
    match result_array(doc) {
        None => None,
        Some(items) => {
            if items.len() == 0 {
                Some(Decision::Create)
            } else {
                let same = match text_member(&items[0], "content") {
                    Some(c) => c.eq(desired),
                    None => false,
                };
                if same {
                    Some(Decision::Unchanged)
                } else {
                    match text_member(&items[0], "id") {
                        Some(id) => Some(Decision::Update { id }),
                        None => None,
                    }
                }
            }
        },
    }
}

/// The zone id that the reply to `zone_query(zone_name)` gives.
pub fn resolve_zone_reply(zone_name: &str, reply: Reply) -> (r: Result<String, ProviderError>)
    ensures
        zone_lookup_fits(zone_name@, reply, r),
{
    match reply {
        Reply::Unreachable => Err(ProviderError::Unreachable),
        Reply::Received { status, body } => {
            if !success(status) {
                Err(ProviderError::HttpStatus(status))
            } else {
                match parse_json(body.as_str()) {
                    Some(doc) => zone_id_in(zone_name, &doc),
                    None => Err(ProviderError::MalformedResponse),
                }
            }
        },
    }
}

/// What to do about `records`, the records listed under the target's name and
/// type, so that the target's name points to `desired`.
pub fn decide(records: &Vec<ExistingRecord>, desired: &String) -> (r: Decision)
    ensures
        r@ == plan_for(record_views(records@), desired@),
{
    if records.len() == 0 {
        Decision::Create
    } else if records[0].content.eq(desired) {
        Decision::Unchanged
    } else {
        Decision::Update { id: records[0].id.clone() }
    }
}

/// The write that `decision` calls for, if any: at most one request.
pub fn write_request(
    zone_id: &str,
    name: &str,
    family: AddressFamily,
    desired: &str,
    decision: &Decision,
) -> (r: Option<ProviderRequest>)
    ensures
        decision@ == Plan::Keep <==> r is None,
        r matches Some(q) ==> q@ == planned_write(zone_id@, name@, family, desired@, decision@),
{
    let rtype = record_type_name(family);
    match decision {
        Decision::Unchanged => None,
        Decision::Create => Some(
            ProviderRequest {
                method: Method::Post,
                url: records_url(zone_id),
                body: Some(record_body(rtype.as_str(), name, desired)),
            },
        ),
        Decision::Update { id } => Some(
            ProviderRequest {
                method: Method::Put,
                url: concat3(records_url(zone_id), "/", id.as_str()),
                body: Some(record_body(rtype.as_str(), name, desired)),
            },
        ),
    }
}

} // verus!
