use vstd::prelude::*;
use vstd::string::*;

use crate::config::ProviderConfig;
use crate::text::str_equals;

verus! {

/// What keeping one record in step with the address did.
#[derive(Debug, Clone)]
pub enum SyncOutcome {
    NoChange { record_id: String, content: String },
    Updated { record_id: String, old_content: String, new_content: String },
    Created { record_id: String, new_content: String },
}

/// A `SyncOutcome` with its texts taken as character sequences.
pub enum SyncOutcomeView {
    NoChange { record_id: Seq<char>, content: Seq<char> },
    Updated { record_id: Seq<char>, old_content: Seq<char>, new_content: Seq<char> },
    Created { record_id: Seq<char>, new_content: Seq<char> },
}

impl View for SyncOutcome {
    type V = SyncOutcomeView;

    open spec fn view(&self) -> SyncOutcomeView {
        match self {
            SyncOutcome::NoChange { record_id, content } => SyncOutcomeView::NoChange {
                record_id: record_id@,
                content: content@,
            },
            SyncOutcome::Updated { record_id, old_content, new_content } =>
                SyncOutcomeView::Updated {
                    record_id: record_id@,
                    old_content: old_content@,
                    new_content: new_content@,
                },
            SyncOutcome::Created { record_id, new_content } => SyncOutcomeView::Created {
                record_id: record_id@,
                new_content: new_content@,
            },
        }
    }
}

/// A DNS record as the provider lists or returns it.
#[derive(Debug, Clone)]
pub struct CloudflareRecord {
    pub id: String,
    pub name: String,
    pub record_type: String,
    pub content: String,
    pub proxied: Option<bool>,
    pub ttl: Option<u32>,
}

/// One error that the provider reports in a reply.
#[derive(Debug, Clone)]
pub struct ApiError {
    pub code: i64,
    pub message: String,
}

/// The frame of every reply of the provider.
#[derive(Debug)]
pub struct ApiEnvelope<T> {
    pub success: bool,
    pub result: T,
    pub errors: Vec<ApiError>,
}

/// The record that a create or an update asks the provider to hold.
#[derive(Debug, Clone)]
pub struct CloudflareRecordWrite {
    pub content: String,
    pub name: String,
    pub record_type: String,
    pub proxied: bool,
    pub ttl: u32,
}

pub struct RecordWriteView {
    pub content: Seq<char>,
    pub name: Seq<char>,
    pub record_type: Seq<char>,
    pub proxied: bool,
    pub ttl: u32,
}

impl View for CloudflareRecordWrite {
    type V = RecordWriteView;

    open spec fn view(&self) -> RecordWriteView {
        RecordWriteView {
            content: self.content@,
            name: self.name@,
            record_type: self.record_type@,
            proxied: self.proxied,
            ttl: self.ttl,
        }
    }
}

#[derive(Debug, Clone, Copy, PartialEq, Eq, Structural)]
pub enum HttpMethod {
    Get,
    Put,
    Post,
}

/// A call of the provider's API: the method, the address, the bearer token
/// that authorizes it, the query parameters and the record sent as JSON.
#[derive(Debug, Clone)]
pub struct ApiRequest {
    pub method: HttpMethod,
    pub url: String,
    pub bearer_token: String,
    pub query: Vec<(String, String)>,
    pub body: Option<CloudflareRecordWrite>,
}

pub struct ApiRequestView {
    pub method: HttpMethod,
    pub url: Seq<char>,
    pub bearer_token: Seq<char>,
    pub query: Seq<(Seq<char>, Seq<char>)>,
    pub body: Option<RecordWriteView>,
}

impl View for ApiRequest {
    type V = ApiRequestView;

    open spec fn view(&self) -> ApiRequestView {
        ApiRequestView {
            method: self.method,
            url: self.url@,
            bearer_token: self.bearer_token@,
            query: self.query@.map_values(|p: (String, String)| (p.0@, p.1@)),
            body: match self.body {
                Some(b) => Some(b@),
                None => None,
            },
        }
    }
}

/// The three calls that keeping a record in step makes.
#[derive(Debug, Clone, Copy, PartialEq, Eq, Structural)]
pub enum RecordOp {
    Query,
    Update,
    Create,
}

/// Where a call failed before its reply could be read as an envelope.
#[derive(Debug, Clone, Copy, PartialEq, Eq, Structural)]
pub enum FailureStage {
    /// The request could not be sent or no response came.
    Send,
    /// The response carried an HTTP error status.
    Status,
    /// The response body was not the expected JSON.
    Decode,
}

#[derive(Debug, Clone)]
pub struct TransportFailure {
    pub stage: FailureStage,
    pub detail: String,
}

/// Why keeping a record in step failed.
#[derive(Debug)]
pub enum CloudflareError {
    Transport { op: RecordOp, failure: TransportFailure },
    Rejected { op: RecordOp, errors: Vec<ApiError> },
}

/// The address of the DNS records of a zone.
pub open spec fn records_url(zone_id: Seq<char>) -> Seq<char> {
    "https://api.cloudflare.com/client/v4/zones/"@ + zone_id + "/dns_records"@
}

/// The address of one DNS record of a zone.
pub open spec fn record_url(zone_id: Seq<char>, record_id: Seq<char>) -> Seq<char> {
    records_url(zone_id) + "/"@ + record_id
}

/// The record that a write for `domain` asks for.
pub open spec fn write_payload(
    provider: ProviderConfig,
    domain: Seq<char>,
    record_type: Seq<char>,
    ip_address: Seq<char>,
) -> RecordWriteView {
    RecordWriteView {
        content: ip_address,
        name: domain,
        record_type,
        proxied: provider.proxied,
        ttl: provider.ttl,
    }
}

/// The call that lists the records of `domain` and `record_type` in the provider's zone.
pub open spec fn list_request_spec(provider: ProviderConfig, domain: Seq<char>, record_type: Seq<char>) -> ApiRequestView {
    ApiRequestView {
        method: HttpMethod::Get,
        url: records_url(provider.zone_id@),
        bearer_token: provider.api_token@,
        query: seq![("name"@, domain), ("type"@, record_type), ("per_page"@, "100"@)],
        body: None,
    }
}

/// The call that points the record `record_id` at `ip_address`.
pub open spec fn update_request_spec(
    provider: ProviderConfig,
    record_id: Seq<char>,
    domain: Seq<char>,
    record_type: Seq<char>,
    ip_address: Seq<char>,
) -> ApiRequestView {
    ApiRequestView {
        method: HttpMethod::Put,
        url: record_url(provider.zone_id@, record_id),
        bearer_token: provider.api_token@,
        query: seq![],
        body: Some(write_payload(provider, domain, record_type, ip_address)),
    }
}

/// The call that creates a record of `domain` pointing at `ip_address`.
pub open spec fn create_request_spec(
    provider: ProviderConfig,
    domain: Seq<char>,
    record_type: Seq<char>,
    ip_address: Seq<char>,
) -> ApiRequestView {
    ApiRequestView {
        method: HttpMethod::Post,
        url: records_url(provider.zone_id@),
        bearer_token: provider.api_token@,
        query: seq![],
        body: Some(write_payload(provider, domain, record_type, ip_address)),
    }
}

/// What a reply to the call `op` yields: its result where the call went through
/// and the provider reports success, else why it did not.
pub open spec fn envelope_outcome<T>(op: RecordOp, reply: Result<ApiEnvelope<T>, TransportFailure>) -> Result<
    T,
    CloudflareError,
> {
    match reply {
        Err(failure) => Err(CloudflareError::Transport { op, failure }),
        Ok(envelope) => if envelope.success {
            Ok(envelope.result)
        } else {
            Err(CloudflareError::Rejected { op, errors: envelope.errors })
        },
    }
}

/// What the listing of a domain's records leads to.
#[derive(Debug)]
pub enum SyncPlan {
    /// The first listed record already holds the address.
    Unchanged(SyncOutcome),
    /// The first listed record holds another address and is to be updated.
    Update { record_id: String, old_content: String },
    /// No record is listed; one is to be created.
    Create,
}

/// The plan that the listed `records` lead to for the address `ip_address`:
/// only the first listed record counts.
pub open spec fn sync_plan_spec(records: Seq<CloudflareRecord>, ip_address: Seq<char>) -> SyncPlan {
    if records.len() == 0 {
        SyncPlan::Create
    } else if records[0].content@ == ip_address {
        SyncPlan::Unchanged(
            SyncOutcome::NoChange { record_id: records[0].id, content: records[0].content },
        )
    } else {
        SyncPlan::Update { record_id: records[0].id, old_content: records[0].content }
    }
}

fn owned(s: &str) -> (r: String)
    ensures
        r@ == s@,
{
    String::from_str(s)
}

fn records_url_of(zone_id: &str) -> (url: String)
    ensures
        url@ == records_url(zone_id@),
{
    let mut url = owned("https://api.cloudflare.com/client/v4/zones/");
    url.append(zone_id);
    url.append("/dns_records");
    url
}

fn payload(provider: &ProviderConfig, domain: &str, record_type: &str, ip_address: &str) -> (p:
    CloudflareRecordWrite)
    ensures
        p@ == write_payload(*provider, domain@, record_type@, ip_address@),
{
    CloudflareRecordWrite {
        content: owned(ip_address),
        name: owned(domain),
        record_type: owned(record_type),
        proxied: provider.proxied,
        ttl: provider.ttl,
    }
}

/// The call that lists the records of `domain` and `record_type`.
pub fn list_records_request(provider: &ProviderConfig, domain: &str, record_type: &str) -> (req:
    ApiRequest)
    ensures
        req@ == list_request_spec(*provider, domain@, record_type@),
{
    let mut query: Vec<(String, String)> = Vec::new();
    query.push((owned("name"), owned(domain)));
    query.push((owned("type"), owned(record_type)));
    query.push((owned("per_page"), owned("100")));
    let req = ApiRequest {
        method: HttpMethod::Get,
        url: records_url_of(provider.zone_id.as_str()),
        bearer_token: provider.api_token.clone(),
        query,
        body: None,
    };
    assert(req@.query =~= list_request_spec(*provider, domain@, record_type@).query);
    req
}

/// The call that points the record `record_id` of `domain` at `ip_address`.
pub fn update_record_request(
    provider: &ProviderConfig,
    record_id: &str,
    domain: &str,
    record_type: &str,
    ip_address: &str,
) -> (req: ApiRequest)
    ensures
        req@ == update_request_spec(*provider, record_id@, domain@, record_type@, ip_address@),
{
    let mut url = records_url_of(provider.zone_id.as_str());
    url.append("/");
    url.append(record_id);
    let req = ApiRequest {
        method: HttpMethod::Put,
        url,
        bearer_token: provider.api_token.clone(),
        query: Vec::new(),
        body: Some(payload(provider, domain, record_type, ip_address)),
    };
    assert(req@.query =~= seq![]);
    req
}

/// The call that creates a record of `domain` pointing at `ip_address`.
pub fn create_record_request(
    provider: &ProviderConfig,
    domain: &str,
    record_type: &str,
    ip_address: &str,
) -> (req: ApiRequest)
    ensures
        req@ == create_request_spec(*provider, domain@, record_type@, ip_address@),
{
    let req = ApiRequest {
        method: HttpMethod::Post,
        url: records_url_of(provider.zone_id.as_str()),
        bearer_token: provider.api_token.clone(),
        query: Vec::new(),
        body: Some(payload(provider, domain, record_type, ip_address)),
    };
    assert(req@.query =~= seq![]);
    req
}

/// Reads the reply to the call `op`.
pub fn accept_envelope<T>(op: RecordOp, reply: Result<ApiEnvelope<T>, TransportFailure>) -> (r:
    Result<T, CloudflareError>)
    ensures
        r == envelope_outcome(op, reply),
{
    match reply {
        Err(failure) => Err(CloudflareError::Transport { op, failure }),
        Ok(envelope) => if envelope.success {
            Ok(envelope.result)
        } else {
            Err(CloudflareError::Rejected { op, errors: envelope.errors })
        },
    }
}

/// Decides, from the listed records, whether the record is already in step,
/// is to be updated, or is to be created.
pub fn plan_sync(records: Vec<CloudflareRecord>, ip_address: &str) -> (plan: SyncPlan)
    ensures
        plan == sync_plan_spec(records@, ip_address@),
{
    let mut records = records;
    if records.len() == 0 {
        return SyncPlan::Create;
    }
    let first = records.remove(0);
    if str_equals(first.content.as_str(), ip_address) {
        SyncPlan::Unchanged(SyncOutcome::NoChange { record_id: first.id, content: first.content })
    } else {
        SyncPlan::Update { record_id: first.id, old_content: first.content }
    }
}

/// The outcome of an update of `record_id` from `old_content` to `ip_address`.
pub fn updated_outcome(record_id: String, old_content: String, ip_address: &str) -> (o: SyncOutcome)
    ensures
        o@ == (SyncOutcomeView::Updated {
            record_id: record_id@,
            old_content: old_content@,
            new_content: ip_address@,
        }),
{
    SyncOutcome::Updated { record_id, old_content, new_content: owned(ip_address) }
}

/// The outcome of a create, as the provider returned the new record.
pub fn created_outcome(created: CloudflareRecord) -> (o: SyncOutcome)
    ensures
        o == (SyncOutcome::Created { record_id: created.id, new_content: created.content }),
{
    SyncOutcome::Created { record_id: created.id, new_content: created.content }
}

} // verus!
