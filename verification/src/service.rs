use vstd::prelude::*;
use vstd::string::*;

use crate::config::{default_user_agent, AppConfig, RecordKind};
use crate::error::{ConfigError, ConfigErrorView, IpLookupError};
use crate::ip_source::{lookup_after_reply, lookup_next, IpAddr, LookupStep, ResolvedIp};
use crate::provider::cloudflare::{
    accept_envelope, create_record_request, create_request_spec, created_outcome,
    envelope_outcome, list_records_request, list_request_spec, plan_sync, sync_plan_spec,
    records_url, update_record_request, update_request_spec, updated_outcome, ApiEnvelope, ApiRequest,
    ApiRequestView, CloudflareError, CloudflareRecord, HttpMethod, RecordOp, SyncOutcome, SyncOutcomeView,
    SyncPlan, TransportFailure,
};

verus! {

/// A text that an HTTP header can carry: each character is a tab or a visible
/// character (code 32 or more, but not 127). Characters beyond ASCII are
/// allowed, since every byte that encodes them is 128 or more.
pub open spec fn header_value_text(s: Seq<char>) -> bool {
    forall|i: int|
        0 <= i < s.len() ==> (#[trigger] s[i] == '\t' || (s[i] as u32 >= 32 && s[i] as u32 != 127))
}

/// `reqwest::header::HeaderValue::from_str` (the `http` crate's): it accepts a
/// text exactly when every byte is a tab, or 32 or more and not 127; stated per
/// character, that is `header_value_text`.
#[verifier::external_body]
fn header_value_accepts(s: &str) -> (ok: bool)
    ensures
        ok == header_value_text(s@),
{
    reqwest::header::HeaderValue::from_str(s).is_ok()
}

/// The user agent that requests carry: the configured one where a header can
/// carry it, else the default one.
pub fn effective_user_agent(configured: &str) -> (agent: String)
    ensures
        header_value_text(configured@) ==> agent@ == configured@,
        !header_value_text(configured@) ==> agent@ == "ddns-rs/0.1"@,
{
    if header_value_accepts(configured) {
        String::from_str(configured)
    } else {
        default_user_agent()
    }
}

/// What a pass does for each domain.
#[derive(Debug, Clone, Copy, PartialEq, Eq, Structural)]
pub enum PassMode {
    /// Bring every provider's record in step with the domain's public address.
    Sync,
    /// Only resolve each domain's public address and print it.
    PrintIps,
}

/// A write that was sent and whose reply is awaited.
#[derive(Debug)]
pub enum PendingWrite {
    Update { record_id: String, old_content: String },
    Create,
}

/// Where a pass stands.
#[derive(Debug)]
pub enum PassPhase {
    /// Waiting for the reply of source `attempted` of domain `domain`.
    Resolving { domain: usize, attempted: usize },
    /// Waiting for the listing of the records of provider `provider`.
    Listing { domain: usize, provider: usize, kind: RecordKind, ip_text: String },
    /// Waiting for the reply to a write for provider `provider`.
    Writing {
        domain: usize,
        provider: usize,
        kind: RecordKind,
        ip_text: String,
        pending: PendingWrite,
    },
    /// Waiting for the report of provider `provider`'s outcome to be taken.
    Reporting { domain: usize, provider: usize, kind: RecordKind, ip_text: String },
    /// Waiting for the address of domain `domain` to be printed.
    Printing { domain: usize },
    /// Every domain went through.
    Done,
    /// The pass stopped on an error.
    Failed,
}

/// What a pass is told after each action.
#[derive(Debug)]
pub enum PassEvent {
    /// The reply of the asked public-IP source: its address, or `None` where it failed.
    IpReply(Option<ResolvedIp>),
    /// The reply to a listing call.
    Records(Result<ApiEnvelope<Vec<CloudflareRecord>>, TransportFailure>),
    /// The reply to a create or update call.
    Record(Result<ApiEnvelope<CloudflareRecord>, TransportFailure>),
    /// A report or a print was taken.
    Ack,
}

/// Why a pass stopped.
#[derive(Debug)]
pub enum PassError {
    Config(ConfigError),
    IpLookup { domain: String, error: IpLookupError },
    Cloudflare(CloudflareError),
}

pub enum PassErrorView {
    Config(ConfigErrorView),
    IpLookup { domain: Seq<char>, error: IpLookupError },
    Cloudflare(CloudflareError),
}

impl View for PassError {
    type V = PassErrorView;

    open spec fn view(&self) -> PassErrorView {
        match self {
            PassError::Config(e) => PassErrorView::Config(e@),
            PassError::IpLookup { domain, error } => PassErrorView::IpLookup {
                domain: domain@,
                error: *error,
            },
            PassError::Cloudflare(e) => PassErrorView::Cloudflare(*e),
        }
    }
}

/// What a pass asks to be done next.
#[derive(Debug)]
pub enum PassAction {
    /// Ask the public-IP source at `url`, then hand back `PassEvent::IpReply`.
    FetchIp { url: String },
    /// Make the call, then hand back `PassEvent::Records` or `PassEvent::Record`.
    Call(ApiRequest),
    /// Take note of a provider's outcome, then hand back `PassEvent::Ack`.
    Report { domain: usize, provider: usize, kind: RecordKind, outcome: SyncOutcome },
    /// Print the domain's address, then hand back `PassEvent::Ack`.
    Print { domain: usize, ip_text: String },
    /// The pass went through.
    Finished,
    /// The pass stopped with this error.
    Abort(PassError),
}

pub enum PassActionView {
    FetchIp { url: Seq<char> },
    Call(ApiRequestView),
    Report { domain: usize, provider: usize, kind: RecordKind, outcome: SyncOutcomeView },
    Print { domain: usize, ip_text: Seq<char> },
    Finished,
    Abort(PassErrorView),
}

impl View for PassAction {
    type V = PassActionView;

    open spec fn view(&self) -> PassActionView {
        match self {
            PassAction::FetchIp { url } => PassActionView::FetchIp { url: url@ },
            PassAction::Call(req) => PassActionView::Call(req@),
            PassAction::Report { domain, provider, kind, outcome } => PassActionView::Report {
                domain: *domain,
                provider: *provider,
                kind: *kind,
                outcome: outcome@,
            },
            PassAction::Print { domain, ip_text } => PassActionView::Print {
                domain: *domain,
                ip_text: ip_text@,
            },
            PassAction::Finished => PassActionView::Finished,
            PassAction::Abort(e) => PassActionView::Abort(e@),
        }
    }
}

/// The indices that a phase holds point into the configuration; a phase of
/// bringing records in step occurs only in a sync pass, with the record kind
/// that the domain asks for; printing occurs only in a print pass.
pub open spec fn phase_wf(cfg: AppConfig, mode: PassMode, phase: PassPhase) -> bool {
    match phase {
        PassPhase::Resolving { domain, attempted } => domain < cfg.domains.len() && attempted
            < cfg.domains[domain as int].ip_urls.len(),
        PassPhase::Listing { domain, provider, kind, .. } => syncing_wf(cfg, mode, domain, provider, kind),
        PassPhase::Writing { domain, provider, kind, .. } => syncing_wf(cfg, mode, domain, provider, kind),
        PassPhase::Reporting { domain, provider, kind, .. } => syncing_wf(cfg, mode, domain, provider, kind),
        PassPhase::Printing { domain } => domain < cfg.domains.len() && mode == PassMode::PrintIps,
        PassPhase::Done => true,
        PassPhase::Failed => true,
    }
}

pub open spec fn syncing_wf(cfg: AppConfig, mode: PassMode, d: usize, p: usize, kind: RecordKind) -> bool {
    &&& mode == PassMode::Sync
    &&& d < cfg.domains.len()
    &&& p < cfg.domains[d as int].provider.len()
    &&& cfg.domains[d as int].kind_spec() == Ok::<RecordKind, ConfigErrorView>(kind)
}

/// Whether a phase waits for this kind of event.
pub open spec fn phase_accepts(phase: PassPhase, event: PassEvent) -> bool {
    match (phase, event) {
        (PassPhase::Resolving { .. }, PassEvent::IpReply(_)) => true,
        (PassPhase::Listing { .. }, PassEvent::Records(_)) => true,
        (PassPhase::Writing { .. }, PassEvent::Record(_)) => true,
        (PassPhase::Reporting { .. }, PassEvent::Ack) => true,
        (PassPhase::Printing { .. }, PassEvent::Ack) => true,
        _ => false,
    }
}

/// Moving on to domain `d`: its first public-IP source is asked; a domain with
/// no source fails the pass; past the last domain the pass is through.
pub open spec fn begin_domain(cfg: AppConfig, d: int) -> (PassPhase, PassActionView) {
    if d < 0 || d >= cfg.domains.len() {
        (PassPhase::Done, PassActionView::Finished)
    } else if cfg.domains[d].ip_urls.len() == 0 {
        (
            PassPhase::Failed,
            PassActionView::Abort(
                PassErrorView::IpLookup {
                    domain: cfg.domains[d].name@,
                    error: IpLookupError::AllSourcesFailed,
                },
            ),
        )
    } else {
        (
            PassPhase::Resolving { domain: d as usize, attempted: 0 },
            PassActionView::FetchIp { url: cfg.domains[d].ip_urls[0]@ },
        )
    }
}

/// Moving on to provider `p` of domain `d`: its records are listed; past the
/// last provider the next domain follows.
pub open spec fn begin_provider(
    cfg: AppConfig,
    d: int,
    p: int,
    kind: RecordKind,
    ip_text: String,
) -> (PassPhase, PassActionView) {
    if d < 0 || d >= cfg.domains.len() {
        (PassPhase::Done, PassActionView::Finished)
    } else if p < 0 || p >= cfg.domains[d].provider.len() {
        begin_domain(cfg, d + 1)
    } else {
        (
            PassPhase::Listing { domain: d as usize, provider: p as usize, kind, ip_text },
            PassActionView::Call(
                list_request_spec(cfg.domains[d].provider[p], cfg.domains[d].name@, kind.text()),
            ),
        )
    }
}

/// Once domain `d`'s public address is known: it must fit the record kind;
/// then it is printed, or the providers are brought in step one after the other.
pub open spec fn after_resolved(cfg: AppConfig, mode: PassMode, d: int, ip: ResolvedIp) -> (
    PassPhase,
    PassActionView,
) {
    let domain = cfg.domains[d];
    match domain.ip_match(ip.addr) {
        Err(e) => (PassPhase::Failed, PassActionView::Abort(PassErrorView::Config(e))),
        Ok(()) => match mode {
            PassMode::PrintIps => (
                PassPhase::Printing { domain: d as usize },
                PassActionView::Print { domain: d as usize, ip_text: ip.text@ },
            ),
            PassMode::Sync => match domain.kind_spec() {
                Err(e) => (PassPhase::Failed, PassActionView::Abort(PassErrorView::Config(e))),
                Ok(kind) => begin_provider(cfg, d, 0, kind, ip.text),
            },
        },
    }
}

/// The phase and the action that follow `event` in `phase`.
pub open spec fn pass_next(cfg: AppConfig, mode: PassMode, phase: PassPhase, event: PassEvent) -> (
    PassPhase,
    PassActionView,
) {
    match (phase, event) {
        (PassPhase::Resolving { domain, attempted }, PassEvent::IpReply(reply)) => {
            let urls = cfg.domains[domain as int].ip_urls;
            match lookup_next(urls.len() as int, attempted as int, reply) {
                LookupStep::Query(next) => (
                    PassPhase::Resolving { domain, attempted: next },
                    PassActionView::FetchIp { url: urls[next as int]@ },
                ),
                LookupStep::Exhausted => (
                    PassPhase::Failed,
                    PassActionView::Abort(
                        PassErrorView::IpLookup {
                            domain: cfg.domains[domain as int].name@,
                            error: IpLookupError::AllSourcesFailed,
                        },
                    ),
                ),
                LookupStep::Found(ip) => after_resolved(cfg, mode, domain as int, ip),
            }
        },
        (PassPhase::Listing { domain, provider, kind, ip_text }, PassEvent::Records(reply)) => {
            let d = cfg.domains[domain as int];
            let prov = d.provider[provider as int];
            match envelope_outcome(RecordOp::Query, reply) {
                Err(e) => (PassPhase::Failed, PassActionView::Abort(PassErrorView::Cloudflare(e))),
                Ok(records) => match sync_plan_spec(records@, ip_text@) {
                    SyncPlan::Unchanged(outcome) => (
                        PassPhase::Reporting { domain, provider, kind, ip_text },
                        PassActionView::Report { domain, provider, kind, outcome: outcome@ },
                    ),
                    SyncPlan::Update { record_id, old_content } => (
                        PassPhase::Writing {
                            domain,
                            provider,
                            kind,
                            ip_text,
                            pending: PendingWrite::Update { record_id, old_content },
                        },
                        PassActionView::Call(
                            update_request_spec(prov, record_id@, d.name@, kind.text(), ip_text@),
                        ),
                    ),
                    SyncPlan::Create => (
                        PassPhase::Writing {
                            domain,
                            provider,
                            kind,
                            ip_text,
                            pending: PendingWrite::Create,
                        },
                        PassActionView::Call(
                            create_request_spec(prov, d.name@, kind.text(), ip_text@),
                        ),
                    ),
                },
            }
        },
        (
            PassPhase::Writing { domain, provider, kind, ip_text, pending },
            PassEvent::Record(reply),
        ) => match pending {
            PendingWrite::Update { record_id, old_content } => match envelope_outcome(
                RecordOp::Update,
                reply,
            ) {
                Err(e) => (PassPhase::Failed, PassActionView::Abort(PassErrorView::Cloudflare(e))),
                Ok(_) => (
                    PassPhase::Reporting { domain, provider, kind, ip_text },
                    PassActionView::Report {
                        domain,
                        provider,
                        kind,
                        outcome: SyncOutcomeView::Updated {
                            record_id: record_id@,
                            old_content: old_content@,
                            new_content: ip_text@,
                        },
                    },
                ),
            },
            PendingWrite::Create => match envelope_outcome(RecordOp::Create, reply) {
                Err(e) => (PassPhase::Failed, PassActionView::Abort(PassErrorView::Cloudflare(e))),
                Ok(created) => (
                    PassPhase::Reporting { domain, provider, kind, ip_text },
                    PassActionView::Report {
                        domain,
                        provider,
                        kind,
                        outcome: SyncOutcomeView::Created {
                            record_id: created.id@,
                            new_content: created.content@,
                        },
                    },
                ),
            },
        },
        (PassPhase::Reporting { domain, provider, kind, ip_text }, PassEvent::Ack) => begin_provider(
            cfg,
            domain as int,
            provider + 1,
            kind,
            ip_text,
        ),
        (PassPhase::Printing { domain }, PassEvent::Ack) => begin_domain(cfg, domain + 1),
        (phase, _) => (phase, PassActionView::Finished),
    }
}

/// One pass over every domain of a configuration: it decides, from what the
/// outside world answers, what to ask of it next.
pub struct SyncPass {
    config: AppConfig,
    mode: PassMode,
    phase: PassPhase,
}

impl SyncPass {
    #[verifier::type_invariant]
    spec fn wf(self) -> bool {
        phase_wf(self.config, self.mode, self.phase)
    }

    pub closed spec fn config_spec(self) -> AppConfig {
        self.config
    }

    pub closed spec fn mode_spec(self) -> PassMode {
        self.mode
    }

    pub closed spec fn phase_spec(self) -> PassPhase {
        self.phase
    }

    /// Starts a pass: the first action is that of beginning the first domain.
    pub fn new(config: AppConfig, mode: PassMode) -> (r: (SyncPass, PassAction))
        ensures
            r.0.config_spec() == config,
            r.0.mode_spec() == mode,
            (r.0.phase_spec(), r.1@) == begin_domain(config, 0),
    {
        let (phase, action) = begin_domain_exec(&config, mode, 0);
        (SyncPass { config, mode, phase }, action)
    }

    /// The configuration that the pass goes through.
    pub fn config(&self) -> (c: &AppConfig)
        ensures
            *c == self.config_spec(),
    {
        &self.config
    }

    /// Whether the pass waits for this kind of event.
    pub fn accepts(&self, event: &PassEvent) -> (r: bool)
        ensures
            r == phase_accepts(self.phase_spec(), *event),
    {
        match (&self.phase, event) {
            (PassPhase::Resolving { .. }, PassEvent::IpReply(_)) => true,
            (PassPhase::Listing { .. }, PassEvent::Records(_)) => true,
            (PassPhase::Writing { .. }, PassEvent::Record(_)) => true,
            (PassPhase::Reporting { .. }, PassEvent::Ack) => true,
            (PassPhase::Printing { .. }, PassEvent::Ack) => true,
            _ => false,
        }
    }

    /// Takes in what came of the last action and gives the next one.
    pub fn step(&mut self, event: PassEvent) -> (action: PassAction)
        requires
            phase_accepts(old(self).phase_spec(), event),
        ensures
            final(self).config_spec() == old(self).config_spec(),
            final(self).mode_spec() == old(self).mode_spec(),
            (final(self).phase_spec(), action@) == pass_next(
                old(self).config_spec(),
                old(self).mode_spec(),
                old(self).phase_spec(),
                event,
            ),
    {
        proof {
            use_type_invariant(&*self);
        }
        let mut phase = PassPhase::Failed;
        std::mem::swap(&mut phase, &mut self.phase);
        let (next, action) = next_exec(&self.config, self.mode, phase, event);
        self.phase = next;
        action
    }
}

fn lookup_failed(cfg: &AppConfig, d: usize) -> (r: (PassPhase, PassAction))
    requires
        d < cfg.domains.len(),
    ensures
        r.0 == PassPhase::Failed,
        r.1@ == PassActionView::Abort(
            PassErrorView::IpLookup {
                domain: cfg.domains[d as int].name@,
                error: IpLookupError::AllSourcesFailed,
            },
        ),
{
    (
        PassPhase::Failed,
        PassAction::Abort(
            PassError::IpLookup {
                domain: cfg.domains[d].name.clone(),
                error: IpLookupError::AllSourcesFailed,
            },
        ),
    )
}

fn begin_domain_exec(cfg: &AppConfig, mode: PassMode, d: usize) -> (r: (PassPhase, PassAction))
    ensures
        (r.0, r.1@) == begin_domain(*cfg, d as int),
        phase_wf(*cfg, mode, r.0),
{
    if d >= cfg.domains.len() {
        (PassPhase::Done, PassAction::Finished)
    } else if cfg.domains[d].ip_urls.len() == 0 {
        lookup_failed(cfg, d)
    } else {
        (
            PassPhase::Resolving { domain: d, attempted: 0 },
            PassAction::FetchIp { url: cfg.domains[d].ip_urls[0].clone() },
        )
    }
}

fn begin_provider_exec(
    cfg: &AppConfig,
    mode: PassMode,
    d: usize,
    p: usize,
    kind: RecordKind,
    ip_text: String,
) -> (r: (PassPhase, PassAction))
    requires
        mode == PassMode::Sync,
        d < cfg.domains.len(),
        cfg.domains[d as int].kind_spec() == Ok::<RecordKind, ConfigErrorView>(kind),
    ensures
        (r.0, r.1@) == begin_provider(*cfg, d as int, p as int, kind, ip_text),
        phase_wf(*cfg, mode, r.0),
{
    if d >= cfg.domains.len() {
        (PassPhase::Done, PassAction::Finished)
    } else if p >= cfg.domains[d].provider.len() {
        begin_domain_exec(cfg, mode, d + 1)
    } else {
        let domain = &cfg.domains[d];
        let req = list_records_request(&domain.provider[p], domain.name.as_str(), kind.as_str());
        (PassPhase::Listing { domain: d, provider: p, kind, ip_text }, PassAction::Call(req))
    }
}

fn after_resolved_exec(cfg: &AppConfig, mode: PassMode, d: usize, ip: ResolvedIp) -> (r: (
    PassPhase,
    PassAction,
))
    requires
        d < cfg.domains.len(),
    ensures
        (r.0, r.1@) == after_resolved(*cfg, mode, d as int, ip),
        phase_wf(*cfg, mode, r.0),
{
    let domain = &cfg.domains[d];
    match domain.ensure_ip_matches_record_type(ip.addr) {
        Err(e) => return (PassPhase::Failed, PassAction::Abort(PassError::Config(e))),
        Ok(()) => {},
    }
    match mode {
        PassMode::PrintIps => (
            PassPhase::Printing { domain: d },
            PassAction::Print { domain: d, ip_text: ip.text },
        ),
        PassMode::Sync => match domain.record_kind() {
            Err(e) => (PassPhase::Failed, PassAction::Abort(PassError::Config(e))),
            Ok(kind) => begin_provider_exec(cfg, mode, d, 0, kind, ip.text),
        },
    }
}

fn next_exec(cfg: &AppConfig, mode: PassMode, phase: PassPhase, event: PassEvent) -> (r: (
    PassPhase,
    PassAction,
))
    requires
        phase_wf(*cfg, mode, phase),
        phase_accepts(phase, event),
    ensures
        (r.0, r.1@) == pass_next(*cfg, mode, phase, event),
        phase_wf(*cfg, mode, r.0),
{
    match (phase, event) {
        (PassPhase::Resolving { domain, attempted }, PassEvent::IpReply(reply)) => {
            let urls = &cfg.domains[domain].ip_urls;
            match lookup_after_reply(urls, attempted, reply) {
                LookupStep::Query(next) => (
                    PassPhase::Resolving { domain, attempted: next },
                    PassAction::FetchIp { url: urls[next].clone() },
                ),
                LookupStep::Exhausted => lookup_failed(cfg, domain),
                LookupStep::Found(ip) => after_resolved_exec(cfg, mode, domain, ip),
            }
        },
        (PassPhase::Listing { domain, provider, kind, ip_text }, PassEvent::Records(reply)) => {
            let d = &cfg.domains[domain];
            let prov = &d.provider[provider];
            match accept_envelope(RecordOp::Query, reply) {
                Err(e) => (PassPhase::Failed, PassAction::Abort(PassError::Cloudflare(e))),
                Ok(records) => match plan_sync(records, ip_text.as_str()) {
                    SyncPlan::Unchanged(outcome) => (
                        PassPhase::Reporting { domain, provider, kind, ip_text },
                        PassAction::Report { domain, provider, kind, outcome },
                    ),
                    SyncPlan::Update { record_id, old_content } => {
                        let req = update_record_request(
                            prov,
                            record_id.as_str(),
                            d.name.as_str(),
                            kind.as_str(),
                            ip_text.as_str(),
                        );
                        (
                            PassPhase::Writing {
                                domain,
                                provider,
                                kind,
                                ip_text,
                                pending: PendingWrite::Update { record_id, old_content },
                            },
                            PassAction::Call(req),
                        )
                    },
                    SyncPlan::Create => {
                        let req = create_record_request(
                            prov,
                            d.name.as_str(),
                            kind.as_str(),
                            ip_text.as_str(),
                        );
                        (
                            PassPhase::Writing {
                                domain,
                                provider,
                                kind,
                                ip_text,
                                pending: PendingWrite::Create,
                            },
                            PassAction::Call(req),
                        )
                    },
                },
            }
        },
        (
            PassPhase::Writing { domain, provider, kind, ip_text, pending },
            PassEvent::Record(reply),
        ) => match pending {
            PendingWrite::Update { record_id, old_content } => match accept_envelope(
                RecordOp::Update,
                reply,
            ) {
                Err(e) => (PassPhase::Failed, PassAction::Abort(PassError::Cloudflare(e))),
                Ok(_) => {
                    let outcome = updated_outcome(record_id, old_content, ip_text.as_str());
                    (
                        PassPhase::Reporting { domain, provider, kind, ip_text },
                        PassAction::Report { domain, provider, kind, outcome },
                    )
                },
            },
            PendingWrite::Create => match accept_envelope(RecordOp::Create, reply) {
                Err(e) => (PassPhase::Failed, PassAction::Abort(PassError::Cloudflare(e))),
                Ok(created) => {
                    let outcome = created_outcome(created);
                    (
                        PassPhase::Reporting { domain, provider, kind, ip_text },
                        PassAction::Report { domain, provider, kind, outcome },
                    )
                },
            },
        },
        (PassPhase::Reporting { domain, provider, kind, ip_text }, PassEvent::Ack) => {
            begin_provider_exec(cfg, mode, domain, provider + 1, kind, ip_text)
        },
        (PassPhase::Printing { domain }, PassEvent::Ack) => begin_domain_exec(cfg, mode, domain + 1),
        (phase, _) => (phase, PassAction::Finished),
    }
}

} // verus!

verus! {

/// A record that already holds the resolved address is left alone: where the
/// listing goes through and its first record holds the address, no call is
/// made and the outcome is "no change" for that record.
pub proof fn lemma_record_in_step_is_left_alone(
    cfg: AppConfig,
    mode: PassMode,
    d: usize,
    p: usize,
    kind: RecordKind,
    ip_text: String,
    listing: ApiEnvelope<Vec<CloudflareRecord>>,
)
    requires
        listing.success,
        listing.result.len() > 0,
        listing.result[0].content@ == ip_text@,
    ensures
        pass_next(
            cfg,
            mode,
            PassPhase::Listing { domain: d, provider: p, kind, ip_text },
            PassEvent::Records(Ok(listing)),
        ) == (
            PassPhase::Reporting { domain: d, provider: p, kind, ip_text },
            PassActionView::Report {
                domain: d,
                provider: p,
                kind,
                outcome: SyncOutcomeView::NoChange {
                    record_id: listing.result[0].id@,
                    content: ip_text@,
                },
            },
        ),
{
}

/// A record that does not exist is created: where the listing goes through
/// and lists no record, the next call creates one for the domain, of the
/// domain's record type, holding the resolved address, with the provider's
/// proxying and TTL.
pub proof fn lemma_missing_record_is_created(
    cfg: AppConfig,
    mode: PassMode,
    d: usize,
    p: usize,
    kind: RecordKind,
    ip_text: String,
    listing: ApiEnvelope<Vec<CloudflareRecord>>,
)
    requires
        listing.success,
        listing.result.len() == 0,
    ensures
        pass_next(
            cfg,
            mode,
            PassPhase::Listing { domain: d, provider: p, kind, ip_text },
            PassEvent::Records(Ok(listing)),
        ) == (
            PassPhase::Writing { domain: d, provider: p, kind, ip_text, pending: PendingWrite::Create },
            PassActionView::Call(
                create_request_spec(
                    cfg.domains[d as int].provider[p as int],
                    cfg.domains[d as int].name@,
                    kind.text(),
                    ip_text@,
                ),
            ),
        ),
{
}

/// A record that holds another address is updated: where the listing goes
/// through and its first record holds something else, the next call rewrites
/// that very record to hold the resolved address.
pub proof fn lemma_stale_record_is_updated(
    cfg: AppConfig,
    mode: PassMode,
    d: usize,
    p: usize,
    kind: RecordKind,
    ip_text: String,
    listing: ApiEnvelope<Vec<CloudflareRecord>>,
)
    requires
        listing.success,
        listing.result.len() > 0,
        listing.result[0].content@ != ip_text@,
    ensures
        pass_next(
            cfg,
            mode,
            PassPhase::Listing { domain: d, provider: p, kind, ip_text },
            PassEvent::Records(Ok(listing)),
        ) == (
            PassPhase::Writing {
                domain: d,
                provider: p,
                kind,
                ip_text,
                pending: PendingWrite::Update {
                    record_id: listing.result[0].id,
                    old_content: listing.result[0].content,
                },
            },
            PassActionView::Call(
                update_request_spec(
                    cfg.domains[d as int].provider[p as int],
                    listing.result[0].id@,
                    cfg.domains[d as int].name@,
                    kind.text(),
                    ip_text@,
                ),
            ),
        ),
{
}

/// A call that fails, or that the provider answers without success, stops the
/// pass with that error; a stopped pass takes no further event.
pub proof fn lemma_failed_call_stops_pass(
    cfg: AppConfig,
    mode: PassMode,
    phase: PassPhase,
    event: PassEvent,
)
    requires
        match (phase, event) {
            (PassPhase::Listing { .. }, PassEvent::Records(reply)) => envelope_outcome(
                RecordOp::Query,
                reply,
            ) is Err,
            (PassPhase::Writing { pending, .. }, PassEvent::Record(reply)) => match pending {
                PendingWrite::Update { .. } => envelope_outcome(RecordOp::Update, reply) is Err,
                PendingWrite::Create => envelope_outcome(RecordOp::Create, reply) is Err,
            },
            _ => false,
        },
    ensures
        pass_next(cfg, mode, phase, event).0 == PassPhase::Failed,
        pass_next(cfg, mode, phase, event).1 is Abort,
        pass_next(cfg, mode, phase, event).1->Abort_0 is Cloudflare,
        forall|e: PassEvent| !phase_accepts(PassPhase::Failed, e),
{
}

/// Providers are brought in step one after the other and domains one after
/// the other: once a provider's outcome is taken, the next provider of the
/// domain is listed; after the last one, the next domain's first public-IP
/// source is asked; after the last domain, the pass is through.
pub proof fn lemma_providers_then_domains_in_order(
    cfg: AppConfig,
    mode: PassMode,
    d: usize,
    p: usize,
    kind: RecordKind,
    ip_text: String,
)
    requires
        d < cfg.domains.len(),
        p < cfg.domains[d as int].provider.len(),
    ensures
        ({
            let next = pass_next(
                cfg,
                mode,
                PassPhase::Reporting { domain: d, provider: p, kind, ip_text },
                PassEvent::Ack,
            );
            let dom = cfg.domains[d as int];
            if p + 1 < dom.provider.len() {
                next == (
                    PassPhase::Listing { domain: d, provider: (p + 1) as usize, kind, ip_text },
                    PassActionView::Call(
                        list_request_spec(dom.provider[p + 1], dom.name@, kind.text()),
                    ),
                )
            } else if d + 1 < cfg.domains.len() && cfg.domains[d + 1].ip_urls.len() > 0 {
                next == (
                    PassPhase::Resolving { domain: (d + 1) as usize, attempted: 0 },
                    PassActionView::FetchIp { url: cfg.domains[d + 1].ip_urls[0]@ },
                )
            } else if d + 1 >= cfg.domains.len() {
                next == (PassPhase::Done, PassActionView::Finished)
            } else {
                next.0 == PassPhase::Failed
            }
        }),
{
}

/// Which phase goes with which action: what the action asks for is what the
/// new phase waits for.
pub open spec fn action_fits_phase(phase: PassPhase, action: PassActionView) -> bool {
    match action {
        PassActionView::FetchIp { .. } => phase is Resolving,
        PassActionView::Call(req) => (phase is Listing && req.body is None) || (phase is Writing
            && req.body is Some),
        PassActionView::Report { .. } => phase is Reporting,
        PassActionView::Print { .. } => phase is Printing,
        PassActionView::Finished => phase is Done,
        PassActionView::Abort(_) => phase is Failed,
    }
}

proof fn lemma_begin_domain_protocol(cfg: AppConfig, mode: PassMode, d: int)
    ensures
        phase_wf(cfg, mode, begin_domain(cfg, d).0),
        action_fits_phase(begin_domain(cfg, d).0, begin_domain(cfg, d).1),
{
}

proof fn lemma_begin_provider_protocol(
    cfg: AppConfig,
    mode: PassMode,
    d: int,
    p: int,
    kind: RecordKind,
    ip_text: String,
)
    requires
        mode == PassMode::Sync,
        0 <= d < cfg.domains.len(),
        cfg.domains[d].kind_spec() == Ok::<RecordKind, ConfigErrorView>(kind),
    ensures
        phase_wf(cfg, mode, begin_provider(cfg, d, p, kind, ip_text).0),
        action_fits_phase(
            begin_provider(cfg, d, p, kind, ip_text).0,
            begin_provider(cfg, d, p, kind, ip_text).1,
        ),
{
    lemma_begin_domain_protocol(cfg, mode, d + 1);
}

/// A pass keeps to its protocol: from a well-formed phase and an event that it
/// waits for, it moves to a well-formed phase that waits for the reply to the
/// action it gives; it ends exactly when it gives `Finished` or `Abort`.
pub proof fn lemma_pass_protocol(cfg: AppConfig, mode: PassMode, phase: PassPhase, event: PassEvent)
    requires
        phase_wf(cfg, mode, phase),
        phase_accepts(phase, event),
    ensures
        phase_wf(cfg, mode, pass_next(cfg, mode, phase, event).0),
        action_fits_phase(pass_next(cfg, mode, phase, event).0, pass_next(cfg, mode, phase, event).1),
{
    match (phase, event) {
        (PassPhase::Resolving { domain, attempted }, PassEvent::IpReply(reply)) => {
            let urls = cfg.domains[domain as int].ip_urls;
            match lookup_next(urls.len() as int, attempted as int, reply) {
                LookupStep::Found(ip) => {
                    let dom = cfg.domains[domain as int];
                    if dom.ip_match(ip.addr) is Ok && mode == PassMode::Sync && dom.kind_spec() is Ok {
                        lemma_begin_provider_protocol(
                            cfg,
                            mode,
                            domain as int,
                            0,
                            dom.kind_spec()->Ok_0,
                            ip.text,
                        );
                    }
                },
                _ => {},
            }
        },
        (PassPhase::Reporting { domain, provider, kind, ip_text }, PassEvent::Ack) => {
            lemma_begin_provider_protocol(cfg, mode, domain as int, provider + 1, kind, ip_text);
        },
        (PassPhase::Printing { domain }, PassEvent::Ack) => {
            lemma_begin_domain_protocol(cfg, mode, domain + 1);
        },
        _ => {},
    }
}

/// The first action of a pass fits its first phase.
pub proof fn lemma_pass_start_protocol(cfg: AppConfig, mode: PassMode)
    ensures
        phase_wf(cfg, mode, begin_domain(cfg, 0).0),
        action_fits_phase(begin_domain(cfg, 0).0, begin_domain(cfg, 0).1),
{
    lemma_begin_domain_protocol(cfg, mode, 0);
}

/// A print pass only resolves addresses: it never calls the DNS provider and
/// never reports a record outcome.
pub proof fn lemma_print_pass_never_calls(cfg: AppConfig, phase: PassPhase, event: PassEvent)
    requires
        phase_wf(cfg, PassMode::PrintIps, phase),
        phase_accepts(phase, event),
    ensures
        !(pass_next(cfg, PassMode::PrintIps, phase, event).1 is Call),
        !(pass_next(cfg, PassMode::PrintIps, phase, event).1 is Report),
{
    lemma_pass_protocol(cfg, PassMode::PrintIps, phase, event);
}

/// Every write that a sync pass makes is for the domain of its phase, of the
/// record type that the domain asks for, holds the resolved address and the
/// provider's proxying and TTL, goes to the provider's zone and carries the
/// provider's token.
pub proof fn lemma_writes_carry_the_address(
    cfg: AppConfig,
    mode: PassMode,
    phase: PassPhase,
    event: PassEvent,
)
    requires
        phase_wf(cfg, mode, phase),
        phase_accepts(phase, event),
        phase is Listing,
        pass_next(cfg, mode, phase, event).1 is Call,
    ensures
        ({
            let req = pass_next(cfg, mode, phase, event).1->Call_0;
            let d = phase->Listing_domain as int;
            let prov = cfg.domains[d].provider[phase->Listing_provider as int];
            let body = req.body->Some_0;
            &&& req.body is Some
            &&& body.content == phase->Listing_ip_text@
            &&& body.name == cfg.domains[d].name@
            &&& cfg.domains[d].record_type_spec() == Ok::<Seq<char>, ConfigErrorView>(body.record_type)
            &&& body.proxied == prov.proxied
            &&& body.ttl == prov.ttl
            &&& req.bearer_token == prov.api_token@
            &&& req.url.subrange(0, records_url(prov.zone_id@).len() as int) == records_url(prov.zone_id@)
        }),
{
    let req = pass_next(cfg, mode, phase, event).1->Call_0;
    let prov = cfg.domains[phase->Listing_domain as int].provider[phase->Listing_provider as int];
    assert(req.url.subrange(0, records_url(prov.zone_id@).len() as int) =~= records_url(prov.zone_id@));
}

} // verus!

verus! {

/// What a later listing gives back of a write: where a write of the pass for
/// a provider is stored as sent, so that the provider's next listing shows a
/// first record holding what the write carried, a pass for the same address
/// leaves that record alone.
pub proof fn lemma_stored_write_needs_no_resync(
    cfg: AppConfig,
    mode: PassMode,
    d: usize,
    p: usize,
    kind: RecordKind,
    ip_text: String,
    listing: ApiEnvelope<Vec<CloudflareRecord>>,
    later_listing: ApiEnvelope<Vec<CloudflareRecord>>,
)
    requires
        d < cfg.domains.len(),
        p < cfg.domains[d as int].provider.len(),
        mode == PassMode::Sync,
        cfg.domains[d as int].kind_spec() == Ok::<RecordKind, ConfigErrorView>(kind),
        pass_next(
            cfg,
            mode,
            PassPhase::Listing { domain: d, provider: p, kind, ip_text },
            PassEvent::Records(Ok(listing)),
        ).1 is Call,
        later_listing.success,
        later_listing.result.len() > 0,
        later_listing.result[0].content@ == pass_next(
            cfg,
            mode,
            PassPhase::Listing { domain: d, provider: p, kind, ip_text },
            PassEvent::Records(Ok(listing)),
        ).1->Call_0.body->Some_0.content,
    ensures
        pass_next(
            cfg,
            mode,
            PassPhase::Listing { domain: d, provider: p, kind, ip_text },
            PassEvent::Records(Ok(later_listing)),
        ).1 is Report,
        pass_next(
            cfg,
            mode,
            PassPhase::Listing { domain: d, provider: p, kind, ip_text },
            PassEvent::Records(Ok(later_listing)),
        ).1->Report_outcome is NoChange,
{
    let phase = PassPhase::Listing { domain: d, provider: p, kind, ip_text };
    lemma_writes_carry_the_address(cfg, mode, phase, PassEvent::Records(Ok(listing)));
    lemma_record_in_step_is_left_alone(cfg, mode, d, p, kind, ip_text, later_listing);
}

} // verus!

verus! {

/// Whether an address of `ip`'s family goes in a record of `kind`: IPv4 in A,
/// IPv6 in AAAA.
pub open spec fn family_fits(kind: RecordKind, ip: IpAddr) -> bool {
    (kind == RecordKind::A && ip is V4) || (kind == RecordKind::Aaaa && ip is V6)
}

/// Once a source answers for a domain, in a sync pass as in a print pass, the
/// pass goes on only with an address whose family fits the domain's record
/// kind (IPv4 for A, IPv6 for AAAA); an address of the other family stops the
/// pass with a mismatch error that names the domain, the address and the
/// record type.
pub proof fn lemma_answer_must_fit_record_kind(
    cfg: AppConfig,
    mode: PassMode,
    d: usize,
    attempted: usize,
    ip: ResolvedIp,
)
    requires
        d < cfg.domains.len(),
        attempted < cfg.domains[d as int].ip_urls.len(),
    ensures
        ({
            let next = pass_next(
                cfg,
                mode,
                PassPhase::Resolving { domain: d, attempted },
                PassEvent::IpReply(Some(ip)),
            );
            let dom = cfg.domains[d as int];
            &&& !(next.1 is Abort) ==> dom.kind_spec() is Ok && family_fits(
                dom.kind_spec()->Ok_0,
                ip.addr,
            )
            &&& (dom.kind_spec() is Ok && !family_fits(dom.kind_spec()->Ok_0, ip.addr)) ==> next == (
                PassPhase::Failed,
                PassActionView::Abort(
                    PassErrorView::Config(
                        ConfigErrorView::ResolvedIpRecordTypeMismatch {
                            domain: dom.name@,
                            resolved_ip: ip.addr,
                            record_type: dom.kind_spec()->Ok_0.text(),
                        },
                    ),
                ),
            )
            &&& (mode == PassMode::PrintIps && dom.kind_spec() is Ok && family_fits(
                dom.kind_spec()->Ok_0,
                ip.addr,
            )) ==> next == (
                PassPhase::Printing { domain: d },
                PassActionView::Print { domain: d, ip_text: ip.text@ },
            )
        }),
{
}

/// Every listing that a pass makes asks the provider's zone, with the
/// provider's token, for the records named after the domain and of the record
/// type that the domain asks for (at most 100 of them).
pub proof fn lemma_listing_asks_for_domain_record_type(
    cfg: AppConfig,
    mode: PassMode,
    phase: PassPhase,
    event: PassEvent,
)
    requires
        phase_wf(cfg, mode, phase),
        phase_accepts(phase, event),
        pass_next(cfg, mode, phase, event).0 is Listing,
    ensures
        ({
            let next = pass_next(cfg, mode, phase, event);
            let d = next.0->Listing_domain as int;
            let dom = cfg.domains[d];
            let prov = dom.provider[next.0->Listing_provider as int];
            let req = next.1->Call_0;
            &&& next.1 is Call
            &&& req.method == HttpMethod::Get
            &&& req.url == "https://api.cloudflare.com/client/v4/zones/"@ + prov.zone_id@
                + "/dns_records"@
            &&& req.bearer_token == prov.api_token@
            &&& req.body is None
            &&& req.query.len() == 3
            &&& req.query[0] == ("name"@, dom.name@)
            &&& dom.record_type_spec() == Ok::<Seq<char>, ConfigErrorView>(req.query[1].1)
            &&& req.query[1].0 == "type"@
            &&& req.query[2] == ("per_page"@, "100"@)
        }),
{
    lemma_pass_protocol(cfg, mode, phase, event);
}

} // verus!

verus! {

/// Where the listing goes through and the first record holds another address,
/// the write is a PUT of that very record (`.../dns_records/<its id>`) in the
/// provider's zone; where no record is listed, it is a POST to the zone's
/// records; either way it carries the resolved address.
pub proof fn lemma_write_targets(
    cfg: AppConfig,
    mode: PassMode,
    d: usize,
    p: usize,
    kind: RecordKind,
    ip_text: String,
    listing: ApiEnvelope<Vec<CloudflareRecord>>,
)
    requires
        listing.success,
        listing.result.len() == 0 || listing.result[0].content@ != ip_text@,
    ensures
        ({
            let next = pass_next(
                cfg,
                mode,
                PassPhase::Listing { domain: d, provider: p, kind, ip_text },
                PassEvent::Records(Ok(listing)),
            );
            let prov = cfg.domains[d as int].provider[p as int];
            let zone_records = "https://api.cloudflare.com/client/v4/zones/"@ + prov.zone_id@
                + "/dns_records"@;
            let req = next.1->Call_0;
            &&& next.1 is Call
            &&& req.bearer_token == prov.api_token@
            &&& req.body is Some
            &&& req.body->Some_0.content == ip_text@
            &&& listing.result.len() == 0 ==> req.method == HttpMethod::Post && req.url
                == zone_records
            &&& listing.result.len() > 0 ==> req.method == HttpMethod::Put && req.url
                == zone_records + "/"@ + listing.result[0].id@
        }),
{
}

/// A listing that fails, or that the provider answers without success, stops
/// the pass with that very failure or with the errors the provider reported.
pub proof fn lemma_listing_failure_is_reported(
    cfg: AppConfig,
    mode: PassMode,
    d: usize,
    p: usize,
    kind: RecordKind,
    ip_text: String,
    reply: Result<ApiEnvelope<Vec<CloudflareRecord>>, TransportFailure>,
)
    requires
        reply is Err || !reply->Ok_0.success,
    ensures
        ({
            let next = pass_next(
                cfg,
                mode,
                PassPhase::Listing { domain: d, provider: p, kind, ip_text },
                PassEvent::Records(reply),
            );
            &&& next.0 == PassPhase::Failed
            &&& reply is Err ==> next.1 == PassActionView::Abort(
                PassErrorView::Cloudflare(
                    CloudflareError::Transport { op: RecordOp::Query, failure: reply->Err_0 },
                ),
            )
            &&& reply is Ok ==> next.1 == PassActionView::Abort(
                PassErrorView::Cloudflare(
                    CloudflareError::Rejected { op: RecordOp::Query, errors: reply->Ok_0.errors },
                ),
            )
        }),
{
}

} // verus!
