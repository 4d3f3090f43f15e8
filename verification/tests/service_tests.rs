use ddns_rs::config::{AppConfig, DomainConfig, GlobalConfig, ProviderConfig, RecordKind};
use ddns_rs::error::{ConfigError, IpLookupError};
use ddns_rs::ip_source::{IpAddr, ResolvedIp};
use ddns_rs::provider::cloudflare::{
    ApiEnvelope, ApiError, CloudflareError, CloudflareRecord, FailureStage, HttpMethod,
    SyncOutcome, TransportFailure,
};
use ddns_rs::service::{PassAction, PassError, PassEvent, PassMode, SyncPass};

fn provider(zone: &str) -> ProviderConfig {
    ProviderConfig {
        name: "cloudflare".to_string(),
        kind: None,
        api_token: "tok".to_string(),
        zone_id: zone.to_string(),
        proxied: true,
        ttl: 1,
    }
}

fn domain(name: &str, sources: usize, zones: &[&str]) -> DomainConfig {
    DomainConfig {
        name: name.to_string(),
        ip_type: Some(4),
        record_type: None,
        ip_urls: (0..sources).map(|i| format!("https://ip{i}.example")).collect(),
        provider: zones.iter().map(|z| provider(z)).collect(),
    }
}

fn config(domains: Vec<DomainConfig>) -> AppConfig {
    AppConfig {
        globals: GlobalConfig::default(),
        domains,
    }
}

fn v4(text: &str, octets: [u8; 4]) -> PassEvent {
    PassEvent::IpReply(Some(ResolvedIp {
        addr: IpAddr::V4(octets),
        text: text.to_string(),
    }))
}

fn record(id: &str, content: &str) -> CloudflareRecord {
    CloudflareRecord {
        id: id.to_string(),
        name: "a.example.com".to_string(),
        record_type: "A".to_string(),
        content: content.to_string(),
        proxied: Some(true),
        ttl: Some(1),
    }
}

fn listed(records: Vec<CloudflareRecord>) -> PassEvent {
    PassEvent::Records(Ok(ApiEnvelope {
        success: true,
        result: records,
        errors: vec![],
    }))
}

fn written(r: CloudflareRecord) -> PassEvent {
    PassEvent::Record(Ok(ApiEnvelope {
        success: true,
        result: r,
        errors: vec![],
    }))
}

fn step(pass: &mut SyncPass, event: PassEvent) -> PassAction {
    assert!(pass.accepts(&event));
    pass.step(event)
}

#[test]
fn record_already_in_step_is_left_alone() {
    let (mut pass, action) = SyncPass::new(config(vec![domain("a.example.com", 1, &["z"])]), PassMode::Sync);
    assert!(matches!(action, PassAction::FetchIp { ref url } if url == "https://ip0.example"));
    let action = step(&mut pass, v4("1.2.3.4", [1, 2, 3, 4]));
    match &action {
        PassAction::Call(req) => {
            assert_eq!(req.method, HttpMethod::Get);
            assert_eq!(req.url, "https://api.cloudflare.com/client/v4/zones/z/dns_records");
        }
        other => panic!("unexpected {:?}", other),
    }
    let action = step(&mut pass, listed(vec![record("r1", "1.2.3.4")]));
    match action {
        PassAction::Report { domain, provider, kind, outcome: SyncOutcome::NoChange { record_id, content } } => {
            assert_eq!((domain, provider, kind), (0, 0, RecordKind::A));
            assert_eq!(record_id, "r1");
            assert_eq!(content, "1.2.3.4");
        }
        other => panic!("unexpected {:?}", other),
    }
    assert!(matches!(step(&mut pass, PassEvent::Ack), PassAction::Finished));
    assert!(!pass.accepts(&PassEvent::Ack));
}

#[test]
fn missing_record_is_created() {
    let (mut pass, _) = SyncPass::new(config(vec![domain("a.example.com", 1, &["z"])]), PassMode::Sync);
    step(&mut pass, v4("1.2.3.4", [1, 2, 3, 4]));
    match step(&mut pass, listed(vec![])) {
        PassAction::Call(req) => {
            assert_eq!(req.method, HttpMethod::Post);
            assert_eq!(req.url, "https://api.cloudflare.com/client/v4/zones/z/dns_records");
            let body = req.body.unwrap();
            assert_eq!(body.content, "1.2.3.4");
            assert_eq!(body.name, "a.example.com");
            assert_eq!(body.record_type, "A");
            assert!(body.proxied);
            assert_eq!(body.ttl, 1);
        }
        other => panic!("unexpected {:?}", other),
    }
    match step(&mut pass, written(record("new1", "1.2.3.4"))) {
        PassAction::Report { outcome: SyncOutcome::Created { record_id, new_content }, .. } => {
            assert_eq!(record_id, "new1");
            assert_eq!(new_content, "1.2.3.4");
        }
        other => panic!("unexpected {:?}", other),
    }
    assert!(matches!(step(&mut pass, PassEvent::Ack), PassAction::Finished));
}

#[test]
fn stale_record_is_updated() {
    let (mut pass, _) = SyncPass::new(config(vec![domain("a.example.com", 1, &["z"])]), PassMode::Sync);
    step(&mut pass, v4("1.2.3.4", [1, 2, 3, 4]));
    match step(&mut pass, listed(vec![record("r7", "9.9.9.9")])) {
        PassAction::Call(req) => {
            assert_eq!(req.method, HttpMethod::Put);
            assert_eq!(req.url, "https://api.cloudflare.com/client/v4/zones/z/dns_records/r7");
            assert_eq!(req.body.unwrap().content, "1.2.3.4");
        }
        other => panic!("unexpected {:?}", other),
    }
    match step(&mut pass, written(record("r7", "1.2.3.4"))) {
        PassAction::Report { outcome: SyncOutcome::Updated { record_id, old_content, new_content }, .. } => {
            assert_eq!(record_id, "r7");
            assert_eq!(old_content, "9.9.9.9");
            assert_eq!(new_content, "1.2.3.4");
        }
        other => panic!("unexpected {:?}", other),
    }
}

#[test]
fn failing_source_is_followed_by_the_next() {
    let (mut pass, _) = SyncPass::new(config(vec![domain("a.example.com", 3, &["z"])]), PassMode::Sync);
    match step(&mut pass, PassEvent::IpReply(None)) {
        PassAction::FetchIp { url } => assert_eq!(url, "https://ip1.example"),
        other => panic!("unexpected {:?}", other),
    }
    assert!(matches!(step(&mut pass, v4("1.2.3.4", [1, 2, 3, 4])), PassAction::Call(_)));
}

#[test]
fn all_sources_failing_stops_the_pass() {
    let (mut pass, _) = SyncPass::new(config(vec![domain("a.example.com", 2, &["z"]), domain("b.example.com", 1, &["z"])]), PassMode::Sync);
    step(&mut pass, PassEvent::IpReply(None));
    match step(&mut pass, PassEvent::IpReply(None)) {
        PassAction::Abort(PassError::IpLookup { domain, error: IpLookupError::AllSourcesFailed }) => {
            assert_eq!(domain, "a.example.com");
        }
        other => panic!("unexpected {:?}", other),
    }
    assert!(!pass.accepts(&PassEvent::IpReply(None)));
}

#[test]
fn wrong_address_family_stops_the_pass() {
    let (mut pass, _) = SyncPass::new(config(vec![domain("a.example.com", 1, &["z"])]), PassMode::Sync);
    let event = PassEvent::IpReply(Some(ResolvedIp {
        addr: IpAddr::V6([0x2001, 0xdb8, 0, 0, 0, 0, 0, 1]),
        text: "2001:db8::1".to_string(),
    }));
    assert!(matches!(
        step(&mut pass, event),
        PassAction::Abort(PassError::Config(ConfigError::ResolvedIpRecordTypeMismatch { .. }))
    ));
}

#[test]
fn rejected_listing_stops_the_pass() {
    let (mut pass, _) = SyncPass::new(config(vec![domain("a.example.com", 1, &["z"])]), PassMode::Sync);
    step(&mut pass, v4("1.2.3.4", [1, 2, 3, 4]));
    let event = PassEvent::Records(Ok(ApiEnvelope {
        success: false,
        result: vec![],
        errors: vec![ApiError { code: 10000, message: "Authentication error".to_string() }],
    }));
    assert!(matches!(
        step(&mut pass, event),
        PassAction::Abort(PassError::Cloudflare(CloudflareError::Rejected { .. }))
    ));
    let (mut pass, _) = SyncPass::new(config(vec![domain("a.example.com", 1, &["z"])]), PassMode::Sync);
    step(&mut pass, v4("1.2.3.4", [1, 2, 3, 4]));
    step(&mut pass, listed(vec![]));
    let event = PassEvent::Record(Err(TransportFailure { stage: FailureStage::Send, detail: "timeout".to_string() }));
    assert!(matches!(
        step(&mut pass, event),
        PassAction::Abort(PassError::Cloudflare(CloudflareError::Transport { .. }))
    ));
}

#[test]
fn providers_then_domains_in_order() {
    let cfg = config(vec![domain("a.example.com", 1, &["z1", "z2"]), domain("b.example.com", 1, &["z3"])]);
    let (mut pass, _) = SyncPass::new(cfg, PassMode::Sync);
    step(&mut pass, v4("1.2.3.4", [1, 2, 3, 4]));
    step(&mut pass, listed(vec![record("r1", "1.2.3.4")]));
    match step(&mut pass, PassEvent::Ack) {
        PassAction::Call(req) => assert_eq!(req.url, "https://api.cloudflare.com/client/v4/zones/z2/dns_records"),
        other => panic!("unexpected {:?}", other),
    }
    step(&mut pass, listed(vec![record("r2", "1.2.3.4")]));
    match step(&mut pass, PassEvent::Ack) {
        PassAction::FetchIp { url } => assert_eq!(url, "https://ip0.example"),
        other => panic!("unexpected {:?}", other),
    }
    step(&mut pass, v4("5.6.7.8", [5, 6, 7, 8]));
    match step(&mut pass, listed(vec![])) {
        PassAction::Call(req) => {
            assert_eq!(req.url, "https://api.cloudflare.com/client/v4/zones/z3/dns_records");
            assert_eq!(req.body.unwrap().name, "b.example.com");
        }
        other => panic!("unexpected {:?}", other),
    }
    step(&mut pass, written(record("n", "5.6.7.8")));
    assert!(matches!(step(&mut pass, PassEvent::Ack), PassAction::Finished));
}

#[test]
fn domain_without_sources_fails_at_once() {
    let (pass, action) = SyncPass::new(config(vec![domain("a.example.com", 0, &["z"])]), PassMode::Sync);
    assert!(matches!(action, PassAction::Abort(PassError::IpLookup { .. })));
    assert!(!pass.accepts(&PassEvent::Ack));
}

#[test]
fn print_pass_prints_each_address_and_never_calls() {
    let cfg = config(vec![domain("a.example.com", 1, &["z"]), domain("b.example.com", 1, &["z"])]);
    let (mut pass, _) = SyncPass::new(cfg, PassMode::PrintIps);
    match step(&mut pass, v4("1.2.3.4", [1, 2, 3, 4])) {
        PassAction::Print { domain, ip_text } => {
            assert_eq!(domain, 0);
            assert_eq!(ip_text, "1.2.3.4");
        }
        other => panic!("unexpected {:?}", other),
    }
    assert!(matches!(step(&mut pass, PassEvent::Ack), PassAction::FetchIp { .. }));
    assert!(matches!(step(&mut pass, v4("1.2.3.5", [1, 2, 3, 5])), PassAction::Print { domain: 1, .. }));
    assert!(matches!(step(&mut pass, PassEvent::Ack), PassAction::Finished));
}

#[test]
fn empty_config_pass_is_through_at_once() {
    let (_, action) = SyncPass::new(config(vec![]), PassMode::Sync);
    assert!(matches!(action, PassAction::Finished));
}

#[test]
fn written_record_needs_no_second_write() {
    let cfg = config(vec![domain("a.example.com", 1, &["z"])]);
    let (mut pass, _) = SyncPass::new(cfg.clone(), PassMode::Sync);
    step(&mut pass, v4("1.2.3.4", [1, 2, 3, 4]));
    let written_content = match step(&mut pass, listed(vec![record("r1", "9.9.9.9")])) {
        PassAction::Call(req) => req.body.unwrap().content,
        other => panic!("unexpected {:?}", other),
    };
    let (mut again, _) = SyncPass::new(cfg, PassMode::Sync);
    step(&mut again, v4("1.2.3.4", [1, 2, 3, 4]));
    assert!(matches!(
        step(&mut again, listed(vec![record("r1", &written_content)])),
        PassAction::Report { outcome: SyncOutcome::NoChange { .. }, .. }
    ));
}

#[test]
fn each_action_is_answered_by_its_event() {
    let (mut pass, action) = SyncPass::new(config(vec![domain("a.example.com", 1, &["z"])]), PassMode::Sync);
    assert!(matches!(action, PassAction::FetchIp { .. }));
    assert!(pass.accepts(&PassEvent::IpReply(None)));
    assert!(!pass.accepts(&PassEvent::Ack));
    step(&mut pass, v4("1.2.3.4", [1, 2, 3, 4]));
    assert!(pass.accepts(&listed(vec![])));
    assert!(!pass.accepts(&written(record("x", "y"))));
    step(&mut pass, listed(vec![]));
    assert!(pass.accepts(&written(record("x", "y"))));
    assert!(!pass.accepts(&listed(vec![])));
    step(&mut pass, written(record("x", "1.2.3.4")));
    assert!(pass.accepts(&PassEvent::Ack));
}
