use ddns_rs::config::ProviderConfig;
use ddns_rs::provider::cloudflare::{
    accept_envelope, create_record_request, created_outcome, list_records_request, plan_sync,
    update_record_request, updated_outcome, ApiEnvelope, ApiError, CloudflareError,
    CloudflareRecord, FailureStage, HttpMethod, RecordOp, SyncOutcome, SyncPlan,
    TransportFailure,
};

fn provider() -> ProviderConfig {
    ProviderConfig {
        name: "cloudflare".to_string(),
        kind: None,
        api_token: "tok".to_string(),
        zone_id: "zone1".to_string(),
        proxied: false,
        ttl: 120,
    }
}

fn record(id: &str, content: &str) -> CloudflareRecord {
    CloudflareRecord {
        id: id.to_string(),
        name: "a.example.com".to_string(),
        record_type: "A".to_string(),
        content: content.to_string(),
        proxied: Some(true),
        ttl: Some(1),
    }
}

#[test]
fn listing_request() {
    let req = list_records_request(&provider(), "a.example.com", "A");
    assert_eq!(req.method, HttpMethod::Get);
    assert_eq!(
        req.url,
        "https://api.cloudflare.com/client/v4/zones/zone1/dns_records"
    );
    assert_eq!(req.bearer_token, "tok");
    let query: Vec<(&str, &str)> = req.query.iter().map(|(k, v)| (k.as_str(), v.as_str())).collect();
    assert_eq!(
        query,
        vec![("name", "a.example.com"), ("type", "A"), ("per_page", "100")]
    );
    assert!(req.body.is_none());
}

#[test]
fn update_request() {
    let req = update_record_request(&provider(), "rec9", "a.example.com", "AAAA", "2001:db8::1");
    assert_eq!(req.method, HttpMethod::Put);
    assert_eq!(
        req.url,
        "https://api.cloudflare.com/client/v4/zones/zone1/dns_records/rec9"
    );
    assert_eq!(req.bearer_token, "tok");
    assert!(req.query.is_empty());
    let body = req.body.unwrap();
    assert_eq!(body.content, "2001:db8::1");
    assert_eq!(body.name, "a.example.com");
    assert_eq!(body.record_type, "AAAA");
    assert!(!body.proxied);
    assert_eq!(body.ttl, 120);
}

#[test]
fn create_request() {
    let req = create_record_request(&provider(), "a.example.com", "A", "1.2.3.4");
    assert_eq!(req.method, HttpMethod::Post);
    assert_eq!(
        req.url,
        "https://api.cloudflare.com/client/v4/zones/zone1/dns_records"
    );
    let body = req.body.unwrap();
    assert_eq!(body.content, "1.2.3.4");
    assert_eq!(body.ttl, 120);
}

#[test]
fn envelope_without_success_is_rejected() {
    let reply: Result<ApiEnvelope<Vec<CloudflareRecord>>, TransportFailure> = Ok(ApiEnvelope {
        success: false,
        result: vec![],
        errors: vec![ApiError {
            code: 9109,
            message: "Invalid access token".to_string(),
        }],
    });
    match accept_envelope(RecordOp::Query, reply) {
        Err(CloudflareError::Rejected { op, errors }) => {
            assert_eq!(op, RecordOp::Query);
            assert_eq!(errors.len(), 1);
            assert_eq!(errors[0].code, 9109);
        }
        other => panic!("unexpected {:?}", other),
    }
}

#[test]
fn failed_call_is_reported_with_its_stage() {
    let reply: Result<ApiEnvelope<CloudflareRecord>, TransportFailure> = Err(TransportFailure {
        stage: FailureStage::Status,
        detail: "403".to_string(),
    });
    match accept_envelope(RecordOp::Update, reply) {
        Err(CloudflareError::Transport { op, failure }) => {
            assert_eq!(op, RecordOp::Update);
            assert_eq!(failure.stage, FailureStage::Status);
        }
        other => panic!("unexpected {:?}", other),
    }
}

#[test]
fn successful_envelope_gives_its_result() {
    let reply: Result<ApiEnvelope<CloudflareRecord>, TransportFailure> = Ok(ApiEnvelope {
        success: true,
        result: record("r1", "1.2.3.4"),
        errors: vec![],
    });
    assert_eq!(accept_envelope(RecordOp::Create, reply).unwrap().id, "r1");
}

#[test]
fn matching_first_record_means_no_change() {
    match plan_sync(vec![record("r1", "1.2.3.4"), record("r2", "9.9.9.9")], "1.2.3.4") {
        SyncPlan::Unchanged(SyncOutcome::NoChange { record_id, content }) => {
            assert_eq!(record_id, "r1");
            assert_eq!(content, "1.2.3.4");
        }
        other => panic!("unexpected {:?}", other),
    }
}

#[test]
fn only_the_first_record_counts() {
    match plan_sync(vec![record("r1", "5.5.5.5"), record("r2", "1.2.3.4")], "1.2.3.4") {
        SyncPlan::Update {
            record_id,
            old_content,
        } => {
            assert_eq!(record_id, "r1");
            assert_eq!(old_content, "5.5.5.5");
        }
        other => panic!("unexpected {:?}", other),
    }
}

#[test]
fn no_record_means_create() {
    assert!(matches!(plan_sync(vec![], "1.2.3.4"), SyncPlan::Create));
}

#[test]
fn outcomes_of_writes() {
    match updated_outcome("r1".to_string(), "5.5.5.5".to_string(), "1.2.3.4") {
        SyncOutcome::Updated {
            record_id,
            old_content,
            new_content,
        } => {
            assert_eq!(record_id, "r1");
            assert_eq!(old_content, "5.5.5.5");
            assert_eq!(new_content, "1.2.3.4");
        }
        other => panic!("unexpected {:?}", other),
    }
    match created_outcome(record("new", "1.2.3.4")) {
        SyncOutcome::Created {
            record_id,
            new_content,
        } => {
            assert_eq!(record_id, "new");
            assert_eq!(new_content, "1.2.3.4");
        }
        other => panic!("unexpected {:?}", other),
    }
}
