use ddns_rs::error::IpLookupError;
use ddns_rs::ip_source::{
    classify_ip_reply, ip_reply_text, lookup_after_reply, lookup_start, IpAddr, LookupStep,
    ResolvedIp,
};

fn urls(n: usize) -> Vec<String> {
    (0..n).map(|i| format!("https://source{i}.example")).collect()
}

fn resolved() -> ResolvedIp {
    ResolvedIp {
        addr: IpAddr::V4([1, 2, 3, 4]),
        text: "1.2.3.4".to_string(),
    }
}

#[test]
fn lookup_asks_sources_in_order() {
    let u = urls(3);
    assert!(matches!(lookup_start(&u), LookupStep::Query(0)));
    assert!(matches!(lookup_after_reply(&u, 0, None), LookupStep::Query(1)));
    assert!(matches!(lookup_after_reply(&u, 1, None), LookupStep::Query(2)));
    assert!(matches!(lookup_after_reply(&u, 2, None), LookupStep::Exhausted));
}

#[test]
fn first_answer_wins() {
    let u = urls(3);
    match lookup_after_reply(&u, 1, Some(resolved())) {
        LookupStep::Found(ip) => {
            assert_eq!(ip.addr, IpAddr::V4([1, 2, 3, 4]));
            assert_eq!(ip.text, "1.2.3.4");
        }
        other => panic!("unexpected {:?}", other),
    }
}

#[test]
fn no_source_means_exhausted() {
    assert!(matches!(lookup_start(&urls(0)), LookupStep::Exhausted));
}

#[test]
fn reply_text_is_trimmed() {
    assert_eq!(ip_reply_text(" 1.2.3.4\n"), "1.2.3.4");
}

#[test]
fn reply_that_is_no_address_is_refused_with_its_trimmed_body() {
    match classify_ip_reply("https://s.example", "  <html>\n", None) {
        Err(IpLookupError::InvalidIpResponse { url, body }) => {
            assert_eq!(url, "https://s.example");
            assert_eq!(body, "<html>");
        }
        other => panic!("unexpected {:?}", other),
    }
    let ip = IpAddr::V6([0x2001, 0xdb8, 0, 0, 0, 0, 0, 1]);
    assert_eq!(classify_ip_reply("u", "2001:db8::1", Some(ip)).unwrap(), ip);
}
