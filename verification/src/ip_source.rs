use vstd::prelude::*;
use vstd::string::*;

use crate::error::IpLookupError;
use crate::text::{trim, trimmed};

verus! {

/// An IP address: the four octets of an IPv4 address or the eight 16-bit
/// segments of an IPv6 address.
#[derive(Debug, Clone, Copy, PartialEq, Eq)]
pub enum IpAddr {
    V4([u8; 4]),
    V6([u16; 8]),
}

/// An address that a public-IP source reported, with its textual form.
#[derive(Debug, Clone)]
pub struct ResolvedIp {
    pub addr: IpAddr,
    pub text: String,
}

} // verus!

verus! {

/// What to do next while looking for the public address.
#[derive(Debug)]
pub enum LookupStep {
    /// Ask the source at this index of the list.
    Query(usize),
    /// A source answered with this address.
    Found(ResolvedIp),
    /// Every source has been asked and none answered.
    Exhausted,
}

/// The first step of a lookup over `url_count` sources.
pub open spec fn lookup_first(url_count: int) -> LookupStep {
    if url_count > 0 {
        LookupStep::Query(0)
    } else {
        LookupStep::Exhausted
    }
}

/// The step that follows the reply of the source at index `attempted`
/// (`None` where that source failed).
pub open spec fn lookup_next(url_count: int, attempted: int, reply: Option<ResolvedIp>) -> LookupStep {
    match reply {
        Some(ip) => LookupStep::Found(ip),
        None => if attempted + 1 < url_count {
            LookupStep::Query((attempted + 1) as usize)
        } else {
            LookupStep::Exhausted
        },
    }
}

/// Sources are asked in the order of the list, and the first one that answers
/// gives the address: where source `k` is the first of the `url_count` sources
/// whose reply (`replies[i]` for source `i`) holds an address, the lookup asks
/// sources `0` to `k` one after the other and ends with that address.
pub proof fn lemma_first_answer_wins(url_count: int, replies: Seq<Option<ResolvedIp>>, k: int)
    requires
        0 <= k < url_count,
        k < replies.len(),
        replies[k] is Some,
        forall|i: int| 0 <= i < k ==> replies[i] is None,
    ensures
        lookup_first(url_count) == LookupStep::Query(0),
        forall|i: int|
            0 <= i < k ==> lookup_next(url_count, i, #[trigger] replies[i]) == LookupStep::Query(
                (i + 1) as usize,
            ),
        lookup_next(url_count, k, replies[k]) == LookupStep::Found(replies[k]->0),
{
}

/// Where none of the `url_count` sources answers, the lookup asks each of them
/// in turn and then gives up.
pub proof fn lemma_all_sources_failed(url_count: int, replies: Seq<Option<ResolvedIp>>)
    requires
        url_count <= replies.len(),
        forall|i: int| 0 <= i < url_count ==> replies[i] is None,
    ensures
        url_count <= 0 ==> lookup_first(url_count) == LookupStep::Exhausted,
        url_count > 0 ==> lookup_first(url_count) == LookupStep::Query(0),
        forall|i: int|
            0 <= i < url_count - 1 ==> lookup_next(url_count, i, #[trigger] replies[i])
                == LookupStep::Query((i + 1) as usize),
        url_count > 0 ==> lookup_next(url_count, url_count - 1, replies[url_count - 1])
            == LookupStep::Exhausted,
{
}

pub fn lookup_start(urls: &Vec<String>) -> (step: LookupStep)
    ensures
        step == lookup_first(urls.len() as int),
{
    if urls.len() > 0 {
        LookupStep::Query(0)
    } else {
        LookupStep::Exhausted
    }
}

pub fn lookup_after_reply(urls: &Vec<String>, attempted: usize, reply: Option<ResolvedIp>) -> (step:
    LookupStep)
    ensures
        step == lookup_next(urls.len() as int, attempted as int, reply),
{
    match reply {
        Some(ip) => LookupStep::Found(ip),
        None => if attempted < urls.len() && attempted + 1 < urls.len() {
            LookupStep::Query(attempted + 1)
        } else {
            LookupStep::Exhausted
        },
    }
}

/// The text of a source's reply that is read as an address: the body without
/// its surrounding whitespace.
pub fn ip_reply_text(body: &str) -> (text: &str)
    ensures
        text@ == trimmed(body@),
{
    trim(body)
}

/// What the reply `body` of the source at `url` yields, where `parsed` is the
/// address that `ip_reply_text(body)` denotes, if it denotes one.
pub fn classify_ip_reply(url: &str, body: &str, parsed: Option<IpAddr>) -> (r: Result<
    IpAddr,
    IpLookupError,
>)
    ensures
        match parsed {
            Some(ip) => r == Ok::<IpAddr, IpLookupError>(ip),
            None => r matches Err(IpLookupError::InvalidIpResponse { url: u, body: b }) && u@
                == url@ && b@ == trimmed(body@),
        },
{
    match parsed {
        Some(ip) => Ok(ip),
        None => Err(
            IpLookupError::InvalidIpResponse {
                url: String::from_str(url),
                body: String::from_str(ip_reply_text(body)),
            },
        ),
    }
}

} // verus!
