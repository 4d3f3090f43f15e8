use std::time::Duration;

use vstd::prelude::*;
use vstd::string::*;

use crate::error::{text_result_view, unit_result_view, ConfigError, ConfigErrorView};
use crate::ip_source::IpAddr;
use crate::text::{
    is_blank, lower_equals, to_ascii_lowercase, to_ascii_uppercase, trim, trimmed, upper_equals,
};

verus! {

/// The whole configuration: settings shared by every domain, and the domains.
#[derive(Debug, Clone)]
pub struct AppConfig {
    pub globals: GlobalConfig,
    pub domains: Vec<DomainConfig>,
}

/// Settings shared by every domain.
#[derive(Debug, Clone)]
pub struct GlobalConfig {
    pub interval: u64,
    pub timeout_secs: u64,
    pub user_agent: String,
    pub log_level: Option<String>,
}

/// One DNS name to keep pointed at the public address.
#[derive(Debug, Clone)]
pub struct DomainConfig {
    pub name: String,
    pub ip_type: Option<u8>,
    pub record_type: Option<String>,
    pub ip_urls: Vec<String>,
    pub provider: Vec<ProviderConfig>,
}

/// One DNS provider account that serves a domain.
#[derive(Debug, Clone)]
pub struct ProviderConfig {
    pub name: String,
    pub kind: Option<String>,
    pub api_token: String,
    pub zone_id: String,
    pub proxied: bool,
    pub ttl: u32,
}

/// The two kinds of address record that are kept up to date.
#[derive(Debug, Clone, Copy, PartialEq, Eq, Structural)]
pub enum RecordKind {
    A,
    Aaaa,
}

impl RecordKind {
    /// The record type as the DNS provider names it.
    pub open spec fn text(self) -> Seq<char> {
        match self {
            RecordKind::A => "A"@,
            RecordKind::Aaaa => "AAAA"@,
        }
    }

    /// Whether an address of this family fits records of this kind.
    pub open spec fn fits(self, ip: IpAddr) -> bool {
        match (self, ip) {
            (RecordKind::A, IpAddr::V4(_)) => true,
            (RecordKind::Aaaa, IpAddr::V6(_)) => true,
            _ => false,
        }
    }

    pub fn as_str(&self) -> (s: &'static str)
        ensures
            s@ == self.text(),
    {
        match self {
            RecordKind::A => "A",
            RecordKind::Aaaa => "AAAA",
        }
    }

    pub fn to_record_type(&self) -> (s: String)
        ensures
            s@ == self.text(),
    {
        String::from_str(self.as_str())
    }
}

/// The record kind that an `ip_type` setting asks for, where it is one of the two supported.
pub open spec fn kind_of_ip_type(ip_type: u8) -> Option<RecordKind> {
    if ip_type == 4 {
        Some(RecordKind::A)
    } else if ip_type == 6 {
        Some(RecordKind::Aaaa)
    } else {
        None
    }
}

/// A TTL that the provider accepts: 1 (automatic) or 60 to 86400 seconds.
pub open spec fn ttl_allowed(ttl: u32) -> bool {
    ttl == 1 || (60 <= ttl && ttl <= 86400)
}

/// The span that `Duration::from_secs(secs)` gives.
pub uninterp spec fn duration_of_secs(secs: u64) -> Duration;

/// `Duration::from_secs`: the span of `secs` whole seconds. Its value is named
/// by `duration_of_secs`; nothing more of it is stated here.
#[verifier::external_body]
fn duration_from_secs(secs: u64) -> (d: Duration)
    ensures
        d == duration_of_secs(secs),
{
    Duration::from_secs(secs)
}

pub fn default_interval_secs() -> (secs: u64)
    ensures
        secs == 300,
{
    300
}

pub fn default_timeout_secs() -> (secs: u64)
    ensures
        secs == 10,
{
    10
}

pub fn default_user_agent() -> (agent: String)
    ensures
        agent@ == "ddns-rs/0.1"@,
{
    String::from_str("ddns-rs/0.1")
}

pub fn default_proxied() -> (proxied: bool)
    ensures
        proxied,
{
    true
}

pub fn default_ttl() -> (ttl: u32)
    ensures
        ttl == 1,
{
    1
}

impl Default for GlobalConfig {
    fn default() -> (g: Self)
        ensures
            g.interval == 300,
            g.timeout_secs == 10,
            g.user_agent@ == "ddns-rs/0.1"@,
            g.log_level is None,
    {
        GlobalConfig {
            interval: default_interval_secs(),
            timeout_secs: default_timeout_secs(),
            user_agent: default_user_agent(),
            log_level: None,
        }
    }
}

impl GlobalConfig {
    pub fn interval_duration(&self) -> (d: Duration)
        ensures
            d == duration_of_secs(self.interval),
    {
        duration_from_secs(self.interval)
    }

    pub fn timeout_duration(&self) -> (d: Duration)
        ensures
            d == duration_of_secs(self.timeout_secs),
    {
        duration_from_secs(self.timeout_secs)
    }
}

impl ProviderConfig {
    /// The provider's kind where one is given, else its name.
    pub open spec fn provider_name_view(self) -> Seq<char> {
        match self.kind {
            Some(k) => k@,
            None => self.name@,
        }
    }

    /// What validating this provider for the domain named `domain` gives.
    pub open spec fn validation(self, domain: Seq<char>) -> Result<(), ConfigErrorView> {
        if to_ascii_lowercase(self.provider_name_view()) != "cloudflare"@ {
            Err(ConfigErrorView::UnsupportedProvider { domain, provider: self.provider_name_view() })
        } else if trimmed(self.api_token@).len() == 0 {
            Err(ConfigErrorView::MissingApiToken { domain })
        } else if trimmed(self.zone_id@).len() == 0 {
            Err(ConfigErrorView::MissingZoneId { domain })
        } else if !ttl_allowed(self.ttl) {
            Err(ConfigErrorView::InvalidTtl { domain, ttl: self.ttl })
        } else {
            Ok(())
        }
    }

    pub fn provider_name(&self) -> (name: &str)
        ensures
            name@ == self.provider_name_view(),
    {
        match &self.kind {
            Some(k) => k.as_str(),
            None => self.name.as_str(),
        }
    }

    pub fn validate(&self, domain: &str) -> (r: Result<(), ConfigError>)
        ensures
            unit_result_view(r) == self.validation(domain@),
    {
        let provider = self.provider_name();
        if !lower_equals(provider, "cloudflare") {
            return Err(
                ConfigError::UnsupportedProvider {
                    domain: String::from_str(domain),
                    provider: String::from_str(provider),
                },
            );
        }
        if is_blank(self.api_token.as_str()) {
            return Err(ConfigError::MissingApiToken { domain: String::from_str(domain) });
        }
        if is_blank(self.zone_id.as_str()) {
            return Err(ConfigError::MissingZoneId { domain: String::from_str(domain) });
        }
        if self.ttl != 1 && !(60 <= self.ttl && self.ttl <= 86400) {
            return Err(ConfigError::InvalidTtl { domain: String::from_str(domain), ttl: self.ttl });
        }
        Ok(())
    }
}

impl DomainConfig {
    /// The kind of record this domain asks for: the configured record type,
    /// without surrounding whitespace and upper-cased, else the one that its
    /// `ip_type` (4 where none is given) stands for.
    pub open spec fn kind_spec(self) -> Result<RecordKind, ConfigErrorView> {
        match self.record_type {
            Some(rt) => {
                let normalized = to_ascii_uppercase(trimmed(rt@));
                if normalized == "A"@ {
                    Ok(RecordKind::A)
                } else if normalized == "AAAA"@ {
                    Ok(RecordKind::Aaaa)
                } else {
                    Err(
                        ConfigErrorView::UnsupportedRecordType {
                            domain: self.name@,
                            record_type: rt@,
                        },
                    )
                }
            },
            None => {
                let ip_type = match self.ip_type {
                    Some(t) => t,
                    None => 4u8,
                };
                match kind_of_ip_type(ip_type) {
                    Some(kind) => Ok(kind),
                    None => Err(ConfigErrorView::UnsupportedIpType { domain: self.name@, ip_type }),
                }
            },
        }
    }

    /// The record type this domain asks for, as the provider names it.
    pub open spec fn record_type_spec(self) -> Result<Seq<char>, ConfigErrorView> {
        match self.kind_spec() {
            Ok(kind) => Ok(kind.text()),
            Err(e) => Err(e),
        }
    }

    /// Whether an explicit `ip_type` disagrees with the record kind.
    pub open spec fn ip_type_conflicts(self, kind: RecordKind) -> bool {
        match self.ip_type {
            Some(t) => kind_of_ip_type(t) != Some(kind),
            None => false,
        }
    }

    /// The providers from index `from` on, checked in order; each check is
    /// followed by the check of `ip_type` against the record kind.
    pub open spec fn providers_check(self, kind: RecordKind, from: int) -> Result<
        (),
        ConfigErrorView,
    >
        decreases self.provider.len() - from,
    {
        if from < 0 || from >= self.provider.len() {
            Ok(())
        } else {
            match self.provider[from].validation(self.name@) {
                Err(e) => Err(e),
                Ok(()) => if self.ip_type_conflicts(kind) {
                    Err(
                        ConfigErrorView::IpTypeRecordTypeMismatch {
                            domain: self.name@,
                            ip_type: self.ip_type->0,
                            record_type: kind.text(),
                        },
                    )
                } else {
                    self.providers_check(kind, from + 1)
                },
            }
        }
    }

    /// What validating this domain gives.
    pub open spec fn validation(self) -> Result<(), ConfigErrorView> {
        if trimmed(self.name@).len() == 0 {
            Err(ConfigErrorView::EmptyDomainName)
        } else if self.ip_urls.len() == 0 {
            Err(ConfigErrorView::NoIpSources { domain: self.name@ })
        } else if self.provider.len() == 0 {
            Err(ConfigErrorView::NoProviders { domain: self.name@ })
        } else {
            match self.kind_spec() {
                Err(e) => Err(e),
                Ok(kind) => self.providers_check(kind, 0),
            }
        }
    }

    /// What checking a resolved address against the record kind gives.
    pub open spec fn ip_match(self, ip: IpAddr) -> Result<(), ConfigErrorView> {
        match self.kind_spec() {
            Err(e) => Err(e),
            Ok(kind) => if kind.fits(ip) {
                Ok(())
            } else {
                Err(
                    ConfigErrorView::ResolvedIpRecordTypeMismatch {
                        domain: self.name@,
                        resolved_ip: ip,
                        record_type: kind.text(),
                    },
                )
            },
        }
    }

    /// The kind of record this domain asks for.
    pub fn record_kind(&self) -> (r: Result<RecordKind, ConfigError>)
        ensures
            match r {
                Ok(kind) => self.kind_spec() == Ok::<RecordKind, ConfigErrorView>(kind),
                Err(e) => self.kind_spec() == Err::<RecordKind, ConfigErrorView>(e@),
            },
    {
        match &self.record_type {
            Some(rt) => {
                let normalized = trim(rt.as_str());
                if upper_equals(normalized, "A") {
                    Ok(RecordKind::A)
                } else if upper_equals(normalized, "AAAA") {
                    Ok(RecordKind::Aaaa)
                } else {
                    Err(
                        ConfigError::UnsupportedRecordType {
                            domain: self.name.clone(),
                            record_type: rt.clone(),
                        },
                    )
                }
            },
            None => {
                let ip_type = match self.ip_type {
                    Some(t) => t,
                    None => 4u8,
                };
                if ip_type == 4 {
                    Ok(RecordKind::A)
                } else if ip_type == 6 {
                    Ok(RecordKind::Aaaa)
                } else {
                    Err(ConfigError::UnsupportedIpType { domain: self.name.clone(), ip_type })
                }
            },
        }
    }

    pub fn desired_record_type(&self) -> (r: Result<String, ConfigError>)
        ensures
            text_result_view(r) == self.record_type_spec(),
    {
        match self.record_kind() {
            Ok(kind) => Ok(kind.to_record_type()),
            Err(e) => Err(e),
        }
    }

    pub fn validate(&self) -> (r: Result<(), ConfigError>)
        ensures
            unit_result_view(r) == self.validation(),
    {
        if is_blank(self.name.as_str()) {
            return Err(ConfigError::EmptyDomainName);
        }
        if self.ip_urls.len() == 0 {
            return Err(ConfigError::NoIpSources { domain: self.name.clone() });
        }
        if self.provider.len() == 0 {
            return Err(ConfigError::NoProviders { domain: self.name.clone() });
        }
        let kind = match self.record_kind() {
            Ok(kind) => kind,
            Err(e) => return Err(e),
        };
        let n = self.provider.len();
        let mut i: usize = 0;
        while i < n
            invariant
                i <= n,
                n == self.provider.len(),
                self.kind_spec() == Ok::<RecordKind, ConfigErrorView>(kind),
                self.validation() == self.providers_check(kind, i as int),
            decreases n - i,
        {
            match self.provider[i].validate(self.name.as_str()) {
                Err(e) => return Err(e),
                Ok(()) => {},
            }
            match self.ip_type {
                Some(expected) => {
                    let agrees = (expected == 4 && kind == RecordKind::A) || (expected == 6 && kind
                        == RecordKind::Aaaa);
                    if !agrees {
                        return Err(
                            ConfigError::IpTypeRecordTypeMismatch {
                                domain: self.name.clone(),
                                ip_type: expected,
                                record_type: kind.to_record_type(),
                            },
                        );
                    }
                },
                None => {},
            }
            i += 1;
        }
        Ok(())
    }

    pub fn ensure_ip_matches_record_type(&self, ip: IpAddr) -> (r: Result<(), ConfigError>)
        ensures
            unit_result_view(r) == self.ip_match(ip),
    {
        let kind = match self.record_kind() {
            Ok(kind) => kind,
            Err(e) => return Err(e),
        };
        match (kind, ip) {
            (RecordKind::A, IpAddr::V4(_)) | (RecordKind::Aaaa, IpAddr::V6(_)) => Ok(()),
            _ => Err(
                ConfigError::ResolvedIpRecordTypeMismatch {
                    domain: self.name.clone(),
                    resolved_ip: ip,
                    record_type: kind.to_record_type(),
                },
            ),
        }
    }
}

/// What checking a configuration reports: how many domains it holds, and the
/// pass interval and request timeout in seconds.
#[derive(Debug, Clone, Copy, PartialEq, Eq)]
pub struct ConfigSummary {
    pub domains: usize,
    pub interval: u64,
    pub timeout_secs: u64,
}

impl AppConfig {
    /// Validates the configuration and, where it passes, sums it up.
    pub fn check_summary(&self) -> (r: Result<ConfigSummary, ConfigError>)
        ensures
            match r {
                Ok(summary) => {
                    &&& self.validation() is Ok
                    &&& summary.domains == self.domains.len()
                    &&& summary.interval == self.globals.interval
                    &&& summary.timeout_secs == self.globals.timeout_secs
                },
                Err(e) => self.validation() == Err::<(), ConfigErrorView>(e@),
            },
    {
        match self.validate() {
            Ok(()) => Ok(
                ConfigSummary {
                    domains: self.domains.len(),
                    interval: self.globals.interval,
                    timeout_secs: self.globals.timeout_secs,
                },
            ),
            Err(e) => Err(e),
        }
    }

    /// The domains from index `from` on, validated in order: the first failure.
    pub open spec fn domains_check(self, from: int) -> Result<(), ConfigErrorView>
        decreases self.domains.len() - from,
    {
        if from < 0 || from >= self.domains.len() {
            Ok(())
        } else {
            match self.domains[from].validation() {
                Err(e) => Err(e),
                Ok(()) => self.domains_check(from + 1),
            }
        }
    }

    /// What validating the whole configuration gives.
    pub open spec fn validation(self) -> Result<(), ConfigErrorView> {
        if self.domains.len() == 0 {
            Err(ConfigErrorView::NoDomains)
        } else {
            self.domains_check(0)
        }
    }

    pub fn validate(&self) -> (r: Result<(), ConfigError>)
        ensures
            unit_result_view(r) == self.validation(),
    {
        if self.domains.len() == 0 {
            return Err(ConfigError::NoDomains);
        }
        let n = self.domains.len();
        let mut i: usize = 0;
        while i < n
            invariant
                i <= n,
                n == self.domains.len(),
                self.validation() == self.domains_check(i as int),
            decreases n - i,
        {
            match self.domains[i].validate() {
                Err(e) => return Err(e),
                Ok(()) => {},
            }
            i += 1;
        }
        Ok(())
    }
}

} // verus!

verus! {

/// The providers from index `from` on pass their checks when checking them succeeds.
proof fn lemma_providers_check_ok(d: DomainConfig, kind: RecordKind, from: int, i: int)
    requires
        d.providers_check(kind, from) is Ok,
        0 <= from <= i < d.provider.len(),
    ensures
        d.provider[i].validation(d.name@) is Ok,
        !d.ip_type_conflicts(kind),
    decreases i - from,
{
    if from < i {
        lemma_providers_check_ok(d, kind, from + 1, i);
    }
}

/// A domain that passes validation asks for an A or an AAAA record, and an
/// `ip_type` it gives agrees with that record type (4 with A, 6 with AAAA).
pub proof fn lemma_valid_domain_record_type(d: DomainConfig)
    requires
        d.validation() is Ok,
    ensures
        d.kind_spec() is Ok,
        d.record_type_spec() == Ok::<Seq<char>, ConfigErrorView>(d.kind_spec()->Ok_0.text()),
        d.ip_type is Some ==> kind_of_ip_type(d.ip_type->Some_0) == Some(d.kind_spec()->Ok_0),
{
    lemma_providers_check_ok(d, d.kind_spec()->Ok_0, 0, 0);
}

/// Every provider of a domain that passes validation is a Cloudflare account
/// with a token, a zone and an accepted TTL.
pub proof fn lemma_valid_domain_providers(d: DomainConfig, i: int)
    requires
        d.validation() is Ok,
        0 <= i < d.provider.len(),
    ensures
        d.provider[i].validation(d.name@) is Ok,
        to_ascii_lowercase(d.provider[i].provider_name_view()) == "cloudflare"@,
        trimmed(d.provider[i].api_token@).len() > 0,
        trimmed(d.provider[i].zone_id@).len() > 0,
        ttl_allowed(d.provider[i].ttl),
{
    lemma_providers_check_ok(d, d.kind_spec()->Ok_0, 0, i);
}

proof fn lemma_domains_check_ok(c: AppConfig, from: int, i: int)
    requires
        c.domains_check(from) is Ok,
        0 <= from <= i < c.domains.len(),
    ensures
        c.domains[i].validation() is Ok,
    decreases i - from,
{
    if from < i {
        lemma_domains_check_ok(c, from + 1, i);
    }
}

/// A configuration that passes validation has at least one domain, and each of
/// its domains, with a non-blank name, at least one public-IP source and at
/// least one provider, passes validation too.
pub proof fn lemma_valid_config_domains(c: AppConfig, i: int)
    requires
        c.validation() is Ok,
        0 <= i < c.domains.len(),
    ensures
        c.domains.len() > 0,
        c.domains[i].validation() is Ok,
        trimmed(c.domains[i].name@).len() > 0,
        c.domains[i].ip_urls.len() > 0,
        c.domains[i].provider.len() > 0,
{
    lemma_domains_check_ok(c, 0, i);
}

/// For a domain that passes validation, a resolved address is accepted exactly
/// when its family fits the record type: IPv4 for A, IPv6 for AAAA.
pub proof fn lemma_valid_domain_address_fit(d: DomainConfig, ip: IpAddr)
    requires
        d.validation() is Ok,
    ensures
        d.ip_match(ip) is Ok <==> d.kind_spec()->Ok_0.fits(ip),
{
    lemma_valid_domain_record_type(d);
}

/// Where every domain passes validation and there is one, the configuration does.
pub proof fn lemma_config_valid_when_domains_valid(c: AppConfig)
    requires
        c.domains.len() > 0,
        forall|i: int| 0 <= i < c.domains.len() ==> (#[trigger] c.domains[i]).validation() is Ok,
    ensures
        c.validation() is Ok,
{
    lemma_domains_check_from(c, 0);
}

proof fn lemma_domains_check_from(c: AppConfig, from: int)
    requires
        0 <= from,
        forall|i: int| 0 <= i < c.domains.len() ==> (#[trigger] c.domains[i]).validation() is Ok,
    ensures
        c.domains_check(from) is Ok,
    decreases c.domains.len() - from,
{
    if from < c.domains.len() {
        lemma_domains_check_from(c, from + 1);
    }
}

} // verus!

verus! {

/// A provider passes validation exactly when its kind (or, where no kind is
/// given, its name) is `cloudflare` up to ASCII case, its token and its zone
/// are not blank, and its TTL is 1 or from 60 to 86400; the domain it serves
/// plays no part.
pub proof fn lemma_provider_validation_exact(p: ProviderConfig, domain: Seq<char>)
    ensures
        p.validation(domain) is Ok <==> {
            let identity = match p.kind {
                Some(k) => k@,
                None => p.name@,
            };
            &&& to_ascii_lowercase(identity) == "cloudflare"@
            &&& trimmed(p.api_token@).len() > 0
            &&& trimmed(p.zone_id@).len() > 0
            &&& (p.ttl == 1 || (60 <= p.ttl && p.ttl <= 86400))
        },
{
}

proof fn lemma_providers_check_all_ok(d: DomainConfig, kind: RecordKind, from: int)
    requires
        0 <= from,
        forall|i: int| 0 <= i < d.provider.len() ==> (#[trigger] d.provider[i]).validation(d.name@) is Ok,
        !d.ip_type_conflicts(kind),
    ensures
        d.providers_check(kind, from) is Ok,
    decreases d.provider.len() - from,
{
    if from < d.provider.len() {
        lemma_providers_check_all_ok(d, kind, from + 1);
    }
}

/// A domain passes validation exactly when its name is not blank, it has a
/// public-IP source and a provider, every provider passes validation, it asks
/// for a supported record kind, and an `ip_type` it gives is 4 with an A
/// record or 6 with an AAAA record.
pub proof fn lemma_domain_validation_exact(d: DomainConfig)
    ensures
        d.validation() is Ok <==> {
            &&& trimmed(d.name@).len() > 0
            &&& d.ip_urls.len() > 0
            &&& d.provider.len() > 0
            &&& forall|i: int|
                0 <= i < d.provider.len() ==> (#[trigger] d.provider[i]).validation(d.name@) is Ok
            &&& d.kind_spec() is Ok
            &&& match d.ip_type {
                None => true,
                Some(t) => (t == 4 && d.kind_spec()->Ok_0 == RecordKind::A) || (t == 6
                    && d.kind_spec()->Ok_0 == RecordKind::Aaaa),
            }
        },
{
    if d.validation() is Ok {
        assert forall|i: int|
            0 <= i < d.provider.len() implies (#[trigger] d.provider[i]).validation(d.name@) is Ok by {
            lemma_valid_domain_providers(d, i);
        }
        lemma_valid_domain_record_type(d);
    }
    if {
        &&& trimmed(d.name@).len() > 0
        &&& d.ip_urls.len() > 0
        &&& d.provider.len() > 0
        &&& forall|i: int|
            0 <= i < d.provider.len() ==> (#[trigger] d.provider[i]).validation(d.name@) is Ok
        &&& d.kind_spec() is Ok
        &&& match d.ip_type {
            None => true,
            Some(t) => (t == 4 && d.kind_spec()->Ok_0 == RecordKind::A) || (t == 6
                && d.kind_spec()->Ok_0 == RecordKind::Aaaa),
        }
    } {
        lemma_providers_check_all_ok(d, d.kind_spec()->Ok_0, 0);
    }
}

/// Without an explicit record type, the record kind follows `ip_type`: A where
/// it is absent or 4, AAAA where it is 6, and any other value is refused.
pub proof fn lemma_record_kind_from_ip_type(d: DomainConfig)
    requires
        d.record_type is None,
    ensures
        (d.ip_type is None || d.ip_type == Some(4u8)) ==> d.kind_spec() == Ok::<
            RecordKind,
            ConfigErrorView,
        >(RecordKind::A),
        d.ip_type == Some(6u8) ==> d.kind_spec() == Ok::<RecordKind, ConfigErrorView>(
            RecordKind::Aaaa,
        ),
        (d.ip_type is Some && d.ip_type != Some(4u8) && d.ip_type != Some(6u8)) ==> d.kind_spec()
            == Err::<RecordKind, ConfigErrorView>(
            ConfigErrorView::UnsupportedIpType { domain: d.name@, ip_type: d.ip_type->Some_0 },
        ),
{
}

} // verus!

verus! {

/// An explicit record type is read without surrounding whitespace and without
/// regard to ASCII case: the kind it gives is the one whose name it then
/// spells, and it is refused exactly when it spells neither A nor AAAA.
pub proof fn lemma_explicit_record_type(d: DomainConfig)
    requires
        d.record_type is Some,
    ensures
        ({
            let spelled = to_ascii_uppercase(trimmed(d.record_type->Some_0@));
            &&& d.kind_spec() is Ok ==> spelled == d.kind_spec()->Ok_0.text()
            &&& d.kind_spec() is Ok <==> (spelled == "A"@ || spelled == "AAAA"@)
        }),
{
}

} // verus!
