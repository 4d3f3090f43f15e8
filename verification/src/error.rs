use vstd::prelude::*;

use crate::ip_source::IpAddr;

verus! {

/// Why a configuration, or a domain of it, cannot be used.
#[derive(Debug, Clone)]
pub enum ConfigError {
    NoDomains,
    EmptyDomainName,
    NoIpSources { domain: String },
    NoProviders { domain: String },
    UnsupportedIpType { domain: String, ip_type: u8 },
    UnsupportedRecordType { domain: String, record_type: String },
    IpTypeRecordTypeMismatch { domain: String, ip_type: u8, record_type: String },
    ResolvedIpRecordTypeMismatch { domain: String, resolved_ip: IpAddr, record_type: String },
    UnsupportedProvider { domain: String, provider: String },
    MissingApiToken { domain: String },
    MissingZoneId { domain: String },
    InvalidTtl { domain: String, ttl: u32 },
}

/// A `ConfigError` with its texts taken as character sequences.
pub enum ConfigErrorView {
    NoDomains,
    EmptyDomainName,
    NoIpSources { domain: Seq<char> },
    NoProviders { domain: Seq<char> },
    UnsupportedIpType { domain: Seq<char>, ip_type: u8 },
    UnsupportedRecordType { domain: Seq<char>, record_type: Seq<char> },
    IpTypeRecordTypeMismatch { domain: Seq<char>, ip_type: u8, record_type: Seq<char> },
    ResolvedIpRecordTypeMismatch { domain: Seq<char>, resolved_ip: IpAddr, record_type: Seq<char> },
    UnsupportedProvider { domain: Seq<char>, provider: Seq<char> },
    MissingApiToken { domain: Seq<char> },
    MissingZoneId { domain: Seq<char> },
    InvalidTtl { domain: Seq<char>, ttl: u32 },
}

impl View for ConfigError {
    type V = ConfigErrorView;

    open spec fn view(&self) -> ConfigErrorView {
        match self {
            ConfigError::NoDomains => ConfigErrorView::NoDomains,
            ConfigError::EmptyDomainName => ConfigErrorView::EmptyDomainName,
            ConfigError::NoIpSources { domain } => ConfigErrorView::NoIpSources { domain: domain@ },
            ConfigError::NoProviders { domain } => ConfigErrorView::NoProviders { domain: domain@ },
            ConfigError::UnsupportedIpType { domain, ip_type } => ConfigErrorView::UnsupportedIpType {
                domain: domain@,
                ip_type: *ip_type,
            },
            ConfigError::UnsupportedRecordType { domain, record_type } =>
                ConfigErrorView::UnsupportedRecordType {
                    domain: domain@,
                    record_type: record_type@,
                },
            ConfigError::IpTypeRecordTypeMismatch { domain, ip_type, record_type } =>
                ConfigErrorView::IpTypeRecordTypeMismatch {
                    domain: domain@,
                    ip_type: *ip_type,
                    record_type: record_type@,
                },
            ConfigError::ResolvedIpRecordTypeMismatch { domain, resolved_ip, record_type } =>
                ConfigErrorView::ResolvedIpRecordTypeMismatch {
                    domain: domain@,
                    resolved_ip: *resolved_ip,
                    record_type: record_type@,
                },
            ConfigError::UnsupportedProvider { domain, provider } =>
                ConfigErrorView::UnsupportedProvider { domain: domain@, provider: provider@ },
            ConfigError::MissingApiToken { domain } => ConfigErrorView::MissingApiToken {
                domain: domain@,
            },
            ConfigError::MissingZoneId { domain } => ConfigErrorView::MissingZoneId {
                domain: domain@,
            },
            ConfigError::InvalidTtl { domain, ttl } => ConfigErrorView::InvalidTtl {
                domain: domain@,
                ttl: *ttl,
            },
        }
    }
}

/// Why no public address could be had.
#[derive(Debug, Clone)]
pub enum IpLookupError {
    AllSourcesFailed,
    InvalidIpResponse { url: String, body: String },
}

} // verus!

verus! {

/// A result whose error is a `ConfigError`, with the error taken by its view.
pub open spec fn unit_result_view(r: Result<(), ConfigError>) -> Result<(), ConfigErrorView> {
    match r {
        Ok(()) => Ok(()),
        Err(e) => Err(e@),
    }
}

/// A result that carries a text on success, with both sides taken by their views.
pub open spec fn text_result_view(r: Result<String, ConfigError>) -> Result<Seq<char>, ConfigErrorView> {
    match r {
        Ok(s) => Ok(s@),
        Err(e) => Err(e@),
    }
}

} // verus!
