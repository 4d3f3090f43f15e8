//! Keeps DNS address records at Cloudflare pointed at the host's public IP
//! address: configuration checks, public-address lookup, and the decisions of
//! a sync pass, each with its contract.

pub mod config;
pub mod error;
pub mod ip_source;
pub mod provider;
pub mod service;
pub mod text;
