//! Decision core of a hardware-rooted remote attestation agent: request
//! validation, version negotiation, rate limiting, claim extraction and the
//! byte formats that the agent hashes into its TPM.

pub mod certification;
pub mod codec;
pub mod edge_claim;
pub mod edge_filter;
pub mod exchange;
pub mod geolocation;
pub mod http;
pub mod ip;
pub mod json;
pub mod json_laws;
pub mod json_value;
pub mod measurement_list;
pub mod number;
pub mod quote;
pub mod quote_reader;
pub mod rate_limit;
pub mod registrar;
pub mod registration;
pub mod sensor;
pub mod startup;
pub mod text;
pub mod timed_binding;
