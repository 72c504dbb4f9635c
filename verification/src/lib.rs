//! Verified core of the taitan web framework: header canonicalisation and
//! endpoint naming for object storage requests, error codes and API response
//! envelopes, upload file naming and path checks, the JWT path white list and
//! token black list, the rest/grpc readiness switch, and the configuration
//! defaults.
pub mod error;
pub mod external;
pub mod file;
pub mod middleware;
pub mod oneshot;
pub mod oss;
pub mod response;
pub mod result;
pub mod server_conf;
pub mod text;
