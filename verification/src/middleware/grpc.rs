//! Serving grpc next to rest: the service wrapper and the readiness switch.
pub mod nest;
pub mod rest_grpc;
