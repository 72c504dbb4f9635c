//! Request middleware: JWT authorisation and the rest/grpc switch.
pub mod grpc;
pub mod jwt;
