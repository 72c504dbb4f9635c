//! Request building blocks for the Aliyun object storage service: endpoint
//! host names, canonical header entries and the request shape.
pub mod endpoint;
pub mod header;
pub mod request;
pub mod utils;
