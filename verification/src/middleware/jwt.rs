//! JWT authorisation: the claims a token carries, the paths that need no
//! token, the black list of revoked tokens and the decision on a request.
pub mod authorizator;
pub mod claims;
pub mod error;
pub mod keys;
