//! Results that carry the library's `Error`, and the answers built from
//! them.
use vstd::prelude::*;
use crate::error::Error;
use crate::response::{ApiResponse, ApiSuccess, ApiSuccessOpt};

verus! {

/// A value, or the error that kept a handler from producing it.
pub type Result<T> = core::result::Result<T, Error>;

impl<T> ApiResponse<T> {
    /// The answer of a result: its value, or the failure answer of its error.
    pub fn from_result(origin: Result<T>) -> (r: ApiResponse<T>)
        ensures
            match origin {
                Ok(data) => r == ApiResponse::Success(ApiSuccess { success: true, data }),
                Err(err) => r matches ApiResponse::Failure(f) && !f.success && f.err_code
                    == err.spec_code().spec_value() && f.err_msg@ == err.spec_message(),
            },
    {
        match origin {
            Ok(data) => Self::success(data),
            Err(err) => Self::from_error(err),
        }
    }

    /// The answer of a result that may hold no value.
    pub fn from_result_option(origin: Result<Option<T>>) -> (r: ApiResponse<T>)
        ensures
            match origin {
                Ok(data) => r == ApiResponse::SuccessOpt(ApiSuccessOpt { success: true, data }),
                Err(err) => r matches ApiResponse::Failure(f) && !f.success && f.err_code
                    == err.spec_code().spec_value() && f.err_msg@ == err.spec_message(),
            },
    {
        match origin {
            Ok(data) => Self::success_opt(data),
            Err(err) => Self::from_error(err),
        }
    }

    /// The answer of a result holding a slice of values.
    pub fn from_result_slice(origin: Result<&[T]>) -> (r: ApiResponse<T>)
        where
            T: Clone,
        ensures
            match origin {
                Ok(data) => r matches ApiResponse::SuccessArray(a) && a.success && a.data@.len()
                    == data@.len() && forall|i: int|
                    0 <= i < data@.len() ==> cloned::<T>(data@[i], #[trigger] a.data@[i]),
                Err(err) => r matches ApiResponse::Failure(f) && !f.success && f.err_code
                    == err.spec_code().spec_value() && f.err_msg@ == err.spec_message(),
            },
    {
        match origin {
            Ok(data) => Self::success_array(data),
            Err(err) => Self::from_error(err),
        }
    }

    /// The answer of a result holding a list of values.
    pub fn from_result_vec(origin: Result<Vec<T>>) -> (r: ApiResponse<T>)
        where
            T: Clone,
        ensures
            match origin {
                Ok(data) => r matches ApiResponse::SuccessArray(a) && a.success && a.data@.len()
                    == data@.len() && forall|i: int|
                    0 <= i < data@.len() ==> cloned::<T>(data@[i], #[trigger] a.data@[i]),
                Err(err) => r matches ApiResponse::Failure(f) && !f.success && f.err_code
                    == err.spec_code().spec_value() && f.err_msg@ == err.spec_message(),
            },
    {
        match origin {
            Ok(data) => Self::success_array(data.as_slice()),
            Err(err) => Self::from_error(err),
        }
    }
}

} // verus!
