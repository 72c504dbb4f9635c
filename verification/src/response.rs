//! The JSON envelopes that handlers answer with, and how an envelope turns
//! into the body and status of a response.
use vstd::prelude::*;
use vstd::string::*;
use crate::error::Error;

verus! {

/// A successful answer carrying one value.
#[derive(Debug, Clone, PartialEq, Eq)]
pub struct ApiSuccess<T> {
    pub success: bool,
    pub data: T,
}

/// A successful answer carrying a value or nothing.
#[derive(Debug, Clone, PartialEq, Eq)]
pub struct ApiSuccessOpt<T> {
    pub success: bool,
    pub data: Option<T>,
}

/// A successful answer carrying a list of values.
#[derive(Debug, Clone, PartialEq, Eq)]
pub struct ApiSuccessArray<T> {
    pub success: bool,
    pub data: Vec<T>,
}

/// A failed answer carrying an error code and a message.
#[derive(Debug, Clone, PartialEq, Eq)]
pub struct ApiFailure {
    pub success: bool,
    pub err_code: u16,
    pub err_msg: String,
}

/// The answer of a handler. On the wire it is the JSON object of the
/// variant's content, with no tag.
#[derive(Debug, Clone, PartialEq, Eq)]
pub enum ApiResponse<T> {
    Success(ApiSuccess<T>),
    SuccessOpt(ApiSuccessOpt<T>),
    SuccessArray(ApiSuccessArray<T>),
    Failure(ApiFailure),
}

/// The body of a response whose payload could not be serialised.
pub open spec fn serialize_error_body() -> Seq<char> {
    "{ \"success\": false, \"errCode\": \"SerializeError\"  \"errMsg\": \"ApiResponse serialize error\" }"@
}

impl<T> ApiResponse<T> {
    /// Whether this answer reports a success.
    pub open spec fn is_success(self) -> bool {
        !(self is Failure)
    }

    /// The answer carrying the value `val`.
    pub fn success(val: T) -> (r: ApiResponse<T>)
        ensures
            r == ApiResponse::Success(ApiSuccess { success: true, data: val }),
    {
        ApiResponse::Success(ApiSuccess { success: true, data: val })
    }

    /// The answer carrying the value or absence `val`.
    pub fn success_opt(val: Option<T>) -> (r: ApiResponse<T>)
        ensures
            r == ApiResponse::SuccessOpt(ApiSuccessOpt { success: true, data: val }),
    {
        ApiResponse::SuccessOpt(ApiSuccessOpt { success: true, data: val })
    }

    /// The answer carrying clones of the values in `val`, in order.
    pub fn success_array<E: Clone>(val: &[E]) -> (r: ApiResponse<E>)
        ensures
            r matches ApiResponse::SuccessArray(a) && a.success && a.data@.len() == val@.len()
                && forall|i: int| 0 <= i < val@.len() ==> cloned::<E>(val@[i], #[trigger] a.data@[i]),
    {
        let mut data: Vec<E> = Vec::new();
        data.extend_from_slice(val);
        ApiResponse::SuccessArray(ApiSuccessArray { success: true, data })
    }

    /// The failure answer with code `err_code` and message `err_msg`.
    pub fn failure(err_code: u16, err_msg: &str) -> (r: ApiResponse<T>)
        ensures
            r matches ApiResponse::Failure(f) && !f.success && f.err_code == err_code && f.err_msg@
                == err_msg@,
    {
        ApiResponse::Failure(
            ApiFailure { success: false, err_code, err_msg: String::from_str(err_msg) },
        )
    }

    /// The serialised form of this answer, given `encoded`, the JSON text of
    /// its content, or `None` where serialising the content failed. A failure
    /// answer stays a failure; a success answer is a success when it could be
    /// serialised, and otherwise a failure with a fixed body.
    pub fn to_json(&self, encoded: Option<String>) -> (r: ApiResponseSerialized)
        ensures
            match encoded {
                Some(text) => r == if self.is_success() {
                    ApiResponseSerialized::Success(text)
                } else {
                    ApiResponseSerialized::Failure(text)
                },
                None => r is Failure && r.spec_content() == serialize_error_body(),
            },
            r.spec_status() == if self.is_success() && encoded is Some {
                200u16
            } else {
                500u16
            },
            !(self is Failure) && encoded is Some ==> r == ApiResponseSerialized::Success(
                encoded->0,
            ),
            self is Failure ==> r is Failure,
    {
        match encoded {
            Some(text) => match self {
                ApiResponse::Failure(_) => ApiResponseSerialized::Failure(text),
                _ => ApiResponseSerialized::Success(text),
            },
            None => ApiResponseSerialized::Failure(
                String::from_str(
                    "{ \"success\": false, \"errCode\": \"SerializeError\"  \"errMsg\": \"ApiResponse serialize error\" }",
                ),
            ),
        }
    }

    /// The answer carrying `origin`.
    pub fn from_value(origin: T) -> (r: ApiResponse<T>)
        ensures
            r == ApiResponse::Success(ApiSuccess { success: true, data: origin }),
    {
        ApiResponse::Success(ApiSuccess { success: true, data: origin })
    }

    /// The answer carrying a clone of `origin`.
    pub fn from_ref(origin: &T) -> (r: ApiResponse<T>)
        where
            T: Clone,
        ensures
            r matches ApiResponse::Success(s) && s.success && cloned::<T>(*origin, s.data),
    {
        ApiResponse::Success(ApiSuccess { success: true, data: origin.clone() })
    }

    /// The answer carrying the value or absence `origin`.
    pub fn from_option(origin: Option<T>) -> (r: ApiResponse<T>)
        ensures
            r == ApiResponse::SuccessOpt(ApiSuccessOpt { success: true, data: origin }),
    {
        ApiResponse::SuccessOpt(ApiSuccessOpt { success: true, data: origin })
    }

    /// The failure answer of an error: its code's number and its message.
    pub fn from_error(err: Error) -> (r: ApiResponse<T>)
        ensures
            r matches ApiResponse::Failure(f) && !f.success && f.err_code
                == err.spec_code().spec_value() && f.err_msg@ == err.spec_message(),
    {
        let err_str = err.to_string();
        Self::failure(err.code().value(), err_str.as_str())
    }

}

/// Every answer built as a success (`Success`, `SuccessOpt` or
/// `SuccessArray`) counts as a success and is sent with status 200 once it
/// serialises; only a `Failure` answer, or one that does not serialise, is
/// sent with status 500.
pub proof fn lemma_success_answers_are_200<T>(
    a: ApiResponse<T>,
    text: String,
    r: ApiResponseSerialized,
)
    requires
        r == (if a.is_success() {
            ApiResponseSerialized::Success(text)
        } else {
            ApiResponseSerialized::Failure(text)
        }),
    ensures
        a is Success ==> a.is_success() && r.spec_status() == 200,
        a is SuccessOpt ==> a.is_success() && r.spec_status() == 200,
        a is SuccessArray ==> a.is_success() && r.spec_status() == 200,
        a is Failure ==> !a.is_success() && r.spec_status() == 500,
{
}

/// A serialised answer: its JSON text, marked as a success or a failure.
#[derive(Debug, Clone, PartialEq, Eq)]
pub enum ApiResponseSerialized {
    Success(String),
    Failure(String),
}

impl ApiResponseSerialized {
    /// The JSON text.
    pub open spec fn spec_content(self) -> Seq<char> {
        match self {
            ApiResponseSerialized::Success(v) => v@,
            ApiResponseSerialized::Failure(v) => v@,
        }
    }

    /// The HTTP status of the response: 200 for a success, 500 for a failure.
    pub open spec fn spec_status(self) -> u16 {
        match self {
            ApiResponseSerialized::Success(_) => 200,
            ApiResponseSerialized::Failure(_) => 500,
        }
    }

    /// The JSON text, whichever the outcome.
    pub fn into_content(self) -> (r: String)
        ensures
            r@ == self.spec_content(),
    {
        match self {
            ApiResponseSerialized::Success(v) => v,
            ApiResponseSerialized::Failure(v) => v,
        }
    }

    /// The HTTP status of the response: 200 for a success, 500 for a failure.
    pub fn status_code(&self) -> (r: u16)
        ensures
            r == self.spec_status(),
    {
        match self {
            ApiResponseSerialized::Success(_) => 200,
            ApiResponseSerialized::Failure(_) => 500,
        }
    }
}

} // verus!
