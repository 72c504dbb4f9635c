//! Error codes and the errors that handlers report.
use vstd::prelude::*;
use vstd::string::*;

verus! {

/// The code of each kind of error, with `Success` for no error.
#[derive(Debug, Clone, Copy, PartialEq, Eq, Structural)]
pub enum ErrorCode {
    Success,
    LogicError,
    AxumError,
    AxumMultipartError,
    SerdeError,
    ChronoTimeParseError,
    DatabaseError,
    JwtError,
    FileError,
    ReqwestError,
    FromUtf8Error,
    UuidError,
}

impl ErrorCode {
    /// The number of a code: its position in the declaration, from 0.
    pub open spec fn spec_value(self) -> u16 {
        match self {
            ErrorCode::Success => 0,
            ErrorCode::LogicError => 1,
            ErrorCode::AxumError => 2,
            ErrorCode::AxumMultipartError => 3,
            ErrorCode::SerdeError => 4,
            ErrorCode::ChronoTimeParseError => 5,
            ErrorCode::DatabaseError => 6,
            ErrorCode::JwtError => 7,
            ErrorCode::FileError => 8,
            ErrorCode::ReqwestError => 9,
            ErrorCode::FromUtf8Error => 10,
            ErrorCode::UuidError => 11,
        }
    }

    /// The name of a code: the name of its variant.
    pub open spec fn spec_name(self) -> Seq<char> {
        match self {
            ErrorCode::Success => "Success"@,
            ErrorCode::LogicError => "LogicError"@,
            ErrorCode::AxumError => "AxumError"@,
            ErrorCode::AxumMultipartError => "AxumMultipartError"@,
            ErrorCode::SerdeError => "SerdeError"@,
            ErrorCode::ChronoTimeParseError => "ChronoTimeParseError"@,
            ErrorCode::DatabaseError => "DatabaseError"@,
            ErrorCode::JwtError => "JwtError"@,
            ErrorCode::FileError => "FileError"@,
            ErrorCode::ReqwestError => "ReqwestError"@,
            ErrorCode::FromUtf8Error => "FromUtf8Error"@,
            ErrorCode::UuidError => "UuidError"@,
        }
    }

    /// The name of this code.
    pub fn name(&self) -> (r: &'static str)
        ensures
            r@ == self.spec_name(),
    {
        match self {
            ErrorCode::Success => "Success",
            ErrorCode::LogicError => "LogicError",
            ErrorCode::AxumError => "AxumError",
            ErrorCode::FromUtf8Error => "FromUtf8Error",
            ErrorCode::AxumMultipartError => "AxumMultipartError",
            ErrorCode::SerdeError => "SerdeError",
            ErrorCode::ChronoTimeParseError => "ChronoTimeParseError",
            ErrorCode::DatabaseError => "DatabaseError",
            ErrorCode::JwtError => "JwtError",
            ErrorCode::FileError => "FileError",
            ErrorCode::ReqwestError => "ReqwestError",
            ErrorCode::UuidError => "UuidError",
        }
    }

    /// The number of this code.
    pub fn value(&self) -> (r: u16)
        ensures
            r == self.spec_value(),
    {
        match self {
            ErrorCode::Success => 0,
            ErrorCode::LogicError => 1,
            ErrorCode::AxumError => 2,
            ErrorCode::AxumMultipartError => 3,
            ErrorCode::SerdeError => 4,
            ErrorCode::ChronoTimeParseError => 5,
            ErrorCode::DatabaseError => 6,
            ErrorCode::JwtError => 7,
            ErrorCode::FileError => 8,
            ErrorCode::ReqwestError => 9,
            ErrorCode::FromUtf8Error => 10,
            ErrorCode::UuidError => 11,
        }
    }
}

/// Distinct codes have distinct numbers and distinct names, so a client can
/// tell the kind of an error from either.
pub proof fn lemma_codes_distinct(a: ErrorCode, b: ErrorCode)
    requires
        a != b,
    ensures
        a.spec_value() != b.spec_value(),
        a.spec_name() != b.spec_name(),
{
    reveal_strlit("Success");
    reveal_strlit("LogicError");
    reveal_strlit("AxumError");
    reveal_strlit("AxumMultipartError");
    reveal_strlit("SerdeError");
    reveal_strlit("ChronoTimeParseError");
    reveal_strlit("DatabaseError");
    reveal_strlit("JwtError");
    reveal_strlit("FileError");
    reveal_strlit("ReqwestError");
    reveal_strlit("FromUtf8Error");
    reveal_strlit("UuidError");
    let (na, nb) = (a.spec_name(), b.spec_name());
    if na == nb {
        assert(na.len() == nb.len());
        assert(na[0] == nb[0]);
        assert(na[1] == nb[1]);
        assert(na[4] == nb[4]);
    }
}

/// An error that a handler reports. Each variant but `LogicError` stands
/// for an error of a library the framework uses and holds that error's
/// debug rendering; `LogicError` holds a message for the user.
#[derive(Debug, Clone, PartialEq, Eq)]
pub enum Error {
    LogicError(String),
    AxumError(String),
    AxumMultipartError(String),
    SerdeError(String),
    ChronoTimeParseError(String),
    DatabaseError(String),
    JwtError(String),
    FileError(String),
    ReqwestError(String),
    FromUtf8Error(String),
    UuidError(String),
}

impl Error {
    /// The code of an error: the code of the same name.
    pub open spec fn spec_code(self) -> ErrorCode {
        match self {
            Error::LogicError(_) => ErrorCode::LogicError,
            Error::AxumError(_) => ErrorCode::AxumError,
            Error::AxumMultipartError(_) => ErrorCode::AxumMultipartError,
            Error::SerdeError(_) => ErrorCode::SerdeError,
            Error::ChronoTimeParseError(_) => ErrorCode::ChronoTimeParseError,
            Error::DatabaseError(_) => ErrorCode::DatabaseError,
            Error::JwtError(_) => ErrorCode::JwtError,
            Error::FileError(_) => ErrorCode::FileError,
            Error::ReqwestError(_) => ErrorCode::ReqwestError,
            Error::FromUtf8Error(_) => ErrorCode::FromUtf8Error,
            Error::UuidError(_) => ErrorCode::UuidError,
        }
    }

    /// The text that an error carries.
    pub open spec fn spec_detail(self) -> Seq<char> {
        match self {
            Error::LogicError(s) => s@,
            Error::AxumError(s) => s@,
            Error::AxumMultipartError(s) => s@,
            Error::SerdeError(s) => s@,
            Error::ChronoTimeParseError(s) => s@,
            Error::DatabaseError(s) => s@,
            Error::JwtError(s) => s@,
            Error::FileError(s) => s@,
            Error::ReqwestError(s) => s@,
            Error::FromUtf8Error(s) => s@,
            Error::UuidError(s) => s@,
        }
    }

    /// What the message of an error starts with, by kind.
    pub open spec fn spec_prefix(self) -> Seq<char> {
        match self {
            Error::LogicError(_) => "logic error: "@,
            Error::AxumError(_) => "axum error: "@,
            Error::AxumMultipartError(_) => "axum multipart error: "@,
            Error::SerdeError(_) => "serde error ("@,
            Error::ChronoTimeParseError(_) => "chrono error ("@,
            Error::DatabaseError(_) => "database error ("@,
            Error::JwtError(_) => "jwt error ("@,
            Error::FileError(_) => "file error: "@,
            Error::ReqwestError(_) => "file error: "@,
            Error::FromUtf8Error(_) => "from utf8 error: "@,
            Error::UuidError(_) => "uuid error: "@,
        }
    }

    /// The message of an error: its prefix, then the text it carries.
    pub open spec fn spec_message(self) -> Seq<char> {
        self.spec_prefix() + self.spec_detail()
    }

    /// The code of this error.
    pub fn code(&self) -> (r: ErrorCode)
        ensures
            r == self.spec_code(),
    {
        match self {
            Error::LogicError(_) => ErrorCode::LogicError,
            Error::AxumError(_) => ErrorCode::AxumError,
            Error::AxumMultipartError(_) => ErrorCode::AxumMultipartError,
            Error::SerdeError(_) => ErrorCode::SerdeError,
            Error::ChronoTimeParseError(_) => ErrorCode::ChronoTimeParseError,
            Error::DatabaseError(_) => ErrorCode::DatabaseError,
            Error::JwtError(_) => ErrorCode::JwtError,
            Error::FileError(_) => ErrorCode::FileError,
            Error::ReqwestError(_) => ErrorCode::ReqwestError,
            Error::FromUtf8Error(_) => ErrorCode::FromUtf8Error,
            Error::UuidError(_) => ErrorCode::UuidError,
        }
    }

    /// A logic error with the message `msg`.
    pub fn logic_error(msg: &str) -> (r: Error)
        ensures
            r is LogicError,
            r.spec_detail() == msg@,
    {
        Error::LogicError(String::from_str(msg))
    }

    /// The message of this error, such as `logic error: file size not known`.
    pub fn to_string(&self) -> (r: String)
        ensures
            r@ == self.spec_message(),
    {
        let (prefix, detail) = match self {
            Error::LogicError(s) => ("logic error: ", s),
            Error::AxumError(s) => ("axum error: ", s),
            Error::AxumMultipartError(s) => ("axum multipart error: ", s),
            Error::SerdeError(s) => ("serde error (", s),
            Error::ChronoTimeParseError(s) => ("chrono error (", s),
            Error::DatabaseError(s) => ("database error (", s),
            Error::JwtError(s) => ("jwt error (", s),
            Error::FileError(s) => ("file error: ", s),
            Error::ReqwestError(s) => ("file error: ", s),
            Error::FromUtf8Error(s) => ("from utf8 error: ", s),
            Error::UuidError(s) => ("uuid error: ", s),
        };
        let mut r = String::from_str(prefix);
        r.append(detail.as_str());
        r
    }
}

/// Each kind of error is answered with the code of its own name, whatever
/// text it carries: the code's name is the variant's name and its number is
/// the code's place in `ErrorCode`.
pub proof fn lemma_error_code_by_kind(s: String)
    ensures
        Error::LogicError(s).spec_code() == ErrorCode::LogicError,
        Error::LogicError(s).spec_code().spec_value() == 1,
        Error::AxumError(s).spec_code() == ErrorCode::AxumError,
        Error::AxumError(s).spec_code().spec_value() == 2,
        Error::AxumMultipartError(s).spec_code() == ErrorCode::AxumMultipartError,
        Error::AxumMultipartError(s).spec_code().spec_value() == 3,
        Error::SerdeError(s).spec_code() == ErrorCode::SerdeError,
        Error::SerdeError(s).spec_code().spec_value() == 4,
        Error::ChronoTimeParseError(s).spec_code() == ErrorCode::ChronoTimeParseError,
        Error::ChronoTimeParseError(s).spec_code().spec_value() == 5,
        Error::DatabaseError(s).spec_code() == ErrorCode::DatabaseError,
        Error::DatabaseError(s).spec_code().spec_value() == 6,
        Error::JwtError(s).spec_code() == ErrorCode::JwtError,
        Error::JwtError(s).spec_code().spec_value() == 7,
        Error::FileError(s).spec_code() == ErrorCode::FileError,
        Error::FileError(s).spec_code().spec_value() == 8,
        Error::ReqwestError(s).spec_code() == ErrorCode::ReqwestError,
        Error::ReqwestError(s).spec_code().spec_value() == 9,
        Error::ReqwestError(s).spec_code().spec_name() == "ReqwestError"@,
        Error::FromUtf8Error(s).spec_code() == ErrorCode::FromUtf8Error,
        Error::FromUtf8Error(s).spec_code().spec_value() == 10,
        Error::UuidError(s).spec_code() == ErrorCode::UuidError,
        Error::UuidError(s).spec_code().spec_value() == 11,
{
}

/// Two errors share a code only if they are of the same kind, so a client
/// can tell the kind of an error from the code it is answered with; no error
/// is answered with the code of success.
pub proof fn lemma_code_tells_kind(a: Error, b: Error)
    requires
        a.spec_code().spec_value() == b.spec_code().spec_value(),
    ensures
        a is LogicError <==> b is LogicError,
        a is AxumError <==> b is AxumError,
        a is AxumMultipartError <==> b is AxumMultipartError,
        a is SerdeError <==> b is SerdeError,
        a is ChronoTimeParseError <==> b is ChronoTimeParseError,
        a is DatabaseError <==> b is DatabaseError,
        a is JwtError <==> b is JwtError,
        a is FileError <==> b is FileError,
        a is ReqwestError <==> b is ReqwestError,
        a is FromUtf8Error <==> b is FromUtf8Error,
        a is UuidError <==> b is UuidError,
        a.spec_code().spec_value() != 0,
{
}

} // verus!
