use taitan::error::{Error, ErrorCode};
use taitan::response::{ApiResponse, ApiResponseSerialized, ApiSuccess, ApiSuccessOpt};

#[test]
fn error_code_values_and_names() {
    let all = [
        ErrorCode::Success,
        ErrorCode::LogicError,
        ErrorCode::AxumError,
        ErrorCode::AxumMultipartError,
        ErrorCode::SerdeError,
        ErrorCode::ChronoTimeParseError,
        ErrorCode::DatabaseError,
        ErrorCode::JwtError,
        ErrorCode::FileError,
        ErrorCode::ReqwestError,
        ErrorCode::FromUtf8Error,
        ErrorCode::UuidError,
    ];
    for (i, c) in all.iter().enumerate() {
        assert_eq!(c.value() as usize, i);
        assert_eq!(c.name(), format!("{:?}", c));
    }
}

#[test]
fn error_codes_and_messages() {
    let e = Error::logic_error("file size not known");
    assert_eq!(e.code(), ErrorCode::LogicError);
    assert_eq!(e.to_string(), "logic error: file size not known");
    assert_eq!(Error::SerdeError("Eof".to_string()).to_string(), "serde error (Eof");
    assert_eq!(Error::ReqwestError("x".to_string()).to_string(), "file error: x");
    assert_eq!(Error::UuidError("bad".to_string()).code().value(), 11);
    assert_eq!(Error::FileError("io".to_string()).code(), ErrorCode::FileError);
}

#[test]
fn response_constructors() {
    assert_eq!(
        ApiResponse::success(7),
        ApiResponse::Success(ApiSuccess { success: true, data: 7 })
    );
    assert_eq!(
        ApiResponse::success_opt(None::<u8>),
        ApiResponse::SuccessOpt(ApiSuccessOpt { success: true, data: None })
    );
    match ApiResponse::<u8>::success_array(&[1u8, 2, 3]) {
        ApiResponse::SuccessArray(a) => {
            assert!(a.success);
            assert_eq!(a.data, vec![1, 2, 3]);
        }
        _ => panic!("expected an array"),
    }
    match ApiResponse::<()>::failure(4, "bad json") {
        ApiResponse::Failure(f) => {
            assert!(!f.success);
            assert_eq!(f.err_code, 4);
            assert_eq!(f.err_msg, "bad json");
        }
        _ => panic!("expected a failure"),
    }
}

#[test]
fn response_from_error_and_results() {
    match ApiResponse::<u8>::from_error(Error::logic_error("denied")) {
        ApiResponse::Failure(f) => {
            assert_eq!(f.err_code, 1);
            assert_eq!(f.err_msg, "logic error: denied");
        }
        _ => panic!("expected a failure"),
    }
    assert_eq!(ApiResponse::from_result(Ok(3)), ApiResponse::success(3));
    assert!(matches!(
        ApiResponse::<u8>::from_result(Err(Error::JwtError("e".to_string()))),
        ApiResponse::Failure(f) if f.err_code == 7 && f.err_msg == "jwt error (e"
    ));
    assert_eq!(
        ApiResponse::from_result_option(Ok(Some(1))),
        ApiResponse::success_opt(Some(1))
    );
    assert!(matches!(
        ApiResponse::from_result_vec(Ok(vec![5, 6])),
        ApiResponse::SuccessArray(a) if a.data == vec![5, 6]
    ));
    let slice: &[u8] = &[9];
    assert!(matches!(
        ApiResponse::from_result_slice(Ok(slice)),
        ApiResponse::SuccessArray(a) if a.data == vec![9]
    ));
    assert_eq!(ApiResponse::from_value("v"), ApiResponse::success("v"));
    assert_eq!(ApiResponse::from_ref(&2), ApiResponse::success(2));
    assert_eq!(ApiResponse::from_option(Some(1)), ApiResponse::success_opt(Some(1)));
}

#[test]
fn serialized_status_codes() {
    let ok = ApiResponse::success(1);
    let s = ok.to_json(Some("{\"success\":true,\"data\":1}".to_string()));
    assert_eq!(s.status_code(), 200);
    assert_eq!(s.into_content(), "{\"success\":true,\"data\":1}");
    let failed = ok.to_json(None);
    assert_eq!(failed.status_code(), 500);
    assert_eq!(
        failed.into_content(),
        r#"{ "success": false, "errCode": "SerializeError"  "errMsg": "ApiResponse serialize error" }"#
    );
    let f = ApiResponse::<u8>::failure(1, "m");
    let fs = f.to_json(Some("{}".to_string()));
    assert_eq!(fs, ApiResponseSerialized::Failure("{}".to_string()));
    assert_eq!(fs.status_code(), 500);
}
