use matrix_api::api::{
    classify, classify_failure, errcode_as_str, errcode_from_str, reason_phrase, ApiError, Kind,
    MatrixErrorCode, RawOutcome, TransportFailure,
};
use matrix_api::json::Json;

fn response(status: u16, body: &str) -> RawOutcome {
    RawOutcome::Response { status, body: body.to_string() }
}

#[test]
fn payload_classifies_as_response_never_http() {
    let outcome = response(403, "{\"errcode\":\"M_FORBIDDEN\",\"error\":\"Invalid password\"}");
    match classify(&outcome) {
        ApiError::Response(status, payload) => {
            assert_eq!(status, 403);
            assert_eq!(payload.code, MatrixErrorCode::Forbidden);
            assert_eq!(payload.message, "Invalid password");
            assert!(payload.params.is_empty());
        }
        other => panic!("expected Response, got {:?}", other),
    }
}

#[test]
fn payload_extra_members_are_kept_as_params() {
    let outcome = response(
        429,
        "{\"errcode\":\"M_LIMIT_EXCEEDED\",\"error\":\"Too fast\",\"retry_after_ms\":2000}",
    );
    match classify(&outcome) {
        ApiError::Response(status, payload) => {
            assert_eq!(status, 429);
            assert_eq!(payload.code, MatrixErrorCode::LimitExceeded);
            assert_eq!(payload.message, "Too fast");
            assert_eq!(payload.params, vec![("retry_after_ms".to_string(), Json::Int(2000))]);
        }
        other => panic!("expected Response, got {:?}", other),
    }
}

#[test]
fn non_json_body_classifies_as_http() {
    let outcome = response(500, "<html>boom</html>");
    assert_eq!(
        classify(&outcome),
        ApiError::Http(500, Some("Internal Server Error".to_string()))
    );
}

#[test]
fn json_body_without_error_members_classifies_as_http() {
    let outcome = response(404, "{\"foo\":1}");
    assert_eq!(classify(&outcome), ApiError::Http(404, Some("Not Found".to_string())));
}

#[test]
fn status_without_canonical_reason_gives_none() {
    let outcome = response(599, "");
    assert_eq!(classify(&outcome), ApiError::Http(599, None));
}

#[test]
fn payload_with_non_string_error_member_falls_back_to_http() {
    let outcome = response(400, "{\"errcode\":\"M_BAD_JSON\",\"error\":17}");
    assert_eq!(classify(&outcome), ApiError::Http(400, Some("Bad Request".to_string())));
}

#[test]
fn transport_failures_map_by_tag() {
    assert_eq!(
        classify(&RawOutcome::Failure(TransportFailure::ConnectionError)),
        ApiError::Network { kind: Kind::Http, message: "HTTP error occured".to_string() }
    );
    assert_eq!(
        classify(&RawOutcome::Failure(TransportFailure::RedirectLoop)),
        ApiError::Network { kind: Kind::Redirect, message: "Redirect loop".to_string() }
    );
    assert_eq!(
        classify(&RawOutcome::Failure(TransportFailure::Timeout)),
        ApiError::Network {
            kind: Kind::Timeout,
            message: "Network request timed out".to_string()
        }
    );
    assert_eq!(
        classify(&RawOutcome::Failure(TransportFailure::EncodingError)),
        ApiError::Serialization
    );
    assert_eq!(classify(&RawOutcome::Failure(TransportFailure::Other)), ApiError::Unknown);
    assert_eq!(
        classify_failure(&TransportFailure::Timeout),
        ApiError::Network {
            kind: Kind::Timeout,
            message: "Network request timed out".to_string()
        }
    );
}

#[test]
fn recognized_errcodes_decode_to_their_variant() {
    assert_eq!(errcode_from_str("M_FORBIDDEN"), MatrixErrorCode::Forbidden);
    assert_eq!(errcode_from_str("M_UNKNOWN_TOKEN"), MatrixErrorCode::UnknownToken);
    assert_eq!(errcode_from_str("M_LIMIT_EXCEEDED"), MatrixErrorCode::LimitExceeded);
    assert_eq!(
        errcode_from_str("M_CANNOT_LEAVE_SERVER_NOTICE_ROOM"),
        MatrixErrorCode::CannotLeaveServerNoticeRoom
    );
}

#[test]
fn unknown_errcode_decodes_to_unrecognized_not_failure() {
    assert_eq!(errcode_from_str("M_SOMETHING_NEW"), MatrixErrorCode::Unrecognized);
    assert_eq!(errcode_from_str(""), MatrixErrorCode::Unrecognized);
    assert_eq!(errcode_from_str("forbidden"), MatrixErrorCode::Unrecognized);
}

#[test]
fn errcode_table_round_trips() {
    let codes = vec![
        MatrixErrorCode::Forbidden,
        MatrixErrorCode::UnknownToken,
        MatrixErrorCode::MissingToken,
        MatrixErrorCode::BadJson,
        MatrixErrorCode::NotJson,
        MatrixErrorCode::NotFound,
        MatrixErrorCode::LimitExceeded,
        MatrixErrorCode::Unknown,
        MatrixErrorCode::Unrecognized,
        MatrixErrorCode::Unauthorised,
        MatrixErrorCode::UserDeactivated,
        MatrixErrorCode::UserInUse,
        MatrixErrorCode::InvalidUsername,
        MatrixErrorCode::RoomInUse,
        MatrixErrorCode::InvalidRoomState,
        MatrixErrorCode::ThreepidInUse,
        MatrixErrorCode::ThreepidNotFound,
        MatrixErrorCode::ThreepidAuthFailed,
        MatrixErrorCode::ThreepidDenied,
        MatrixErrorCode::ServerNotTrusted,
        MatrixErrorCode::UnsupportedRoomVersion,
        MatrixErrorCode::IncompatibleRoomVersion,
        MatrixErrorCode::BadState,
        MatrixErrorCode::GuestAccessForbidden,
        MatrixErrorCode::CaptchaNeeded,
        MatrixErrorCode::CaptchaInvalid,
        MatrixErrorCode::MissingParam,
        MatrixErrorCode::InvalidParam,
        MatrixErrorCode::TooLarge,
        MatrixErrorCode::Exclusive,
        MatrixErrorCode::ResourceLimitExceeded,
        MatrixErrorCode::CannotLeaveServerNoticeRoom,
    ];
    for code in codes {
        assert_eq!(errcode_from_str(errcode_as_str(&code)), code);
    }
}

#[test]
fn reason_phrases_match_the_canonical_table() {
    assert_eq!(reason_phrase(100), Some("Continue"));
    assert_eq!(reason_phrase(200), Some("OK"));
    assert_eq!(reason_phrase(401), Some("Unauthorized"));
    assert_eq!(reason_phrase(418), Some("I'm a teapot"));
    assert_eq!(reason_phrase(511), Some("Network Authentication Required"));
    assert_eq!(reason_phrase(0), None);
    assert_eq!(reason_phrase(306), None);
    assert_eq!(reason_phrase(65535), None);
}

#[test]
fn messages_render_from_the_tag_alone() {
    let net = ApiError::Network { kind: Kind::Redirect, message: "Redirect loop".to_string() };
    assert_eq!(net.message(), "Network error occurred: Redirect loop");
    assert_eq!(ApiError::Http(404, None).message(), "Http error: 404");
    assert_eq!(ApiError::Serialization.message(), "Serialization error occured");
    assert_eq!(ApiError::Unknown.message(), "Unknown error occured");
    let outcome = RawOutcome::Response {
        status: 403,
        body: "{\"errcode\":\"M_FORBIDDEN\",\"error\":\"nope\"}".to_string(),
    };
    assert_eq!(classify(&outcome).message(), "Response error: nope");
}
