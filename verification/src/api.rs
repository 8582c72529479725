//! The unified error taxonomy, and the classifier that maps every raw
//! transport outcome into it.
//!
//! The classifier is the only place that interprets HTTP status codes and
//! decodes protocol-error bodies. It always prefers the most specific
//! variant: a recognized protocol-error payload gives `Response`, any other
//! body on a non-success status gives `Http`, a failed exchange gives
//! `Network`, `Serialization` or `Unknown` according to the transport's tag.

use vstd::prelude::*;
use vstd::string::StringExecFns;

use crate::json::{
    dec_nat, get_str, json_of, obj_str, parse_json, str_eq, Json,
};

verus! {

/// What kind of network-level failure a `Network` error reports.
#[derive(Clone, Copy, Debug, PartialEq, Eq, Structural)]
pub enum Kind {
    Http,
    Redirect,
    Timeout,
}

/// The tag under which the transport reports a failed exchange: the request
/// could not be built or sent, too many redirects were followed, the
/// exchange timed out, or the reply could not be read as expected.
/// `Other` covers a failure the transport cannot attribute.
#[derive(Clone, Copy, Debug, PartialEq, Eq, Structural)]
pub enum TransportFailure {
    ConnectionError,
    RedirectLoop,
    Timeout,
    EncodingError,
    Other,
}

/// What one HTTP round trip produced: a status code with the body text, or
/// a transport failure.
#[derive(Debug, PartialEq)]
pub enum RawOutcome {
    Response { status: u16, body: String },
    Failure(TransportFailure),
}

/// The closed set of protocol error codes. A code outside this set decodes
/// to `Unrecognized`: protocol-error payloads are forward-extensible, so an
/// unknown code must not fail the decode.
#[derive(Clone, Copy, Debug, PartialEq, Eq, Structural)]
pub enum MatrixErrorCode {
    Forbidden,
    UnknownToken,
    MissingToken,
    BadJson,
    NotJson,
    NotFound,
    LimitExceeded,
    Unknown,
    Unrecognized,
    Unauthorised,
    UserDeactivated,
    UserInUse,
    InvalidUsername,
    RoomInUse,
    InvalidRoomState,
    ThreepidInUse,
    ThreepidNotFound,
    ThreepidAuthFailed,
    ThreepidDenied,
    ServerNotTrusted,
    UnsupportedRoomVersion,
    IncompatibleRoomVersion,
    BadState,
    GuestAccessForbidden,
    CaptchaNeeded,
    CaptchaInvalid,
    MissingParam,
    InvalidParam,
    TooLarge,
    Exclusive,
    ResourceLimitExceeded,
    CannotLeaveServerNoticeRoom,
}

/// A decoded protocol-error payload: the machine-readable code, the human
/// message, and whatever extra members the body carried.
#[derive(Debug, PartialEq)]
pub struct MatrixErrorResponse {
    pub code: MatrixErrorCode,
    pub message: String,
    pub params: Vec<(String, Json)>,
}

/// The sole error type surfaced to callers, one tag per failure channel.
/// No variant nests a cause chain: underlying parse and transport errors
/// are summarized, not preserved.
#[derive(Debug, PartialEq)]
pub enum ApiError {
    Network { kind: Kind, message: String },
    Http(u16, Option<String>),
    Response(u16, MatrixErrorResponse),
    Serialization,
    Unknown,
}

// ---------------------------------------------------------------------------
// The error-code table.
// ---------------------------------------------------------------------------

/// The wire text of each error code.
pub open spec fn errcode_text(c: MatrixErrorCode) -> Seq<char> {
    match c {
        MatrixErrorCode::Forbidden => "M_FORBIDDEN"@,
        MatrixErrorCode::UnknownToken => "M_UNKNOWN_TOKEN"@,
        MatrixErrorCode::MissingToken => "M_MISSING_TOKEN"@,
        MatrixErrorCode::BadJson => "M_BAD_JSON"@,
        MatrixErrorCode::NotJson => "M_NOT_JSON"@,
        MatrixErrorCode::NotFound => "M_NOT_FOUND"@,
        MatrixErrorCode::LimitExceeded => "M_LIMIT_EXCEEDED"@,
        MatrixErrorCode::Unknown => "M_UNKNOWN"@,
        MatrixErrorCode::Unrecognized => "M_UNRECOGNIZED"@,
        MatrixErrorCode::Unauthorised => "M_UNAUTHORIZED"@,
        MatrixErrorCode::UserDeactivated => "M_USER_DEACTIVATED"@,
        MatrixErrorCode::UserInUse => "M_USER_IN_USE"@,
        MatrixErrorCode::InvalidUsername => "M_INVALID_USERNAME"@,
        MatrixErrorCode::RoomInUse => "M_ROOM_IN_USE"@,
        MatrixErrorCode::InvalidRoomState => "M_INVALID_ROOM_STATE"@,
        MatrixErrorCode::ThreepidInUse => "M_THREEPID_IN_USE"@,
        MatrixErrorCode::ThreepidNotFound => "M_THREEPID_NOT_FOUND"@,
        MatrixErrorCode::ThreepidAuthFailed => "M_THREEPID_AUTH_FAILED"@,
        MatrixErrorCode::ThreepidDenied => "M_THREEPID_DENIED"@,
        MatrixErrorCode::ServerNotTrusted => "M_SERVER_NOT_TRUSTED"@,
        MatrixErrorCode::UnsupportedRoomVersion => "M_UNSUPPORTED_ROOM_VERSION"@,
        MatrixErrorCode::IncompatibleRoomVersion => "M_INCOMPATIBLE_ROOM_VERSION"@,
        MatrixErrorCode::BadState => "M_BAD_STATE"@,
        MatrixErrorCode::GuestAccessForbidden => "M_GUEST_ACCESS_FORBIDDEN"@,
        MatrixErrorCode::CaptchaNeeded => "M_CAPTCHA_NEEDED"@,
        MatrixErrorCode::CaptchaInvalid => "M_CAPTCHA_INVALID"@,
        MatrixErrorCode::MissingParam => "M_MISSING_PARAM"@,
        MatrixErrorCode::InvalidParam => "M_INVALID_PARAM"@,
        MatrixErrorCode::TooLarge => "M_TOO_LARGE"@,
        MatrixErrorCode::Exclusive => "M_EXCLUSIVE"@,
        MatrixErrorCode::ResourceLimitExceeded => "M_RESOURCE_LIMIT_EXCEEDED"@,
        MatrixErrorCode::CannotLeaveServerNoticeRoom => "M_CANNOT_LEAVE_SERVER_NOTICE_ROOM"@,
    }
}

/// The wire text of each error code.
pub fn errcode_as_str(c: &MatrixErrorCode) -> (s: &'static str)
    ensures
        s@ == errcode_text(*c),
{
    match c {
        MatrixErrorCode::Forbidden => "M_FORBIDDEN",
        MatrixErrorCode::UnknownToken => "M_UNKNOWN_TOKEN",
        MatrixErrorCode::MissingToken => "M_MISSING_TOKEN",
        MatrixErrorCode::BadJson => "M_BAD_JSON",
        MatrixErrorCode::NotJson => "M_NOT_JSON",
        MatrixErrorCode::NotFound => "M_NOT_FOUND",
        MatrixErrorCode::LimitExceeded => "M_LIMIT_EXCEEDED",
        MatrixErrorCode::Unknown => "M_UNKNOWN",
        MatrixErrorCode::Unrecognized => "M_UNRECOGNIZED",
        MatrixErrorCode::Unauthorised => "M_UNAUTHORIZED",
        MatrixErrorCode::UserDeactivated => "M_USER_DEACTIVATED",
        MatrixErrorCode::UserInUse => "M_USER_IN_USE",
        MatrixErrorCode::InvalidUsername => "M_INVALID_USERNAME",
        MatrixErrorCode::RoomInUse => "M_ROOM_IN_USE",
        MatrixErrorCode::InvalidRoomState => "M_INVALID_ROOM_STATE",
        MatrixErrorCode::ThreepidInUse => "M_THREEPID_IN_USE",
        MatrixErrorCode::ThreepidNotFound => "M_THREEPID_NOT_FOUND",
        MatrixErrorCode::ThreepidAuthFailed => "M_THREEPID_AUTH_FAILED",
        MatrixErrorCode::ThreepidDenied => "M_THREEPID_DENIED",
        MatrixErrorCode::ServerNotTrusted => "M_SERVER_NOT_TRUSTED",
        MatrixErrorCode::UnsupportedRoomVersion => "M_UNSUPPORTED_ROOM_VERSION",
        MatrixErrorCode::IncompatibleRoomVersion => "M_INCOMPATIBLE_ROOM_VERSION",
        MatrixErrorCode::BadState => "M_BAD_STATE",
        MatrixErrorCode::GuestAccessForbidden => "M_GUEST_ACCESS_FORBIDDEN",
        MatrixErrorCode::CaptchaNeeded => "M_CAPTCHA_NEEDED",
        MatrixErrorCode::CaptchaInvalid => "M_CAPTCHA_INVALID",
        MatrixErrorCode::MissingParam => "M_MISSING_PARAM",
        MatrixErrorCode::InvalidParam => "M_INVALID_PARAM",
        MatrixErrorCode::TooLarge => "M_TOO_LARGE",
        MatrixErrorCode::Exclusive => "M_EXCLUSIVE",
        MatrixErrorCode::ResourceLimitExceeded => "M_RESOURCE_LIMIT_EXCEEDED",
        MatrixErrorCode::CannotLeaveServerNoticeRoom => "M_CANNOT_LEAVE_SERVER_NOTICE_ROOM",
    }
}

/// The error code that a wire text names, if it is in the known set.
pub open spec fn errcode_of(s: Seq<char>) -> Option<MatrixErrorCode> {
    if s == "M_FORBIDDEN"@ {
        Some(MatrixErrorCode::Forbidden)
    } else if s == "M_UNKNOWN_TOKEN"@ {
        Some(MatrixErrorCode::UnknownToken)
    } else if s == "M_MISSING_TOKEN"@ {
        Some(MatrixErrorCode::MissingToken)
    } else if s == "M_BAD_JSON"@ {
        Some(MatrixErrorCode::BadJson)
    } else if s == "M_NOT_JSON"@ {
        Some(MatrixErrorCode::NotJson)
    } else if s == "M_NOT_FOUND"@ {
        Some(MatrixErrorCode::NotFound)
    } else if s == "M_LIMIT_EXCEEDED"@ {
        Some(MatrixErrorCode::LimitExceeded)
    } else if s == "M_UNKNOWN"@ {
        Some(MatrixErrorCode::Unknown)
    } else if s == "M_UNRECOGNIZED"@ {
        Some(MatrixErrorCode::Unrecognized)
    } else if s == "M_UNAUTHORIZED"@ {
        Some(MatrixErrorCode::Unauthorised)
    } else if s == "M_USER_DEACTIVATED"@ {
        Some(MatrixErrorCode::UserDeactivated)
    } else if s == "M_USER_IN_USE"@ {
        Some(MatrixErrorCode::UserInUse)
    } else if s == "M_INVALID_USERNAME"@ {
        Some(MatrixErrorCode::InvalidUsername)
    } else if s == "M_ROOM_IN_USE"@ {
        Some(MatrixErrorCode::RoomInUse)
    } else if s == "M_INVALID_ROOM_STATE"@ {
        Some(MatrixErrorCode::InvalidRoomState)
    } else if s == "M_THREEPID_IN_USE"@ {
        Some(MatrixErrorCode::ThreepidInUse)
    } else if s == "M_THREEPID_NOT_FOUND"@ {
        Some(MatrixErrorCode::ThreepidNotFound)
    } else if s == "M_THREEPID_AUTH_FAILED"@ {
        Some(MatrixErrorCode::ThreepidAuthFailed)
    } else if s == "M_THREEPID_DENIED"@ {
        Some(MatrixErrorCode::ThreepidDenied)
    } else if s == "M_SERVER_NOT_TRUSTED"@ {
        Some(MatrixErrorCode::ServerNotTrusted)
    } else if s == "M_UNSUPPORTED_ROOM_VERSION"@ {
        Some(MatrixErrorCode::UnsupportedRoomVersion)
    } else if s == "M_INCOMPATIBLE_ROOM_VERSION"@ {
        Some(MatrixErrorCode::IncompatibleRoomVersion)
    } else if s == "M_BAD_STATE"@ {
        Some(MatrixErrorCode::BadState)
    } else if s == "M_GUEST_ACCESS_FORBIDDEN"@ {
        Some(MatrixErrorCode::GuestAccessForbidden)
    } else if s == "M_CAPTCHA_NEEDED"@ {
        Some(MatrixErrorCode::CaptchaNeeded)
    } else if s == "M_CAPTCHA_INVALID"@ {
        Some(MatrixErrorCode::CaptchaInvalid)
    } else if s == "M_MISSING_PARAM"@ {
        Some(MatrixErrorCode::MissingParam)
    } else if s == "M_INVALID_PARAM"@ {
        Some(MatrixErrorCode::InvalidParam)
    } else if s == "M_TOO_LARGE"@ {
        Some(MatrixErrorCode::TooLarge)
    } else if s == "M_EXCLUSIVE"@ {
        Some(MatrixErrorCode::Exclusive)
    } else if s == "M_RESOURCE_LIMIT_EXCEEDED"@ {
        Some(MatrixErrorCode::ResourceLimitExceeded)
    } else if s == "M_CANNOT_LEAVE_SERVER_NOTICE_ROOM"@ {
        Some(MatrixErrorCode::CannotLeaveServerNoticeRoom)
    } else {
        None
    }
}

/// How an `errcode` member decodes: the matching code, or `Unrecognized`
/// for a text outside the known set.
pub open spec fn decode_errcode(s: Seq<char>) -> MatrixErrorCode {
    match errcode_of(s) {
        Some(c) => c,
        None => MatrixErrorCode::Unrecognized,
    }
}

/// Decode an `errcode` member. A text outside the known set yields
/// `Unrecognized` rather than a failure.
pub fn errcode_from_str(s: &str) -> (c: MatrixErrorCode)
    ensures
        c == decode_errcode(s@),
{
    if str_eq(s, "M_FORBIDDEN") {
        MatrixErrorCode::Forbidden
    } else if str_eq(s, "M_UNKNOWN_TOKEN") {
        MatrixErrorCode::UnknownToken
    } else if str_eq(s, "M_MISSING_TOKEN") {
        MatrixErrorCode::MissingToken
    } else if str_eq(s, "M_BAD_JSON") {
        MatrixErrorCode::BadJson
    } else if str_eq(s, "M_NOT_JSON") {
        MatrixErrorCode::NotJson
    } else if str_eq(s, "M_NOT_FOUND") {
        MatrixErrorCode::NotFound
    } else if str_eq(s, "M_LIMIT_EXCEEDED") {
        MatrixErrorCode::LimitExceeded
    } else if str_eq(s, "M_UNKNOWN") {
        MatrixErrorCode::Unknown
    } else if str_eq(s, "M_UNRECOGNIZED") {
        MatrixErrorCode::Unrecognized
    } else if str_eq(s, "M_UNAUTHORIZED") {
        MatrixErrorCode::Unauthorised
    } else if str_eq(s, "M_USER_DEACTIVATED") {
        MatrixErrorCode::UserDeactivated
    } else if str_eq(s, "M_USER_IN_USE") {
        MatrixErrorCode::UserInUse
    } else if str_eq(s, "M_INVALID_USERNAME") {
        MatrixErrorCode::InvalidUsername
    } else if str_eq(s, "M_ROOM_IN_USE") {
        MatrixErrorCode::RoomInUse
    } else if str_eq(s, "M_INVALID_ROOM_STATE") {
        MatrixErrorCode::InvalidRoomState
    } else if str_eq(s, "M_THREEPID_IN_USE") {
        MatrixErrorCode::ThreepidInUse
    } else if str_eq(s, "M_THREEPID_NOT_FOUND") {
        MatrixErrorCode::ThreepidNotFound
    } else if str_eq(s, "M_THREEPID_AUTH_FAILED") {
        MatrixErrorCode::ThreepidAuthFailed
    } else if str_eq(s, "M_THREEPID_DENIED") {
        MatrixErrorCode::ThreepidDenied
    } else if str_eq(s, "M_SERVER_NOT_TRUSTED") {
        MatrixErrorCode::ServerNotTrusted
    } else if str_eq(s, "M_UNSUPPORTED_ROOM_VERSION") {
        MatrixErrorCode::UnsupportedRoomVersion
    } else if str_eq(s, "M_INCOMPATIBLE_ROOM_VERSION") {
        MatrixErrorCode::IncompatibleRoomVersion
    } else if str_eq(s, "M_BAD_STATE") {
        MatrixErrorCode::BadState
    } else if str_eq(s, "M_GUEST_ACCESS_FORBIDDEN") {
        MatrixErrorCode::GuestAccessForbidden
    } else if str_eq(s, "M_CAPTCHA_NEEDED") {
        MatrixErrorCode::CaptchaNeeded
    } else if str_eq(s, "M_CAPTCHA_INVALID") {
        MatrixErrorCode::CaptchaInvalid
    } else if str_eq(s, "M_MISSING_PARAM") {
        MatrixErrorCode::MissingParam
    } else if str_eq(s, "M_INVALID_PARAM") {
        MatrixErrorCode::InvalidParam
    } else if str_eq(s, "M_TOO_LARGE") {
        MatrixErrorCode::TooLarge
    } else if str_eq(s, "M_EXCLUSIVE") {
        MatrixErrorCode::Exclusive
    } else if str_eq(s, "M_RESOURCE_LIMIT_EXCEEDED") {
        MatrixErrorCode::ResourceLimitExceeded
    } else if str_eq(s, "M_CANNOT_LEAVE_SERVER_NOTICE_ROOM") {
        MatrixErrorCode::CannotLeaveServerNoticeRoom
    } else {
        MatrixErrorCode::Unrecognized
    }
}

/// Every error code's wire text decodes back to that code, and no other:
/// the code table is a bijection between the known codes and their texts.


#[verifier::rlimit(60)]
pub proof fn lemma_errcode_round_trip(c: MatrixErrorCode)
    ensures
        errcode_of(errcode_text(c)) == Some(c),
        decode_errcode(errcode_text(c)) == c,
{
    reveal_strlit("M_FORBIDDEN");
    reveal_strlit("M_UNKNOWN_TOKEN");
    reveal_strlit("M_MISSING_TOKEN");
    reveal_strlit("M_BAD_JSON");
    reveal_strlit("M_NOT_JSON");
    reveal_strlit("M_NOT_FOUND");
    reveal_strlit("M_LIMIT_EXCEEDED");
    reveal_strlit("M_UNKNOWN");
    reveal_strlit("M_UNRECOGNIZED");
    reveal_strlit("M_UNAUTHORIZED");
    reveal_strlit("M_USER_DEACTIVATED");
    reveal_strlit("M_USER_IN_USE");
    reveal_strlit("M_INVALID_USERNAME");
    reveal_strlit("M_ROOM_IN_USE");
    reveal_strlit("M_INVALID_ROOM_STATE");
    reveal_strlit("M_THREEPID_IN_USE");
    reveal_strlit("M_THREEPID_NOT_FOUND");
    reveal_strlit("M_THREEPID_AUTH_FAILED");
    reveal_strlit("M_THREEPID_DENIED");
    reveal_strlit("M_SERVER_NOT_TRUSTED");
    reveal_strlit("M_UNSUPPORTED_ROOM_VERSION");
    reveal_strlit("M_INCOMPATIBLE_ROOM_VERSION");
    reveal_strlit("M_BAD_STATE");
    reveal_strlit("M_GUEST_ACCESS_FORBIDDEN");
    reveal_strlit("M_CAPTCHA_NEEDED");
    reveal_strlit("M_CAPTCHA_INVALID");
    reveal_strlit("M_MISSING_PARAM");
    reveal_strlit("M_INVALID_PARAM");
    reveal_strlit("M_TOO_LARGE");
    reveal_strlit("M_EXCLUSIVE");
    reveal_strlit("M_RESOURCE_LIMIT_EXCEEDED");
    reveal_strlit("M_CANNOT_LEAVE_SERVER_NOTICE_ROOM");
    assert("M_FORBIDDEN"@.len() == 11);
    assert("M_UNKNOWN_TOKEN"@.len() == 15);
    assert("M_MISSING_TOKEN"@.len() == 15);
    assert("M_BAD_JSON"@.len() == 10);
    assert("M_NOT_JSON"@.len() == 10);
    assert("M_NOT_FOUND"@.len() == 11);
    assert("M_LIMIT_EXCEEDED"@.len() == 16);
    assert("M_UNKNOWN"@.len() == 9);
    assert("M_UNRECOGNIZED"@.len() == 14);
    assert("M_UNAUTHORIZED"@.len() == 14);
    assert("M_USER_DEACTIVATED"@.len() == 18);
    assert("M_USER_IN_USE"@.len() == 13);
    assert("M_INVALID_USERNAME"@.len() == 18);
    assert("M_ROOM_IN_USE"@.len() == 13);
    assert("M_INVALID_ROOM_STATE"@.len() == 20);
    assert("M_THREEPID_IN_USE"@.len() == 17);
    assert("M_THREEPID_NOT_FOUND"@.len() == 20);
    assert("M_THREEPID_AUTH_FAILED"@.len() == 22);
    assert("M_THREEPID_DENIED"@.len() == 17);
    assert("M_SERVER_NOT_TRUSTED"@.len() == 20);
    assert("M_UNSUPPORTED_ROOM_VERSION"@.len() == 26);
    assert("M_INCOMPATIBLE_ROOM_VERSION"@.len() == 27);
    assert("M_BAD_STATE"@.len() == 11);
    assert("M_GUEST_ACCESS_FORBIDDEN"@.len() == 24);
    assert("M_CAPTCHA_NEEDED"@.len() == 16);
    assert("M_CAPTCHA_INVALID"@.len() == 17);
    assert("M_MISSING_PARAM"@.len() == 15);
    assert("M_INVALID_PARAM"@.len() == 15);
    assert("M_TOO_LARGE"@.len() == 11);
    assert("M_EXCLUSIVE"@.len() == 11);
    assert("M_RESOURCE_LIMIT_EXCEEDED"@.len() == 25);
    assert("M_CANNOT_LEAVE_SERVER_NOTICE_ROOM"@.len() == 33);
    assert("M_BAD_JSON"@[2] == 'B');
    assert("M_BAD_STATE"@[2] == 'B');
    assert("M_CAPTCHA_INVALID"@[2] == 'C');
    assert("M_CAPTCHA_NEEDED"@[2] == 'C');
    assert("M_EXCLUSIVE"@[2] == 'E');
    assert("M_FORBIDDEN"@[2] == 'F');
    assert("M_INVALID_PARAM"@[2] == 'I');
    assert("M_INVALID_ROOM_STATE"@[2] == 'I');
    assert("M_INVALID_USERNAME"@[2] == 'I');
    assert("M_LIMIT_EXCEEDED"@[2] == 'L');
    assert("M_MISSING_PARAM"@[2] == 'M');
    assert("M_MISSING_PARAM"@[10] == 'P');
    assert("M_MISSING_TOKEN"@[2] == 'M');
    assert("M_MISSING_TOKEN"@[10] == 'T');
    assert("M_NOT_FOUND"@[2] == 'N');
    assert("M_NOT_JSON"@[2] == 'N');
    assert("M_ROOM_IN_USE"@[2] == 'R');
    assert("M_SERVER_NOT_TRUSTED"@[2] == 'S');
    assert("M_THREEPID_DENIED"@[2] == 'T');
    assert("M_THREEPID_DENIED"@[11] == 'D');
    assert("M_THREEPID_IN_USE"@[2] == 'T');
    assert("M_THREEPID_IN_USE"@[11] == 'I');
    assert("M_THREEPID_NOT_FOUND"@[2] == 'T');
    assert("M_TOO_LARGE"@[2] == 'T');
    assert("M_UNAUTHORIZED"@[4] == 'A');
    assert("M_UNKNOWN_TOKEN"@[2] == 'U');
    assert("M_UNRECOGNIZED"@[4] == 'R');
    assert("M_USER_DEACTIVATED"@[2] == 'U');
    assert("M_USER_IN_USE"@[2] == 'U');    match c {
        MatrixErrorCode::Forbidden => {
            assert(errcode_of(errcode_text(c)) == Some(c));
        },
        MatrixErrorCode::UnknownToken => {
            assert(errcode_of(errcode_text(c)) == Some(c));
        },
        MatrixErrorCode::MissingToken => {
            assert(errcode_of(errcode_text(c)) == Some(c));
        },
        MatrixErrorCode::BadJson => {
            assert(errcode_of(errcode_text(c)) == Some(c));
        },
        MatrixErrorCode::NotJson => {
            assert(errcode_of(errcode_text(c)) == Some(c));
        },
        MatrixErrorCode::NotFound => {
            assert(errcode_of(errcode_text(c)) == Some(c));
        },
        MatrixErrorCode::LimitExceeded => {
            assert(errcode_of(errcode_text(c)) == Some(c));
        },
        MatrixErrorCode::Unknown => {
            assert(errcode_of(errcode_text(c)) == Some(c));
        },
        MatrixErrorCode::Unrecognized => {
            assert(errcode_of(errcode_text(c)) == Some(c));
        },
        MatrixErrorCode::Unauthorised => {
            assert(errcode_of(errcode_text(c)) == Some(c));
        },
        MatrixErrorCode::UserDeactivated => {
            assert(errcode_of(errcode_text(c)) == Some(c));
        },
        MatrixErrorCode::UserInUse => {
            assert(errcode_of(errcode_text(c)) == Some(c));
        },
        MatrixErrorCode::InvalidUsername => {
            assert(errcode_of(errcode_text(c)) == Some(c));
        },
        MatrixErrorCode::RoomInUse => {
            assert(errcode_of(errcode_text(c)) == Some(c));
        },
        MatrixErrorCode::InvalidRoomState => {
            assert(errcode_of(errcode_text(c)) == Some(c));
        },
        MatrixErrorCode::ThreepidInUse => {
            assert(errcode_of(errcode_text(c)) == Some(c));
        },
        MatrixErrorCode::ThreepidNotFound => {
            assert(errcode_of(errcode_text(c)) == Some(c));
        },
        MatrixErrorCode::ThreepidAuthFailed => {
            assert(errcode_of(errcode_text(c)) == Some(c));
        },
        MatrixErrorCode::ThreepidDenied => {
            assert(errcode_of(errcode_text(c)) == Some(c));
        },
        MatrixErrorCode::ServerNotTrusted => {
            assert(errcode_of(errcode_text(c)) == Some(c));
        },
        MatrixErrorCode::UnsupportedRoomVersion => {
            assert(errcode_of(errcode_text(c)) == Some(c));
        },
        MatrixErrorCode::IncompatibleRoomVersion => {
            assert(errcode_of(errcode_text(c)) == Some(c));
        },
        MatrixErrorCode::BadState => {
            assert(errcode_of(errcode_text(c)) == Some(c));
        },
        MatrixErrorCode::GuestAccessForbidden => {
            assert(errcode_of(errcode_text(c)) == Some(c));
        },
        MatrixErrorCode::CaptchaNeeded => {
            assert(errcode_of(errcode_text(c)) == Some(c));
        },
        MatrixErrorCode::CaptchaInvalid => {
            assert(errcode_of(errcode_text(c)) == Some(c));
        },
        MatrixErrorCode::MissingParam => {
            assert(errcode_of(errcode_text(c)) == Some(c));
        },
        MatrixErrorCode::InvalidParam => {
            assert(errcode_of(errcode_text(c)) == Some(c));
        },
        MatrixErrorCode::TooLarge => {
            assert(errcode_of(errcode_text(c)) == Some(c));
        },
        MatrixErrorCode::Exclusive => {
            assert(errcode_of(errcode_text(c)) == Some(c));
        },
        MatrixErrorCode::ResourceLimitExceeded => {
            assert(errcode_of(errcode_text(c)) == Some(c));
        },
        MatrixErrorCode::CannotLeaveServerNoticeRoom => {
            assert(errcode_of(errcode_text(c)) == Some(c));
        },
    }

}

/// A text outside the known set decodes to `Unrecognized` rather than
/// failing the decode.
pub proof fn lemma_unknown_errcode_is_unrecognized(s: Seq<char>)
    requires
        errcode_of(s) is None,
    ensures
        decode_errcode(s) == MatrixErrorCode::Unrecognized,
{
}

// ---------------------------------------------------------------------------
// Canonical reason phrases.
// ---------------------------------------------------------------------------

/// The canonical reason phrase of an HTTP status code, if it has one.
pub open spec fn reason_text(status: u16) -> Option<Seq<char>> {
    if status == 100 {
        Some("Continue"@)
    } else if status == 101 {
        Some("Switching Protocols"@)
    } else if status == 102 {
        Some("Processing"@)
    } else if status == 200 {
        Some("OK"@)
    } else if status == 201 {
        Some("Created"@)
    } else if status == 202 {
        Some("Accepted"@)
    } else if status == 203 {
        Some("Non Authoritative Information"@)
    } else if status == 204 {
        Some("No Content"@)
    } else if status == 205 {
        Some("Reset Content"@)
    } else if status == 206 {
        Some("Partial Content"@)
    } else if status == 207 {
        Some("Multi-Status"@)
    } else if status == 208 {
        Some("Already Reported"@)
    } else if status == 226 {
        Some("IM Used"@)
    } else if status == 300 {
        Some("Multiple Choices"@)
    } else if status == 301 {
        Some("Moved Permanently"@)
    } else if status == 302 {
        Some("Found"@)
    } else if status == 303 {
        Some("See Other"@)
    } else if status == 304 {
        Some("Not Modified"@)
    } else if status == 305 {
        Some("Use Proxy"@)
    } else if status == 307 {
        Some("Temporary Redirect"@)
    } else if status == 308 {
        Some("Permanent Redirect"@)
    } else if status == 400 {
        Some("Bad Request"@)
    } else if status == 401 {
        Some("Unauthorized"@)
    } else if status == 402 {
        Some("Payment Required"@)
    } else if status == 403 {
        Some("Forbidden"@)
    } else if status == 404 {
        Some("Not Found"@)
    } else if status == 405 {
        Some("Method Not Allowed"@)
    } else if status == 406 {
        Some("Not Acceptable"@)
    } else if status == 407 {
        Some("Proxy Authentication Required"@)
    } else if status == 408 {
        Some("Request Timeout"@)
    } else if status == 409 {
        Some("Conflict"@)
    } else if status == 410 {
        Some("Gone"@)
    } else if status == 411 {
        Some("Length Required"@)
    } else if status == 412 {
        Some("Precondition Failed"@)
    } else if status == 413 {
        Some("Payload Too Large"@)
    } else if status == 414 {
        Some("URI Too Long"@)
    } else if status == 415 {
        Some("Unsupported Media Type"@)
    } else if status == 416 {
        Some("Range Not Satisfiable"@)
    } else if status == 417 {
        Some("Expectation Failed"@)
    } else if status == 418 {
        Some("I'm a teapot"@)
    } else if status == 421 {
        Some("Misdirected Request"@)
    } else if status == 422 {
        Some("Unprocessable Entity"@)
    } else if status == 423 {
        Some("Locked"@)
    } else if status == 424 {
        Some("Failed Dependency"@)
    } else if status == 426 {
        Some("Upgrade Required"@)
    } else if status == 428 {
        Some("Precondition Required"@)
    } else if status == 429 {
        Some("Too Many Requests"@)
    } else if status == 431 {
        Some("Request Header Fields Too Large"@)
    } else if status == 451 {
        Some("Unavailable For Legal Reasons"@)
    } else if status == 500 {
        Some("Internal Server Error"@)
    } else if status == 501 {
        Some("Not Implemented"@)
    } else if status == 502 {
        Some("Bad Gateway"@)
    } else if status == 503 {
        Some("Service Unavailable"@)
    } else if status == 504 {
        Some("Gateway Timeout"@)
    } else if status == 505 {
        Some("HTTP Version Not Supported"@)
    } else if status == 506 {
        Some("Variant Also Negotiates"@)
    } else if status == 507 {
        Some("Insufficient Storage"@)
    } else if status == 508 {
        Some("Loop Detected"@)
    } else if status == 510 {
        Some("Not Extended"@)
    } else if status == 511 {
        Some("Network Authentication Required"@)
    } else {
        None
    }
}

/// The canonical reason phrase of an HTTP status code, if it has one.
pub fn reason_phrase(status: u16) -> (r: Option<&'static str>)
    ensures
        match r {
            Some(s) => reason_text(status) == Some(s@),
            None => reason_text(status) is None,
        },
{
    if status == 100 {
        Some("Continue")
    } else if status == 101 {
        Some("Switching Protocols")
    } else if status == 102 {
        Some("Processing")
    } else if status == 200 {
        Some("OK")
    } else if status == 201 {
        Some("Created")
    } else if status == 202 {
        Some("Accepted")
    } else if status == 203 {
        Some("Non Authoritative Information")
    } else if status == 204 {
        Some("No Content")
    } else if status == 205 {
        Some("Reset Content")
    } else if status == 206 {
        Some("Partial Content")
    } else if status == 207 {
        Some("Multi-Status")
    } else if status == 208 {
        Some("Already Reported")
    } else if status == 226 {
        Some("IM Used")
    } else if status == 300 {
        Some("Multiple Choices")
    } else if status == 301 {
        Some("Moved Permanently")
    } else if status == 302 {
        Some("Found")
    } else if status == 303 {
        Some("See Other")
    } else if status == 304 {
        Some("Not Modified")
    } else if status == 305 {
        Some("Use Proxy")
    } else if status == 307 {
        Some("Temporary Redirect")
    } else if status == 308 {
        Some("Permanent Redirect")
    } else if status == 400 {
        Some("Bad Request")
    } else if status == 401 {
        Some("Unauthorized")
    } else if status == 402 {
        Some("Payment Required")
    } else if status == 403 {
        Some("Forbidden")
    } else if status == 404 {
        Some("Not Found")
    } else if status == 405 {
        Some("Method Not Allowed")
    } else if status == 406 {
        Some("Not Acceptable")
    } else if status == 407 {
        Some("Proxy Authentication Required")
    } else if status == 408 {
        Some("Request Timeout")
    } else if status == 409 {
        Some("Conflict")
    } else if status == 410 {
        Some("Gone")
    } else if status == 411 {
        Some("Length Required")
    } else if status == 412 {
        Some("Precondition Failed")
    } else if status == 413 {
        Some("Payload Too Large")
    } else if status == 414 {
        Some("URI Too Long")
    } else if status == 415 {
        Some("Unsupported Media Type")
    } else if status == 416 {
        Some("Range Not Satisfiable")
    } else if status == 417 {
        Some("Expectation Failed")
    } else if status == 418 {
        Some("I'm a teapot")
    } else if status == 421 {
        Some("Misdirected Request")
    } else if status == 422 {
        Some("Unprocessable Entity")
    } else if status == 423 {
        Some("Locked")
    } else if status == 424 {
        Some("Failed Dependency")
    } else if status == 426 {
        Some("Upgrade Required")
    } else if status == 428 {
        Some("Precondition Required")
    } else if status == 429 {
        Some("Too Many Requests")
    } else if status == 431 {
        Some("Request Header Fields Too Large")
    } else if status == 451 {
        Some("Unavailable For Legal Reasons")
    } else if status == 500 {
        Some("Internal Server Error")
    } else if status == 501 {
        Some("Not Implemented")
    } else if status == 502 {
        Some("Bad Gateway")
    } else if status == 503 {
        Some("Service Unavailable")
    } else if status == 504 {
        Some("Gateway Timeout")
    } else if status == 505 {
        Some("HTTP Version Not Supported")
    } else if status == 506 {
        Some("Variant Also Negotiates")
    } else if status == 507 {
        Some("Insufficient Storage")
    } else if status == 508 {
        Some("Loop Detected")
    } else if status == 510 {
        Some("Not Extended")
    } else if status == 511 {
        Some("Network Authentication Required")
    } else {
        None
    }
}

} // verus!

// ---------------------------------------------------------------------------
// Classification.
// ---------------------------------------------------------------------------

verus! {

/// The members of `fields` other than those named `k1` or `k2`, in order.
pub open spec fn strip_keys(fields: Seq<(String, Json)>, k1: Seq<char>, k2: Seq<char>) -> Seq<
    (String, Json),
>
    decreases fields.len(),
{
    if fields.len() == 0 {
        fields
    } else {
        let rest = strip_keys(fields.drop_first(), k1, k2);
        if fields[0].0@ == k1 || fields[0].0@ == k2 {
            rest
        } else {
            seq![fields[0]] + rest
        }
    }
}

/// Split an object's members into those named `k1` or `k2` and the rest.
#[verifier::loop_isolation(false)]
fn take_extra_fields(fields: Vec<(String, Json)>, k1: &str, k2: &str) -> (r: Vec<(String, Json)>)
    ensures
        r@ == strip_keys(fields@, k1@, k2@),
{
    let ghost orig = fields@;
    let mut rest = fields;
    let mut out: Vec<(String, Json)> = Vec::new();
    while rest.len() > 0
        invariant
            strip_keys(orig, k1@, k2@) == out@ + strip_keys(rest@, k1@, k2@),
        decreases rest.len(),
    {
        let ghost before = rest@;
        let f = rest.remove(0);
        proof {
            assert(before.remove(0) =~= before.drop_first());
        }
        if !(str_eq(f.0.as_str(), k1) || str_eq(f.0.as_str(), k2)) {
            proof {
                assert(out@ + strip_keys(before, k1@, k2@) =~= out@.push(f) + strip_keys(
                    rest@,
                    k1@,
                    k2@,
                ));
            }
            out.push(f);
        }
        proof {
            assert(strip_keys(orig, k1@, k2@) == out@ + strip_keys(rest@, k1@, k2@));
        }
    }
    proof {
        assert(strip_keys(orig, k1@, k2@) =~= out@);
    }
    out
}

/// The code and message of a protocol-error payload: present exactly when
/// the value is an object whose `errcode` and `error` members are strings.
pub open spec fn error_payload_fields(j: Json) -> Option<(String, String)> {
    match j {
        Json::Obj(fields) => match (get_str(fields@, "errcode"@), get_str(fields@, "error"@)) {
            (Some(code_text), Some(message)) => Some((code_text, message)),
            _ => None,
        },
        _ => None,
    }
}

/// `e` is the bare HTTP error for `status`: the status code with its
/// canonical reason phrase, if the code has one.
pub open spec fn http_fallback(status: u16, e: ApiError) -> bool {
    &&& e matches ApiError::Http(st, reason)
    &&& st == status
    &&& match reason {
        Some(text) => reason_text(status) == Some(text@),
        None => reason_text(status) is None,
    }
}

/// `e` is the classification of a reply with this status code whose body
/// parsed as `parsed`: a protocol-error payload gives `Response` with the
/// decoded code, the message text and the remaining members; anything else
/// gives the bare HTTP error.
pub open spec fn classifies_response(status: u16, parsed: Option<Json>, e: ApiError) -> bool {
    match parsed {
        Some(j) => match error_payload_fields(j) {
            Some(fields) => {
                &&& e matches ApiError::Response(st, payload)
                &&& st == status
                &&& payload.code == decode_errcode(fields.0@)
                &&& payload.message == fields.1
                &&& payload.params@ == strip_keys(j->Obj_0@, "errcode"@, "error"@)
            },
            None => http_fallback(status, e),
        },
        None => http_fallback(status, e),
    }
}

/// `e` is the classification of a transport failure: the tag is carried
/// over, with the fixed message each tag gets.
pub open spec fn classifies_failure(f: TransportFailure, e: ApiError) -> bool {
    match f {
        TransportFailure::ConnectionError => {
            &&& e matches ApiError::Network { kind, message }
            &&& kind == Kind::Http
            &&& message@ == "HTTP error occured"@
        },
        TransportFailure::RedirectLoop => {
            &&& e matches ApiError::Network { kind, message }
            &&& kind == Kind::Redirect
            &&& message@ == "Redirect loop"@
        },
        TransportFailure::Timeout => {
            &&& e matches ApiError::Network { kind, message }
            &&& kind == Kind::Timeout
            &&& message@ == "Network request timed out"@
        },
        TransportFailure::EncodingError => e is Serialization,
        TransportFailure::Other => e is Unknown,
    }
}

/// `e` is the classification of a raw outcome — the whole classifier: a
/// transport failure maps by its tag, a reply by its status and body text.
pub open spec fn classifies(outcome: RawOutcome, e: ApiError) -> bool {
    match outcome {
        RawOutcome::Response { status, body } => classifies_response(status, json_of(body@), e),
        RawOutcome::Failure(f) => classifies_failure(f, e),
    }
}

/// The bare HTTP error for a status code.
fn http_error(status: u16) -> (e: ApiError)
    ensures
        http_fallback(status, e),
{
    match reason_phrase(status) {
        Some(text) => ApiError::Http(status, Some(text.to_owned())),
        None => ApiError::Http(status, None),
    }
}

/// Classify a reply whose body already parsed as `parsed`.
pub fn classify_response(status: u16, parsed: Option<Json>) -> (e: ApiError)
    ensures
        classifies_response(status, parsed, e),
{
    match parsed {
        Some(Json::Obj(fields)) => {
            let code_text = obj_str(&fields, "errcode");
            let message = obj_str(&fields, "error");
            match (code_text, message) {
                (Some(code_text), Some(message)) => {
                    let code = errcode_from_str(code_text.as_str());
                    let params = take_extra_fields(fields, "errcode", "error");
                    ApiError::Response(status, MatrixErrorResponse { code, message, params })
                },
                _ => http_error(status),
            }
        },
        _ => http_error(status),
    }
}

/// Classify a transport failure.
pub fn classify_failure(f: &TransportFailure) -> (e: ApiError)
    ensures
        classifies_failure(*f, e),
{
    match f {
        TransportFailure::ConnectionError => ApiError::Network {
            kind: Kind::Http,
            message: String::from_str("HTTP error occured"),
        },
        TransportFailure::RedirectLoop => ApiError::Network {
            kind: Kind::Redirect,
            message: String::from_str("Redirect loop"),
        },
        TransportFailure::Timeout => ApiError::Network {
            kind: Kind::Timeout,
            message: String::from_str("Network request timed out"),
        },
        TransportFailure::EncodingError => ApiError::Serialization,
        TransportFailure::Other => ApiError::Unknown,
    }
}

/// The error classifier: produce the one taxonomy value that describes a
/// raw outcome. It tries the protocol-error payload before falling back to
/// a bare HTTP error, and never downgrades a specific failure to `Unknown`.
pub fn classify(outcome: &RawOutcome) -> (e: ApiError)
    ensures
        classifies(*outcome, e),
{
    match outcome {
        RawOutcome::Response { status, body } => {
            let parsed = parse_json(body.as_str());
            classify_response(*status, parsed)
        },
        RawOutcome::Failure(f) => classify_failure(f),
    }
}

impl ApiError {
    /// A short human-readable rendering, derived from the tag alone.
    pub fn message(&self) -> (m: String)
        ensures
            match *self {
                ApiError::Network { kind, message } => m@ == "Network error occurred: "@
                    + message@,
                ApiError::Http(status, _) => m@ == "Http error: "@ + dec_nat(status as nat),
                ApiError::Response(_, payload) => m@ == "Response error: "@ + payload.message@,
                ApiError::Serialization => m@ == "Serialization error occured"@,
                ApiError::Unknown => m@ == "Unknown error occured"@,
            },
    {
        match self {
            ApiError::Network { kind: _, message } => String::from_str(
                "Network error occurred: ",
            ).concat(message.as_str()),
            ApiError::Http(status, _) => {
                let digits = crate::json::u64_to_string(*status as u64);
                String::from_str("Http error: ").concat(digits.as_str())
            },
            ApiError::Response(_, payload) => String::from_str("Response error: ").concat(
                payload.message.as_str(),
            ),
            ApiError::Serialization => String::from_str("Serialization error occured"),
            ApiError::Unknown => String::from_str("Unknown error occured"),
        }
    }
}

// ---------------------------------------------------------------------------
// Laws of classification.
// ---------------------------------------------------------------------------

/// A reply whose body is a protocol-error payload always classifies as
/// `Response`, carrying the status code, the decoded `errcode` and the
/// exact `error` text from the body — never as `Http`.
pub proof fn lemma_payload_never_downgraded(status: u16, j: Json, e: ApiError)
    requires
        error_payload_fields(j) is Some,
        classifies_response(status, Some(j), e),
    ensures
        e matches ApiError::Response(st, payload) && st == status && payload.code
            == decode_errcode(error_payload_fields(j)->Some_0.0@) && payload.message
            == error_payload_fields(j)->Some_0.1,
        !(e is Http),
{
}

/// A reply whose body is not a protocol-error payload — not JSON at all,
/// or JSON without string `errcode` and `error` members — always
/// classifies as `Http` with the status code and its canonical reason.
pub proof fn lemma_fallback_is_http(status: u16, parsed: Option<Json>, e: ApiError)
    requires
        match parsed {
            Some(j) => error_payload_fields(j) is None,
            None => true,
        },
        classifies_response(status, parsed, e),
    ensures
        e matches ApiError::Http(st, reason) && st == status && match reason {
            Some(text) => reason_text(status) == Some(text@),
            None => reason_text(status) is None,
        },
{
}

/// Classification of a server reply never downgrades to the unspecific
/// variants: it is always the decoded payload or the bare HTTP error,
/// never `Network`, `Serialization` or `Unknown`.
pub proof fn lemma_reply_classification_is_specific(status: u16, parsed: Option<Json>, e: ApiError)
    requires
        classifies_response(status, parsed, e),
    ensures
        e is Response || e is Http,
{
}

} // verus!

