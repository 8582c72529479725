use matrix_api::json::{i64_to_string, json_to_string, parse_json, u64_to_string, Json};
use matrix_api::login::{LoginModel, LoginType, UserIdentifier};
use matrix_api::registration::{AuthModel, RegistrationKind, RegistrationModel};
use matrix_api::rooms::create::{CreateRoomRequest, CreationContent, PresetType, VisibilityType};
use matrix_api::rooms::public::PublicRoomsQuery;

#[test]
fn scalars_serialize_exactly() {
    assert_eq!(json_to_string(&Json::Null), "null");
    assert_eq!(json_to_string(&Json::Bool(true)), "true");
    assert_eq!(json_to_string(&Json::Bool(false)), "false");
    assert_eq!(json_to_string(&Json::Int(0)), "0");
    assert_eq!(json_to_string(&Json::Int(42)), "42");
    assert_eq!(json_to_string(&Json::Int(-7)), "-7");
    assert_eq!(json_to_string(&Json::Int(i64::MAX)), "9223372036854775807");
    assert_eq!(json_to_string(&Json::Int(i64::MIN)), "-9223372036854775808");
}

#[test]
fn integer_rendering_matches_decimal() {
    assert_eq!(u64_to_string(0), "0");
    assert_eq!(u64_to_string(1000), "1000");
    assert_eq!(u64_to_string(u64::MAX), "18446744073709551615");
    assert_eq!(i64_to_string(1000), "1000");
    assert_eq!(i64_to_string(-1), "-1");
}

#[test]
fn strings_escape_quotes_backslashes_and_controls() {
    assert_eq!(json_to_string(&Json::Str("plain".to_string())), "\"plain\"");
    assert_eq!(
        json_to_string(&Json::Str("a\"b\\c\nd".to_string())),
        "\"a\\\"b\\\\c\\u000ad\""
    );
    assert_eq!(json_to_string(&Json::Str("\u{1}\u{1f}".to_string())), "\"\\u0001\\u001f\"");
    assert_eq!(json_to_string(&Json::Str("héllo✓".to_string())), "\"héllo✓\"");
}

#[test]
fn containers_serialize_exactly() {
    let arr = Json::Arr(vec![Json::Int(1), Json::Bool(true), Json::Null]);
    assert_eq!(json_to_string(&arr), "[1,true,null]");
    assert_eq!(json_to_string(&Json::Arr(vec![])), "[]");
    let obj = Json::Obj(vec![
        ("a".to_string(), Json::Int(1)),
        ("b".to_string(), Json::Str("x".to_string())),
    ]);
    assert_eq!(json_to_string(&obj), "{\"a\":1,\"b\":\"x\"}");
    assert_eq!(json_to_string(&Json::Obj(vec![])), "{}");
}

#[test]
fn parse_then_serialize_round_trips_sorted_objects() {
    let value = Json::Obj(vec![
        ("a".to_string(), Json::Arr(vec![Json::Int(1), Json::Bool(true), Json::Null])),
        ("b".to_string(), Json::Obj(vec![("c".to_string(), Json::Str("x".to_string()))])),
        ("d".to_string(), Json::Int(-5)),
    ]);
    let text = json_to_string(&value);
    assert_eq!(parse_json(&text), Some(value));
}

#[test]
fn parse_accepts_json_and_rejects_the_rest() {
    assert_eq!(parse_json("{\"a\":1}"), Some(Json::Obj(vec![("a".to_string(), Json::Int(1))])));
    assert_eq!(parse_json("[\"x\", 3]"), Some(Json::Arr(vec![
        Json::Str("x".to_string()),
        Json::Int(3),
    ])));
    assert_eq!(parse_json("not json"), None);
    assert_eq!(parse_json(""), None);
    assert_eq!(parse_json("{\"a\":"), None);
    // fractional numbers are outside the protocol's integers
    assert_eq!(parse_json("1.5"), None);
    assert_eq!(parse_json("18446744073709551615"), None);
}

#[test]
fn registration_body_serializes_with_the_fragment_first() {
    let model = RegistrationModel {
        auth: AuthModel { session: "abc".to_string(), stage_type: "m.login.dummy".to_string() },
        kind: RegistrationKind::User,
        username: "u1".to_string(),
        password: "p1".to_string(),
        initial_device_display_name: "cli".to_string(),
    };
    assert_eq!(
        json_to_string(&model.to_json()),
        "{\"auth\":{\"session\":\"abc\",\"type\":\"m.login.dummy\"},\"kind\":\"User\",\
         \"username\":\"u1\",\"password\":\"p1\",\"initial_device_display_name\":\"cli\"}"
    );
}

#[test]
fn login_body_flattens_the_credential() {
    let model = LoginModel {
        login_type: LoginType::Password { password: "pw".to_string() },
        identifier: UserIdentifier::User { user: "alice".to_string() },
        device_id: "0001".to_string(),
        initial_device_display_name: "cli".to_string(),
    };
    assert_eq!(
        json_to_string(&model.to_json()),
        "{\"type\":\"m.login.password\",\"password\":\"pw\",\
         \"identifier\":{\"type\":\"m.id.user\",\"user\":\"alice\"},\
         \"device_id\":\"0001\",\"initial_device_display_name\":\"cli\"}"
    );
}

#[test]
fn login_body_token_and_third_party_forms() {
    let model = LoginModel {
        login_type: LoginType::Token { token: "tok".to_string() },
        identifier: UserIdentifier::Phone {
            country: "GB".to_string(),
            phone: "07700900000".to_string(),
        },
        device_id: "0002".to_string(),
        initial_device_display_name: "cli".to_string(),
    };
    assert_eq!(
        json_to_string(&model.to_json()),
        "{\"type\":\"m.login.token\",\"token\":\"tok\",\
         \"identifier\":{\"type\":\"m.id.phone\",\"country\":\"GB\",\"phone\":\"07700900000\"},\
         \"device_id\":\"0002\",\"initial_device_display_name\":\"cli\"}"
    );
}

#[test]
fn create_room_body_omits_absent_members() {
    let mut request = CreateRoomRequest {
        visibility: None,
        room_alias_name: None,
        name: Some("x".to_string()),
        topic: None,
        invite: None,
        invite_3pid: None,
        room_version: None,
        creation_content: None,
        initial_state: None,
        preset: None,
        is_direct: None,
        power_level_content_override: None,
    };
    assert_eq!(json_to_string(&request.to_json()), "{\"name\":\"x\"}");
    request.name = None;
    assert_eq!(json_to_string(&request.to_json()), "{}");
}

#[test]
fn create_room_body_serializes_present_members_in_order() {
    let request = CreateRoomRequest {
        visibility: Some(VisibilityType::Public),
        room_alias_name: Some("general-fun".to_string()),
        name: Some("General Fun".to_string()),
        topic: Some("To have fun".to_string()),
        invite: None,
        invite_3pid: None,
        room_version: None,
        creation_content: Some(CreationContent { federate: Some(false), predecessor: None }),
        initial_state: None,
        preset: Some(PresetType::PublicChat),
        is_direct: Some(false),
        power_level_content_override: None,
    };
    assert_eq!(
        json_to_string(&request.to_json()),
        "{\"visibility\":\"public\",\"room_alias_name\":\"general-fun\",\
         \"name\":\"General Fun\",\"topic\":\"To have fun\",\
         \"creation_content\":{\"m.federate\":false},\"preset\":\"public_chat\",\
         \"is_direct\":false}"
    );
}

#[test]
fn public_rooms_query_omits_absent_members() {
    let query = PublicRoomsQuery { limit: 1000, since: None, server: None };
    assert_eq!(query.to_query_pairs(), vec![("limit".to_string(), "1000".to_string())]);
    let query = PublicRoomsQuery {
        limit: 25,
        since: Some("tok123".to_string()),
        server: Some("example.org".to_string()),
    };
    assert_eq!(query.to_query_pairs(), vec![
        ("limit".to_string(), "25".to_string()),
        ("since".to_string(), "tok123".to_string()),
        ("server".to_string(), "example.org".to_string()),
    ]);
}
