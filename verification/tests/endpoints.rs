use matrix_api::api::{ApiError, MatrixErrorCode, RawOutcome};
use matrix_api::auth::AuthenticationTypes;
use matrix_api::login::{get_login_flows, login};
use matrix_api::rooms::create::create_room;
use matrix_api::rooms::public::{filter_public_rooms, list_public_rooms};

fn response(status: u16, body: &str) -> RawOutcome {
    RawOutcome::Response { status, body: body.to_string() }
}

#[test]
fn login_forbidden_yields_the_decoded_payload() {
    let outcome = response(403, "{\"errcode\":\"M_FORBIDDEN\",\"error\":\"Invalid password\"}");
    match login(&outcome) {
        Err(ApiError::Response(status, payload)) => {
            assert_eq!(status, 403);
            assert_eq!(payload.code, MatrixErrorCode::Forbidden);
            assert_eq!(payload.message, "Invalid password");
        }
        other => panic!("expected Err(Response), got {:?}", other),
    }
}

#[test]
fn login_success_returns_the_token_for_the_caller_to_store() {
    let body = "{\"user_id\":\"@alice:hs\",\"access_token\":\"tok\",\
                \"home_server\":\"hs\",\"device_id\":\"dev\"}";
    let reply = login(&response(200, body)).expect("the reply decodes");
    assert_eq!(reply.user_id, "@alice:hs");
    assert_eq!(reply.access_token, "tok");
    assert_eq!(reply.home_server, "hs");
    assert_eq!(reply.device_id, "dev");
    assert!(reply.well_known.is_none());
}

#[test]
fn login_reads_discovery_information_when_given() {
    let body = "{\"user_id\":\"@a:hs\",\"access_token\":\"t\",\"home_server\":\"hs\",\
                \"device_id\":\"d\",\"well_known\":{\
                \"m.homeserver\":{\"base_url\":\"https://hs\"},\
                \"m.identity_server\":{\"base_url\":\"https://id\"}}}";
    let reply = login(&response(200, body)).expect("the reply decodes");
    let well_known = reply.well_known.expect("discovery was given");
    assert_eq!(well_known.homeserver.base_url, "https://hs");
    assert_eq!(well_known.identity_server.base_url, "https://id");
}

#[test]
fn login_with_undecodable_success_body_is_a_decode_failure() {
    assert_eq!(login(&response(200, "{\"user_id\":3}")), Err(ApiError::Serialization));
}

#[test]
fn login_flows_decode_in_server_order() {
    let body = "{\"flows\":[{\"type\":\"m.login.password\"},{\"type\":\"m.login.token\"}]}";
    let flows = get_login_flows(&response(200, body)).expect("the flows decode");
    assert_eq!(flows.flows.len(), 2);
    assert_eq!(flows.flows[0].flow_type, AuthenticationTypes::Password);
    assert_eq!(flows.flows[1].flow_type, AuthenticationTypes::Token);
}

#[test]
fn login_flow_outside_the_known_set_fails_the_decode() {
    let body = "{\"flows\":[{\"type\":\"m.login.teleport\"}]}";
    assert_eq!(get_login_flows(&response(200, body)), Err(ApiError::Serialization));
}

#[test]
fn create_room_on_plain_500_yields_the_bare_http_error() {
    let outcome = response(500, "everything is on fire");
    assert_eq!(
        create_room(&outcome),
        Err(ApiError::Http(500, Some("Internal Server Error".to_string())))
    );
}

#[test]
fn create_room_success_returns_the_room_id() {
    let reply = create_room(&response(200, "{\"room_id\":\"!abc:hs\"}")).expect("decodes");
    assert_eq!(reply.room_id, "!abc:hs");
}

#[test]
fn room_in_use_is_decoded_from_a_create_room_failure() {
    let outcome = response(400, "{\"errcode\":\"M_ROOM_IN_USE\",\"error\":\"taken\"}");
    match create_room(&outcome) {
        Err(ApiError::Response(400, payload)) => {
            assert_eq!(payload.code, MatrixErrorCode::RoomInUse);
        }
        other => panic!("expected Err(Response), got {:?}", other),
    }
}

#[test]
fn public_rooms_keep_both_entries_in_server_order() {
    let body = "{\"chunk\":[\
        {\"aliases\":[\"#one:hs\"],\"canonical_alias\":\"#one:hs\",\"name\":\"One\",\
         \"num_joined_members\":5,\"room_id\":\"!one:hs\",\"topic\":\"first\",\
         \"world_readable\":true,\"guest_can_join\":false},\
        {\"aliases\":[],\"canonical_alias\":\"#two:hs\",\"name\":\"Two\",\
         \"num_joined_members\":7,\"room_id\":\"!two:hs\",\"topic\":\"second\",\
         \"world_readable\":false,\"guest_can_join\":true,\"avatar_url\":\"mxc://a\"}],\
        \"next_batch\":null,\"total_room_count_estimate\":42}";
    let reply = list_public_rooms(&response(200, body)).expect("the listing decodes");
    assert_eq!(reply.total_room_count_estimate, 42);
    assert_eq!(reply.chunk.len(), 2);
    assert_eq!(reply.chunk[0].room_id, "!one:hs");
    assert_eq!(reply.chunk[0].name, "One");
    assert_eq!(reply.chunk[0].num_joined_members, 5);
    assert_eq!(reply.chunk[0].aliases, vec!["#one:hs".to_string()]);
    assert!(reply.chunk[0].world_readable);
    assert!(reply.chunk[0].avatar_url.is_none());
    assert_eq!(reply.chunk[1].room_id, "!two:hs");
    assert_eq!(reply.chunk[1].avatar_url.as_deref(), Some("mxc://a"));
    assert!(reply.next_batch.is_none());
    assert!(reply.prev_batch.is_none());

    // filtering replies have the same shape
    let filtered = filter_public_rooms(&response(200, body)).expect("decodes");
    assert_eq!(filtered.chunk.len(), 2);
}

#[test]
fn public_rooms_with_a_missing_required_member_fail_the_decode() {
    let body = "{\"chunk\":[{\"aliases\":[],\"canonical_alias\":\"#x:hs\",\"name\":\"X\",\
                \"num_joined_members\":1,\"room_id\":\"!x:hs\",\"topic\":\"t\",\
                \"world_readable\":true}],\"total_room_count_estimate\":1}";
    assert_eq!(list_public_rooms(&response(200, body)), Err(ApiError::Serialization));
}

#[test]
fn public_rooms_failure_statuses_classify() {
    assert_eq!(
        list_public_rooms(&response(502, "bad gateway")),
        Err(ApiError::Http(502, Some("Bad Gateway".to_string())))
    );
}
