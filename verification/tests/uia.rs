use matrix_api::api::{ApiError, MatrixErrorCode, RawOutcome};
use matrix_api::json::{json_to_string, parse_json, Json};
use matrix_api::registration::{
    auth_request, auth_request_body, auth_select_flow, auth_select_stage, register, uia_begin,
    uia_model_from_json, uia_on_response, uia_select, uia_submit, AuthModel, RegistrationKind,
    RegistrationModel, UiaState, UserAuthFlow, UserInteractiveAuthenticationModel,
};

const UIA_BODY: &str =
    "{\"session\":\"abc\",\"flows\":[{\"stages\":[\"m.login.dummy\"]}],\"params\":{}}";

fn response(status: u16, body: &str) -> RawOutcome {
    RawOutcome::Response { status, body: body.to_string() }
}

fn sample_model() -> UserInteractiveAuthenticationModel {
    UserInteractiveAuthenticationModel {
        session: "abc".to_string(),
        flows: vec![
            UserAuthFlow {
                stages: vec!["m.login.password".to_string(), "m.login.recaptcha".to_string()],
            },
            UserAuthFlow { stages: vec!["m.login.dummy".to_string()] },
        ],
        params: vec![],
    }
}

#[test]
fn default_selection_takes_first_flow_first_stage() {
    let model = sample_model();
    let fragment = auth_select_flow(&model);
    assert_eq!(fragment.session, "abc");
    assert_eq!(fragment.stage_type, "m.login.password");
    // and it is deterministic: the same model yields the same fragment
    assert_eq!(auth_select_flow(&model), fragment);
}

#[test]
fn caller_override_selects_any_flow_and_stage() {
    let model = sample_model();
    let fragment = auth_select_stage(&model, 1, 0);
    assert_eq!(fragment.session, "abc");
    assert_eq!(fragment.stage_type, "m.login.dummy");
    let fragment = auth_select_stage(&model, 0, 1);
    assert_eq!(fragment.stage_type, "m.login.recaptcha");
}

#[test]
fn uia_model_decodes_from_the_wire_shape() {
    let parsed = parse_json(UIA_BODY).expect("the probe body is JSON");
    let model = uia_model_from_json(parsed).expect("the probe body offers flows");
    assert_eq!(model.session, "abc");
    assert_eq!(model.flows.len(), 1);
    assert_eq!(model.flows[0].stages, vec!["m.login.dummy".to_string()]);
    assert!(model.params.is_empty());
}

#[test]
fn uia_model_requires_all_three_members() {
    let parsed = parse_json("{\"session\":\"abc\",\"flows\":[]}").unwrap();
    assert!(uia_model_from_json(parsed).is_none());
    let parsed = parse_json("{\"session\":\"abc\",\"flows\":[{\"stages\":[3]}],\"params\":{}}")
        .unwrap();
    assert!(uia_model_from_json(parsed).is_none());
}

#[test]
fn negotiation_completes_a_dummy_flow_end_to_end() {
    // the initial request carries an empty fragment
    assert_eq!(json_to_string(&auth_request_body()), "{}");

    // the server answers the probe with 401 and the offered flows
    let state = uia_begin();
    let state = uia_on_response(state, &response(401, UIA_BODY));
    let state = match state {
        UiaState::FlowOffered(ref model) => {
            assert_eq!(model.session, "abc");
            uia_select(state)
        }
        other => panic!("expected FlowOffered, got {:?}", other),
    };

    // the default policy picks the dummy stage, which the adapter submits
    let (state, fragment) = uia_submit(state);
    let fragment = fragment.expect("a selected stage is handed out");
    assert_eq!(fragment.session, "abc");
    assert_eq!(fragment.stage_type, "m.login.dummy");
    assert!(matches!(state, UiaState::StageSubmitted(_)));

    // the resubmitted request carries {"auth":{"session":"abc","type":"m.login.dummy"}}
    let body = RegistrationModel {
        auth: fragment,
        kind: RegistrationKind::User,
        username: "u1".to_string(),
        password: "p1".to_string(),
        initial_device_display_name: "cli".to_string(),
    };
    let text = json_to_string(&body.to_json());
    assert!(text.starts_with("{\"auth\":{\"session\":\"abc\",\"type\":\"m.login.dummy\"}"));

    // the server accepts, and the operation completes with the typed reply
    let success = "{\"user_id\":\"@u1:hs\",\"home_server\":\"hs\",\
                   \"access_token\":\"tok\",\"device_id\":\"dev\"}";
    let state = uia_on_response(state, &response(200, success));
    match state {
        UiaState::Completed(body) => {
            let reply = register(&response(200, &body)).expect("the reply decodes");
            assert_eq!(reply.user_id, "@u1:hs");
            assert_eq!(reply.home_server, "hs");
            assert_eq!(reply.access_token, "tok");
            assert_eq!(reply.device_id, "dev");
        }
        other => panic!("expected Completed, got {:?}", other),
    }
}

#[test]
fn replayed_outcome_does_not_advance_a_finished_negotiation() {
    // a negotiation whose stage already completed ignores stale outcomes
    let done = uia_on_response(UiaState::Completed("done".to_string()), &response(401, UIA_BODY));
    match done {
        UiaState::Completed(body) => assert_eq!(body, "done"),
        other => panic!("expected Completed, got {:?}", other),
    }

    // a negotiation still choosing a stage ignores them too
    let offered = UiaState::FlowOffered(sample_model());
    match uia_on_response(offered, &response(200, "{}")) {
        UiaState::FlowOffered(model) => assert_eq!(model.session, "abc"),
        other => panic!("expected FlowOffered, got {:?}", other),
    }

    // submitting from a state with nothing selected hands nothing out
    let (state, fragment) = uia_submit(UiaState::AwaitingFlows);
    assert!(matches!(state, UiaState::AwaitingFlows));
    assert!(fragment.is_none());
}

#[test]
fn rejection_goes_through_the_classifier() {
    let state = uia_on_response(
        uia_begin(),
        &response(403, "{\"errcode\":\"M_FORBIDDEN\",\"error\":\"No registration\"}"),
    );
    match state {
        UiaState::Rejected(ApiError::Response(status, payload)) => {
            assert_eq!(status, 403);
            assert_eq!(payload.code, MatrixErrorCode::Forbidden);
            assert_eq!(payload.message, "No registration");
        }
        other => panic!("expected Rejected(Response), got {:?}", other),
    }

    // a 401 whose body offers no flows is a rejection, not an offer
    let state = uia_on_response(uia_begin(), &response(401, "nonsense"));
    match state {
        UiaState::Rejected(ApiError::Http(401, reason)) => {
            assert_eq!(reason.as_deref(), Some("Unauthorized"));
        }
        other => panic!("expected Rejected(Http), got {:?}", other),
    }
}

#[test]
fn probe_interpretation_reads_the_body_whatever_the_status() {
    let model = auth_request(&response(401, UIA_BODY)).expect("the flows decode");
    assert_eq!(model.session, "abc");
    assert_eq!(auth_request(&response(401, "junk")), Err(ApiError::Serialization));
}

#[test]
fn fragment_builds_its_wire_form() {
    let fragment = AuthModel {
        session: "s1".to_string(),
        stage_type: "m.login.recaptcha".to_string(),
    };
    assert_eq!(
        json_to_string(&fragment.to_json()),
        "{\"session\":\"s1\",\"type\":\"m.login.recaptcha\"}"
    );
    assert_eq!(fragment.duplicate(), fragment);
}

#[test]
fn register_with_undecodable_success_body_is_a_decode_failure() {
    assert_eq!(register(&response(200, "{}")), Err(ApiError::Serialization));
    assert_eq!(register(&response(200, "garbage")), Err(ApiError::Serialization));
}

#[test]
fn multi_stage_flow_loops_until_the_server_accepts() {
    // the server wants a password stage and then a captcha stage
    let first = "{\"session\":\"s9\",\"flows\":[{\"stages\":\
                 [\"m.login.password\",\"m.login.recaptcha\"]}],\"params\":{}}";
    let state = uia_on_response(uia_begin(), &response(401, first));
    let (state, fragment) = uia_submit(uia_select(state));
    let fragment = fragment.expect("the first stage is handed out");
    assert_eq!(fragment.stage_type, "m.login.password");

    // after the first stage the same session offers the remaining stage
    let second = "{\"session\":\"s9\",\"flows\":[{\"stages\":[\"m.login.recaptcha\"]}],\
                  \"params\":{}}";
    let state = uia_on_response(state, &response(401, second));
    let (state, fragment) = uia_submit(uia_select(state));
    let fragment = fragment.expect("the second stage is handed out");
    assert_eq!(fragment.session, "s9");
    assert_eq!(fragment.stage_type, "m.login.recaptcha");

    // the server finally accepts
    match uia_on_response(state, &response(200, "{}")) {
        UiaState::Completed(body) => assert_eq!(body, "{}"),
        other => panic!("expected Completed, got {:?}", other),
    }
}
