//! Account registration, and the interactive-authentication (UIA)
//! negotiation that gates it.
//!
//! One registration attempt runs the handshake of [`UiaState`]: an initial
//! request with an empty authentication fragment is answered 401 with the
//! server's acceptable flows; a selection policy picks one stage to attempt;
//! the request is resubmitted carrying the session-scoped fragment; the
//! server either accepts, offers the remaining stages again, or rejects.
//! The negotiator only ever advances on an outcome of a request it asked
//! for, and the caller performs the round trips.

use vstd::prelude::*;

use crate::api::{classifies, classifies_failure, classify, ApiError, RawOutcome};
use crate::json::{get_arr, get_obj, get_str, json_of, obj_arr, obj_str, parse_json, take_field,
    Json};

verus! {

/// The fixed path this operation posts to.
pub const ENDPOINT: &'static str = "/_matrix/client/r0/register";

/// One acceptable ordered sequence of authentication stages.
#[derive(Debug, PartialEq)]
pub struct UserAuthFlow {
    pub stages: Vec<String>,
}

/// The server's answer to an unauthenticated attempt: the session to echo
/// back, the flows it accepts, and per-provider parameters it hands along.
#[derive(Debug, PartialEq)]
pub struct UserInteractiveAuthenticationModel {
    pub session: String,
    pub flows: Vec<UserAuthFlow>,
    pub params: Vec<(String, Json)>,
}

/// An empty request body, serialized as JSON `null`.
#[derive(Debug, PartialEq)]
pub struct Empty;

impl Empty {
    pub fn to_json(&self) -> (j: Json)
        ensures
            j == Json::Null,
    {
        Json::Null
    }
}

/// The authentication fragment echoed back to the server: the session and
/// the stage being attempted. Its `stage_type` is serialized under the
/// member name `type`.
#[derive(Debug, PartialEq)]
pub struct AuthModel {
    pub session: String,
    pub stage_type: String,
}

/// Whether the account being registered is a guest or a full user.
#[derive(Clone, Copy, Debug, PartialEq, Eq, Structural)]
pub enum RegistrationKind {
    Guest,
    User,
}

/// The registration request body.
#[derive(Debug, PartialEq)]
pub struct RegistrationModel {
    pub auth: AuthModel,
    pub kind: RegistrationKind,
    pub username: String,
    pub password: String,
    pub initial_device_display_name: String,
}

/// A successful registration's reply.
#[derive(Debug, PartialEq)]
pub struct RegistrationResponse {
    pub user_id: String,
    pub home_server: String,
    pub access_token: String,
    pub device_id: String,
}

// ---------------------------------------------------------------------------
// Request bodies.
// ---------------------------------------------------------------------------

/// `j` is the JSON form of the fragment `a`: `{"session": ..., "type": ...}`.
pub open spec fn is_auth_json(a: AuthModel, j: Json) -> bool {
    &&& j matches Json::Obj(fields)
    &&& fields@.len() == 2
    &&& fields@[0].0@ == "session"@
    &&& fields@[0].1 == Json::Str(a.session)
    &&& fields@[1].0@ == "type"@
    &&& fields@[1].1 == Json::Str(a.stage_type)
}

/// The wire text of a registration kind.
pub open spec fn registration_kind_text(k: RegistrationKind) -> Seq<char> {
    match k {
        RegistrationKind::Guest => "Guest"@,
        RegistrationKind::User => "User"@,
    }
}

/// `j` is the JSON form of the registration body `m`: the authentication
/// fragment and the four credential members, all always present.
pub open spec fn is_registration_json(m: RegistrationModel, j: Json) -> bool {
    &&& j matches Json::Obj(fields)
    &&& fields@.len() == 5
    &&& fields@[0].0@ == "auth"@
    &&& is_auth_json(m.auth, fields@[0].1)
    &&& fields@[1].0@ == "kind"@
    &&& fields@[1].1 matches Json::Str(k) && k@ == registration_kind_text(m.kind)
    &&& fields@[2].0@ == "username"@
    &&& fields@[2].1 == Json::Str(m.username)
    &&& fields@[3].0@ == "password"@
    &&& fields@[3].1 == Json::Str(m.password)
    &&& fields@[4].0@ == "initial_device_display_name"@
    &&& fields@[4].1 == Json::Str(m.initial_device_display_name)
}

impl AuthModel {
    /// Build the JSON form of this fragment.
    pub fn to_json(&self) -> (j: Json)
        ensures
            is_auth_json(*self, j),
    {
        let fields: Vec<(String, Json)> = vec![
            ("session".to_owned(), Json::Str(self.session.clone())),
            ("type".to_owned(), Json::Str(self.stage_type.clone())),
        ];
        Json::Obj(fields)
    }

    /// An equal copy of this fragment.
    pub fn duplicate(&self) -> (a: AuthModel)
        ensures
            a == *self,
    {
        AuthModel { session: self.session.clone(), stage_type: self.stage_type.clone() }
    }
}

impl RegistrationKind {
    /// The wire text of this kind.
    pub fn as_str(&self) -> (s: &'static str)
        ensures
            s@ == registration_kind_text(*self),
    {
        match self {
            RegistrationKind::Guest => "Guest",
            RegistrationKind::User => "User",
        }
    }
}

impl RegistrationModel {
    /// Build the registration request body.
    pub fn to_json(&self) -> (j: Json)
        ensures
            is_registration_json(*self, j),
    {
        let fields: Vec<(String, Json)> = vec![
            ("auth".to_owned(), self.auth.to_json()),
            ("kind".to_owned(), Json::Str(self.kind.as_str().to_owned())),
            ("username".to_owned(), Json::Str(self.username.clone())),
            ("password".to_owned(), Json::Str(self.password.clone())),
            (
                "initial_device_display_name".to_owned(),
                Json::Str(self.initial_device_display_name.clone()),
            ),
        ];
        Json::Obj(fields)
    }
}

/// The body of the initial, unauthenticated attempt: an empty object.
pub fn auth_request_body() -> (j: Json)
    ensures
        j matches Json::Obj(fields) && fields@.len() == 0,
{
    let fields: Vec<(String, Json)> = Vec::new();
    Json::Obj(fields)
}

// ---------------------------------------------------------------------------
// Reply bodies.
// ---------------------------------------------------------------------------

/// `f` is the flow that the JSON value `j` describes.
pub open spec fn is_flow(j: Json, f: UserAuthFlow) -> bool {
    &&& j matches Json::Obj(fields)
    &&& get_arr(fields@, "stages"@) matches Some(stages)
    &&& f.stages@.len() == stages@.len()
    &&& forall|i: int|
        0 <= i < stages@.len() ==> stages@[i] == Json::Str(#[trigger] f.stages@[i])
}

/// The JSON value `j` has the shape of one flow: an object whose `stages`
/// member is an array of strings.
pub open spec fn flow_ok(j: Json) -> bool {
    &&& j matches Json::Obj(fields)
    &&& get_arr(fields@, "stages"@) matches Some(stages)
    &&& forall|i: int| 0 <= i < stages@.len() ==> (#[trigger] stages@[i]) is Str
}

/// `m` is the interactive-authentication model that the JSON value `j`
/// describes.
pub open spec fn is_uia_model(j: Json, m: UserInteractiveAuthenticationModel) -> bool {
    &&& j matches Json::Obj(fields)
    &&& get_str(fields@, "session"@) == Some(m.session)
    &&& get_arr(fields@, "flows"@) matches Some(flows)
    &&& m.flows@.len() == flows@.len()
    &&& forall|i: int| 0 <= i < flows@.len() ==> is_flow(flows@[i], #[trigger] m.flows@[i])
    &&& get_obj(fields@, "params"@) matches Some(params) && m.params@ == params@
}

/// The JSON value `j` has the shape of the interactive-authentication
/// model: a string `session`, an array `flows` of flows, an object
/// `params`.
pub open spec fn uia_model_ok(j: Json) -> bool {
    &&& j matches Json::Obj(fields)
    &&& get_str(fields@, "session"@) is Some
    &&& get_arr(fields@, "flows"@) matches Some(flows)
    &&& forall|i: int| 0 <= i < flows@.len() ==> flow_ok(#[trigger] flows@[i])
    &&& get_obj(fields@, "params"@) is Some
}

/// Decode one flow.
#[verifier::loop_isolation(false)]
fn flow_from_json(j: &Json) -> (r: Option<UserAuthFlow>)
    ensures
        match r {
            Some(f) => flow_ok(*j) && is_flow(*j, f),
            None => !flow_ok(*j),
        },
{
    match j {
        Json::Obj(fields) => {
            match obj_arr(fields, "stages") {
                Some(stages) => {
                    let mut out: Vec<String> = Vec::new();
                    let mut i: usize = 0;
                    while i < stages.len()
                        invariant
                            i <= stages@.len(),
                            out@.len() == i,
                            forall|k: int|
                                0 <= k < i ==> ((#[trigger] stages@[k]) matches Json::Str(s)
                                    && s == out@[k]),
                        decreases stages@.len() - i,
                    {
                        match &stages[i] {
                            Json::Str(s) => {
                                out.push(s.clone());
                            },
                            _ => {
                                return None;
                            },
                        }
                        i = i + 1;
                    }
                    Some(UserAuthFlow { stages: out })
                },
                None => None,
            }
        },
        _ => None,
    }
}

/// Decode the interactive-authentication model.
#[verifier::loop_isolation(false)]
pub fn uia_model_from_json(j: Json) -> (r: Option<UserInteractiveAuthenticationModel>)
    ensures
        match r {
            Some(m) => uia_model_ok(j) && is_uia_model(j, m),
            None => !uia_model_ok(j),
        },
{
    match j {
        Json::Obj(fields) => {
            let session = match obj_str(&fields, "session") {
                Some(s) => s,
                None => {
                    return None;
                },
            };
            let mut flows: Vec<UserAuthFlow> = Vec::new();
            match obj_arr(&fields, "flows") {
                Some(flow_items) => {
                    let mut i: usize = 0;
                    while i < flow_items.len()
                        invariant
                            i <= flow_items@.len(),
                            flows@.len() == i,
                            forall|k: int|
                                0 <= k < i ==> is_flow(flow_items@[k], #[trigger] flows@[k]),
                            forall|k: int| 0 <= k < i ==> flow_ok(#[trigger] flow_items@[k]),
                        decreases flow_items@.len() - i,
                    {
                        match flow_from_json(&flow_items[i]) {
                            Some(f) => {
                                flows.push(f);
                            },
                            None => {
                                proof {
                                    if uia_model_ok(j) {
                                        assert(j->Obj_0 == fields);
                                        assert(get_arr(fields@, "flows"@) == Some(*flow_items));
                                        assert(0 <= i < flow_items@.len());
                                        assert(flow_ok(
                                            get_arr(fields@, "flows"@)->Some_0@[i as int],
                                        ));
                                        assert(flow_ok(flow_items@[i as int]));
                                    }
                                }
                                return None;
                            },
                        }
                        i = i + 1;
                    }
                },
                None => {
                    return None;
                },
            }
            let params = match take_field(fields, "params") {
                Some(Json::Obj(params)) => params,
                _ => {
                    return None;
                },
            };
            Some(UserInteractiveAuthenticationModel { session, flows, params })
        },
        _ => None,
    }
}

/// `resp` is the registration reply that the JSON value `j` describes.
pub open spec fn is_registration_response(j: Json, resp: RegistrationResponse) -> bool {
    &&& j matches Json::Obj(fields)
    &&& get_str(fields@, "user_id"@) == Some(resp.user_id)
    &&& get_str(fields@, "home_server"@) == Some(resp.home_server)
    &&& get_str(fields@, "access_token"@) == Some(resp.access_token)
    &&& get_str(fields@, "device_id"@) == Some(resp.device_id)
}

/// The JSON value `j` has the shape of a registration reply.
pub open spec fn registration_response_ok(j: Json) -> bool {
    &&& j matches Json::Obj(fields)
    &&& get_str(fields@, "user_id"@) is Some
    &&& get_str(fields@, "home_server"@) is Some
    &&& get_str(fields@, "access_token"@) is Some
    &&& get_str(fields@, "device_id"@) is Some
}

/// Decode a registration reply.
pub fn registration_response_from_json(j: &Json) -> (r: Option<RegistrationResponse>)
    ensures
        match r {
            Some(resp) => registration_response_ok(*j) && is_registration_response(*j, resp),
            None => !registration_response_ok(*j),
        },
{
    match j {
        Json::Obj(fields) => {
            let user_id = obj_str(fields, "user_id");
            let home_server = obj_str(fields, "home_server");
            let access_token = obj_str(fields, "access_token");
            let device_id = obj_str(fields, "device_id");
            match (user_id, home_server, access_token, device_id) {
                (Some(user_id), Some(home_server), Some(access_token), Some(device_id)) => Some(
                    RegistrationResponse { user_id, home_server, access_token, device_id },
                ),
                _ => None,
            }
        },
        _ => None,
    }
}

// ---------------------------------------------------------------------------
// Flow selection.
// ---------------------------------------------------------------------------

/// `a` is the fragment that selecting the given flow and stage of `m`
/// produces: the session echoed unchanged, the stage taken from the flow.
pub open spec fn selects_stage(
    m: UserInteractiveAuthenticationModel,
    flow_index: int,
    stage_index: int,
    a: AuthModel,
) -> bool {
    &&& a.session == m.session
    &&& a.stage_type == m.flows@[flow_index].stages@[stage_index]
}

/// Select a caller-chosen flow and stage: the decision hook for callers
/// that do not want the default policy.
pub fn auth_select_stage(
    model: &UserInteractiveAuthenticationModel,
    flow_index: usize,
    stage_index: usize,
) -> (a: AuthModel)
    requires
        flow_index < model.flows@.len(),
        stage_index < model.flows@[flow_index as int].stages@.len(),
    ensures
        selects_stage(*model, flow_index as int, stage_index as int, a),
{
    AuthModel {
        session: model.session.clone(),
        stage_type: model.flows[flow_index].stages[stage_index].clone(),
    }
}

/// The default, deterministic selection policy: the first flow in the
/// server-provided order, and its first stage.
pub fn auth_select_flow(model: &UserInteractiveAuthenticationModel) -> (a: AuthModel)
    requires
        model.flows@.len() > 0,
        model.flows@[0].stages@.len() > 0,
    ensures
        selects_stage(*model, 0, 0, a),
{
    auth_select_stage(model, 0, 0)
}

/// The default policy is a function of the offered flows alone: any two
/// fragments it admits for the same model are equal.
pub proof fn lemma_selection_deterministic(
    model: UserInteractiveAuthenticationModel,
    a1: AuthModel,
    a2: AuthModel,
)
    requires
        selects_stage(model, 0, 0, a1),
        selects_stage(model, 0, 0, a2),
    ensures
        a1 == a2,
{
}

// ---------------------------------------------------------------------------
// The negotiation state machine.
// ---------------------------------------------------------------------------

/// Where one interactive-authentication attempt stands. `Completed` carries
/// the body of the accepting reply, for the endpoint adapter to decode.
#[derive(Debug)]
pub enum UiaState {
    AwaitingFlows,
    FlowOffered(UserInteractiveAuthenticationModel),
    StageSelected(AuthModel),
    StageSubmitted(AuthModel),
    Completed(String),
    Rejected(ApiError),
}

/// Whether the negotiator has a request in flight, so that a server
/// outcome is an answer it asked for.
pub open spec fn uia_in_flight(s: UiaState) -> bool {
    s is AwaitingFlows || s is StageSubmitted
}

/// `next` is where a request's outcome moves the negotiation from `s`: a
/// 200 completes it, a 401 whose body offers flows awaits selection, any
/// other outcome rejects the attempt with its classification — and an
/// outcome the negotiator did not ask for moves it nowhere.
pub open spec fn uia_transition(s: UiaState, outcome: RawOutcome, next: UiaState) -> bool {
    if !uia_in_flight(s) {
        next == s
    } else {
        match outcome {
            RawOutcome::Response { status, body } => {
                if status == 200 {
                    next matches UiaState::Completed(b) && b == body
                } else if status == 401 && (json_of(body@) matches Some(j) && uia_model_ok(j)) {
                    next matches UiaState::FlowOffered(m) && is_uia_model(
                        json_of(body@)->Some_0,
                        m,
                    )
                } else {
                    next matches UiaState::Rejected(e) && classifies(outcome, e)
                }
            },
            RawOutcome::Failure(_) => next matches UiaState::Rejected(e) && classifies(
                outcome,
                e,
            ),
        }
    }
}

/// Handle the outcome of a request the negotiator asked for.
fn uia_handle(outcome: &RawOutcome) -> (next: UiaState)
    ensures
        match *outcome {
            RawOutcome::Response { status, body } => {
                if status == 200 {
                    next matches UiaState::Completed(b) && b == body
                } else if status == 401 && (json_of(body@) matches Some(j) && uia_model_ok(j)) {
                    next matches UiaState::FlowOffered(m) && is_uia_model(
                        json_of(body@)->Some_0,
                        m,
                    )
                } else {
                    next matches UiaState::Rejected(e) && classifies(*outcome, e)
                }
            },
            RawOutcome::Failure(_) => next matches UiaState::Rejected(e) && classifies(
                *outcome,
                e,
            ),
        },
{
    match outcome {
        RawOutcome::Response { status, body } => {
            if *status == 200 {
                UiaState::Completed(body.clone())
            } else if *status == 401 {
                match parse_json(body.as_str()) {
                    Some(parsed) => match uia_model_from_json(parsed) {
                        Some(m) => UiaState::FlowOffered(m),
                        None => UiaState::Rejected(classify(outcome)),
                    },
                    None => UiaState::Rejected(classify(outcome)),
                }
            } else {
                UiaState::Rejected(classify(outcome))
            }
        },
        RawOutcome::Failure(_) => UiaState::Rejected(classify(outcome)),
    }
}

/// Start a fresh attempt.
pub fn uia_begin() -> (s: UiaState)
    ensures
        s is AwaitingFlows,
{
    UiaState::AwaitingFlows
}

/// Feed the outcome of a round trip to the negotiator. From a state with
/// no request in flight the state is returned unchanged: a replayed or
/// stale response does not advance the negotiation.
pub fn uia_on_response(state: UiaState, outcome: &RawOutcome) -> (next: UiaState)
    ensures
        uia_transition(state, *outcome, next),
{
    match state {
        UiaState::AwaitingFlows => uia_handle(outcome),
        UiaState::StageSubmitted(_) => uia_handle(outcome),
        other => other,
    }
}

/// Apply the default selection policy to an offered flow list.
pub fn uia_select(state: UiaState) -> (next: UiaState)
    requires
        state matches UiaState::FlowOffered(m) ==> m.flows@.len() > 0 && m.flows@[0].stages@.len()
            > 0,
    ensures
        match state {
            UiaState::FlowOffered(m) => next matches UiaState::StageSelected(a) && selects_stage(
                m,
                0,
                0,
                a,
            ),
            _ => next == state,
        },
{
    match state {
        UiaState::FlowOffered(m) => {
            let a = auth_select_flow(&m);
            UiaState::StageSelected(a)
        },
        other => other,
    }
}

/// Hand the selected fragment to the adapter and mark it submitted. In any
/// other state nothing is handed out and nothing moves.
pub fn uia_submit(state: UiaState) -> (r: (UiaState, Option<AuthModel>))
    ensures
        match state {
            UiaState::StageSelected(a) => r.0 matches UiaState::StageSubmitted(b) && b == a
                && r.1 == Some(a),
            _ => r.0 == state && r.1 is None,
        },
{
    match state {
        UiaState::StageSelected(a) => {
            let copy = a.duplicate();
            (UiaState::StageSubmitted(a), Some(copy))
        },
        other => (other, None),
    }
}

/// Replaying an outcome against a negotiation that is not waiting for one
/// — one whose stage already completed, or one that has not submitted —
/// does not change which stage is next: the negotiator advances only on a
/// response it itself triggered.
pub proof fn lemma_replay_does_not_advance(state: UiaState, outcome: RawOutcome, next: UiaState)
    requires
        !uia_in_flight(state),
        uia_transition(state, outcome, next),
    ensures
        next == state,
{
}

// ---------------------------------------------------------------------------
// The endpoint adapter.
// ---------------------------------------------------------------------------

/// `r` is the interpretation of the probe outcome: whatever the status, a
/// body that decodes as the model is taken, and any other body is a decode
/// failure.
pub open spec fn auth_request_interprets(
    outcome: RawOutcome,
    r: Result<UserInteractiveAuthenticationModel, ApiError>,
) -> bool {
    match outcome {
        RawOutcome::Response { status, body } => match json_of(body@) {
            Some(j) => {
                if uia_model_ok(j) {
                    r matches Ok(m) && is_uia_model(j, m)
                } else {
                    r == Result::<UserInteractiveAuthenticationModel, ApiError>::Err(
                        ApiError::Serialization,
                    )
                }
            },
            None => r == Result::<UserInteractiveAuthenticationModel, ApiError>::Err(
                ApiError::Serialization,
            ),
        },
        RawOutcome::Failure(f) => r matches Err(e) && classifies_failure(f, e),
    }
}

/// Interpret the reply to the initial, unauthenticated attempt: its body
/// is expected to carry the flows, whatever the status code.
pub fn auth_request(outcome: &RawOutcome) -> (r: Result<
    UserInteractiveAuthenticationModel,
    ApiError,
>)
    ensures
        auth_request_interprets(*outcome, r),
{
    match outcome {
        RawOutcome::Response { status: _, body } => {
            match parse_json(body.as_str()) {
                Some(parsed) => match uia_model_from_json(parsed) {
                    Some(m) => Ok(m),
                    None => Err(ApiError::Serialization),
                },
                None => Err(ApiError::Serialization),
            }
        },
        RawOutcome::Failure(f) => Err(crate::api::classify_failure(f)),
    }
}


/// `r` is the interpretation of a registration outcome: a 200 whose body
/// is a registration reply succeeds, a 200 with any other body is a decode
/// failure, and everything else classifies as an error.
pub open spec fn register_interprets(
    outcome: RawOutcome,
    r: Result<RegistrationResponse, ApiError>,
) -> bool {
    match outcome {
        RawOutcome::Response { status, body } => {
            if status == 200 {
                match json_of(body@) {
                    Some(j) => {
                        if registration_response_ok(j) {
                            r matches Ok(resp) && is_registration_response(j, resp)
                        } else {
                            r == Result::<RegistrationResponse, ApiError>::Err(
                                ApiError::Serialization,
                            )
                        }
                    },
                    None => r == Result::<RegistrationResponse, ApiError>::Err(
                        ApiError::Serialization,
                    ),
                }
            } else {
                r matches Err(e) && classifies(outcome, e)
            }
        },
        RawOutcome::Failure(_) => r matches Err(e) && classifies(outcome, e),
    }
}

/// Interpret the outcome of a registration request: decode the reply on
/// 200, classify everything else.
pub fn register(outcome: &RawOutcome) -> (r: Result<RegistrationResponse, ApiError>)
    ensures
        register_interprets(*outcome, r),
{
    match outcome {
        RawOutcome::Response { status, body } => {
            if *status == 200 {
                match parse_json(body.as_str()) {
                    Some(parsed) => match registration_response_from_json(&parsed) {
                        Some(resp) => Ok(resp),
                        None => Err(ApiError::Serialization),
                    },
                    None => Err(ApiError::Serialization),
                }
            } else {
                Err(classify(outcome))
            }
        },
        RawOutcome::Failure(_) => Err(classify(outcome)),
    }
}

} // verus!
