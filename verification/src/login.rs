//! Login: discovering the flows a server offers, and the password or token
//! login request itself.

use vstd::prelude::*;

use crate::api::{classifies, classify, ApiError, RawOutcome};
use crate::auth::{auth_type_of, auth_type_from_str, AuthenticationTypes};
use crate::json::{get_arr, get_str, json_of, lookup, obj_arr, obj_get, obj_str, parse_json, Json};

verus! {

/// The fixed path this operation uses.
pub const ENDPOINT: &'static str = "/_matrix/client/r0/login";

/// The login methods a server offers.
#[derive(Debug, PartialEq)]
pub struct LoginFlows {
    pub flows: Vec<LoginFlow>,
}

/// One offered login method. Its `flow_type` is carried under the member
/// name `type` on the wire.
#[derive(Debug, PartialEq)]
pub struct LoginFlow {
    pub flow_type: AuthenticationTypes,
}

/// The credential a login request carries, tagged on the wire by `type`.
#[derive(Debug, PartialEq)]
pub enum LoginType {
    Password { password: String },
    Token { token: String },
}

/// How a third-party identifier reaches its owner.
#[derive(Clone, Copy, Debug, PartialEq, Eq, Structural)]
pub enum ThirdPartyMedium {
    Email,
    MSISDN,
}

/// Who is logging in, tagged on the wire by `type`.
#[derive(Debug, PartialEq)]
pub enum UserIdentifier {
    User { user: String },
    ThirdParty { medium: ThirdPartyMedium, address: String },
    Phone { country: String, phone: String },
}

/// The login request body. Its `login_type` members are flattened into the
/// top level of the object.
#[derive(Debug, PartialEq)]
pub struct LoginModel {
    pub login_type: LoginType,
    pub identifier: UserIdentifier,
    pub device_id: String,
    pub initial_device_display_name: String,
}

/// One server named during discovery.
#[derive(Debug, PartialEq)]
pub struct ServerInformation {
    pub base_url: String,
}

/// The optional server-discovery information of a login reply, carried
/// under the member names `m.homeserver` and `m.identity_server`.
#[derive(Debug, PartialEq)]
pub struct DiscoveryInformation {
    pub homeserver: ServerInformation,
    pub identity_server: ServerInformation,
}

/// A successful login's reply. Storing `access_token` into the client
/// context is the caller's responsibility.
#[derive(Debug, PartialEq)]
pub struct LoginResponse {
    pub user_id: String,
    pub access_token: String,
    pub home_server: String,
    pub device_id: String,
    pub well_known: Option<DiscoveryInformation>,
}

// ---------------------------------------------------------------------------
// Request bodies.
// ---------------------------------------------------------------------------

/// The wire text tagging a credential kind.
pub open spec fn login_type_text(t: LoginType) -> Seq<char> {
    match t {
        LoginType::Password { .. } => "m.login.password"@,
        LoginType::Token { .. } => "m.login.token"@,
    }
}

/// The wire text of a third-party medium.
pub open spec fn medium_text(m: ThirdPartyMedium) -> Seq<char> {
    match m {
        ThirdPartyMedium::Email => "email"@,
        ThirdPartyMedium::MSISDN => "msisdn"@,
    }
}

/// `j` is the JSON form of the identifier `id`, tagged by its `type`.
pub open spec fn is_identifier_json(id: UserIdentifier, j: Json) -> bool {
    match id {
        UserIdentifier::User { user } => {
            &&& j matches Json::Obj(fields)
            &&& fields@.len() == 2
            &&& fields@[0].0@ == "type"@
            &&& fields@[0].1 matches Json::Str(t) && t@ == "m.id.user"@
            &&& fields@[1].0@ == "user"@
            &&& fields@[1].1 == Json::Str(user)
        },
        UserIdentifier::ThirdParty { medium, address } => {
            &&& j matches Json::Obj(fields)
            &&& fields@.len() == 3
            &&& fields@[0].0@ == "type"@
            &&& fields@[0].1 matches Json::Str(t) && t@ == "m.id.thirdparty"@
            &&& fields@[1].0@ == "medium"@
            &&& fields@[1].1 matches Json::Str(m) && m@ == medium_text(medium)
            &&& fields@[2].0@ == "address"@
            &&& fields@[2].1 == Json::Str(address)
        },
        UserIdentifier::Phone { country, phone } => {
            &&& j matches Json::Obj(fields)
            &&& fields@.len() == 3
            &&& fields@[0].0@ == "type"@
            &&& fields@[0].1 matches Json::Str(t) && t@ == "m.id.phone"@
            &&& fields@[1].0@ == "country"@
            &&& fields@[1].1 == Json::Str(country)
            &&& fields@[2].0@ == "phone"@
            &&& fields@[2].1 == Json::Str(phone)
        },
    }
}

/// `j` is the JSON form of the login body `m`: the credential members
/// flattened first, then the identifier and the device members. No member
/// is optional here.
pub open spec fn is_login_json(m: LoginModel, j: Json) -> bool {
    &&& j matches Json::Obj(fields)
    &&& fields@.len() == 5
    &&& fields@[0].0@ == "type"@
    &&& fields@[0].1 matches Json::Str(t) && t@ == login_type_text(m.login_type)
    &&& match m.login_type {
        LoginType::Password { password } => fields@[1].0@ == "password"@ && fields@[1].1
            == Json::Str(password),
        LoginType::Token { token } => fields@[1].0@ == "token"@ && fields@[1].1 == Json::Str(
            token,
        ),
    }
    &&& fields@[2].0@ == "identifier"@
    &&& is_identifier_json(m.identifier, fields@[2].1)
    &&& fields@[3].0@ == "device_id"@
    &&& fields@[3].1 == Json::Str(m.device_id)
    &&& fields@[4].0@ == "initial_device_display_name"@
    &&& fields@[4].1 == Json::Str(m.initial_device_display_name)
}

impl ThirdPartyMedium {
    /// The wire text of this medium.
    pub fn as_str(&self) -> (s: &'static str)
        ensures
            s@ == medium_text(*self),
    {
        match self {
            ThirdPartyMedium::Email => "email",
            ThirdPartyMedium::MSISDN => "msisdn",
        }
    }
}

impl UserIdentifier {
    /// Build the JSON form of this identifier.
    pub fn to_json(&self) -> (j: Json)
        ensures
            is_identifier_json(*self, j),
    {
        match self {
            UserIdentifier::User { user } => {
                let fields: Vec<(String, Json)> = vec![
                    ("type".to_owned(), Json::Str("m.id.user".to_owned())),
                    ("user".to_owned(), Json::Str(user.clone())),
                ];
                Json::Obj(fields)
            },
            UserIdentifier::ThirdParty { medium, address } => {
                let fields: Vec<(String, Json)> = vec![
                    ("type".to_owned(), Json::Str("m.id.thirdparty".to_owned())),
                    ("medium".to_owned(), Json::Str(medium.as_str().to_owned())),
                    ("address".to_owned(), Json::Str(address.clone())),
                ];
                Json::Obj(fields)
            },
            UserIdentifier::Phone { country, phone } => {
                let fields: Vec<(String, Json)> = vec![
                    ("type".to_owned(), Json::Str("m.id.phone".to_owned())),
                    ("country".to_owned(), Json::Str(country.clone())),
                    ("phone".to_owned(), Json::Str(phone.clone())),
                ];
                Json::Obj(fields)
            },
        }
    }
}

impl LoginModel {
    /// Build the login request body.
    pub fn to_json(&self) -> (j: Json)
        ensures
            is_login_json(*self, j),
    {
        let mut fields: Vec<(String, Json)> = Vec::new();
        match &self.login_type {
            LoginType::Password { password } => {
                fields.push(("type".to_owned(), Json::Str("m.login.password".to_owned())));
                fields.push(("password".to_owned(), Json::Str(password.clone())));
            },
            LoginType::Token { token } => {
                fields.push(("type".to_owned(), Json::Str("m.login.token".to_owned())));
                fields.push(("token".to_owned(), Json::Str(token.clone())));
            },
        }
        fields.push(("identifier".to_owned(), self.identifier.to_json()));
        fields.push(("device_id".to_owned(), Json::Str(self.device_id.clone())));
        fields.push(
            (
                "initial_device_display_name".to_owned(),
                Json::Str(self.initial_device_display_name.clone()),
            ),
        );
        Json::Obj(fields)
    }
}

// ---------------------------------------------------------------------------
// Reply bodies.
// ---------------------------------------------------------------------------

/// `f` is the offered flow that the JSON value `j` describes.
pub open spec fn is_login_flow(j: Json, f: LoginFlow) -> bool {
    &&& j matches Json::Obj(fields)
    &&& get_str(fields@, "type"@) matches Some(t) && auth_type_of(t@) == Some(f.flow_type)
}

/// The JSON value `j` has the shape of one offered flow: an object whose
/// `type` member names a known authentication method.
pub open spec fn login_flow_ok(j: Json) -> bool {
    &&& j matches Json::Obj(fields)
    &&& get_str(fields@, "type"@) matches Some(t) && auth_type_of(t@) is Some
}

/// `f` is the flow list that the JSON value `j` describes.
pub open spec fn is_login_flows(j: Json, f: LoginFlows) -> bool {
    &&& j matches Json::Obj(fields)
    &&& get_arr(fields@, "flows"@) matches Some(items)
    &&& f.flows@.len() == items@.len()
    &&& forall|i: int| 0 <= i < items@.len() ==> is_login_flow(items@[i], #[trigger] f.flows@[i])
}

/// The JSON value `j` has the shape of a flow list.
pub open spec fn login_flows_ok(j: Json) -> bool {
    &&& j matches Json::Obj(fields)
    &&& get_arr(fields@, "flows"@) matches Some(items)
    &&& forall|i: int| 0 <= i < items@.len() ==> login_flow_ok(#[trigger] items@[i])
}

/// Decode one offered flow.
fn login_flow_from_json(j: &Json) -> (r: Option<LoginFlow>)
    ensures
        match r {
            Some(f) => login_flow_ok(*j) && is_login_flow(*j, f),
            None => !login_flow_ok(*j),
        },
{
    match j {
        Json::Obj(fields) => {
            match obj_str(fields, "type") {
                Some(t) => match auth_type_from_str(t.as_str()) {
                    Some(flow_type) => Some(LoginFlow { flow_type }),
                    None => None,
                },
                None => None,
            }
        },
        _ => None,
    }
}

/// Decode a flow list.
#[verifier::loop_isolation(false)]
pub fn login_flows_from_json(j: &Json) -> (r: Option<LoginFlows>)
    ensures
        match r {
            Some(f) => login_flows_ok(*j) && is_login_flows(*j, f),
            None => !login_flows_ok(*j),
        },
{
    match j {
        Json::Obj(fields) => {
            match obj_arr(fields, "flows") {
                Some(items) => {
                    let mut flows: Vec<LoginFlow> = Vec::new();
                    let mut i: usize = 0;
                    while i < items.len()
                        invariant
                            i <= items@.len(),
                            flows@.len() == i,
                            forall|k: int|
                                0 <= k < i ==> is_login_flow(items@[k], #[trigger] flows@[k]),
                            forall|k: int| 0 <= k < i ==> login_flow_ok(#[trigger] items@[k]),
                        decreases items@.len() - i,
                    {
                        match login_flow_from_json(&items[i]) {
                            Some(f) => {
                                flows.push(f);
                            },
                            None => {
                                proof {
                                    if login_flows_ok(*j) {
                                        assert(login_flow_ok(
                                            get_arr(fields@, "flows"@)->Some_0@[i as int],
                                        ));
                                    }
                                }
                                return None;
                            },
                        }
                        i = i + 1;
                    }
                    Some(LoginFlows { flows })
                },
                None => None,
            }
        },
        _ => None,
    }
}

/// `s` is the server information that the JSON value `j` describes.
pub open spec fn is_server_info(j: Json, s: ServerInformation) -> bool {
    &&& j matches Json::Obj(fields)
    &&& get_str(fields@, "base_url"@) == Some(s.base_url)
}

/// The JSON value `j` has the shape of server information.
pub open spec fn server_info_ok(j: Json) -> bool {
    &&& j matches Json::Obj(fields)
    &&& get_str(fields@, "base_url"@) is Some
}

/// `d` is the discovery information that the JSON value `j` describes.
pub open spec fn is_discovery(j: Json, d: DiscoveryInformation) -> bool {
    &&& j matches Json::Obj(fields)
    &&& lookup(fields@, "m.homeserver"@) matches Some(h) && is_server_info(h, d.homeserver)
    &&& lookup(fields@, "m.identity_server"@) matches Some(s) && is_server_info(
        s,
        d.identity_server,
    )
}

/// The JSON value `j` has the shape of discovery information.
pub open spec fn discovery_ok(j: Json) -> bool {
    &&& j matches Json::Obj(fields)
    &&& lookup(fields@, "m.homeserver"@) matches Some(h) && server_info_ok(h)
    &&& lookup(fields@, "m.identity_server"@) matches Some(s) && server_info_ok(s)
}

/// Decode server information.
fn server_info_from_json(j: &Json) -> (r: Option<ServerInformation>)
    ensures
        match r {
            Some(s) => server_info_ok(*j) && is_server_info(*j, s),
            None => !server_info_ok(*j),
        },
{
    match j {
        Json::Obj(fields) => match obj_str(fields, "base_url") {
            Some(base_url) => Some(ServerInformation { base_url }),
            None => None,
        },
        _ => None,
    }
}

/// Decode discovery information.
fn discovery_from_json(j: &Json) -> (r: Option<DiscoveryInformation>)
    ensures
        match r {
            Some(d) => discovery_ok(*j) && is_discovery(*j, d),
            None => !discovery_ok(*j),
        },
{
    match j {
        Json::Obj(fields) => {
            let homeserver = match obj_get(fields, "m.homeserver") {
                Some(h) => server_info_from_json(h),
                None => None,
            };
            let identity_server = match obj_get(fields, "m.identity_server") {
                Some(s) => server_info_from_json(s),
                None => None,
            };
            match (homeserver, identity_server) {
                (Some(homeserver), Some(identity_server)) => Some(
                    DiscoveryInformation { homeserver, identity_server },
                ),
                _ => None,
            }
        },
        _ => None,
    }
}

/// `resp` is the login reply that the JSON value `j` describes. A missing
/// or null `well_known` member means none was given.
pub open spec fn is_login_response(j: Json, resp: LoginResponse) -> bool {
    &&& j matches Json::Obj(fields)
    &&& get_str(fields@, "user_id"@) == Some(resp.user_id)
    &&& get_str(fields@, "access_token"@) == Some(resp.access_token)
    &&& get_str(fields@, "home_server"@) == Some(resp.home_server)
    &&& get_str(fields@, "device_id"@) == Some(resp.device_id)
    &&& match lookup(fields@, "well_known"@) {
        Some(Json::Null) => resp.well_known is None,
        Some(w) => resp.well_known matches Some(d) && is_discovery(w, d),
        None => resp.well_known is None,
    }
}

/// The JSON value `j` has the shape of a login reply.
pub open spec fn login_response_ok(j: Json) -> bool {
    &&& j matches Json::Obj(fields)
    &&& get_str(fields@, "user_id"@) is Some
    &&& get_str(fields@, "access_token"@) is Some
    &&& get_str(fields@, "home_server"@) is Some
    &&& get_str(fields@, "device_id"@) is Some
    &&& match lookup(fields@, "well_known"@) {
        Some(Json::Null) => true,
        Some(w) => discovery_ok(w),
        None => true,
    }
}

/// Decode a login reply.
pub fn login_response_from_json(j: &Json) -> (r: Option<LoginResponse>)
    ensures
        match r {
            Some(resp) => login_response_ok(*j) && is_login_response(*j, resp),
            None => !login_response_ok(*j),
        },
{
    match j {
        Json::Obj(fields) => {
            let user_id = obj_str(fields, "user_id");
            let access_token = obj_str(fields, "access_token");
            let home_server = obj_str(fields, "home_server");
            let device_id = obj_str(fields, "device_id");
            let well_known = match obj_get(fields, "well_known") {
                Some(Json::Null) => Some(None),
                Some(w) => match discovery_from_json(w) {
                    Some(d) => Some(Some(d)),
                    None => None,
                },
                None => Some(None),
            };
            match (user_id, access_token, home_server, device_id, well_known) {
                (
                    Some(user_id),
                    Some(access_token),
                    Some(home_server),
                    Some(device_id),
                    Some(well_known),
                ) => Some(
                    LoginResponse { user_id, access_token, home_server, device_id, well_known },
                ),
                _ => None,
            }
        },
        _ => None,
    }
}

// ---------------------------------------------------------------------------
// The endpoint adapters.
// ---------------------------------------------------------------------------

/// `r` is the interpretation of the flow-discovery outcome: decode on 200,
/// classify everything else; a 200 whose body is not a flow list is a
/// decode failure.
pub open spec fn login_flows_interprets(
    outcome: RawOutcome,
    r: Result<LoginFlows, ApiError>,
) -> bool {
    match outcome {
        RawOutcome::Response { status, body } => {
            if status == 200 {
                match json_of(body@) {
                    Some(j) => {
                        if login_flows_ok(j) {
                            r matches Ok(f) && is_login_flows(j, f)
                        } else {
                            r == Result::<LoginFlows, ApiError>::Err(ApiError::Serialization)
                        }
                    },
                    None => r == Result::<LoginFlows, ApiError>::Err(ApiError::Serialization),
                }
            } else {
                r matches Err(e) && classifies(outcome, e)
            }
        },
        RawOutcome::Failure(_) => r matches Err(e) && classifies(outcome, e),
    }
}

/// Interpret the reply to the flow-discovery request.
pub fn get_login_flows(outcome: &RawOutcome) -> (r: Result<LoginFlows, ApiError>)
    ensures
        login_flows_interprets(*outcome, r),
{
    match outcome {
        RawOutcome::Response { status, body } => {
            if *status == 200 {
                match parse_json(body.as_str()) {
                    Some(parsed) => match login_flows_from_json(&parsed) {
                        Some(f) => Ok(f),
                        None => Err(ApiError::Serialization),
                    },
                    None => Err(ApiError::Serialization),
                }
            } else {
                Err(classify(outcome))
            }
        },
        RawOutcome::Failure(_) => Err(classify(outcome)),
    }
}

/// `r` is the interpretation of the login outcome: decode on 200, classify
/// everything else; a 200 whose body is not a login reply is a decode
/// failure.
pub open spec fn login_interprets(outcome: RawOutcome, r: Result<LoginResponse, ApiError>) -> bool {
    match outcome {
        RawOutcome::Response { status, body } => {
            if status == 200 {
                match json_of(body@) {
                    Some(j) => {
                        if login_response_ok(j) {
                            r matches Ok(resp) && is_login_response(j, resp)
                        } else {
                            r == Result::<LoginResponse, ApiError>::Err(ApiError::Serialization)
                        }
                    },
                    None => r == Result::<LoginResponse, ApiError>::Err(ApiError::Serialization),
                }
            } else {
                r matches Err(e) && classifies(outcome, e)
            }
        },
        RawOutcome::Failure(_) => r matches Err(e) && classifies(outcome, e),
    }
}

/// Interpret the outcome of a login request. On success the caller stores
/// the returned token into its client context; this function never mutates
/// the context itself.
pub fn login(outcome: &RawOutcome) -> (r: Result<LoginResponse, ApiError>)
    ensures
        login_interprets(*outcome, r),
{
    match outcome {
        RawOutcome::Response { status, body } => {
            if *status == 200 {
                match parse_json(body.as_str()) {
                    Some(parsed) => match login_response_from_json(&parsed) {
                        Some(resp) => Ok(resp),
                        None => Err(ApiError::Serialization),
                    },
                    None => Err(ApiError::Serialization),
                }
            } else {
                Err(classify(outcome))
            }
        },
        RawOutcome::Failure(_) => Err(classify(outcome)),
    }
}

} // verus!
