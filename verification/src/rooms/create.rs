//! Room creation.
//!
//! The request record is all optional fields; a member left `None` is
//! omitted from the body entirely, never serialized as `null`.

use vstd::prelude::*;

use crate::api::{classifies, classify, ApiError, RawOutcome};
use crate::json::{get_str, json_of, obj_str, parse_json, Json};

verus! {

/// The fixed path this operation posts to.
pub const ENDPOINT: &'static str = "/_matrix/client/r0/createRoom";

/// Whether the room is published in the public directory.
#[derive(Clone, Copy, Debug, PartialEq, Eq, Structural)]
pub enum VisibilityType {
    Public,
    Private,
}

/// An invitation delivered through a third-party identifier service.
#[derive(Debug, PartialEq)]
pub struct Invite3pid {
    pub id_server: String,
    pub id_access_token: String,
    pub medium: String,
    pub address: String,
}

/// The room this one replaces.
#[derive(Debug, PartialEq)]
pub struct PreviousRoom {
    pub room_id: String,
    pub event_id: String,
}

/// Extra content of the room's creation event. Its `federate` member is
/// carried under the name `m.federate`.
#[derive(Debug, PartialEq)]
pub struct CreationContent {
    pub federate: Option<bool>,
    pub predecessor: Option<PreviousRoom>,
}

/// One state event to set when the room is created.
#[derive(Debug, PartialEq)]
pub struct StateEvent {
    pub event_type: String,
    pub state_key: Option<String>,
    pub content: String,
}

/// A convenience preset of visibility and join rules.
#[derive(Clone, Copy, Debug, PartialEq, Eq, Structural)]
pub enum PresetType {
    PrivateChat,
    TrustedPrivateChat,
    PublicChat,
}

/// The power level required to trigger notifications.
#[derive(Debug, PartialEq)]
pub struct Notifications {
    pub room: u16,
}

/// The room's power-level content: every member optional, the two maps
/// keyed by event type and by user id.
#[derive(Debug, PartialEq)]
pub struct PowerLevels {
    pub ban: Option<u16>,
    pub events: Option<Vec<(String, u16)>>,
    pub events_default: Option<u16>,
    pub invite: Option<u16>,
    pub kick: Option<u16>,
    pub redact: Option<u16>,
    pub state_default: Option<u16>,
    pub users: Option<Vec<(String, u16)>>,
    pub users_default: Option<u16>,
    pub notifications: Option<Notifications>,
}

/// The room-creation request body: every member optional.
#[derive(Debug, PartialEq)]
pub struct CreateRoomRequest {
    pub visibility: Option<VisibilityType>,
    pub room_alias_name: Option<String>,
    pub name: Option<String>,
    pub topic: Option<String>,
    pub invite: Option<Vec<String>>,
    pub invite_3pid: Option<Vec<Invite3pid>>,
    pub room_version: Option<String>,
    pub creation_content: Option<CreationContent>,
    pub initial_state: Option<Vec<StateEvent>>,
    pub preset: Option<PresetType>,
    pub is_direct: Option<bool>,
    pub power_level_content_override: Option<PowerLevels>,
}

/// A successful creation's reply.
#[derive(Debug, PartialEq)]
pub struct CreateRoomResponse {
    pub room_id: String,
}

// ---------------------------------------------------------------------------
// The request body.
// ---------------------------------------------------------------------------

/// The wire text of a visibility.
pub open spec fn visibility_text(v: VisibilityType) -> Seq<char> {
    match v {
        VisibilityType::Public => "public"@,
        VisibilityType::Private => "private"@,
    }
}

/// The wire text of a preset.
pub open spec fn preset_text(p: PresetType) -> Seq<char> {
    match p {
        PresetType::PrivateChat => "private_chat"@,
        PresetType::TrustedPrivateChat => "trusted_private_chat"@,
        PresetType::PublicChat => "public_chat"@,
    }
}

/// `j` is the JSON form of a string-to-level map: the same pairs, in order,
/// each level as an integer.
#[verifier::opaque]
pub open spec fn is_level_map_json(m: Seq<(String, u16)>, j: Json) -> bool {
    &&& j matches Json::Obj(fields)
    &&& fields.len() == m.len()
    &&& forall|i: int|
        0 <= i < m.len() ==> (#[trigger] fields[i]).0 == m[i].0 && fields[i].1 == Json::Int(
            m[i].1 as i64,
        )
}

/// `j` is the JSON form of the previous-room record.
#[verifier::opaque]
pub open spec fn is_previous_room_json(p: PreviousRoom, j: Json) -> bool {
    &&& j matches Json::Obj(fields)
    &&& fields@.len() == 2
    &&& fields@[0].0@ == "room_id"@ && fields@[0].1 == Json::Str(p.room_id)
    &&& fields@[1].0@ == "event_id"@ && fields@[1].1 == Json::Str(p.event_id)
}

/// `j` is the JSON form of the creation content: both members optional,
/// `federate` under the name `m.federate`.
#[verifier::opaque]
pub open spec fn is_creation_content_json(c: CreationContent, j: Json) -> bool {
    &&& j matches Json::Obj(fields)
    &&& fields@.len() == flen(c.federate is Some) + flen(c.predecessor is Some)
    &&& c.federate matches Some(f) ==> fields@[0].0@ == "m.federate"@ && fields@[0].1
        == Json::Bool(f)
    &&& c.predecessor matches Some(p) ==> {
        let at = flen(c.federate is Some);
        fields@[at].0@ == "predecessor"@ && is_previous_room_json(p, fields@[at].1)
    }
}

/// `j` is the JSON form of one third-party invitation.
#[verifier::opaque]
pub open spec fn is_invite_3pid_json(v: Invite3pid, j: Json) -> bool {
    &&& j matches Json::Obj(fields)
    &&& fields@.len() == 4
    &&& fields@[0].0@ == "id_server"@ && fields@[0].1 == Json::Str(v.id_server)
    &&& fields@[1].0@ == "id_access_token"@ && fields@[1].1 == Json::Str(v.id_access_token)
    &&& fields@[2].0@ == "medium"@ && fields@[2].1 == Json::Str(v.medium)
    &&& fields@[3].0@ == "address"@ && fields@[3].1 == Json::Str(v.address)
}

/// `j` is the JSON form of one initial state event: `state_key` omitted
/// when absent.
#[verifier::opaque]
pub open spec fn is_state_event_json(e: StateEvent, j: Json) -> bool {
    &&& j matches Json::Obj(fields)
    &&& fields@.len() == 2 + flen(e.state_key is Some)
    &&& fields@[0].0@ == "type"@ && fields@[0].1 == Json::Str(e.event_type)
    &&& e.state_key matches Some(k) ==> fields@[1].0@ == "state_key"@ && fields@[1].1
        == Json::Str(k)
    &&& {
        let at = 1 + flen(e.state_key is Some);
        fields@[at].0@ == "content"@ && fields@[at].1 == Json::Str(e.content)
    }
}

/// `j` is the JSON form of the notifications record.
#[verifier::opaque]
pub open spec fn is_notifications_json(n: Notifications, j: Json) -> bool {
    &&& j matches Json::Obj(fields)
    &&& fields@.len() == 1
    &&& fields@[0].0@ == "room"@ && fields@[0].1 == Json::Int(n.room as i64)
}

/// One where a present option contributes, zero where it is omitted.
pub open spec fn flen(present: bool) -> int {
    if present {
        1
    } else {
        0
    }
}

/// Offsets of the power-level members, each the sum of the lengths of the
/// members before it.
pub open spec fn pl_off_events(p: PowerLevels) -> int {
    flen(p.ban is Some)
}

pub open spec fn pl_off_events_default(p: PowerLevels) -> int {
    pl_off_events(p) + flen(p.events is Some)
}

pub open spec fn pl_off_invite(p: PowerLevels) -> int {
    pl_off_events_default(p) + flen(p.events_default is Some)
}

pub open spec fn pl_off_kick(p: PowerLevels) -> int {
    pl_off_invite(p) + flen(p.invite is Some)
}

pub open spec fn pl_off_redact(p: PowerLevels) -> int {
    pl_off_kick(p) + flen(p.kick is Some)
}

pub open spec fn pl_off_state_default(p: PowerLevels) -> int {
    pl_off_redact(p) + flen(p.redact is Some)
}

pub open spec fn pl_off_users(p: PowerLevels) -> int {
    pl_off_state_default(p) + flen(p.state_default is Some)
}

pub open spec fn pl_off_users_default(p: PowerLevels) -> int {
    pl_off_users(p) + flen(p.users is Some)
}

pub open spec fn pl_off_notifications(p: PowerLevels) -> int {
    pl_off_users_default(p) + flen(p.users_default is Some)
}

pub open spec fn pl_len(p: PowerLevels) -> int {
    pl_off_notifications(p) + flen(p.notifications is Some)
}

/// `j` is the JSON form of the power levels: present members in the fixed
/// order, absent members omitted.
#[verifier::opaque]
pub open spec fn is_power_levels_json(p: PowerLevels, j: Json) -> bool {
    &&& j matches Json::Obj(fields)
    &&& fields@.len() == pl_len(p)
    &&& p.ban matches Some(v) ==> fields@[0].0@ == "ban"@ && fields@[0].1 == Json::Int(v as i64)
    &&& p.events matches Some(m) ==> fields@[pl_off_events(p)].0@ == "events"@
        && is_level_map_json(m@, fields@[pl_off_events(p)].1)
    &&& p.events_default matches Some(v) ==> fields@[pl_off_events_default(p)].0@
        == "events_default"@ && fields@[pl_off_events_default(p)].1 == Json::Int(v as i64)
    &&& p.invite matches Some(v) ==> fields@[pl_off_invite(p)].0@ == "invite"@
        && fields@[pl_off_invite(p)].1 == Json::Int(v as i64)
    &&& p.kick matches Some(v) ==> fields@[pl_off_kick(p)].0@ == "kick"@
        && fields@[pl_off_kick(p)].1 == Json::Int(v as i64)
    &&& p.redact matches Some(v) ==> fields@[pl_off_redact(p)].0@ == "redact"@
        && fields@[pl_off_redact(p)].1 == Json::Int(v as i64)
    &&& p.state_default matches Some(v) ==> fields@[pl_off_state_default(p)].0@
        == "state_default"@ && fields@[pl_off_state_default(p)].1 == Json::Int(v as i64)
    &&& p.users matches Some(m) ==> fields@[pl_off_users(p)].0@ == "users"@ && is_level_map_json(
        m@,
        fields@[pl_off_users(p)].1,
    )
    &&& p.users_default matches Some(v) ==> fields@[pl_off_users_default(p)].0@
        == "users_default"@ && fields@[pl_off_users_default(p)].1 == Json::Int(v as i64)
    &&& p.notifications matches Some(n) ==> fields@[pl_off_notifications(p)].0@
        == "notifications"@ && is_notifications_json(n, fields@[pl_off_notifications(p)].1)
}

/// Offsets of the request members, each the sum of the lengths of the
/// members before it.
pub open spec fn cr_off_room_alias_name(m: CreateRoomRequest) -> int {
    flen(m.visibility is Some)
}

pub open spec fn cr_off_name(m: CreateRoomRequest) -> int {
    cr_off_room_alias_name(m) + flen(m.room_alias_name is Some)
}

pub open spec fn cr_off_topic(m: CreateRoomRequest) -> int {
    cr_off_name(m) + flen(m.name is Some)
}

pub open spec fn cr_off_invite(m: CreateRoomRequest) -> int {
    cr_off_topic(m) + flen(m.topic is Some)
}

pub open spec fn cr_off_invite_3pid(m: CreateRoomRequest) -> int {
    cr_off_invite(m) + flen(m.invite is Some)
}

pub open spec fn cr_off_room_version(m: CreateRoomRequest) -> int {
    cr_off_invite_3pid(m) + flen(m.invite_3pid is Some)
}

pub open spec fn cr_off_creation_content(m: CreateRoomRequest) -> int {
    cr_off_room_version(m) + flen(m.room_version is Some)
}

pub open spec fn cr_off_initial_state(m: CreateRoomRequest) -> int {
    cr_off_creation_content(m) + flen(m.creation_content is Some)
}

pub open spec fn cr_off_preset(m: CreateRoomRequest) -> int {
    cr_off_initial_state(m) + flen(m.initial_state is Some)
}

pub open spec fn cr_off_is_direct(m: CreateRoomRequest) -> int {
    cr_off_preset(m) + flen(m.preset is Some)
}

pub open spec fn cr_off_power_levels(m: CreateRoomRequest) -> int {
    cr_off_is_direct(m) + flen(m.is_direct is Some)
}

pub open spec fn cr_len(m: CreateRoomRequest) -> int {
    cr_off_power_levels(m) + flen(m.power_level_content_override is Some)
}

/// `j` is the JSON form of the room-creation body `m`: present members in
/// the fixed order, absent members omitted — never a `null` placeholder.
pub open spec fn is_create_room_json(m: CreateRoomRequest, j: Json) -> bool {
    &&& j matches Json::Obj(fields)
    &&& fields@.len() == cr_len(m)
    &&& m.visibility matches Some(v) ==> fields@[0].0@ == "visibility"@ && (fields@[0].1
        matches Json::Str(t) && t@ == visibility_text(v))
    &&& m.room_alias_name matches Some(a) ==> fields@[cr_off_room_alias_name(m)].0@
        == "room_alias_name"@ && fields@[cr_off_room_alias_name(m)].1 == Json::Str(a)
    &&& m.name matches Some(n) ==> fields@[cr_off_name(m)].0@ == "name"@
        && fields@[cr_off_name(m)].1 == Json::Str(n)
    &&& m.topic matches Some(t) ==> fields@[cr_off_topic(m)].0@ == "topic"@
        && fields@[cr_off_topic(m)].1 == Json::Str(t)
    &&& m.invite matches Some(inv) ==> fields@[cr_off_invite(m)].0@ == "invite"@
        && (fields@[cr_off_invite(m)].1 matches Json::Arr(items) && items@.len() == inv@.len()
        && (forall|i: int| 0 <= i < inv@.len() ==> items@[i] == Json::Str(#[trigger] inv@[i])))
    &&& m.invite_3pid matches Some(inv) ==> fields@[cr_off_invite_3pid(m)].0@ == "invite_3pid"@
        && (fields@[cr_off_invite_3pid(m)].1 matches Json::Arr(items) && items@.len()
        == inv@.len() && (forall|i: int|
        0 <= i < inv@.len() ==> is_invite_3pid_json(#[trigger] inv@[i], items@[i])))
    &&& m.room_version matches Some(v) ==> fields@[cr_off_room_version(m)].0@ == "room_version"@
        && fields@[cr_off_room_version(m)].1 == Json::Str(v)
    &&& m.creation_content matches Some(c) ==> fields@[cr_off_creation_content(m)].0@
        == "creation_content"@ && is_creation_content_json(c, fields@[cr_off_creation_content(m)].1)
    &&& m.initial_state matches Some(evs) ==> fields@[cr_off_initial_state(m)].0@
        == "initial_state"@ && (fields@[cr_off_initial_state(m)].1 matches Json::Arr(items)
        && items@.len() == evs@.len() && (forall|i: int|
        0 <= i < evs@.len() ==> is_state_event_json(#[trigger] evs@[i], items@[i])))
    &&& m.preset matches Some(p) ==> fields@[cr_off_preset(m)].0@ == "preset"@ && (
    fields@[cr_off_preset(m)].1 matches Json::Str(t) && t@ == preset_text(p))
    &&& m.is_direct matches Some(d) ==> fields@[cr_off_is_direct(m)].0@ == "is_direct"@
        && fields@[cr_off_is_direct(m)].1 == Json::Bool(d)
    &&& m.power_level_content_override matches Some(p) ==> fields@[cr_off_power_levels(m)].0@
        == "power_level_content_override"@ && is_power_levels_json(
        p,
        fields@[cr_off_power_levels(m)].1,
    )
}

impl VisibilityType {
    /// The wire text of this visibility.
    pub fn as_str(&self) -> (s: &'static str)
        ensures
            s@ == visibility_text(*self),
    {
        match self {
            VisibilityType::Public => "public",
            VisibilityType::Private => "private",
        }
    }
}

impl PresetType {
    /// The wire text of this preset.
    pub fn as_str(&self) -> (s: &'static str)
        ensures
            s@ == preset_text(*self),
    {
        match self {
            PresetType::PrivateChat => "private_chat",
            PresetType::TrustedPrivateChat => "trusted_private_chat",
            PresetType::PublicChat => "public_chat",
        }
    }
}

/// Build the JSON form of a string-to-level map.
#[verifier::loop_isolation(false)]
fn level_map_to_json(m: &Vec<(String, u16)>) -> (j: Json)
    ensures
        is_level_map_json(m@, j),
{
    proof {
        reveal(is_level_map_json);
    }
    let mut fields: Vec<(String, Json)> = Vec::new();
    let mut i: usize = 0;
    while i < m.len()
        invariant
            i <= m@.len(),
            fields@.len() == i,
            forall|k: int|
                0 <= k < i ==> (#[trigger] fields@[k]).0 == m@[k].0 && fields@[k].1 == Json::Int(
                    m@[k].1 as i64,
                ),
        decreases m@.len() - i,
    {
        fields.push((m[i].0.clone(), Json::Int(m[i].1 as i64)));
        i = i + 1;
    }
    Json::Obj(fields)
}

impl PreviousRoom {
    /// Build the JSON form of this record.
    pub fn to_json(&self) -> (j: Json)
        ensures
            is_previous_room_json(*self, j),
    {
        proof {
            reveal(is_previous_room_json);
        }
        let fields: Vec<(String, Json)> = vec![
            ("room_id".to_owned(), Json::Str(self.room_id.clone())),
            ("event_id".to_owned(), Json::Str(self.event_id.clone())),
        ];
        Json::Obj(fields)
    }
}

impl CreationContent {
    /// Build the JSON form of this record, omitting absent members.
    pub fn to_json(&self) -> (j: Json)
        ensures
            is_creation_content_json(*self, j),
    {
        proof {
            reveal(is_creation_content_json);
        }
        let mut fields: Vec<(String, Json)> = Vec::new();
        if let Some(f) = &self.federate {
            fields.push(("m.federate".to_owned(), Json::Bool(*f)));
        }
        if let Some(p) = &self.predecessor {
            fields.push(("predecessor".to_owned(), p.to_json()));
        }
        Json::Obj(fields)
    }
}

impl Invite3pid {
    /// Build the JSON form of this record.
    pub fn to_json(&self) -> (j: Json)
        ensures
            is_invite_3pid_json(*self, j),
    {
        proof {
            reveal(is_invite_3pid_json);
        }
        let fields: Vec<(String, Json)> = vec![
            ("id_server".to_owned(), Json::Str(self.id_server.clone())),
            ("id_access_token".to_owned(), Json::Str(self.id_access_token.clone())),
            ("medium".to_owned(), Json::Str(self.medium.clone())),
            ("address".to_owned(), Json::Str(self.address.clone())),
        ];
        Json::Obj(fields)
    }
}

impl StateEvent {
    /// Build the JSON form of this event, omitting an absent `state_key`.
    pub fn to_json(&self) -> (j: Json)
        ensures
            is_state_event_json(*self, j),
    {
        proof {
            reveal(is_state_event_json);
        }
        let mut fields: Vec<(String, Json)> = Vec::new();
        fields.push(("type".to_owned(), Json::Str(self.event_type.clone())));
        if let Some(k) = &self.state_key {
            fields.push(("state_key".to_owned(), Json::Str(k.clone())));
        }
        fields.push(("content".to_owned(), Json::Str(self.content.clone())));
        Json::Obj(fields)
    }
}

impl Notifications {
    /// Build the JSON form of this record.
    pub fn to_json(&self) -> (j: Json)
        ensures
            is_notifications_json(*self, j),
    {
        proof {
            reveal(is_notifications_json);
        }
        let fields: Vec<(String, Json)> = vec![("room".to_owned(), Json::Int(self.room as i64))];
        Json::Obj(fields)
    }
}

impl PowerLevels {
    /// Build the JSON form of the power levels, omitting absent members.
    #[verifier::rlimit(100)]
    pub fn to_json(&self) -> (j: Json)
        ensures
            is_power_levels_json(*self, j),
    {
        proof {
            reveal(is_power_levels_json);
        }
        let mut fields: Vec<(String, Json)> = Vec::new();
        if let Some(v) = &self.ban {
            fields.push(("ban".to_owned(), Json::Int(*v as i64)));
        }
        proof {
            assert(fields@.len() == pl_off_events(*self));
            assert(self.ban matches Some(v) ==> fields@[0].0@ == "ban"@ && fields@[0].1 == Json::Int(v as i64));
        }
        if let Some(m) = &self.events {
            fields.push(("events".to_owned(), level_map_to_json(m)));
        }
        proof {
            assert(fields@.len() == pl_off_events_default(*self));
            assert(self.ban matches Some(v) ==> fields@[0].0@ == "ban"@ && fields@[0].1 == Json::Int(v as i64));
            assert(self.events matches Some(m) ==> fields@[pl_off_events(*self)].0@ == "events"@ && is_level_map_json(m@, fields@[pl_off_events(*self)].1));
        }
        if let Some(v) = &self.events_default {
            fields.push(("events_default".to_owned(), Json::Int(*v as i64)));
        }
        proof {
            assert(fields@.len() == pl_off_invite(*self));
            assert(self.ban matches Some(v) ==> fields@[0].0@ == "ban"@ && fields@[0].1 == Json::Int(v as i64));
            assert(self.events matches Some(m) ==> fields@[pl_off_events(*self)].0@ == "events"@ && is_level_map_json(m@, fields@[pl_off_events(*self)].1));
            assert(self.events_default matches Some(v) ==> fields@[pl_off_events_default(*self)].0@ == "events_default"@ && fields@[pl_off_events_default(*self)].1 == Json::Int(v as i64));
        }
        if let Some(v) = &self.invite {
            fields.push(("invite".to_owned(), Json::Int(*v as i64)));
        }
        proof {
            assert(fields@.len() == pl_off_kick(*self));
            assert(self.ban matches Some(v) ==> fields@[0].0@ == "ban"@ && fields@[0].1 == Json::Int(v as i64));
            assert(self.events matches Some(m) ==> fields@[pl_off_events(*self)].0@ == "events"@ && is_level_map_json(m@, fields@[pl_off_events(*self)].1));
            assert(self.events_default matches Some(v) ==> fields@[pl_off_events_default(*self)].0@ == "events_default"@ && fields@[pl_off_events_default(*self)].1 == Json::Int(v as i64));
            assert(self.invite matches Some(v) ==> fields@[pl_off_invite(*self)].0@ == "invite"@ && fields@[pl_off_invite(*self)].1 == Json::Int(v as i64));
        }
        if let Some(v) = &self.kick {
            fields.push(("kick".to_owned(), Json::Int(*v as i64)));
        }
        proof {
            assert(fields@.len() == pl_off_redact(*self));
            assert(self.ban matches Some(v) ==> fields@[0].0@ == "ban"@ && fields@[0].1 == Json::Int(v as i64));
            assert(self.events matches Some(m) ==> fields@[pl_off_events(*self)].0@ == "events"@ && is_level_map_json(m@, fields@[pl_off_events(*self)].1));
            assert(self.events_default matches Some(v) ==> fields@[pl_off_events_default(*self)].0@ == "events_default"@ && fields@[pl_off_events_default(*self)].1 == Json::Int(v as i64));
            assert(self.invite matches Some(v) ==> fields@[pl_off_invite(*self)].0@ == "invite"@ && fields@[pl_off_invite(*self)].1 == Json::Int(v as i64));
            assert(self.kick matches Some(v) ==> fields@[pl_off_kick(*self)].0@ == "kick"@ && fields@[pl_off_kick(*self)].1 == Json::Int(v as i64));
        }
        if let Some(v) = &self.redact {
            fields.push(("redact".to_owned(), Json::Int(*v as i64)));
        }
        proof {
            assert(fields@.len() == pl_off_state_default(*self));
            assert(self.ban matches Some(v) ==> fields@[0].0@ == "ban"@ && fields@[0].1 == Json::Int(v as i64));
            assert(self.events matches Some(m) ==> fields@[pl_off_events(*self)].0@ == "events"@ && is_level_map_json(m@, fields@[pl_off_events(*self)].1));
            assert(self.events_default matches Some(v) ==> fields@[pl_off_events_default(*self)].0@ == "events_default"@ && fields@[pl_off_events_default(*self)].1 == Json::Int(v as i64));
            assert(self.invite matches Some(v) ==> fields@[pl_off_invite(*self)].0@ == "invite"@ && fields@[pl_off_invite(*self)].1 == Json::Int(v as i64));
            assert(self.kick matches Some(v) ==> fields@[pl_off_kick(*self)].0@ == "kick"@ && fields@[pl_off_kick(*self)].1 == Json::Int(v as i64));
            assert(self.redact matches Some(v) ==> fields@[pl_off_redact(*self)].0@ == "redact"@ && fields@[pl_off_redact(*self)].1 == Json::Int(v as i64));
        }
        if let Some(v) = &self.state_default {
            fields.push(("state_default".to_owned(), Json::Int(*v as i64)));
        }
        proof {
            assert(fields@.len() == pl_off_users(*self));
            assert(self.ban matches Some(v) ==> fields@[0].0@ == "ban"@ && fields@[0].1 == Json::Int(v as i64));
            assert(self.events matches Some(m) ==> fields@[pl_off_events(*self)].0@ == "events"@ && is_level_map_json(m@, fields@[pl_off_events(*self)].1));
            assert(self.events_default matches Some(v) ==> fields@[pl_off_events_default(*self)].0@ == "events_default"@ && fields@[pl_off_events_default(*self)].1 == Json::Int(v as i64));
            assert(self.invite matches Some(v) ==> fields@[pl_off_invite(*self)].0@ == "invite"@ && fields@[pl_off_invite(*self)].1 == Json::Int(v as i64));
            assert(self.kick matches Some(v) ==> fields@[pl_off_kick(*self)].0@ == "kick"@ && fields@[pl_off_kick(*self)].1 == Json::Int(v as i64));
            assert(self.redact matches Some(v) ==> fields@[pl_off_redact(*self)].0@ == "redact"@ && fields@[pl_off_redact(*self)].1 == Json::Int(v as i64));
            assert(self.state_default matches Some(v) ==> fields@[pl_off_state_default(*self)].0@ == "state_default"@ && fields@[pl_off_state_default(*self)].1 == Json::Int(v as i64));
        }
        if let Some(m) = &self.users {
            fields.push(("users".to_owned(), level_map_to_json(m)));
        }
        proof {
            assert(fields@.len() == pl_off_users_default(*self));
            assert(self.ban matches Some(v) ==> fields@[0].0@ == "ban"@ && fields@[0].1 == Json::Int(v as i64));
            assert(self.events matches Some(m) ==> fields@[pl_off_events(*self)].0@ == "events"@ && is_level_map_json(m@, fields@[pl_off_events(*self)].1));
            assert(self.events_default matches Some(v) ==> fields@[pl_off_events_default(*self)].0@ == "events_default"@ && fields@[pl_off_events_default(*self)].1 == Json::Int(v as i64));
            assert(self.invite matches Some(v) ==> fields@[pl_off_invite(*self)].0@ == "invite"@ && fields@[pl_off_invite(*self)].1 == Json::Int(v as i64));
            assert(self.kick matches Some(v) ==> fields@[pl_off_kick(*self)].0@ == "kick"@ && fields@[pl_off_kick(*self)].1 == Json::Int(v as i64));
            assert(self.redact matches Some(v) ==> fields@[pl_off_redact(*self)].0@ == "redact"@ && fields@[pl_off_redact(*self)].1 == Json::Int(v as i64));
            assert(self.state_default matches Some(v) ==> fields@[pl_off_state_default(*self)].0@ == "state_default"@ && fields@[pl_off_state_default(*self)].1 == Json::Int(v as i64));
            assert(self.users matches Some(m) ==> fields@[pl_off_users(*self)].0@ == "users"@ && is_level_map_json(m@, fields@[pl_off_users(*self)].1));
        }
        if let Some(v) = &self.users_default {
            fields.push(("users_default".to_owned(), Json::Int(*v as i64)));
        }
        proof {
            assert(fields@.len() == pl_off_notifications(*self));
            assert(self.ban matches Some(v) ==> fields@[0].0@ == "ban"@ && fields@[0].1 == Json::Int(v as i64));
            assert(self.events matches Some(m) ==> fields@[pl_off_events(*self)].0@ == "events"@ && is_level_map_json(m@, fields@[pl_off_events(*self)].1));
            assert(self.events_default matches Some(v) ==> fields@[pl_off_events_default(*self)].0@ == "events_default"@ && fields@[pl_off_events_default(*self)].1 == Json::Int(v as i64));
            assert(self.invite matches Some(v) ==> fields@[pl_off_invite(*self)].0@ == "invite"@ && fields@[pl_off_invite(*self)].1 == Json::Int(v as i64));
            assert(self.kick matches Some(v) ==> fields@[pl_off_kick(*self)].0@ == "kick"@ && fields@[pl_off_kick(*self)].1 == Json::Int(v as i64));
            assert(self.redact matches Some(v) ==> fields@[pl_off_redact(*self)].0@ == "redact"@ && fields@[pl_off_redact(*self)].1 == Json::Int(v as i64));
            assert(self.state_default matches Some(v) ==> fields@[pl_off_state_default(*self)].0@ == "state_default"@ && fields@[pl_off_state_default(*self)].1 == Json::Int(v as i64));
            assert(self.users matches Some(m) ==> fields@[pl_off_users(*self)].0@ == "users"@ && is_level_map_json(m@, fields@[pl_off_users(*self)].1));
            assert(self.users_default matches Some(v) ==> fields@[pl_off_users_default(*self)].0@ == "users_default"@ && fields@[pl_off_users_default(*self)].1 == Json::Int(v as i64));
        }
        if let Some(n) = &self.notifications {
            fields.push(("notifications".to_owned(), n.to_json()));
        }
        proof {
            assert(fields@.len() == pl_len(*self));
            assert(self.ban matches Some(v) ==> fields@[0].0@ == "ban"@ && fields@[0].1 == Json::Int(v as i64));
            assert(self.events matches Some(m) ==> fields@[pl_off_events(*self)].0@ == "events"@ && is_level_map_json(m@, fields@[pl_off_events(*self)].1));
            assert(self.events_default matches Some(v) ==> fields@[pl_off_events_default(*self)].0@ == "events_default"@ && fields@[pl_off_events_default(*self)].1 == Json::Int(v as i64));
            assert(self.invite matches Some(v) ==> fields@[pl_off_invite(*self)].0@ == "invite"@ && fields@[pl_off_invite(*self)].1 == Json::Int(v as i64));
            assert(self.kick matches Some(v) ==> fields@[pl_off_kick(*self)].0@ == "kick"@ && fields@[pl_off_kick(*self)].1 == Json::Int(v as i64));
            assert(self.redact matches Some(v) ==> fields@[pl_off_redact(*self)].0@ == "redact"@ && fields@[pl_off_redact(*self)].1 == Json::Int(v as i64));
            assert(self.state_default matches Some(v) ==> fields@[pl_off_state_default(*self)].0@ == "state_default"@ && fields@[pl_off_state_default(*self)].1 == Json::Int(v as i64));
            assert(self.users matches Some(m) ==> fields@[pl_off_users(*self)].0@ == "users"@ && is_level_map_json(m@, fields@[pl_off_users(*self)].1));
            assert(self.users_default matches Some(v) ==> fields@[pl_off_users_default(*self)].0@ == "users_default"@ && fields@[pl_off_users_default(*self)].1 == Json::Int(v as i64));
            assert(self.notifications matches Some(n) ==> fields@[pl_off_notifications(*self)].0@ == "notifications"@ && is_notifications_json(n, fields@[pl_off_notifications(*self)].1));
        }
        Json::Obj(fields)
    }
}

/// Build the JSON form of a list of invited user ids.
#[verifier::loop_isolation(false)]
fn invite_list_to_json(inv: &Vec<String>) -> (j: Json)
    ensures
        j matches Json::Arr(items) && items@.len() == inv@.len() && (forall|i: int|
            0 <= i < inv@.len() ==> items@[i] == Json::Str(#[trigger] inv@[i])),
{
    let mut items: Vec<Json> = Vec::new();
    let mut i: usize = 0;
    while i < inv.len()
        invariant
            i <= inv@.len(),
            items@.len() == i,
            forall|k: int| 0 <= k < i ==> items@[k] == Json::Str(#[trigger] inv@[k]),
        decreases inv@.len() - i,
    {
        items.push(Json::Str(inv[i].clone()));
        i = i + 1;
    }
    Json::Arr(items)
}

/// Build the JSON form of a list of third-party invitations.
#[verifier::loop_isolation(false)]
fn invite_3pid_list_to_json(inv: &Vec<Invite3pid>) -> (j: Json)
    ensures
        j matches Json::Arr(items) && items@.len() == inv@.len() && (forall|i: int|
            0 <= i < inv@.len() ==> is_invite_3pid_json(#[trigger] inv@[i], items@[i])),
{
    let mut items: Vec<Json> = Vec::new();
    let mut i: usize = 0;
    while i < inv.len()
        invariant
            i <= inv@.len(),
            items@.len() == i,
            forall|k: int| 0 <= k < i ==> is_invite_3pid_json(#[trigger] inv@[k], items@[k]),
        decreases inv@.len() - i,
    {
        items.push(inv[i].to_json());
        i = i + 1;
    }
    Json::Arr(items)
}

/// Build the JSON form of a list of initial state events.
#[verifier::loop_isolation(false)]
fn state_event_list_to_json(evs: &Vec<StateEvent>) -> (j: Json)
    ensures
        j matches Json::Arr(items) && items@.len() == evs@.len() && (forall|i: int|
            0 <= i < evs@.len() ==> is_state_event_json(#[trigger] evs@[i], items@[i])),
{
    let mut items: Vec<Json> = Vec::new();
    let mut i: usize = 0;
    while i < evs.len()
        invariant
            i <= evs@.len(),
            items@.len() == i,
            forall|k: int| 0 <= k < i ==> is_state_event_json(#[trigger] evs@[k], items@[k]),
        decreases evs@.len() - i,
    {
        items.push(evs[i].to_json());
        i = i + 1;
    }
    Json::Arr(items)
}

/// Facts that hold of the field list after the first six members of the
/// room-creation body have been handled.
pub open spec fn cr_head_built(m: CreateRoomRequest, fields: Seq<(String, Json)>) -> bool {
    &&& fields.len() == cr_off_room_version(m)
    &&& m.visibility matches Some(v) ==> fields[0].0@ == "visibility"@ && (fields[0].1
        matches Json::Str(t) && t@ == visibility_text(v))
    &&& m.room_alias_name matches Some(a) ==> fields[cr_off_room_alias_name(m)].0@
        == "room_alias_name"@ && fields[cr_off_room_alias_name(m)].1 == Json::Str(a)
    &&& m.name matches Some(n) ==> fields[cr_off_name(m)].0@ == "name"@ && fields[cr_off_name(
        m,
    )].1 == Json::Str(n)
    &&& m.topic matches Some(t) ==> fields[cr_off_topic(m)].0@ == "topic"@
        && fields[cr_off_topic(m)].1 == Json::Str(t)
    &&& m.invite matches Some(inv) ==> fields[cr_off_invite(m)].0@ == "invite"@ && (
    fields[cr_off_invite(m)].1 matches Json::Arr(items) && items@.len() == inv@.len() && (
    forall|i: int| 0 <= i < inv@.len() ==> items@[i] == Json::Str(#[trigger] inv@[i])))
    &&& m.invite_3pid matches Some(inv) ==> fields[cr_off_invite_3pid(m)].0@ == "invite_3pid"@
        && (fields[cr_off_invite_3pid(m)].1 matches Json::Arr(items) && items@.len()
        == inv@.len() && (forall|i: int|
        0 <= i < inv@.len() ==> is_invite_3pid_json(#[trigger] inv@[i], items@[i])))
}

/// Push the first six members of the room-creation body.
#[verifier::rlimit(100)]
fn push_head_fields(m: &CreateRoomRequest, fields: &mut Vec<(String, Json)>)
    requires
        old(fields)@.len() == 0,
    ensures
        cr_head_built(*m, final(fields)@),
{
    if let Some(v) = &m.visibility {
        fields.push(("visibility".to_owned(), Json::Str(v.as_str().to_owned())));
    }
    proof {
        assert(fields@.len() == cr_off_room_alias_name(*m));
        assert(m.visibility matches Some(v) ==> fields@[0].0@ == "visibility"@ && (fields@[0].1 matches Json::Str(t) && t@ == visibility_text(v)));
    }
    if let Some(a) = &m.room_alias_name {
        fields.push(("room_alias_name".to_owned(), Json::Str(a.clone())));
    }
    proof {
        assert(fields@.len() == cr_off_name(*m));
        assert(m.visibility matches Some(v) ==> fields@[0].0@ == "visibility"@ && (fields@[0].1 matches Json::Str(t) && t@ == visibility_text(v)));
        assert(m.room_alias_name matches Some(a) ==> fields@[cr_off_room_alias_name(*m)].0@ == "room_alias_name"@ && fields@[cr_off_room_alias_name(*m)].1 == Json::Str(a));
    }
    if let Some(n) = &m.name {
        fields.push(("name".to_owned(), Json::Str(n.clone())));
    }
    proof {
        assert(fields@.len() == cr_off_topic(*m));
        assert(m.visibility matches Some(v) ==> fields@[0].0@ == "visibility"@ && (fields@[0].1 matches Json::Str(t) && t@ == visibility_text(v)));
        assert(m.room_alias_name matches Some(a) ==> fields@[cr_off_room_alias_name(*m)].0@ == "room_alias_name"@ && fields@[cr_off_room_alias_name(*m)].1 == Json::Str(a));
        assert(m.name matches Some(n) ==> fields@[cr_off_name(*m)].0@ == "name"@ && fields@[cr_off_name(*m)].1 == Json::Str(n));
    }
    if let Some(t) = &m.topic {
        fields.push(("topic".to_owned(), Json::Str(t.clone())));
    }
    proof {
        assert(fields@.len() == cr_off_invite(*m));
        assert(m.visibility matches Some(v) ==> fields@[0].0@ == "visibility"@ && (fields@[0].1 matches Json::Str(t) && t@ == visibility_text(v)));
        assert(m.room_alias_name matches Some(a) ==> fields@[cr_off_room_alias_name(*m)].0@ == "room_alias_name"@ && fields@[cr_off_room_alias_name(*m)].1 == Json::Str(a));
        assert(m.name matches Some(n) ==> fields@[cr_off_name(*m)].0@ == "name"@ && fields@[cr_off_name(*m)].1 == Json::Str(n));
        assert(m.topic matches Some(t) ==> fields@[cr_off_topic(*m)].0@ == "topic"@ && fields@[cr_off_topic(*m)].1 == Json::Str(t));
    }
    if let Some(inv) = &m.invite {
        fields.push(("invite".to_owned(), invite_list_to_json(inv)));
    }
    proof {
        assert(fields@.len() == cr_off_invite_3pid(*m));
        assert(m.visibility matches Some(v) ==> fields@[0].0@ == "visibility"@ && (fields@[0].1 matches Json::Str(t) && t@ == visibility_text(v)));
        assert(m.room_alias_name matches Some(a) ==> fields@[cr_off_room_alias_name(*m)].0@ == "room_alias_name"@ && fields@[cr_off_room_alias_name(*m)].1 == Json::Str(a));
        assert(m.name matches Some(n) ==> fields@[cr_off_name(*m)].0@ == "name"@ && fields@[cr_off_name(*m)].1 == Json::Str(n));
        assert(m.topic matches Some(t) ==> fields@[cr_off_topic(*m)].0@ == "topic"@ && fields@[cr_off_topic(*m)].1 == Json::Str(t));
        assert(m.invite matches Some(inv) ==> fields@[cr_off_invite(*m)].0@ == "invite"@ && (fields@[cr_off_invite(*m)].1 matches Json::Arr(items) && items@.len() == inv@.len() && (forall|i: int| 0 <= i < inv@.len() ==> items@[i] == Json::Str(#[trigger] inv@[i]))));
    }
    if let Some(inv) = &m.invite_3pid {
        fields.push(("invite_3pid".to_owned(), invite_3pid_list_to_json(inv)));
    }
    proof {
        assert(fields@.len() == cr_off_room_version(*m));
        assert(m.visibility matches Some(v) ==> fields@[0].0@ == "visibility"@ && (fields@[0].1 matches Json::Str(t) && t@ == visibility_text(v)));
        assert(m.room_alias_name matches Some(a) ==> fields@[cr_off_room_alias_name(*m)].0@ == "room_alias_name"@ && fields@[cr_off_room_alias_name(*m)].1 == Json::Str(a));
        assert(m.name matches Some(n) ==> fields@[cr_off_name(*m)].0@ == "name"@ && fields@[cr_off_name(*m)].1 == Json::Str(n));
        assert(m.topic matches Some(t) ==> fields@[cr_off_topic(*m)].0@ == "topic"@ && fields@[cr_off_topic(*m)].1 == Json::Str(t));
        assert(m.invite matches Some(inv) ==> fields@[cr_off_invite(*m)].0@ == "invite"@ && (fields@[cr_off_invite(*m)].1 matches Json::Arr(items) && items@.len() == inv@.len() && (forall|i: int| 0 <= i < inv@.len() ==> items@[i] == Json::Str(#[trigger] inv@[i]))));
        assert(m.invite_3pid matches Some(inv) ==> fields@[cr_off_invite_3pid(*m)].0@ == "invite_3pid"@ && (fields@[cr_off_invite_3pid(*m)].1 matches Json::Arr(items) && items@.len() == inv@.len() && (forall|i: int| 0 <= i < inv@.len() ==> is_invite_3pid_json(#[trigger] inv@[i], items@[i]))));
    }
}

impl CreateRoomRequest {
    /// Build the room-creation request body, omitting absent members.
    #[verifier::rlimit(100)]
    pub fn to_json(&self) -> (j: Json)
        ensures
            is_create_room_json(*self, j),
    {
        let mut fields: Vec<(String, Json)> = Vec::new();
        push_head_fields(self, &mut fields);
        if let Some(v) = &self.room_version {
            fields.push(("room_version".to_owned(), Json::Str(v.clone())));
        }
        proof {
            assert(fields@.len() == cr_off_creation_content(*self));
            assert(self.room_version matches Some(v) ==> fields@[cr_off_room_version(*self)].0@ == "room_version"@ && fields@[cr_off_room_version(*self)].1 == Json::Str(v));
        }
        if let Some(c) = &self.creation_content {
            fields.push(("creation_content".to_owned(), c.to_json()));
        }
        proof {
            assert(fields@.len() == cr_off_initial_state(*self));
            assert(self.creation_content matches Some(c) ==> fields@[cr_off_creation_content(*self)].0@ == "creation_content"@ && is_creation_content_json(c, fields@[cr_off_creation_content(*self)].1));
        }
        if let Some(evs) = &self.initial_state {
            fields.push(("initial_state".to_owned(), state_event_list_to_json(evs)));
        }
        proof {
            assert(fields@.len() == cr_off_preset(*self));
            assert(self.initial_state matches Some(evs) ==> fields@[cr_off_initial_state(*self)].0@ == "initial_state"@ && (fields@[cr_off_initial_state(*self)].1 matches Json::Arr(items) && items@.len() == evs@.len() && (forall|i: int| 0 <= i < evs@.len() ==> is_state_event_json(#[trigger] evs@[i], items@[i]))));
        }
        if let Some(p) = &self.preset {
            fields.push(("preset".to_owned(), Json::Str(p.as_str().to_owned())));
        }
        proof {
            assert(fields@.len() == cr_off_is_direct(*self));
            assert(self.preset matches Some(p) ==> fields@[cr_off_preset(*self)].0@ == "preset"@ && (fields@[cr_off_preset(*self)].1 matches Json::Str(t) && t@ == preset_text(p)));
        }
        if let Some(d) = &self.is_direct {
            fields.push(("is_direct".to_owned(), Json::Bool(*d)));
        }
        proof {
            assert(fields@.len() == cr_off_power_levels(*self));
            assert(self.is_direct matches Some(d) ==> fields@[cr_off_is_direct(*self)].0@ == "is_direct"@ && fields@[cr_off_is_direct(*self)].1 == Json::Bool(d));
        }
        if let Some(p) = &self.power_level_content_override {
            fields.push(("power_level_content_override".to_owned(), p.to_json()));
        }
        proof {
            assert(fields@.len() == cr_len(*self));
            assert(self.power_level_content_override matches Some(p) ==> fields@[cr_off_power_levels(*self)].0@ == "power_level_content_override"@ && is_power_levels_json(p, fields@[cr_off_power_levels(*self)].1));
        }
        proof {
            assert(self.visibility matches Some(v) ==> fields@[0].0@ == "visibility"@ && (fields@[0].1 matches Json::Str(t) && t@ == visibility_text(v)));
            assert(self.room_alias_name matches Some(a) ==> fields@[cr_off_room_alias_name(*self)].0@ == "room_alias_name"@ && fields@[cr_off_room_alias_name(*self)].1 == Json::Str(a));
            assert(self.name matches Some(n) ==> fields@[cr_off_name(*self)].0@ == "name"@ && fields@[cr_off_name(*self)].1 == Json::Str(n));
            assert(self.topic matches Some(t) ==> fields@[cr_off_topic(*self)].0@ == "topic"@ && fields@[cr_off_topic(*self)].1 == Json::Str(t));
            assert(self.invite matches Some(inv) ==> fields@[cr_off_invite(*self)].0@ == "invite"@ && (fields@[cr_off_invite(*self)].1 matches Json::Arr(items) && items@.len() == inv@.len() && (forall|i: int| 0 <= i < inv@.len() ==> items@[i] == Json::Str(#[trigger] inv@[i]))));
            assert(self.invite_3pid matches Some(inv) ==> fields@[cr_off_invite_3pid(*self)].0@ == "invite_3pid"@ && (fields@[cr_off_invite_3pid(*self)].1 matches Json::Arr(items) && items@.len() == inv@.len() && (forall|i: int| 0 <= i < inv@.len() ==> is_invite_3pid_json(#[trigger] inv@[i], items@[i]))));
            assert(self.room_version matches Some(v) ==> fields@[cr_off_room_version(*self)].0@ == "room_version"@ && fields@[cr_off_room_version(*self)].1 == Json::Str(v));
            assert(self.creation_content matches Some(c) ==> fields@[cr_off_creation_content(*self)].0@ == "creation_content"@ && is_creation_content_json(c, fields@[cr_off_creation_content(*self)].1));
            assert(self.initial_state matches Some(evs) ==> fields@[cr_off_initial_state(*self)].0@ == "initial_state"@ && (fields@[cr_off_initial_state(*self)].1 matches Json::Arr(items) && items@.len() == evs@.len() && (forall|i: int| 0 <= i < evs@.len() ==> is_state_event_json(#[trigger] evs@[i], items@[i]))));
            assert(self.preset matches Some(p) ==> fields@[cr_off_preset(*self)].0@ == "preset"@ && (fields@[cr_off_preset(*self)].1 matches Json::Str(t) && t@ == preset_text(p)));
            assert(self.is_direct matches Some(d) ==> fields@[cr_off_is_direct(*self)].0@ == "is_direct"@ && fields@[cr_off_is_direct(*self)].1 == Json::Bool(d));
            assert(self.power_level_content_override matches Some(p) ==> fields@[cr_off_power_levels(*self)].0@ == "power_level_content_override"@ && is_power_levels_json(p, fields@[cr_off_power_levels(*self)].1));
        }
        Json::Obj(fields)
    }
}

// ---------------------------------------------------------------------------
// The reply, and the endpoint adapter.
// ---------------------------------------------------------------------------

/// `resp` is the creation reply that the JSON value `j` describes.
pub open spec fn is_create_room_response(j: Json, resp: CreateRoomResponse) -> bool {
    &&& j matches Json::Obj(fields)
    &&& get_str(fields@, "room_id"@) == Some(resp.room_id)
}

/// The JSON value `j` has the shape of a creation reply.
pub open spec fn create_room_response_ok(j: Json) -> bool {
    &&& j matches Json::Obj(fields)
    &&& get_str(fields@, "room_id"@) is Some
}

/// Decode a creation reply.
pub fn create_room_response_from_json(j: &Json) -> (r: Option<CreateRoomResponse>)
    ensures
        match r {
            Some(resp) => create_room_response_ok(*j) && is_create_room_response(*j, resp),
            None => !create_room_response_ok(*j),
        },
{
    match j {
        Json::Obj(fields) => match obj_str(fields, "room_id") {
            Some(room_id) => Some(CreateRoomResponse { room_id }),
            None => None,
        },
        _ => None,
    }
}

/// `r` is the interpretation of a creation outcome: decode on 200, classify
/// everything else; a 200 whose body is not a creation reply is a decode
/// failure.
pub open spec fn create_room_interprets(
    outcome: RawOutcome,
    r: Result<CreateRoomResponse, ApiError>,
) -> bool {
    match outcome {
        RawOutcome::Response { status, body } => {
            if status == 200 {
                match json_of(body@) {
                    Some(j) => {
                        if create_room_response_ok(j) {
                            r matches Ok(resp) && is_create_room_response(j, resp)
                        } else {
                            r == Result::<CreateRoomResponse, ApiError>::Err(
                                ApiError::Serialization,
                            )
                        }
                    },
                    None => r == Result::<CreateRoomResponse, ApiError>::Err(
                        ApiError::Serialization,
                    ),
                }
            } else {
                r matches Err(e) && classifies(outcome, e)
            }
        },
        RawOutcome::Failure(_) => r matches Err(e) && classifies(outcome, e),
    }
}

/// Interpret the outcome of a room-creation request.
pub fn create_room(outcome: &RawOutcome) -> (r: Result<CreateRoomResponse, ApiError>)
    ensures
        create_room_interprets(*outcome, r),
{
    match outcome {
        RawOutcome::Response { status, body } => {
            if *status == 200 {
                match parse_json(body.as_str()) {
                    Some(parsed) => match create_room_response_from_json(&parsed) {
                        Some(resp) => Ok(resp),
                        None => Err(ApiError::Serialization),
                    },
                    None => Err(ApiError::Serialization),
                }
            } else {
                Err(classify(outcome))
            }
        },
        RawOutcome::Failure(_) => Err(classify(outcome)),
    }
}

} // verus!
