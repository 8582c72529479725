//! The public room directory: listing and filtering, paginated through
//! opaque `since`/`next_batch`/`prev_batch` tokens.

use vstd::prelude::*;

use crate::api::{classifies, classify, ApiError, RawOutcome};
use crate::json::{
    dec_int, get_arr, get_bool, get_i64, get_opt_str, get_str, i64_to_string, json_of, obj_arr,
    obj_bool, obj_i64, obj_opt_str, obj_str, parse_json, Json,
};

verus! {

/// The fixed path this operation uses.
pub const ENDPOINT: &'static str = "/_matrix/client/r0/publicRooms";

/// The query of a directory request: how many rooms, from which pagination
/// token, and of which server. Absent members are left out of the query
/// string.
#[derive(Debug, PartialEq)]
pub struct PublicRoomsQuery {
    pub limit: i64,
    pub since: Option<String>,
    pub server: Option<String>,
}

/// The body of a filtering request: an empty object, the server-side
/// filter being left at its defaults.
#[derive(Debug, PartialEq)]
pub struct PublicRoomsRequest {}

/// A directory listing: the rooms of this page, the pagination tokens, and
/// the server's estimate of the total count.
#[derive(Debug, PartialEq)]
pub struct PublicRoomsResponse {
    pub chunk: Vec<PublicRoomsChunk>,
    pub next_batch: Option<String>,
    pub prev_batch: Option<String>,
    pub total_room_count_estimate: i64,
}

/// One room of a directory listing.
#[derive(Debug, PartialEq)]
pub struct PublicRoomsChunk {
    pub aliases: Vec<String>,
    pub canonical_alias: String,
    pub name: String,
    pub num_joined_members: i64,
    pub room_id: String,
    pub topic: String,
    pub world_readable: bool,
    pub guest_can_join: bool,
    pub avatar_url: Option<String>,
}

// ---------------------------------------------------------------------------
// The query string and the request body.
// ---------------------------------------------------------------------------

/// `pairs` is the query that `q` denotes: the limit always, then `since`
/// and `server` where present.
pub open spec fn is_query_pairs(q: PublicRoomsQuery, pairs: Seq<(String, String)>) -> bool {
    &&& pairs.len() == 1 + crate::rooms::create::flen(q.since is Some)
        + crate::rooms::create::flen(q.server is Some)
    &&& pairs[0].0@ == "limit"@ && pairs[0].1@ == dec_int(q.limit as int)
    &&& q.since matches Some(s) ==> pairs[1].0@ == "since"@ && pairs[1].1 == s
    &&& q.server matches Some(s) ==> {
        let at = 1 + crate::rooms::create::flen(q.since is Some);
        pairs[at].0@ == "server"@ && pairs[at].1 == s
    }
}

impl PublicRoomsQuery {
    /// The key-value pairs of the query string, absent members omitted.
    pub fn to_query_pairs(&self) -> (pairs: Vec<(String, String)>)
        ensures
            is_query_pairs(*self, pairs@),
    {
        let mut pairs: Vec<(String, String)> = Vec::new();
        pairs.push(("limit".to_owned(), i64_to_string(self.limit)));
        if let Some(s) = &self.since {
            pairs.push(("since".to_owned(), s.clone()));
        }
        if let Some(s) = &self.server {
            pairs.push(("server".to_owned(), s.clone()));
        }
        pairs
    }
}

impl PublicRoomsRequest {
    /// The filtering request body: an empty object.
    pub fn to_json(&self) -> (j: Json)
        ensures
            j matches Json::Obj(fields) && fields@.len() == 0,
    {
        let fields: Vec<(String, Json)> = Vec::new();
        Json::Obj(fields)
    }
}

// ---------------------------------------------------------------------------
// The reply.
// ---------------------------------------------------------------------------

/// `c` is the room that the JSON value `j` describes.
pub open spec fn is_chunk(j: Json, c: PublicRoomsChunk) -> bool {
    &&& j matches Json::Obj(fields)
    &&& get_arr(fields@, "aliases"@) matches Some(al)
    &&& c.aliases@.len() == al@.len()
    &&& forall|i: int| 0 <= i < al@.len() ==> al@[i] == Json::Str(#[trigger] c.aliases@[i])
    &&& get_str(fields@, "canonical_alias"@) == Some(c.canonical_alias)
    &&& get_str(fields@, "name"@) == Some(c.name)
    &&& get_i64(fields@, "num_joined_members"@) == Some(c.num_joined_members)
    &&& get_str(fields@, "room_id"@) == Some(c.room_id)
    &&& get_str(fields@, "topic"@) == Some(c.topic)
    &&& get_bool(fields@, "world_readable"@) == Some(c.world_readable)
    &&& get_bool(fields@, "guest_can_join"@) == Some(c.guest_can_join)
    &&& get_opt_str(fields@, "avatar_url"@) == Some(c.avatar_url)
}

/// The JSON value `j` has the shape of one directory room.
pub open spec fn chunk_ok(j: Json) -> bool {
    &&& j matches Json::Obj(fields)
    &&& get_arr(fields@, "aliases"@) matches Some(al)
    &&& forall|i: int| 0 <= i < al@.len() ==> (#[trigger] al@[i]) is Str
    &&& get_str(fields@, "canonical_alias"@) is Some
    &&& get_str(fields@, "name"@) is Some
    &&& get_i64(fields@, "num_joined_members"@) is Some
    &&& get_str(fields@, "room_id"@) is Some
    &&& get_str(fields@, "topic"@) is Some
    &&& get_bool(fields@, "world_readable"@) is Some
    &&& get_bool(fields@, "guest_can_join"@) is Some
    &&& get_opt_str(fields@, "avatar_url"@) is Some
}

/// Decode the `aliases` member.
#[verifier::loop_isolation(false)]
fn aliases_from_json(al: &Vec<Json>) -> (r: Option<Vec<String>>)
    ensures
        match r {
            Some(out) => out@.len() == al@.len() && (forall|i: int|
                0 <= i < al@.len() ==> (#[trigger] al@[i]) == Json::Str(out@[i])),
            None => !(forall|i: int| 0 <= i < al@.len() ==> (#[trigger] al@[i]) is Str),
        },
{
    let mut out: Vec<String> = Vec::new();
    let mut i: usize = 0;
    while i < al.len()
        invariant
            i <= al@.len(),
            out@.len() == i,
            forall|k: int| 0 <= k < i ==> (#[trigger] al@[k]) == Json::Str(out@[k]),
        decreases al@.len() - i,
    {
        match &al[i] {
            Json::Str(s) => {
                out.push(s.clone());
            },
            _ => {
                return None;
            },
        }
        i = i + 1;
    }
    Some(out)
}

/// Decode one directory room.
pub fn chunk_from_json(j: &Json) -> (r: Option<PublicRoomsChunk>)
    ensures
        match r {
            Some(c) => chunk_ok(*j) && is_chunk(*j, c),
            None => !chunk_ok(*j),
        },
{
    match j {
        Json::Obj(fields) => {
            let aliases = match obj_arr(fields, "aliases") {
                Some(al) => match aliases_from_json(al) {
                    Some(a) => a,
                    None => {
                        return None;
                    },
                },
                None => {
                    return None;
                },
            };
            let canonical_alias = obj_str(fields, "canonical_alias");
            let name = obj_str(fields, "name");
            let num_joined_members = obj_i64(fields, "num_joined_members");
            let room_id = obj_str(fields, "room_id");
            let topic = obj_str(fields, "topic");
            let world_readable = obj_bool(fields, "world_readable");
            let guest_can_join = obj_bool(fields, "guest_can_join");
            let avatar_url = obj_opt_str(fields, "avatar_url");
            match (
                canonical_alias,
                name,
                num_joined_members,
                room_id,
                topic,
                world_readable,
                guest_can_join,
                avatar_url,
            ) {
                (
                    Some(canonical_alias),
                    Some(name),
                    Some(num_joined_members),
                    Some(room_id),
                    Some(topic),
                    Some(world_readable),
                    Some(guest_can_join),
                    Some(avatar_url),
                ) => Some(
                    PublicRoomsChunk {
                        aliases,
                        canonical_alias,
                        name,
                        num_joined_members,
                        room_id,
                        topic,
                        world_readable,
                        guest_can_join,
                        avatar_url,
                    },
                ),
                _ => None,
            }
        },
        _ => None,
    }
}

/// `resp` is the listing that the JSON value `j` describes, its rooms in
/// the server's order.
pub open spec fn is_public_rooms_response(j: Json, resp: PublicRoomsResponse) -> bool {
    &&& j matches Json::Obj(fields)
    &&& get_arr(fields@, "chunk"@) matches Some(items)
    &&& resp.chunk@.len() == items@.len()
    &&& forall|i: int| 0 <= i < items@.len() ==> is_chunk(items@[i], #[trigger] resp.chunk@[i])
    &&& get_opt_str(fields@, "next_batch"@) == Some(resp.next_batch)
    &&& get_opt_str(fields@, "prev_batch"@) == Some(resp.prev_batch)
    &&& get_i64(fields@, "total_room_count_estimate"@) == Some(resp.total_room_count_estimate)
}

/// The JSON value `j` has the shape of a listing.
pub open spec fn public_rooms_response_ok(j: Json) -> bool {
    &&& j matches Json::Obj(fields)
    &&& get_arr(fields@, "chunk"@) matches Some(items)
    &&& forall|i: int| 0 <= i < items@.len() ==> chunk_ok(#[trigger] items@[i])
    &&& get_opt_str(fields@, "next_batch"@) is Some
    &&& get_opt_str(fields@, "prev_batch"@) is Some
    &&& get_i64(fields@, "total_room_count_estimate"@) is Some
}

/// Decode a listing.
#[verifier::loop_isolation(false)]
pub fn public_rooms_response_from_json(j: &Json) -> (r: Option<PublicRoomsResponse>)
    ensures
        match r {
            Some(resp) => public_rooms_response_ok(*j) && is_public_rooms_response(*j, resp),
            None => !public_rooms_response_ok(*j),
        },
{
    match j {
        Json::Obj(fields) => {
            let mut chunk: Vec<PublicRoomsChunk> = Vec::new();
            match obj_arr(fields, "chunk") {
                Some(items) => {
                    let mut i: usize = 0;
                    while i < items.len()
                        invariant
                            i <= items@.len(),
                            chunk@.len() == i,
                            forall|k: int|
                                0 <= k < i ==> is_chunk(items@[k], #[trigger] chunk@[k]),
                            forall|k: int| 0 <= k < i ==> chunk_ok(#[trigger] items@[k]),
                        decreases items@.len() - i,
                    {
                        match chunk_from_json(&items[i]) {
                            Some(c) => {
                                chunk.push(c);
                            },
                            None => {
                                proof {
                                    if public_rooms_response_ok(*j) {
                                        assert(chunk_ok(
                                            get_arr(fields@, "chunk"@)->Some_0@[i as int],
                                        ));
                                    }
                                }
                                return None;
                            },
                        }
                        i = i + 1;
                    }
                },
                None => {
                    return None;
                },
            }
            let next_batch = obj_opt_str(fields, "next_batch");
            let prev_batch = obj_opt_str(fields, "prev_batch");
            let total = obj_i64(fields, "total_room_count_estimate");
            match (next_batch, prev_batch, total) {
                (Some(next_batch), Some(prev_batch), Some(total_room_count_estimate)) => Some(
                    PublicRoomsResponse {
                        chunk,
                        next_batch,
                        prev_batch,
                        total_room_count_estimate,
                    },
                ),
                _ => None,
            }
        },
        _ => None,
    }
}

// ---------------------------------------------------------------------------
// The endpoint adapters.
// ---------------------------------------------------------------------------

/// `r` is the interpretation of a directory outcome: decode on 200,
/// classify everything else; a 200 whose body is not a listing is a decode
/// failure.
pub open spec fn public_rooms_interprets(
    outcome: RawOutcome,
    r: Result<PublicRoomsResponse, ApiError>,
) -> bool {
    match outcome {
        RawOutcome::Response { status, body } => {
            if status == 200 {
                match json_of(body@) {
                    Some(j) => {
                        if public_rooms_response_ok(j) {
                            r matches Ok(resp) && is_public_rooms_response(j, resp)
                        } else {
                            r == Result::<PublicRoomsResponse, ApiError>::Err(
                                ApiError::Serialization,
                            )
                        }
                    },
                    None => r == Result::<PublicRoomsResponse, ApiError>::Err(
                        ApiError::Serialization,
                    ),
                }
            } else {
                r matches Err(e) && classifies(outcome, e)
            }
        },
        RawOutcome::Failure(_) => r matches Err(e) && classifies(outcome, e),
    }
}

/// Interpret the outcome of a listing request. The rooms of the reply are
/// preserved in the server's order.
pub fn list_public_rooms(outcome: &RawOutcome) -> (r: Result<PublicRoomsResponse, ApiError>)
    ensures
        public_rooms_interprets(*outcome, r),
{
    match outcome {
        RawOutcome::Response { status, body } => {
            if *status == 200 {
                match parse_json(body.as_str()) {
                    Some(parsed) => match public_rooms_response_from_json(&parsed) {
                        Some(resp) => Ok(resp),
                        None => Err(ApiError::Serialization),
                    },
                    None => Err(ApiError::Serialization),
                }
            } else {
                Err(classify(outcome))
            }
        },
        RawOutcome::Failure(_) => Err(classify(outcome)),
    }
}

/// Interpret the outcome of a filtering request: the reply has the same
/// shape as a listing.
pub fn filter_public_rooms(outcome: &RawOutcome) -> (r: Result<PublicRoomsResponse, ApiError>)
    ensures
        public_rooms_interprets(*outcome, r),
{
    list_public_rooms(outcome)
}

} // verus!
