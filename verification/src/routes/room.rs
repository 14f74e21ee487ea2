//! The room endpoints: listing and creating rooms, listing and adding members.
//!
//! Each endpoint is a short exchange with the database.  A handler is split
//! into steps: the first step looks at the request and either answers at once
//! or names the query to run; each later step takes the outcome of the query
//! that the previous step named and again either answers or names the next
//! query.  The caller runs the queries and sends the replies.

use vstd::prelude::*;
use crate::response::{ErrorResponse, MessageResponse};

verus! {

pub const STATUS_OK: u16 = 200;
pub const STATUS_CREATED: u16 = 201;
pub const STATUS_BAD_REQUEST: u16 = 400;
pub const STATUS_UNAUTHORIZED: u16 = 401;
pub const STATUS_NOT_FOUND: u16 = 404;
pub const STATUS_INTERNAL_SERVER_ERROR: u16 = 500;

/// What a client sends to create a room.
pub struct RoomInfo {
    pub room_name: String,
}

/// A stored room and the user who owns it.
pub struct Room {
    pub room_id: i64,
    pub room_name: String,
    /// The owner's user id.
    pub user_id: i64,
}

/// The list of all rooms, with the id of the user who asked for it.
pub struct RoomsResponse {
    /// The id of the user making the request.
    pub req_user_id: i64,
    pub rooms: Vec<Room>,
}

/// A user who belongs to a room.
pub struct RoomMember {
    pub user_id: i64,
    pub username: String,
}

/// The abstract content of a `RoomsResponse`.
pub struct RoomsModel {
    pub req_user_id: i64,
    pub rooms: Seq<Room>,
}

impl View for RoomsResponse {
    type V = RoomsModel;

    open spec fn view(&self) -> RoomsModel {
        RoomsModel { req_user_id: self.req_user_id, rooms: self.rooms@ }
    }
}

/// A failed database query; what went wrong does not change the reply.
pub struct QueryError;

/// The body of a reply.
pub enum Body {
    Rooms(RoomsResponse),
    Room(Room),
    Members(Vec<RoomMember>),
    Message(MessageResponse),
    Error(ErrorResponse),
}

/// A reply: an HTTP status code and a body sent as JSON.
pub struct Reply {
    pub status: u16,
    pub body: Body,
}

pub enum BodyModel {
    Rooms { req_user_id: i64, rooms: Seq<Room> },
    Room { room_id: i64, room_name: Seq<char>, user_id: i64 },
    Members(Seq<RoomMember>),
    Message(Seq<char>),
    Error(Seq<char>),
}

pub struct ReplyModel {
    pub status: u16,
    pub body: BodyModel,
}

impl View for Reply {
    type V = ReplyModel;

    open spec fn view(&self) -> ReplyModel {
        ReplyModel {
            status: self.status,
            body: match self.body {
                Body::Rooms(r) => BodyModel::Rooms { req_user_id: r.req_user_id, rooms: r.rooms@ },
                Body::Room(r) => BodyModel::Room {
                    room_id: r.room_id,
                    room_name: r.room_name@,
                    user_id: r.user_id,
                },
                Body::Members(m) => BodyModel::Members(m@),
                Body::Message(m) => BodyModel::Message(m.message@),
                Body::Error(e) => BodyModel::Error(e.error@),
            },
        }
    }
}

/// A database query that a handler asks the caller to run.
pub enum Query {
    /// Fetch all rooms (answered with `Result<Vec<Room>, QueryError>`).
    ListRooms { req_user_id: i64 },
    /// Store a new room owned by `user_id` (answered with the new row id).
    InsertRoom { room_name: String, user_id: i64 },
    /// Count the rooms with this id (answered with the count).
    CountRoom { room_id: i64 },
    /// Fetch the members of a room (answered with `Result<Vec<RoomMember>, QueryError>`).
    ListMembers { room_id: i64 },
    /// Look up whether a room exists (answered with `Result<bool, QueryError>`).
    FindRoom { room_id: i64, user_id: i64 },
    /// Record that a user belongs to a room (answered with `Result<(), QueryError>`).
    InsertMember { user_id: i64, room_id: i64 },
}

pub enum QueryModel {
    ListRooms { req_user_id: i64 },
    InsertRoom { room_name: Seq<char>, user_id: i64 },
    CountRoom { room_id: i64 },
    ListMembers { room_id: i64 },
    FindRoom { room_id: i64, user_id: i64 },
    InsertMember { user_id: i64, room_id: i64 },
}

impl View for Query {
    type V = QueryModel;

    open spec fn view(&self) -> QueryModel {
        match *self {
            Query::ListRooms { req_user_id } => QueryModel::ListRooms { req_user_id },
            Query::InsertRoom { room_name, user_id } => QueryModel::InsertRoom {
                room_name: room_name@,
                user_id,
            },
            Query::CountRoom { room_id } => QueryModel::CountRoom { room_id },
            Query::ListMembers { room_id } => QueryModel::ListMembers { room_id },
            Query::FindRoom { room_id, user_id } => QueryModel::FindRoom { room_id, user_id },
            Query::InsertMember { user_id, room_id } => QueryModel::InsertMember { user_id, room_id },
        }
    }
}

/// What a handler does next: run a query, or answer.
pub enum Step {
    Query(Query),
    Respond(Reply),
}

pub enum StepModel {
    Query(QueryModel),
    Respond(ReplyModel),
}

impl View for Step {
    type V = StepModel;

    open spec fn view(&self) -> StepModel {
        match *self {
            Step::Query(q) => StepModel::Query(q@),
            Step::Respond(r) => StepModel::Respond(r@),
        }
    }
}

// ------------------------------------------------------------------------
// What each step answers, as spec functions.
// ------------------------------------------------------------------------

pub open spec fn error_reply(status: u16, message: Seq<char>) -> ReplyModel {
    ReplyModel { status, body: BodyModel::Error(message) }
}

/// The answer to a protected request that carries no user id.
pub open spec fn unauthorized_reply() -> ReplyModel {
    error_reply(STATUS_UNAUTHORIZED, "User ID missing in token"@)
}

/// First step of `GET /api/rooms`.
pub open spec fn spec_get_rooms(user_id: Option<i64>) -> StepModel {
    match user_id {
        None => StepModel::Respond(unauthorized_reply()),
        Some(u) => StepModel::Query(QueryModel::ListRooms { req_user_id: u }),
    }
}

/// Answer of `GET /api/rooms` once the rooms were fetched.
pub open spec fn spec_rooms_fetched(
    req_user_id: i64,
    fetched: Result<Vec<Room>, QueryError>,
) -> ReplyModel {
    match fetched {
        Ok(rooms) => ReplyModel {
            status: STATUS_OK,
            body: BodyModel::Rooms { req_user_id, rooms: rooms@ },
        },
        Err(_) => error_reply(STATUS_INTERNAL_SERVER_ERROR, "Failed to retrieve rooms"@),
    }
}

/// First step of `POST /api/rooms`.
pub open spec fn spec_create_room(user_id: Option<i64>, room_name: Seq<char>) -> StepModel {
    match user_id {
        None => StepModel::Respond(unauthorized_reply()),
        Some(u) => StepModel::Query(QueryModel::InsertRoom { room_name, user_id: u }),
    }
}

/// Answer of `POST /api/rooms` once the room was inserted (or not).
pub open spec fn spec_room_inserted(
    room_name: Seq<char>,
    user_id: i64,
    inserted: Result<i64, QueryError>,
) -> ReplyModel {
    match inserted {
        Ok(room_id) => ReplyModel {
            status: STATUS_CREATED,
            body: BodyModel::Room { room_id, room_name, user_id },
        },
        Err(_) => error_reply(STATUS_BAD_REQUEST, "Error creating room"@),
    }
}

/// First step of `GET /api/rooms/{room_id}/members`: count the rooms with that id.
pub open spec fn spec_get_room_members(room_id: i64) -> StepModel {
    StepModel::Query(QueryModel::CountRoom { room_id })
}

/// Second step of `GET /api/rooms/{room_id}/members`, once the rooms were
/// counted: a failed count is a server-side failure (500); a count of zero
/// or less means the room does not exist (404); otherwise fetch the members.
pub open spec fn spec_room_counted(room_id: i64, counted: Result<i64, QueryError>) -> StepModel {
    match counted {
        Err(_) => StepModel::Respond(
            error_reply(STATUS_INTERNAL_SERVER_ERROR, "Failed to retrieve room members"@),
        ),
        Ok(count) => if count > 0 {
            StepModel::Query(QueryModel::ListMembers { room_id })
        } else {
            StepModel::Respond(error_reply(STATUS_NOT_FOUND, "Room not found"@))
        },
    }
}

/// Answer of `GET /api/rooms/{room_id}/members` once the members were fetched.
pub open spec fn spec_members_fetched(fetched: Result<Vec<RoomMember>, QueryError>) -> ReplyModel {
    match fetched {
        Ok(members) => ReplyModel { status: STATUS_OK, body: BodyModel::Members(members@) },
        Err(_) => error_reply(STATUS_INTERNAL_SERVER_ERROR, "Failed to retrieve room members"@),
    }
}

/// First step of `POST /api/rooms/{room_id}/members`.
pub open spec fn spec_add_room_member(room_id: i64, user_id: Option<i64>) -> StepModel {
    match user_id {
        None => StepModel::Respond(unauthorized_reply()),
        Some(u) => StepModel::Query(QueryModel::FindRoom { room_id, user_id: u }),
    }
}

/// Whether a look-up shows that the room exists; a failed look-up shows nothing.
pub open spec fn found_room_exists(found: Result<bool, QueryError>) -> bool {
    match found {
        Ok(b) => b,
        Err(_) => false,
    }
}

/// Second step of `POST /api/rooms/{room_id}/members`, once the room was looked up.
pub open spec fn spec_room_found(
    room_id: i64,
    user_id: i64,
    found: Result<bool, QueryError>,
) -> StepModel {
    if found_room_exists(found) {
        StepModel::Query(QueryModel::InsertMember { user_id, room_id })
    } else {
        StepModel::Respond(error_reply(STATUS_NOT_FOUND, "Room does not exist"@))
    }
}

/// Answer of `POST /api/rooms/{room_id}/members` once the membership was inserted (or not).
pub open spec fn spec_member_inserted(inserted: Result<(), QueryError>) -> ReplyModel {
    match inserted {
        Ok(_) => ReplyModel {
            status: STATUS_OK,
            body: BodyModel::Message("User added to the room successfully"@),
        },
        Err(_) => error_reply(STATUS_BAD_REQUEST, "Error adding user to room"@),
    }
}

// ------------------------------------------------------------------------
// The steps.
// ------------------------------------------------------------------------

fn reply_error(status: u16, message: &str) -> (reply: Reply)
    ensures
        reply@ == error_reply(status, message@),
{
    Reply { status, body: Body::Error(ErrorResponse { error: message.to_owned() }) }
}

fn reply_unauthorized() -> (reply: Reply)
    ensures
        reply@ == unauthorized_reply(),
{
    reply_error(STATUS_UNAUTHORIZED, "User ID missing in token")
}

/// `GET /api/rooms`: a request without a user id is refused with 401;
/// otherwise all rooms are fetched.
pub fn get_rooms(user_id: Option<i64>) -> (step: Step)
    ensures
        step@ == spec_get_rooms(user_id),
{
    match user_id {
        None => Step::Respond(reply_unauthorized()),
        Some(u) => Step::Query(Query::ListRooms { req_user_id: u }),
    }
}

/// `GET /api/rooms`, after `Query::ListRooms`: 200 with the rooms and the
/// requester's id, or 500 when the query failed.
pub fn rooms_fetched(req_user_id: i64, fetched: Result<Vec<Room>, QueryError>) -> (reply: Reply)
    ensures
        reply@ == spec_rooms_fetched(req_user_id, fetched),
{
    match fetched {
        Ok(rooms) => Reply {
            status: STATUS_OK,
            body: Body::Rooms(RoomsResponse { req_user_id, rooms }),
        },
        Err(_) => reply_error(STATUS_INTERNAL_SERVER_ERROR, "Failed to retrieve rooms"),
    }
}

/// `POST /api/rooms`: a request without a user id is refused with 401;
/// otherwise a room with the given name, owned by the requester, is inserted.
pub fn create_room(user_id: Option<i64>, room_info: RoomInfo) -> (step: Step)
    ensures
        step@ == spec_create_room(user_id, room_info.room_name@),
{
    match user_id {
        None => Step::Respond(reply_unauthorized()),
        Some(u) => Step::Query(Query::InsertRoom { room_name: room_info.room_name, user_id: u }),
    }
}

/// `POST /api/rooms`, after `Query::InsertRoom`: 201 with the new room (its id
/// is the inserted row id), or 400 when the insert failed.
pub fn room_inserted(room_name: String, user_id: i64, inserted: Result<i64, QueryError>) -> (reply: Reply)
    ensures
        reply@ == spec_room_inserted(room_name@, user_id, inserted),
{
    match inserted {
        Ok(room_id) => Reply {
            status: STATUS_CREATED,
            body: Body::Room(Room { room_id, room_name, user_id }),
        },
        Err(_) => reply_error(STATUS_BAD_REQUEST, "Error creating room"),
    }
}

/// `GET /api/rooms/{room_id}/members`: first count the rooms with that id.
/// This endpoint does not look at the requester.
pub fn get_room_members(room_id: i64) -> (step: Step)
    ensures
        step@ == spec_get_room_members(room_id),
{
    Step::Query(Query::CountRoom { room_id })
}

/// `GET /api/rooms/{room_id}/members`, after `Query::CountRoom`: 500 when the
/// count failed, 404 when it is zero or less; otherwise fetch the members.
pub fn room_counted(room_id: i64, counted: Result<i64, QueryError>) -> (step: Step)
    ensures
        step@ == spec_room_counted(room_id, counted),
{
    match counted {
        Err(_) => Step::Respond(
            reply_error(STATUS_INTERNAL_SERVER_ERROR, "Failed to retrieve room members"),
        ),
        Ok(count) => if count > 0 {
            Step::Query(Query::ListMembers { room_id })
        } else {
            Step::Respond(reply_error(STATUS_NOT_FOUND, "Room not found"))
        },
    }
}

/// `GET /api/rooms/{room_id}/members`, after `Query::ListMembers`: 200 with
/// the members, or 500 when the query failed.
pub fn members_fetched(fetched: Result<Vec<RoomMember>, QueryError>) -> (reply: Reply)
    ensures
        reply@ == spec_members_fetched(fetched),
{
    match fetched {
        Ok(members) => Reply { status: STATUS_OK, body: Body::Members(members) },
        Err(_) => reply_error(STATUS_INTERNAL_SERVER_ERROR, "Failed to retrieve room members"),
    }
}

/// `POST /api/rooms/{room_id}/members`: a request without a user id is
/// refused with 401; otherwise look the room up.
pub fn add_room_member(room_id: i64, user_id: Option<i64>) -> (step: Step)
    ensures
        step@ == spec_add_room_member(room_id, user_id),
{
    match user_id {
        None => Step::Respond(reply_unauthorized()),
        Some(u) => Step::Query(Query::FindRoom { room_id, user_id: u }),
    }
}

/// `POST /api/rooms/{room_id}/members`, after `Query::FindRoom`: 404 unless
/// the look-up succeeded and found the room; otherwise insert the membership.
pub fn room_found(room_id: i64, user_id: i64, found: Result<bool, QueryError>) -> (step: Step)
    ensures
        step@ == spec_room_found(room_id, user_id, found),
{
    let exists = match found {
        Ok(b) => b,
        Err(_) => false,
    };
    if exists {
        Step::Query(Query::InsertMember { user_id, room_id })
    } else {
        Step::Respond(reply_error(STATUS_NOT_FOUND, "Room does not exist"))
    }
}

/// `POST /api/rooms/{room_id}/members`, after `Query::InsertMember`: 200 with
/// a confirmation, or 400 when the insert failed.
pub fn member_inserted(inserted: Result<(), QueryError>) -> (reply: Reply)
    ensures
        reply@ == spec_member_inserted(inserted),
{
    match inserted {
        Ok(_) => Reply {
            status: STATUS_OK,
            body: Body::Message(MessageResponse {
                message: "User added to the room successfully".to_owned(),
            }),
        },
        Err(_) => reply_error(STATUS_BAD_REQUEST, "Error adding user to room"),
    }
}


// ------------------------------------------------------------------------
// The replies that the API documentation announces for each endpoint.
// ------------------------------------------------------------------------

/// `GET /api/rooms`: 200 with the rooms, 401 or 500 with an error.
pub open spec fn documented_get_rooms(r: ReplyModel) -> bool {
    ||| r.status == STATUS_OK && r.body is Rooms
    ||| (r.status == STATUS_UNAUTHORIZED || r.status == STATUS_INTERNAL_SERVER_ERROR) && r.body is Error
}

/// `POST /api/rooms`: 201 with the room, 400 or 401 with an error.
pub open spec fn documented_create_room(r: ReplyModel) -> bool {
    ||| r.status == STATUS_CREATED && r.body is Room
    ||| (r.status == STATUS_BAD_REQUEST || r.status == STATUS_UNAUTHORIZED) && r.body is Error
}

/// `GET /api/rooms/{room_id}/members`: 200 with the members, 404 or 500 with an error.
pub open spec fn documented_get_room_members(r: ReplyModel) -> bool {
    ||| r.status == STATUS_OK && r.body is Members
    ||| (r.status == STATUS_NOT_FOUND || r.status == STATUS_INTERNAL_SERVER_ERROR) && r.body is Error
}

/// `POST /api/rooms/{room_id}/members`: 200 with a message, 400, 401 or 404 with an error.
pub open spec fn documented_add_room_member(r: ReplyModel) -> bool {
    ||| r.status == STATUS_OK && r.body is Message
    ||| (r.status == STATUS_BAD_REQUEST || r.status == STATUS_UNAUTHORIZED
        || r.status == STATUS_NOT_FOUND) && r.body is Error
}

// ------------------------------------------------------------------------
// Laws.
// ------------------------------------------------------------------------

/// Every reply of `GET /api/rooms`, whatever the request and the query
/// outcome, has a status and a body kind that the API documentation announces.
pub proof fn lemma_get_rooms_replies_documented(
    user_id: Option<i64>,
    req_user_id: i64,
    fetched: Result<Vec<Room>, QueryError>,
)
    ensures
        spec_get_rooms(user_id) matches StepModel::Respond(r) ==> documented_get_rooms(r),
        documented_get_rooms(spec_rooms_fetched(req_user_id, fetched)),
{
}

/// Every reply of `POST /api/rooms` is one that the API documentation announces.
pub proof fn lemma_create_room_replies_documented(
    user_id: Option<i64>,
    room_name: Seq<char>,
    owner: i64,
    inserted: Result<i64, QueryError>,
)
    ensures
        spec_create_room(user_id, room_name) matches StepModel::Respond(r) ==> documented_create_room(r),
        documented_create_room(spec_room_inserted(room_name, owner, inserted)),
{
}

/// Every reply of `GET /api/rooms/{room_id}/members` is one that the API
/// documentation announces.
pub proof fn lemma_get_room_members_replies_documented(
    room_id: i64,
    counted: Result<i64, QueryError>,
    fetched: Result<Vec<RoomMember>, QueryError>,
)
    ensures
        spec_get_room_members(room_id) is Query,
        spec_room_counted(room_id, counted) matches StepModel::Respond(r)
            ==> documented_get_room_members(r),
        documented_get_room_members(spec_members_fetched(fetched)),
{
}

/// Every reply of `POST /api/rooms/{room_id}/members` is one that the API
/// documentation announces.
pub proof fn lemma_add_room_member_replies_documented(
    room_id: i64,
    user_id: Option<i64>,
    member: i64,
    found: Result<bool, QueryError>,
    inserted: Result<(), QueryError>,
)
    ensures
        spec_add_room_member(room_id, user_id) matches StepModel::Respond(r)
            ==> documented_add_room_member(r),
        spec_room_found(room_id, member, found) matches StepModel::Respond(r)
            ==> documented_add_room_member(r),
        documented_add_room_member(spec_member_inserted(inserted)),
{
}

/// The protected endpoints answer 401 exactly when the request carries no
/// user id: then they answer at once and run no query, and no later step of
/// an authenticated request answers 401.
pub proof fn lemma_unauthorized_exactly_without_user(
    user_id: Option<i64>,
    room_id: i64,
    room_name: Seq<char>,
    u: i64,
    fetched: Result<Vec<Room>, QueryError>,
    inserted_room: Result<i64, QueryError>,
    found: Result<bool, QueryError>,
    inserted_member: Result<(), QueryError>,
)
    ensures
        (spec_get_rooms(user_id) == StepModel::Respond(unauthorized_reply())) <==> user_id is None,
        (spec_create_room(user_id, room_name) == StepModel::Respond(unauthorized_reply()))
            <==> user_id is None,
        (spec_add_room_member(room_id, user_id) == StepModel::Respond(unauthorized_reply()))
            <==> user_id is None,
        user_id is Some ==> spec_get_rooms(user_id) is Query,
        user_id is Some ==> spec_create_room(user_id, room_name) is Query,
        user_id is Some ==> spec_add_room_member(room_id, user_id) is Query,
        spec_rooms_fetched(u, fetched).status != STATUS_UNAUTHORIZED,
        spec_room_inserted(room_name, u, inserted_room).status != STATUS_UNAUTHORIZED,
        spec_room_found(room_id, u, found) matches StepModel::Respond(r) ==> r.status != STATUS_UNAUTHORIZED,
        spec_member_inserted(inserted_member).status != STATUS_UNAUTHORIZED,
{
}

/// The rooms listed by `GET /api/rooms` are the fetched rooms, unchanged and
/// in order, reported together with the id of the user who asked.
pub proof fn lemma_listed_rooms_are_fetched_rooms(u: i64, rooms: Vec<Room>)
    ensures
        spec_get_rooms(Some(u)) == StepModel::Query(QueryModel::ListRooms { req_user_id: u }),
        spec_rooms_fetched(u, Ok(rooms)) == (ReplyModel {
            status: STATUS_OK,
            body: BodyModel::Rooms { req_user_id: u, rooms: rooms@ },
        }),
{
}

/// The room that `POST /api/rooms` reports is the room that was inserted:
/// the insert carries the requested name and the requester as owner, and the
/// reply gives the new row id with that same name and owner.
pub proof fn lemma_created_room_is_inserted_room(u: i64, room_name: Seq<char>, row_id: i64)
    ensures
        spec_create_room(Some(u), room_name) matches StepModel::Query(q) && {
            &&& q == (QueryModel::InsertRoom { room_name, user_id: u })
            &&& spec_room_inserted(room_name, u, Ok(row_id)) == (ReplyModel {
                status: STATUS_CREATED,
                body: BodyModel::Room { room_id: row_id, room_name, user_id: u },
            })
        },
{
}

/// Members are listed only for a room whose count succeeded and is positive.
/// A count of zero or less answers 404 "Room not found"; a failed count is a
/// server-side failure and answers 500 "Failed to retrieve room members",
/// never 404.
pub proof fn lemma_members_listed_only_for_existing_room(room_id: i64, counted: Result<i64, QueryError>)
    ensures
        spec_get_room_members(room_id) == StepModel::Query(QueryModel::CountRoom { room_id }),
        (spec_room_counted(room_id, counted) == StepModel::Query(QueryModel::ListMembers { room_id }))
            <==> (counted matches Ok(c) && c > 0),
        (counted matches Ok(c) && c <= 0) ==> spec_room_counted(room_id, counted)
            == StepModel::Respond(error_reply(STATUS_NOT_FOUND, "Room not found"@)),
        counted is Err ==> spec_room_counted(room_id, counted) == StepModel::Respond(
            error_reply(STATUS_INTERNAL_SERVER_ERROR, "Failed to retrieve room members"@),
        ),
{
}

/// Every server-side failure of a query on the read endpoints answers 500.
pub proof fn lemma_read_failures_are_server_errors(req_user_id: i64, room_id: i64)
    ensures
        spec_rooms_fetched(req_user_id, Err(QueryError)).status == STATUS_INTERNAL_SERVER_ERROR,
        spec_room_counted(room_id, Err(QueryError)) matches StepModel::Respond(r)
            && r.status == STATUS_INTERNAL_SERVER_ERROR,
        spec_members_fetched(Err(QueryError)).status == STATUS_INTERNAL_SERVER_ERROR,
{
}

/// A membership is inserted only for an authenticated requester and only
/// after the look-up found the room; the insert joins that requester to that
/// room.
pub proof fn lemma_member_added_only_to_existing_room(
    room_id: i64,
    user_id: Option<i64>,
    found: Result<bool, QueryError>,
)
    ensures
        spec_add_room_member(room_id, user_id) matches StepModel::Query(q)
            ==> user_id matches Some(u) && q == (QueryModel::FindRoom { room_id, user_id: u }),
        forall|u: i64|
            (#[trigger] spec_room_found(room_id, u, found) is Query) <==> found == Ok::<bool, QueryError>(true),
        forall|u: i64|
            #[trigger] spec_room_found(room_id, u, found) matches StepModel::Query(q)
                ==> q == (QueryModel::InsertMember { user_id: u, room_id }),
{
}


/// A successful member fetch is always answered 200 with exactly the fetched
/// members, in order, whatever their number (an empty room gives an empty
/// list, not 404); a failed fetch answers 500.  Fetching the members never
/// answers 404: only the count of a missing room does.
pub proof fn lemma_fetched_members_are_answered(
    members: Vec<RoomMember>,
    fetched: Result<Vec<RoomMember>, QueryError>,
)
    ensures
        spec_members_fetched(Ok(members)).status == STATUS_OK,
        spec_members_fetched(Ok(members)).body == BodyModel::Members(members@),
        members@.len() == 0 ==> spec_members_fetched(Ok(members)).body == BodyModel::Members(
            Seq::<RoomMember>::empty(),
        ),
        spec_members_fetched(Err(QueryError)).status == STATUS_INTERNAL_SERVER_ERROR,
        spec_members_fetched(Err(QueryError)).body == BodyModel::Error(
            "Failed to retrieve room members"@,
        ),
        spec_members_fetched(fetched).status != STATUS_NOT_FOUND,
{
    if members@.len() == 0 {
        assert(members@ =~= Seq::<RoomMember>::empty());
    }
}

/// Each failure, and each success without data, is answered with the status
/// and message that the API announces for it.
pub proof fn lemma_failure_messages(room_id: i64, u: i64, room_name: Seq<char>, req_user_id: i64)
    ensures
        spec_rooms_fetched(req_user_id, Err(QueryError)).body == BodyModel::Error(
            "Failed to retrieve rooms"@,
        ),
        spec_room_inserted(room_name, u, Err(QueryError)).status == STATUS_BAD_REQUEST,
        spec_room_inserted(room_name, u, Err(QueryError)).body == BodyModel::Error(
            "Error creating room"@,
        ),
        spec_room_found(room_id, u, Ok(false)) == StepModel::Respond(
            ReplyModel { status: STATUS_NOT_FOUND, body: BodyModel::Error("Room does not exist"@) },
        ),
        spec_room_found(room_id, u, Err(QueryError)) == StepModel::Respond(
            ReplyModel { status: STATUS_NOT_FOUND, body: BodyModel::Error("Room does not exist"@) },
        ),
        spec_member_inserted(Err(QueryError)).status == STATUS_BAD_REQUEST,
        spec_member_inserted(Err(QueryError)).body == BodyModel::Error("Error adding user to room"@),
        spec_member_inserted(Ok(())).status == STATUS_OK,
        spec_member_inserted(Ok(())).body == BodyModel::Message(
            "User added to the room successfully"@,
        ),
        unauthorized_reply().status == STATUS_UNAUTHORIZED,
        unauthorized_reply().body == BodyModel::Error("User ID missing in token"@),
{
}

} // verus!
