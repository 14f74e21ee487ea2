use pika_chat::routes::room::{
    add_room_member, create_room, get_room_members, get_rooms, member_inserted, members_fetched,
    room_counted, room_found, room_inserted, rooms_fetched, Body, Query, QueryError, Reply, Room,
    RoomInfo, RoomMember, Step,
};

fn expect_error(step: Step, status: u16, message: &str) {
    match step {
        Step::Respond(reply) => expect_error_reply(reply, status, message),
        Step::Query(_) => panic!("expected an answer, got a query"),
    }
}

fn expect_error_reply(reply: Reply, status: u16, message: &str) {
    assert_eq!(reply.status, status);
    match reply.body {
        Body::Error(e) => assert_eq!(e.error, message),
        _ => panic!("expected an error body"),
    }
}

fn sample_rooms() -> Vec<Room> {
    vec![
        Room { room_id: 1, room_name: "general".to_string(), user_id: 7 },
        Room { room_id: 2, room_name: "random".to_string(), user_id: 9 },
    ]
}

#[test]
fn get_rooms_without_user_is_unauthorized() {
    expect_error(get_rooms(None), 401, "User ID missing in token");
}

#[test]
fn get_rooms_with_user_lists_rooms() {
    match get_rooms(Some(42)) {
        Step::Query(Query::ListRooms { req_user_id }) => assert_eq!(req_user_id, 42),
        _ => panic!("expected ListRooms"),
    }
}

#[test]
fn rooms_fetched_reports_rooms_and_requester() {
    let reply = rooms_fetched(42, Ok(sample_rooms()));
    assert_eq!(reply.status, 200);
    match reply.body {
        Body::Rooms(r) => {
            assert_eq!(r.req_user_id, 42);
            assert_eq!(r.rooms.len(), 2);
            assert_eq!(r.rooms[0].room_id, 1);
            assert_eq!(r.rooms[0].room_name, "general");
            assert_eq!(r.rooms[1].user_id, 9);
        }
        _ => panic!("expected rooms"),
    }
}

#[test]
fn rooms_fetched_empty_list() {
    let reply = rooms_fetched(3, Ok(Vec::new()));
    assert_eq!(reply.status, 200);
    assert!(matches!(reply.body, Body::Rooms(ref r) if r.rooms.is_empty() && r.req_user_id == 3));
}

#[test]
fn rooms_fetch_failure_is_server_error() {
    expect_error_reply(rooms_fetched(42, Err(QueryError)), 500, "Failed to retrieve rooms");
}

#[test]
fn create_room_without_user_is_unauthorized() {
    let step = create_room(None, RoomInfo { room_name: "lobby".to_string() });
    expect_error(step, 401, "User ID missing in token");
}

#[test]
fn create_room_inserts_requested_name_for_requester() {
    match create_room(Some(5), RoomInfo { room_name: "lobby".to_string() }) {
        Step::Query(Query::InsertRoom { room_name, user_id }) => {
            assert_eq!(room_name, "lobby");
            assert_eq!(user_id, 5);
        }
        _ => panic!("expected InsertRoom"),
    }
}

#[test]
fn room_inserted_reports_created_room() {
    let reply = room_inserted("lobby".to_string(), 5, Ok(17));
    assert_eq!(reply.status, 201);
    match reply.body {
        Body::Room(room) => {
            assert_eq!(room.room_id, 17);
            assert_eq!(room.room_name, "lobby");
            assert_eq!(room.user_id, 5);
        }
        _ => panic!("expected a room"),
    }
}

#[test]
fn room_insert_failure_is_bad_request() {
    expect_error_reply(room_inserted("lobby".to_string(), 5, Err(QueryError)), 400, "Error creating room");
}

#[test]
fn get_room_members_counts_first() {
    match get_room_members(8) {
        Step::Query(Query::CountRoom { room_id }) => assert_eq!(room_id, 8),
        _ => panic!("expected CountRoom"),
    }
}

#[test]
fn room_counted_zero_is_not_found() {
    expect_error(room_counted(8, Ok(0)), 404, "Room not found");
}

#[test]
fn room_counted_failure_is_server_error() {
    expect_error(room_counted(8, Err(QueryError)), 500, "Failed to retrieve room members");
}

#[test]
fn room_counted_negative_is_not_found() {
    expect_error(room_counted(8, Ok(-1)), 404, "Room not found");
}

#[test]
fn room_counted_positive_lists_members() {
    match room_counted(8, Ok(1)) {
        Step::Query(Query::ListMembers { room_id }) => assert_eq!(room_id, 8),
        _ => panic!("expected ListMembers"),
    }
}

#[test]
fn members_fetched_reports_members() {
    let members = vec![
        RoomMember { user_id: 1, username: "ann".to_string() },
        RoomMember { user_id: 2, username: "bob".to_string() },
    ];
    let reply = members_fetched(Ok(members));
    assert_eq!(reply.status, 200);
    match reply.body {
        Body::Members(m) => {
            assert_eq!(m.len(), 2);
            assert_eq!(m[0].username, "ann");
            assert_eq!(m[1].user_id, 2);
        }
        _ => panic!("expected members"),
    }
}

#[test]
fn members_fetch_failure_is_server_error() {
    expect_error_reply(members_fetched(Err(QueryError)), 500, "Failed to retrieve room members");
}

#[test]
fn add_room_member_without_user_is_unauthorized() {
    expect_error(add_room_member(8, None), 401, "User ID missing in token");
}

#[test]
fn add_room_member_looks_room_up() {
    match add_room_member(8, Some(5)) {
        Step::Query(Query::FindRoom { room_id, user_id }) => {
            assert_eq!(room_id, 8);
            assert_eq!(user_id, 5);
        }
        _ => panic!("expected FindRoom"),
    }
}

#[test]
fn room_found_missing_is_not_found() {
    expect_error(room_found(8, 5, Ok(false)), 404, "Room does not exist");
    expect_error(room_found(8, 5, Err(QueryError)), 404, "Room does not exist");
}

#[test]
fn room_found_inserts_membership() {
    match room_found(8, 5, Ok(true)) {
        Step::Query(Query::InsertMember { user_id, room_id }) => {
            assert_eq!(user_id, 5);
            assert_eq!(room_id, 8);
        }
        _ => panic!("expected InsertMember"),
    }
}

#[test]
fn member_inserted_confirms() {
    let reply = member_inserted(Ok(()));
    assert_eq!(reply.status, 200);
    match reply.body {
        Body::Message(m) => assert_eq!(m.message, "User added to the room successfully"),
        _ => panic!("expected a message"),
    }
}

#[test]
fn member_insert_failure_is_bad_request() {
    expect_error_reply(member_inserted(Err(QueryError)), 400, "Error adding user to room");
}

#[test]
fn full_create_room_flow_reports_inserted_room() {
    let step = create_room(Some(11), RoomInfo { room_name: "books".to_string() });
    let reply = match step {
        Step::Query(Query::InsertRoom { room_name, user_id }) => room_inserted(room_name, user_id, Ok(99)),
        _ => panic!("expected InsertRoom"),
    };
    assert_eq!(reply.status, 201);
    match reply.body {
        Body::Room(room) => {
            assert_eq!((room.room_id, room.room_name.as_str(), room.user_id), (99, "books", 11));
        }
        _ => panic!("expected a room"),
    }
}
