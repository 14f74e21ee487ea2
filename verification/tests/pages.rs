use pika_chat::pages::chatroom::{ChatRoom, Msg as ChatMsg, Props};
use pika_chat::pages::dashboard::{Dashboard, Effect, Msg as DashMsg, ViewMode};
use pika_chat::routes::room::{Room, RoomsResponse};

fn props() -> Props {
    Props { room_id: 12 }
}

#[test]
fn chatroom_starts_empty() {
    let page = ChatRoom::create(&props());
    assert!(!page.has_connection());
    assert!(page.messages().is_empty());
    assert_eq!(page.message_input(), "");
    assert!(page.error().is_none());
}

#[test]
fn chatroom_opens_socket_once() {
    let mut page = ChatRoom::create(&props());
    assert_eq!(page.rendered(&props(), true), Some(12));
    assert!(page.has_connection());
    assert_eq!(page.rendered(&props(), false), None);
    page.update(ChatMsg::WebSocketDisconnected);
    assert_eq!(page.rendered(&props(), false), None);
}

#[test]
fn chatroom_send_without_socket_keeps_input() {
    let mut page = ChatRoom::create(&props());
    page.update(ChatMsg::UpdateMessageInput("hi".to_string()));
    let u = page.update(ChatMsg::SendMessage);
    assert!(u.render);
    assert!(u.outgoing.is_none());
    assert_eq!(page.message_input(), "hi");
}

#[test]
fn chatroom_send_sends_typed_text_and_clears() {
    let mut page = ChatRoom::create(&props());
    page.rendered(&props(), true);
    page.update(ChatMsg::UpdateMessageInput("hello there".to_string()));
    let u = page.update(ChatMsg::SendMessage);
    assert!(u.render);
    assert_eq!(u.outgoing.as_deref(), Some("hello there"));
    assert_eq!(page.message_input(), "");
}

#[test]
fn chatroom_messages_append_in_order() {
    let mut page = ChatRoom::create(&props());
    page.update(ChatMsg::ReceiveMessage("one".to_string()));
    page.update(ChatMsg::WebSocketError("boom".to_string()));
    page.update(ChatMsg::ReceiveMessage("two".to_string()));
    page.update(ChatMsg::SendMessage);
    assert_eq!(page.messages(), &vec!["one".to_string(), "two".to_string()]);
}

#[test]
fn chatroom_connection_events_set_error() {
    let mut page = ChatRoom::create(&props());
    let u = page.update(ChatMsg::WebSocketDisconnected);
    assert!(u.render);
    assert_eq!(page.error().as_deref(), Some("Disconnected from the server."));
    page.update(ChatMsg::WebSocketError("socket closed".to_string()));
    assert_eq!(page.error().as_deref(), Some("socket closed"));
    page.update(ChatMsg::WebSocketConnected);
    assert!(page.error().is_none());
}

fn room(id: i64, name: &str) -> Room {
    Room { room_id: id, room_name: name.to_string(), user_id: 3 }
}

fn logged_in() -> Dashboard {
    let (page, effect) = Dashboard::create(
        Some("tok".to_string()),
        Some("ann".to_string()),
        Some("http://a/b.png".to_string()),
    );
    assert!(matches!(effect, Effect::FetchRooms { ref token } if token == "tok"));
    page
}

#[test]
fn dashboard_created_with_token_fetches_and_loads() {
    let page = logged_in();
    assert!(page.loading());
    assert_eq!(page.username(), "ann");
    assert_eq!(page.avatar_url().as_deref(), Some("http://a/b.png"));
    assert_eq!(page.token().as_deref(), Some("tok"));
    assert!(page.view_mode() == ViewMode::Loading);
}

#[test]
fn dashboard_created_without_token_does_nothing() {
    let (page, effect) = Dashboard::create(None, Some("ignored".to_string()), None);
    assert!(matches!(effect, Effect::Nothing));
    assert_eq!(page.username(), "");
    assert!(page.loading());
}

#[test]
fn dashboard_undecodable_token_has_empty_username() {
    let (page, _) = Dashboard::create(Some("tok".to_string()), None, None);
    assert_eq!(page.username(), "");
}

#[test]
fn dashboard_fetch_success_shows_rooms() {
    let mut page = logged_in();
    assert!(page.update(DashMsg::FetchRooms).render);
    assert!(page.view_mode() == ViewMode::Loading);
    let rooms = RoomsResponse { req_user_id: 3, rooms: vec![room(1, "general")] };
    let u = page.update(DashMsg::FetchRoomsSuccess(rooms));
    assert!(u.render);
    assert!(!page.loading());
    assert!(page.error().is_none());
    assert_eq!(page.rooms().as_ref().unwrap().rooms.len(), 1);
    assert!(page.view_mode() == ViewMode::Rooms);
}

#[test]
fn dashboard_fetch_failure_shows_error() {
    let mut page = logged_in();
    page.update(DashMsg::FetchRoomsFailure("offline".to_string()));
    assert!(!page.loading());
    assert!(page.rooms().is_none());
    assert_eq!(page.error().as_deref(), Some("offline"));
    assert!(page.view_mode() == ViewMode::Failed);
}

#[test]
fn dashboard_no_rooms_view() {
    let (mut page, _) = Dashboard::create(None, None, None);
    page.update(DashMsg::FetchRoomsFailure("x".to_string()));
    page.update(DashMsg::FetchRooms);
    assert!(page.view_mode() == ViewMode::Loading);
    page.update(DashMsg::UpdateRoomName("a".to_string()));
    assert!(page.error().is_none());
}

#[test]
fn dashboard_logout_with_token() {
    let mut page = logged_in();
    let u = page.update(DashMsg::LogoutClicked);
    assert!(!u.render);
    assert!(matches!(u.effect, Effect::Logout { ref token } if token == "tok"));
    let u = page.update(DashMsg::LogoutSuccess);
    assert!(u.render);
    assert!(matches!(u.effect, Effect::ForgetTokenAndGoHome));
    let u = page.update(DashMsg::LogoutFailure("nope".to_string()));
    assert!(matches!(u.effect, Effect::ForgetTokenAndGoHome));
}

#[test]
fn dashboard_logout_without_token_goes_home() {
    let (mut page, _) = Dashboard::create(None, None, None);
    let u = page.update(DashMsg::LogoutClicked);
    assert!(!u.render);
    assert!(matches!(u.effect, Effect::GoHome));
}

#[test]
fn dashboard_create_room_round_trip() {
    let mut page = logged_in();
    page.update(DashMsg::FetchRoomsSuccess(RoomsResponse { req_user_id: 3, rooms: vec![room(1, "general")] }));
    page.update(DashMsg::UpdateRoomName("books".to_string()));
    assert_eq!(page.room_name_input(), "books");
    let u = page.update(DashMsg::CreateRoom);
    assert!(!u.render);
    match u.effect {
        Effect::CreateRoom { token, room_info } => {
            assert_eq!(token, "tok");
            assert_eq!(room_info.room_name, "books");
        }
        _ => panic!("expected CreateRoom"),
    }
    let u = page.update(DashMsg::CreateRoomSuccess(room(2, "books")));
    assert!(u.render);
    assert_eq!(page.room_name_input(), "");
    let rooms = &page.rooms().as_ref().unwrap().rooms;
    assert_eq!(rooms.len(), 2);
    assert_eq!(rooms[1].room_name, "books");
}

#[test]
fn dashboard_create_room_without_token_does_nothing() {
    let (mut page, _) = Dashboard::create(None, None, None);
    page.update(DashMsg::UpdateRoomName("books".to_string()));
    let u = page.update(DashMsg::CreateRoom);
    assert!(!u.render);
    assert!(matches!(u.effect, Effect::Nothing));
}

#[test]
fn dashboard_create_success_before_rooms_loaded_clears_input_only() {
    let mut page = logged_in();
    page.update(DashMsg::UpdateRoomName("books".to_string()));
    page.update(DashMsg::CreateRoomSuccess(room(2, "books")));
    assert!(page.rooms().is_none());
    assert_eq!(page.room_name_input(), "");
}

#[test]
fn dashboard_create_failure_shows_error() {
    let mut page = logged_in();
    page.update(DashMsg::FetchRoomsSuccess(RoomsResponse { req_user_id: 3, rooms: vec![] }));
    let u = page.update(DashMsg::CreateRoomFailure("taken".to_string()));
    assert!(u.render);
    assert_eq!(page.error().as_deref(), Some("taken"));
    assert!(page.view_mode() == ViewMode::Failed);
}
