//! The dashboard page: the list of rooms, the name of a room to create, and
//! the signed-in user.
//!
//! The page does not talk to the server nor to the browser itself: every
//! event yields the next state and an `Effect` that the caller performs
//! (fetching the rooms, creating a room, logging out, going home).

use vstd::prelude::*;
use crate::response::opt_text;
use crate::routes::room::{Room, RoomInfo, RoomsModel, RoomsResponse};

verus! {

/// Events of the dashboard page.
pub enum Msg {
    LogoutClicked,
    LogoutSuccess,
    LogoutFailure(String),
    FetchRooms,
    FetchRoomsSuccess(RoomsResponse),
    FetchRoomsFailure(String),
    UpdateRoomName(String),
    CreateRoom,
    CreateRoomSuccess(Room),
    CreateRoomFailure(String),
}

/// State of the dashboard page.
pub struct Dashboard {
    token: Option<String>,
    rooms: Option<RoomsResponse>,
    error: Option<String>,
    loading: bool,
    room_name_input: String,
    username: String,
    avatar_url: Option<String>,
}

/// The abstract state of the page.
pub struct DashboardModel {
    pub token: Option<Seq<char>>,
    pub rooms: Option<RoomsModel>,
    pub error: Option<Seq<char>>,
    pub loading: bool,
    pub room_name_input: Seq<char>,
    pub username: Seq<char>,
    pub avatar_url: Option<Seq<char>>,
}

pub open spec fn opt_rooms(r: Option<RoomsResponse>) -> Option<RoomsModel> {
    match r {
        Some(x) => Some(x@),
        None => None,
    }
}

impl View for Dashboard {
    type V = DashboardModel;

    closed spec fn view(&self) -> DashboardModel {
        DashboardModel {
            token: opt_text(self.token),
            rooms: opt_rooms(self.rooms),
            error: opt_text(self.error),
            loading: self.loading,
            room_name_input: self.room_name_input@,
            username: self.username@,
            avatar_url: opt_text(self.avatar_url),
        }
    }
}

/// Work that the caller performs for the page.
pub enum Effect {
    Nothing,
    /// Queue `Msg::FetchRooms`, then fetch the rooms with this token and
    /// answer with `FetchRoomsSuccess` or `FetchRoomsFailure`.
    FetchRooms { token: String },
    /// Log out with this token and answer with `LogoutSuccess` or `LogoutFailure`.
    Logout { token: String },
    /// Create a room with this token and answer with `CreateRoomSuccess` or
    /// `CreateRoomFailure`.
    CreateRoom { token: String, room_info: RoomInfo },
    /// Go to the home page.
    GoHome,
    /// Forget the stored token, then go to the home page.
    ForgetTokenAndGoHome,
}

pub enum EffectModel {
    Nothing,
    FetchRooms { token: Seq<char> },
    Logout { token: Seq<char> },
    CreateRoom { token: Seq<char>, room_name: Seq<char> },
    GoHome,
    ForgetTokenAndGoHome,
}

impl View for Effect {
    type V = EffectModel;

    open spec fn view(&self) -> EffectModel {
        match *self {
            Effect::Nothing => EffectModel::Nothing,
            Effect::FetchRooms { token } => EffectModel::FetchRooms { token: token@ },
            Effect::Logout { token } => EffectModel::Logout { token: token@ },
            Effect::CreateRoom { token, room_info } => EffectModel::CreateRoom {
                token: token@,
                room_name: room_info.room_name@,
            },
            Effect::GoHome => EffectModel::GoHome,
            Effect::ForgetTokenAndGoHome => EffectModel::ForgetTokenAndGoHome,
        }
    }
}

/// What `Dashboard::update` asks of the caller.
pub struct DashboardUpdate {
    /// Whether the page must be drawn again.
    pub render: bool,
    pub effect: Effect,
}

/// Which of its four faces the page shows.
#[derive(Clone, Copy, PartialEq, Eq, Structural)]
pub enum ViewMode {
    /// "Loading rooms..."
    Loading,
    /// The error message.
    Failed,
    /// The list of rooms.
    Rooms,
    /// "No rooms available."
    NoRooms,
}

/// The state of a new page.  The user name is the one decoded from the token;
/// without a token, or when it cannot be decoded, it is empty.
pub open spec fn spec_dashboard_initial(
    token: Option<Seq<char>>,
    decoded_username: Option<Seq<char>>,
    avatar_url: Option<Seq<char>>,
) -> DashboardModel {
    DashboardModel {
        token,
        rooms: None,
        error: None,
        loading: true,
        room_name_input: Seq::empty(),
        username: if token is Some && decoded_username is Some {
            decoded_username->0
        } else {
            Seq::empty()
        },
        avatar_url,
    }
}

/// A new page fetches the rooms when there is a token.
pub open spec fn spec_dashboard_initial_effect(token: Option<Seq<char>>) -> EffectModel {
    match token {
        Some(t) => EffectModel::FetchRooms { token: t },
        None => EffectModel::Nothing,
    }
}

/// The state after an event.
pub open spec fn spec_dashboard_next(s: DashboardModel, msg: Msg) -> DashboardModel {
    match msg {
        Msg::LogoutClicked | Msg::LogoutSuccess | Msg::LogoutFailure(_) | Msg::CreateRoom => s,
        Msg::FetchRooms => DashboardModel { loading: true, error: None, ..s },
        Msg::FetchRoomsSuccess(rooms) => DashboardModel {
            loading: false,
            rooms: Some(rooms@),
            error: None,
            ..s
        },
        Msg::FetchRoomsFailure(err) => DashboardModel {
            loading: false,
            rooms: None,
            error: Some(err@),
            ..s
        },
        Msg::UpdateRoomName(name) => DashboardModel { room_name_input: name@, ..s },
        Msg::CreateRoomSuccess(room) => DashboardModel {
            rooms: match s.rooms {
                Some(r) => Some(RoomsModel { rooms: r.rooms.push(room), ..r }),
                None => None,
            },
            room_name_input: Seq::empty(),
            ..s
        },
        Msg::CreateRoomFailure(err) => DashboardModel { error: Some(err@), ..s },
    }
}

/// The work an event asks for.
pub open spec fn spec_dashboard_effect(s: DashboardModel, msg: Msg) -> EffectModel {
    match msg {
        Msg::LogoutClicked => match s.token {
            Some(t) => EffectModel::Logout { token: t },
            None => EffectModel::GoHome,
        },
        Msg::LogoutSuccess | Msg::LogoutFailure(_) => EffectModel::ForgetTokenAndGoHome,
        Msg::CreateRoom => match s.token {
            Some(t) => EffectModel::CreateRoom { token: t, room_name: s.room_name_input },
            None => EffectModel::Nothing,
        },
        _ => EffectModel::Nothing,
    }
}

/// Whether the page is drawn again after an event: always, but after the two
/// clicks that only start a request.
pub open spec fn spec_dashboard_render(msg: Msg) -> bool {
    !(msg is LogoutClicked || msg is CreateRoom)
}

/// The face the page shows: loading first, then an error, then the rooms.
pub open spec fn spec_view_mode(s: DashboardModel) -> ViewMode {
    if s.loading {
        ViewMode::Loading
    } else if s.error is Some {
        ViewMode::Failed
    } else if s.rooms is Some {
        ViewMode::Rooms
    } else {
        ViewMode::NoRooms
    }
}

impl Dashboard {
    /// A new page, loading, with the given token, decoded user name and
    /// avatar; with a token it asks for the rooms to be fetched.
    pub fn create(
        token: Option<String>,
        decoded_username: Option<String>,
        avatar_url: Option<String>,
    ) -> (res: (Dashboard, Effect))
        ensures
            res.0@ == spec_dashboard_initial(opt_text(token), opt_text(decoded_username), opt_text(avatar_url)),
            res.1@ == spec_dashboard_initial_effect(opt_text(token)),
    {
        let username = match (&token, decoded_username) {
            (Some(_), Some(name)) => name,
            _ => String::new(),
        };
        let effect = match &token {
            Some(t) => Effect::FetchRooms { token: t.clone() },
            None => Effect::Nothing,
        };
        let page = Dashboard {
            token,
            rooms: None,
            error: None,
            loading: true,
            room_name_input: String::new(),
            username,
            avatar_url,
        };
        (page, effect)
    }

    /// Apply an event.
    pub fn update(&mut self, msg: Msg) -> (u: DashboardUpdate)
        ensures
            final(self)@ == spec_dashboard_next(old(self)@, msg),
            u.effect@ == spec_dashboard_effect(old(self)@, msg),
            u.render == spec_dashboard_render(msg),
    {
        match msg {
            Msg::LogoutClicked => {
                let effect = match &self.token {
                    Some(t) => Effect::Logout { token: t.clone() },
                    None => Effect::GoHome,
                };
                DashboardUpdate { render: false, effect }
            },
            Msg::LogoutSuccess => DashboardUpdate { render: true, effect: Effect::ForgetTokenAndGoHome },
            Msg::LogoutFailure(_error) => DashboardUpdate {
                render: true,
                effect: Effect::ForgetTokenAndGoHome,
            },
            Msg::FetchRooms => {
                self.loading = true;
                self.error = None;
                DashboardUpdate { render: true, effect: Effect::Nothing }
            },
            Msg::FetchRoomsSuccess(rooms) => {
                self.loading = false;
                self.rooms = Some(rooms);
                self.error = None;
                DashboardUpdate { render: true, effect: Effect::Nothing }
            },
            Msg::FetchRoomsFailure(err) => {
                self.loading = false;
                self.rooms = None;
                self.error = Some(err);
                DashboardUpdate { render: true, effect: Effect::Nothing }
            },
            Msg::UpdateRoomName(name) => {
                self.room_name_input = name;
                DashboardUpdate { render: true, effect: Effect::Nothing }
            },
            Msg::CreateRoom => {
                let effect = match &self.token {
                    Some(t) => Effect::CreateRoom {
                        token: t.clone(),
                        room_info: RoomInfo { room_name: self.room_name_input.clone() },
                    },
                    None => Effect::Nothing,
                };
                DashboardUpdate { render: false, effect }
            },
            Msg::CreateRoomSuccess(room) => {
                match &mut self.rooms {
                    Some(rooms) => {
                        rooms.rooms.push(room);
                    },
                    None => {},
                }
                self.room_name_input = String::new();
                DashboardUpdate { render: true, effect: Effect::Nothing }
            },
            Msg::CreateRoomFailure(err) => {
                self.error = Some(err);
                DashboardUpdate { render: true, effect: Effect::Nothing }
            },
        }
    }

    /// The face the page shows.
    pub fn view_mode(&self) -> (m: ViewMode)
        ensures
            m == spec_view_mode(self@),
    {
        if self.loading {
            ViewMode::Loading
        } else if self.error.is_some() {
            ViewMode::Failed
        } else if self.rooms.is_some() {
            ViewMode::Rooms
        } else {
            ViewMode::NoRooms
        }
    }

    /// The stored token, if any.
    pub fn token(&self) -> (t: &Option<String>)
        ensures
            opt_text(*t) == self@.token,
    {
        &self.token
    }

    /// The rooms fetched, if any.
    pub fn rooms(&self) -> (r: &Option<RoomsResponse>)
        ensures
            opt_rooms(*r) == self@.rooms,
    {
        &self.rooms
    }

    /// The error to show, if any.
    pub fn error(&self) -> (e: &Option<String>)
        ensures
            opt_text(*e) == self@.error,
    {
        &self.error
    }

    /// Whether the rooms are being fetched.
    pub fn loading(&self) -> (b: bool)
        ensures
            b == self@.loading,
    {
        self.loading
    }

    /// The name typed for a new room.
    pub fn room_name_input(&self) -> (s: &String)
        ensures
            s@ == self@.room_name_input,
    {
        &self.room_name_input
    }

    /// The signed-in user's name.
    pub fn username(&self) -> (s: &String)
        ensures
            s@ == self@.username,
    {
        &self.username
    }

    /// The signed-in user's avatar.
    pub fn avatar_url(&self) -> (a: &Option<String>)
        ensures
            opt_text(*a) == self@.avatar_url,
    {
        &self.avatar_url
    }
}


/// Fetching the rooms: a page created with a token asks for the rooms and
/// shows "loading"; once fetched, the page shows exactly the fetched rooms
/// and no error; when fetching fails, it shows the failure and no rooms.
pub proof fn lemma_fetch_rooms_lifecycle(
    s: DashboardModel,
    token: Seq<char>,
    decoded_username: Option<Seq<char>>,
    avatar_url: Option<Seq<char>>,
    rooms: RoomsResponse,
    err: String,
)
    ensures
        spec_dashboard_initial_effect(Some(token)) == (EffectModel::FetchRooms { token }),
        spec_view_mode(spec_dashboard_initial(Some(token), decoded_username, avatar_url))
            == ViewMode::Loading,
        spec_view_mode(spec_dashboard_next(s, Msg::FetchRooms)) == ViewMode::Loading,
        ({
            let done = spec_dashboard_next(spec_dashboard_next(s, Msg::FetchRooms), Msg::FetchRoomsSuccess(rooms));
            &&& !done.loading
            &&& done.rooms == Some(rooms@)
            &&& done.error is None
            &&& spec_view_mode(done) == ViewMode::Rooms
        }),
        ({
            let failed = spec_dashboard_next(spec_dashboard_next(s, Msg::FetchRooms), Msg::FetchRoomsFailure(err));
            &&& !failed.loading
            &&& failed.rooms is None
            &&& failed.error == Some(err@)
            &&& spec_view_mode(failed) == ViewMode::Failed
        }),
{
}

/// Logging out always ends on the home page: the click starts a logout with
/// the stored token (or goes home at once without one), and whatever the
/// logout's outcome, the token is forgotten and the page goes home.  None of
/// these events changes the page's state.
pub proof fn lemma_logout_ends_home(s: DashboardModel, err: String)
    ensures
        spec_dashboard_effect(s, Msg::LogoutClicked) == (match s.token {
            Some(t) => EffectModel::Logout { token: t },
            None => EffectModel::GoHome,
        }),
        spec_dashboard_effect(s, Msg::LogoutSuccess) == EffectModel::ForgetTokenAndGoHome,
        spec_dashboard_effect(s, Msg::LogoutFailure(err)) == EffectModel::ForgetTokenAndGoHome,
        spec_dashboard_next(s, Msg::LogoutClicked) == s,
        spec_dashboard_next(s, Msg::LogoutSuccess) == s,
        spec_dashboard_next(s, Msg::LogoutFailure(err)) == s,
{
}

/// Creating a room: with a token, the click asks for a room with exactly the
/// typed name; when the server confirms, the new room is appended to the
/// list shown (if one was fetched) and the typed name is cleared.  Without a
/// token nothing is asked.
pub proof fn lemma_create_room_round_trip(s: DashboardModel, name: String, room: Room)
    ensures
        ({
            let typed = spec_dashboard_next(s, Msg::UpdateRoomName(name));
            &&& s.token matches Some(t) ==> spec_dashboard_effect(typed, Msg::CreateRoom)
                == (EffectModel::CreateRoom { token: t, room_name: name@ })
            &&& s.token is None ==> spec_dashboard_effect(typed, Msg::CreateRoom) == EffectModel::Nothing
            &&& spec_dashboard_next(typed, Msg::CreateRoom) == typed
        }),
        ({
            let done = spec_dashboard_next(s, Msg::CreateRoomSuccess(room));
            &&& done.room_name_input == Seq::<char>::empty()
            &&& s.rooms matches Some(r) ==> done.rooms == Some(RoomsModel { rooms: r.rooms.push(room), ..r })
            &&& s.rooms is None ==> done.rooms is None
        }),
{
}

/// Only the two clicks that start a request leave the page undrawn; every
/// other event redraws it.  Nothing but those clicks and the logout outcomes
/// asks the caller for work.
pub proof fn lemma_redraw_and_effects(s: DashboardModel, msg: Msg)
    ensures
        !spec_dashboard_render(msg) <==> (msg is LogoutClicked || msg is CreateRoom),
        !(msg is LogoutClicked || msg is CreateRoom || msg is LogoutSuccess || msg is LogoutFailure)
            ==> spec_dashboard_effect(s, msg) == EffectModel::Nothing,
{
}


/// A confirmed new room changes only the room list and the typed name: the
/// page keeps its loading flag and its error, so a page showing the rooms
/// still shows the rooms, now with the new one last; nothing more is asked.
pub proof fn lemma_created_room_shown(s: DashboardModel, room: Room)
    ensures
        ({
            let t = spec_dashboard_next(s, Msg::CreateRoomSuccess(room));
            &&& t.loading == s.loading
            &&& t.error == s.error
            &&& t.token == s.token
            &&& t.username == s.username
            &&& t.avatar_url == s.avatar_url
            &&& t.rooms is Some <==> s.rooms is Some
            &&& s.rooms matches Some(r) ==> (t.rooms matches Some(r2) && r2.req_user_id == r.req_user_id
                && r2.rooms.len() == r.rooms.len() + 1 && r2.rooms.last() == room
                && r2.rooms.drop_last() == r.rooms)
            &&& spec_view_mode(s) == ViewMode::Rooms ==> spec_view_mode(t) == ViewMode::Rooms
            &&& spec_dashboard_effect(s, Msg::CreateRoomSuccess(room)) == EffectModel::Nothing
            &&& spec_dashboard_render(Msg::CreateRoomSuccess(room))
        }),
{
}

/// No event changes the stored token, the user's name or the avatar.
pub proof fn lemma_identity_unchanged(s: DashboardModel, msg: Msg)
    ensures
        spec_dashboard_next(s, msg).token == s.token,
        spec_dashboard_next(s, msg).username == s.username,
        spec_dashboard_next(s, msg).avatar_url == s.avatar_url,
{
}

/// What each event changes, and what it leaves alone: typing changes only the
/// typed name; fetching touches only the loading flag, the error and the
/// rooms, never the typed name; a failed creation only sets the error.
pub proof fn lemma_dashboard_event_frames(s: DashboardModel, msg: Msg)
    ensures
        msg matches Msg::UpdateRoomName(n) ==> spec_dashboard_next(s, msg) == (DashboardModel {
            room_name_input: n@,
            ..s
        }),
        msg is FetchRooms ==> spec_dashboard_next(s, msg) == (DashboardModel {
            loading: true,
            error: None,
            ..s
        }),
        (msg is FetchRooms || msg is FetchRoomsSuccess || msg is FetchRoomsFailure)
            ==> spec_dashboard_next(s, msg).room_name_input == s.room_name_input,
        msg matches Msg::CreateRoomFailure(e) ==> spec_dashboard_next(s, msg) == (DashboardModel {
            error: Some(e@),
            ..s
        }),
        msg matches Msg::CreateRoomFailure(e) ==> spec_view_mode(spec_dashboard_next(s, msg))
            == if s.loading { ViewMode::Loading } else { ViewMode::Failed },
        (msg is LogoutClicked || msg is LogoutSuccess || msg is LogoutFailure || msg is CreateRoom)
            ==> spec_dashboard_next(s, msg) == s,
{
}

/// A new page starts loading, with no rooms, no error and an empty typed name,
/// and keeps the token and avatar it was given.
pub proof fn lemma_new_page(
    token: Option<Seq<char>>,
    decoded_username: Option<Seq<char>>,
    avatar_url: Option<Seq<char>>,
)
    ensures
        ({
            let p = spec_dashboard_initial(token, decoded_username, avatar_url);
            &&& p.loading
            &&& p.rooms is None
            &&& p.error is None
            &&& p.room_name_input == Seq::<char>::empty()
            &&& p.token == token
            &&& p.avatar_url == avatar_url
            &&& token is None ==> p.username == Seq::<char>::empty()
            &&& token is Some ==> (decoded_username matches Some(n) ==> p.username == n)
            &&& token is Some && decoded_username is None ==> p.username == Seq::<char>::empty()
            &&& spec_view_mode(p) == ViewMode::Loading
            &&& (spec_dashboard_initial_effect(token) is FetchRooms <==> token is Some)
        }),
{
}


/// Which face the page shows: "loading" whenever it is loading; otherwise
/// the error whenever there is one; otherwise the rooms when they were
/// fetched, and "no rooms" when not.
pub proof fn lemma_view_mode_faces(s: DashboardModel)
    ensures
        (spec_view_mode(s) == ViewMode::Loading) <==> s.loading,
        (spec_view_mode(s) == ViewMode::Failed) <==> (!s.loading && s.error is Some),
        (spec_view_mode(s) == ViewMode::Rooms) <==> (!s.loading && s.error is None && s.rooms is Some),
        (spec_view_mode(s) == ViewMode::NoRooms) <==> (!s.loading && s.error is None && s.rooms is None),
{
}

} // verus!
