//! The chat room page: the messages received over the room's socket, the
//! message being typed, and the last connection error.
//!
//! The page does not own the socket.  `ChatRoom::rendered` tells the caller
//! when to open it, and `ChatRoom::update` hands back the text to send.

use vstd::prelude::*;
use crate::response::opt_text;

verus! {

/// Events of the chat room page.
pub enum Msg {
    SendMessage,
    ReceiveMessage(String),
    UpdateMessageInput(String),
    WebSocketConnected,
    WebSocketDisconnected,
    WebSocketError(String),
}

/// Properties of the chat room page: the room it shows.
#[derive(Clone, Copy, PartialEq, Eq, Structural)]
pub struct Props {
    pub room_id: i64,
}

/// State of the chat room page.
pub struct ChatRoom {
    /// Whether the socket to the room has been opened.
    connected: bool,
    message_input: String,
    messages: Vec<String>,
    error: Option<String>,
}

/// The abstract state of the page.
pub struct ChatRoomModel {
    pub connected: bool,
    pub message_input: Seq<char>,
    pub messages: Seq<String>,
    pub error: Option<Seq<char>>,
}

impl View for ChatRoom {
    type V = ChatRoomModel;

    closed spec fn view(&self) -> ChatRoomModel {
        ChatRoomModel {
            connected: self.connected,
            message_input: self.message_input@,
            messages: self.messages@,
            error: opt_text(self.error),
        }
    }
}

/// What `ChatRoom::update` asks of the caller.
pub struct ChatUpdate {
    /// Whether the page must be drawn again.
    pub render: bool,
    /// Text to send over the room's socket.
    pub outgoing: Option<String>,
}

pub struct ChatUpdateModel {
    pub render: bool,
    pub outgoing: Option<Seq<char>>,
}

impl View for ChatUpdate {
    type V = ChatUpdateModel;

    open spec fn view(&self) -> ChatUpdateModel {
        ChatUpdateModel { render: self.render, outgoing: opt_text(self.outgoing) }
    }
}

/// The initial state of the page.
pub open spec fn spec_chat_initial() -> ChatRoomModel {
    ChatRoomModel {
        connected: false,
        message_input: Seq::empty(),
        messages: Seq::empty(),
        error: None,
    }
}

/// The state after an event.
pub open spec fn spec_chat_next(s: ChatRoomModel, msg: Msg) -> ChatRoomModel {
    match msg {
        Msg::SendMessage => if s.connected {
            ChatRoomModel { message_input: Seq::empty(), ..s }
        } else {
            s
        },
        Msg::ReceiveMessage(m) => ChatRoomModel { messages: s.messages.push(m), ..s },
        Msg::UpdateMessageInput(input) => ChatRoomModel { message_input: input@, ..s },
        Msg::WebSocketConnected => ChatRoomModel { error: None, ..s },
        Msg::WebSocketDisconnected => ChatRoomModel {
            error: Some("Disconnected from the server."@),
            ..s
        },
        Msg::WebSocketError(e) => ChatRoomModel { error: Some(e@), ..s },
    }
}

/// What an event asks of the caller: the page is always drawn again, and the
/// typed text is sent when the user sends it over an open socket.
pub open spec fn spec_chat_effect(s: ChatRoomModel, msg: Msg) -> ChatUpdateModel {
    ChatUpdateModel {
        render: true,
        outgoing: if msg is SendMessage && s.connected {
            Some(s.message_input)
        } else {
            None
        },
    }
}

/// The state after the page was drawn.
pub open spec fn spec_chat_rendered(s: ChatRoomModel) -> ChatRoomModel {
    ChatRoomModel { connected: true, ..s }
}

/// The room whose socket must be opened after the page was drawn: only when
/// none is open yet.
pub open spec fn spec_chat_open(s: ChatRoomModel, room_id: i64) -> Option<i64> {
    if s.connected {
        None
    } else {
        Some(room_id)
    }
}

impl ChatRoom {
    /// A page with no socket, no messages, an empty input and no error.
    pub fn create(props: &Props) -> (page: ChatRoom)
        ensures
            page@ == spec_chat_initial(),
    {
        ChatRoom { connected: false, message_input: String::new(), messages: Vec::new(), error: None }
    }

    /// Apply an event.  Sending over an open socket hands the typed text back
    /// and clears the input; a received message is appended; the connection
    /// events set or clear the error.
    pub fn update(&mut self, msg: Msg) -> (effect: ChatUpdate)
        ensures
            final(self)@ == spec_chat_next(old(self)@, msg),
            effect@ == spec_chat_effect(old(self)@, msg),
    {
        match msg {
            Msg::SendMessage => {
                if self.connected {
                    let mut text = String::new();
                    std::mem::swap(&mut text, &mut self.message_input);
                    ChatUpdate { render: true, outgoing: Some(text) }
                } else {
                    ChatUpdate { render: true, outgoing: None }
                }
            },
            Msg::ReceiveMessage(message) => {
                self.messages.push(message);
                ChatUpdate { render: true, outgoing: None }
            },
            Msg::UpdateMessageInput(input) => {
                self.message_input = input;
                ChatUpdate { render: true, outgoing: None }
            },
            Msg::WebSocketConnected => {
                self.error = None;
                ChatUpdate { render: true, outgoing: None }
            },
            Msg::WebSocketDisconnected => {
                self.error = Some("Disconnected from the server.".to_owned());
                ChatUpdate { render: true, outgoing: None }
            },
            Msg::WebSocketError(error) => {
                self.error = Some(error);
                ChatUpdate { render: true, outgoing: None }
            },
        }
    }

    /// After the page was drawn: when no socket is open yet, return the room
    /// whose socket the caller must open, and record it as open.
    pub fn rendered(&mut self, props: &Props, first_render: bool) -> (open: Option<i64>)
        ensures
            final(self)@ == spec_chat_rendered(old(self)@),
            open == spec_chat_open(old(self)@, props.room_id),
    {
        if self.connected {
            None
        } else {
            self.connected = true;
            Some(props.room_id)
        }
    }

    /// Whether the socket to the room has been opened.
    pub fn has_connection(&self) -> (b: bool)
        ensures
            b == self@.connected,
    {
        self.connected
    }

    /// The text being typed.
    pub fn message_input(&self) -> (s: &String)
        ensures
            s@ == self@.message_input,
    {
        &self.message_input
    }

    /// The messages received so far, oldest first.
    pub fn messages(&self) -> (m: &Vec<String>)
        ensures
            m@ == self@.messages,
    {
        &self.messages
    }

    /// The error to show, if any.
    pub fn error(&self) -> (e: &Option<String>)
        ensures
            opt_text(*e) == self@.error,
    {
        &self.error
    }
}

/// Received messages are only ever appended: every event keeps the messages
/// already shown as a prefix, appends exactly the received one, and drawing
/// the page leaves them alone.
pub proof fn lemma_messages_append_only(s: ChatRoomModel, msg: Msg)
    ensures
        s.messages.is_prefix_of(spec_chat_next(s, msg).messages),
        s.messages.is_prefix_of(spec_chat_rendered(s).messages),
        msg matches Msg::ReceiveMessage(m) ==> spec_chat_next(s, msg).messages == s.messages.push(m),
        !(msg is ReceiveMessage) ==> spec_chat_next(s, msg).messages == s.messages,
{
}

/// The room's socket is opened at most once: after the first drawing asks
/// for it, no later drawing or event asks again.
pub proof fn lemma_socket_opened_once(s: ChatRoomModel, room_id: i64, msg: Msg)
    ensures
        spec_chat_open(spec_chat_rendered(s), room_id) is None,
        spec_chat_open(spec_chat_next(spec_chat_rendered(s), msg), room_id) is None,
        spec_chat_open(spec_chat_initial(), room_id) == Some(room_id),
{
}

/// What is sent is exactly what was typed, and sending clears the input;
/// nothing is sent before the socket was opened, and then the input stays.
pub proof fn lemma_send_sends_typed_text(s: ChatRoomModel, text: String)
    ensures
        ({
            let typed = spec_chat_next(s, Msg::UpdateMessageInput(text));
            &&& s.connected ==> spec_chat_effect(typed, Msg::SendMessage).outgoing == Some(text@)
            &&& s.connected ==> spec_chat_next(typed, Msg::SendMessage).message_input == Seq::<char>::empty()
            &&& !s.connected ==> spec_chat_effect(typed, Msg::SendMessage).outgoing is None
            &&& !s.connected ==> spec_chat_next(typed, Msg::SendMessage).message_input == text@
        }),
{
}


/// Every event asks for the page to be drawn again, and only sending over an
/// open socket hands text to the caller.
pub proof fn lemma_every_event_redraws(s: ChatRoomModel, msg: Msg)
    ensures
        spec_chat_effect(s, msg).render,
        spec_chat_effect(s, msg).outgoing is Some <==> (msg is SendMessage && s.connected),
{
}

/// Drawing the page changes nothing but the connection flag: the typed text,
/// the messages and the error stay, and drawing twice is drawing once.
pub proof fn lemma_drawing_only_marks_connected(s: ChatRoomModel, room_id: i64)
    ensures
        spec_chat_rendered(s).connected,
        spec_chat_rendered(s).message_input == s.message_input,
        spec_chat_rendered(s).messages == s.messages,
        spec_chat_rendered(s).error == s.error,
        spec_chat_rendered(spec_chat_rendered(s)) == spec_chat_rendered(s),
        s.connected ==> spec_chat_rendered(s) == s,
{
}

/// Typing, drawing, then sending sends exactly the typed text: a drawing in
/// between loses nothing.
pub proof fn lemma_type_draw_send(s: ChatRoomModel, text: String)
    ensures
        ({
            let drawn = spec_chat_rendered(spec_chat_next(s, Msg::UpdateMessageInput(text)));
            &&& drawn.message_input == text@
            &&& spec_chat_effect(drawn, Msg::SendMessage).outgoing == Some(text@)
            &&& spec_chat_next(drawn, Msg::SendMessage).message_input == Seq::<char>::empty()
        }),
{
}

/// What each event changes, and what it leaves alone.  No event opens or
/// closes the socket; typing changes only the typed text; a received message
/// changes only the messages; the connection events change only the error.
pub proof fn lemma_event_frames(s: ChatRoomModel, msg: Msg)
    ensures
        spec_chat_next(s, msg).connected == s.connected,
        msg matches Msg::UpdateMessageInput(t) ==> spec_chat_next(s, msg) == (ChatRoomModel {
            message_input: t@,
            ..s
        }),
        msg matches Msg::ReceiveMessage(m) ==> spec_chat_next(s, msg) == (ChatRoomModel {
            messages: s.messages.push(m),
            ..s
        }),
        msg is WebSocketConnected ==> spec_chat_next(s, msg) == (ChatRoomModel { error: None, ..s }),
        msg is WebSocketDisconnected ==> spec_chat_next(s, msg) == (ChatRoomModel {
            error: Some("Disconnected from the server."@),
            ..s
        }),
        msg matches Msg::WebSocketError(e) ==> spec_chat_next(s, msg) == (ChatRoomModel {
            error: Some(e@),
            ..s
        }),
        msg is SendMessage ==> spec_chat_next(s, msg).messages == s.messages
            && spec_chat_next(s, msg).error == s.error,
        msg is SendMessage && s.connected ==> spec_chat_next(s, msg).message_input == Seq::<char>::empty(),
        msg is SendMessage && !s.connected ==> spec_chat_next(s, msg) == s,
{
}


/// A new page has no socket, no messages, no typed text and no error; its
/// first drawing asks for the room's socket, and a drawing asks for it
/// exactly when none is open.  Sending over an open socket hands back exactly
/// the text being typed.
pub proof fn lemma_new_page_and_socket(s: ChatRoomModel, room_id: i64)
    ensures
        !spec_chat_initial().connected,
        spec_chat_initial().messages.len() == 0,
        spec_chat_initial().message_input.len() == 0,
        spec_chat_initial().error is None,
        (spec_chat_open(s, room_id) == Some(room_id)) <==> !s.connected,
        (spec_chat_open(s, room_id) is None) <==> s.connected,
        s.connected ==> spec_chat_effect(s, Msg::SendMessage).outgoing == Some(s.message_input),
{
}

} // verus!
