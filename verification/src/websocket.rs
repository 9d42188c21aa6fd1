use crate::models::poll::{Poll, PollEvent, PollEventView, PollView};
use crate::store::{found, replaced, vote_reply, PollStore};
use vstd::prelude::*;

verus! {

/// What travels over a socket: a client asks for a poll's updates or casts a vote, and
/// the server pushes a poll as it stands.
#[derive(Debug, PartialEq, Eq)]
pub enum WsMessage {
    Subscribe { poll_id: String },
    Vote { poll_id: String, option_id: String },
    PollUpdate { poll: Poll },
}

/// Mathematical value of a [`WsMessage`].
pub enum WsMessageView {
    Subscribe { poll_id: Seq<char> },
    Vote { poll_id: Seq<char>, option_id: Seq<char> },
    PollUpdate { poll: PollView },
}

impl View for WsMessage {
    type V = WsMessageView;

    open spec fn view(&self) -> WsMessageView {
        match self {
            WsMessage::Subscribe { poll_id } => WsMessageView::Subscribe { poll_id: poll_id@ },
            WsMessage::Vote { poll_id, option_id } => WsMessageView::Vote {
                poll_id: poll_id@,
                option_id: option_id@,
            },
            WsMessage::PollUpdate { poll } => WsMessageView::PollUpdate { poll: poll@ },
        }
    }
}

/// What is to be done after a step of a connection.
#[derive(Debug, PartialEq, Eq)]
pub enum SocketAction {
    /// Send this message to the connection's own socket.
    Send(WsMessage),
    /// Publish this event to every subscriber.
    Publish(PollEvent),
    /// Nothing to do.
    Nothing,
    /// Stop both directions of the connection and release its subscription.
    Close,
}

/// Mathematical value of a [`SocketAction`].
pub enum SocketActionView {
    Send(WsMessageView),
    Publish(PollEventView),
    Nothing,
    Close,
}

impl View for SocketAction {
    type V = SocketActionView;

    open spec fn view(&self) -> SocketActionView {
        match self {
            SocketAction::Send(message) => SocketActionView::Send(message@),
            SocketAction::Publish(event) => SocketActionView::Publish(event@),
            SocketAction::Nothing => SocketActionView::Nothing,
            SocketAction::Close => SocketActionView::Close,
        }
    }
}

/// What happened on a connection.
#[derive(Debug)]
pub enum SocketEvent {
    /// The client sent this message.
    Received(WsMessage),
    /// The client sent something that is no message.
    Unreadable,
    /// The hub delivered this event.
    Published(PollEvent),
    /// The connection fell behind and the hub dropped the oldest events meant for it.
    Missed,
    /// A message could not be sent to the client.
    SendFailed,
    /// The client or the hub is gone.
    Disconnected,
}

/// Mathematical value of a [`SocketEvent`].
pub enum SocketEventView {
    Received(WsMessageView),
    Unreadable,
    Published(PollEventView),
    Missed,
    SendFailed,
    Disconnected,
}

impl View for SocketEvent {
    type V = SocketEventView;

    open spec fn view(&self) -> SocketEventView {
        match self {
            SocketEvent::Received(message) => SocketEventView::Received(message@),
            SocketEvent::Unreadable => SocketEventView::Unreadable,
            SocketEvent::Published(event) => SocketEventView::Published(event@),
            SocketEvent::Missed => SocketEventView::Missed,
            SocketEvent::SendFailed => SocketEventView::SendFailed,
            SocketEvent::Disconnected => SocketEventView::Disconnected,
        }
    }
}

/// What a client's message leads to: a request for updates is answered with the poll as
/// it stands, if there is one; a vote that counts is published; everything else,
/// a failed vote included, leads to nothing.
pub open spec fn message_action(polls: Seq<PollView>, message: WsMessageView) -> SocketActionView {
    match message {
        WsMessageView::Subscribe { poll_id } => match found(polls, poll_id) {
            Ok(poll) => SocketActionView::Send(WsMessageView::PollUpdate { poll }),
            Err(_) => SocketActionView::Nothing,
        },
        WsMessageView::Vote { poll_id, option_id } => match vote_reply(polls, poll_id, option_id) {
            Ok(poll) => SocketActionView::Publish(PollEventView { poll_id, poll }),
            Err(_) => SocketActionView::Nothing,
        },
        WsMessageView::PollUpdate { poll } => SocketActionView::Nothing,
    }
}

/// The registry after a client's message: a vote that counts is in it, and nothing else
/// has moved.
pub open spec fn after_message(polls: Seq<PollView>, message: WsMessageView) -> Seq<PollView> {
    match message {
        WsMessageView::Vote { poll_id, option_id } => replaced(
            polls,
            poll_id,
            vote_reply(polls, poll_id, option_id),
        ),
        _ => polls,
    }
}

/// What an event of the hub leads to on a connection that follows the poll `poll_id`:
/// the poll is pushed where the event is about that poll, and nothing happens where it
/// is about another.
pub open spec fn update_action(poll_id: Seq<char>, event: PollEventView) -> SocketActionView {
    if event.poll_id == poll_id {
        SocketActionView::Send(WsMessageView::PollUpdate { poll: event.poll })
    } else {
        SocketActionView::Nothing
    }
}

/// Acts on one message of a client.
pub fn handle_ws_message(message: WsMessage, store: &mut PollStore) -> (action: SocketAction)
    ensures
        action@ == message_action(old(store)@, message@),
        final(store)@ == after_message(old(store)@, message@),
{
    match message {
        WsMessage::Subscribe { poll_id } => match store.get(poll_id.as_str()) {
            Ok(poll) => SocketAction::Send(WsMessage::PollUpdate { poll }),
            Err(_) => SocketAction::Nothing,
        },
        WsMessage::Vote { poll_id, option_id } => match store.vote(
            poll_id.as_str(),
            option_id.as_str(),
        ) {
            Ok(poll) => SocketAction::Publish(PollEvent { poll_id, poll }),
            Err(_) => SocketAction::Nothing,
        },
        WsMessage::PollUpdate { poll } => SocketAction::Nothing,
    }
}

/// Decides what a connection that follows the poll `poll_id` does with an event of the
/// hub.
pub fn handle_socket(poll_id: &str, event: PollEvent) -> (action: SocketAction)
    ensures
        action@ == update_action(poll_id@, event@),
{
    let followed = poll_id.to_owned();
    if event.poll_id == followed {
        SocketAction::Send(WsMessage::PollUpdate { poll: event.poll })
    } else {
        SocketAction::Nothing
    }
}

/// One connection: the poll whose updates it follows, or none where it follows them
/// all, and whether it is still open.
pub struct ConnectionSession {
    pub poll_id: Option<String>,
    pub open: bool,
}

/// Mathematical value of a [`ConnectionSession`].
pub struct ConnectionView {
    pub poll_id: Option<Seq<char>>,
    pub open: bool,
}

impl View for ConnectionSession {
    type V = ConnectionView;

    open spec fn view(&self) -> ConnectionView {
        ConnectionView {
            poll_id: match self.poll_id {
                Some(id) => Some(id@),
                None => None,
            },
            open: self.open,
        }
    }
}

/// What an event of the hub leads to on a connection: one that follows a poll acts as
/// [`update_action`] says, one that follows them all pushes every poll.
pub open spec fn followed_action(poll_id: Option<Seq<char>>, event: PollEventView)
    -> SocketActionView {
    match poll_id {
        Some(id) => update_action(id, event),
        None => SocketActionView::Send(WsMessageView::PollUpdate { poll: event.poll }),
    }
}

/// What a connection does about an event. A closed connection does nothing but close.
/// An open one closes when a send fails or the other side is gone, passes the hub's
/// events about its poll to the client, acts on the client's messages, and goes on
/// after what it cannot read and after events that it missed.
pub open spec fn connection_action(
    connection: ConnectionView,
    polls: Seq<PollView>,
    event: SocketEventView,
) -> SocketActionView {
    if !connection.open {
        SocketActionView::Close
    } else {
        match event {
            SocketEventView::Received(message) => message_action(polls, message),
            SocketEventView::Unreadable => SocketActionView::Nothing,
            SocketEventView::Missed => SocketActionView::Nothing,
            SocketEventView::Published(update) => followed_action(connection.poll_id, update),
            SocketEventView::SendFailed => SocketActionView::Close,
            SocketEventView::Disconnected => SocketActionView::Close,
        }
    }
}

/// The connection after an event: closed for good once a send has failed or the other
/// side is gone.
pub open spec fn connection_after(connection: ConnectionView, event: SocketEventView)
    -> ConnectionView {
    match event {
        SocketEventView::SendFailed | SocketEventView::Disconnected => ConnectionView {
            open: false,
            ..connection
        },
        _ => connection,
    }
}

/// The registry after an event on a connection: only a client's message on an open
/// connection can move it.
pub open spec fn registry_after(
    connection: ConnectionView,
    polls: Seq<PollView>,
    event: SocketEventView,
) -> Seq<PollView> {
    match event {
        SocketEventView::Received(message) if connection.open => after_message(polls, message),
        _ => polls,
    }
}

impl ConnectionSession {
    /// A new, open connection that follows the poll `poll_id`.
    pub fn new(poll_id: String) -> (connection: ConnectionSession)
        ensures
            connection@ == (ConnectionView { poll_id: Some(poll_id@), open: true }),
    {
        ConnectionSession { poll_id: Some(poll_id), open: true }
    }

    /// A new, open connection that follows every poll.
    pub fn following_all() -> (connection: ConnectionSession)
        ensures
            connection@ == (ConnectionView { poll_id: None, open: true }),
    {
        ConnectionSession { poll_id: None, open: true }
    }
}

/// One step of a connection: takes what happened and says what is to be done.
pub fn handle_connection(
    connection: &mut ConnectionSession,
    store: &mut PollStore,
    event: SocketEvent,
) -> (action: SocketAction)
    ensures
        action@ == connection_action(old(connection)@, old(store)@, event@),
        final(connection)@ == connection_after(old(connection)@, event@),
        final(store)@ == registry_after(old(connection)@, old(store)@, event@),
{
    match event {
        SocketEvent::SendFailed | SocketEvent::Disconnected => {
            connection.open = false;
            SocketAction::Close
        },
        SocketEvent::Received(message) => {
            if connection.open {
                handle_ws_message(message, store)
            } else {
                SocketAction::Close
            }
        },
        SocketEvent::Published(update) => {
            if !connection.open {
                SocketAction::Close
            } else {
                match &connection.poll_id {
                    Some(id) => handle_socket(id.as_str(), update),
                    None => SocketAction::Send(WsMessage::PollUpdate { poll: update.poll }),
                }
            }
        },
        SocketEvent::Unreadable | SocketEvent::Missed => {
            if connection.open {
                SocketAction::Nothing
            } else {
                SocketAction::Close
            }
        },
    }
}

} // verus!
