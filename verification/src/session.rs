//! One live connection: its lifecycle, what it does with an inbound frame,
//! and whom a message goes to.
//!
//! A session decides; it performs nothing. Each decision names what the
//! server is to do next: the peers to send a frame to and the message to hand
//! to the store, as two independent pieces of work of which neither waits for
//! the other.

use vstd::prelude::*;
use crate::errors::ServiceError;
use crate::errors::BAD_REQUEST;
use crate::ident::parse_uuid_or;
use crate::ident::uuid_parse_result;
use crate::models::CreateMessageDTO;
use crate::registry::departed;
use crate::registry::joined;
use crate::registry::lemma_departed_membership;
use crate::registry::RoomRegistry;
use crate::wire::envelope;
use crate::wire::envelope_text;
use crate::wire::json_document;
use crate::wire::read_frame;
use crate::wire::reading_of;
use crate::wire::Inbound;
use crate::wire::Reading;

verus! {

/// Where a session is in its life.
#[derive(Clone, Copy, Debug)]
pub enum SessionState {
    /// Accepted, not yet registered.
    Connecting,
    /// Registered: frames are processed and delivered.
    Active,
    /// The connection is going down: nothing is processed or delivered.
    Closing,
    /// Deregistered.
    Closed,
}

impl SessionState {
    /// How far a session has come: a session only ever moves on.
    pub open spec fn rank(&self) -> nat {
        match self {
            SessionState::Connecting => 0,
            SessionState::Active => 1,
            SessionState::Closing => 2,
            SessionState::Closed => 3,
        }
    }
}

/// What the transport hands to a session.
#[derive(Debug)]
pub enum Frame {
    /// A text frame with its payload.
    Text(String),
    /// The peer asks to close.
    Close,
    /// The transport failed.
    Error,
    /// Any other frame.
    Other,
}

/// The work that an accepted message asks for: one frame for the peers and
/// one message for the store.
#[derive(Debug)]
pub struct Publication {
    /// The sessions to send `frame` to.
    pub recipients: Vec<u64>,
    /// The frame to send.
    pub frame: String,
    /// The message to store.
    pub store: CreateMessageDTO,
}

/// What the server is to do after a frame.
#[derive(Debug)]
pub enum Reaction {
    /// Nothing.
    Nothing,
    /// Nothing but a note in the log: the payload was no frame.
    Dropped,
    /// Send and store a message.
    Publish(Publication),
    /// Close the connection and stop the session.
    Close,
}

/// One connection, bound to a chat and a user.
#[derive(Debug)]
pub struct ChatSession {
    pub chat_uid: u128,
    pub user_uid: u128,
    /// The name under which the registry knows this connection.
    pub session_id: u64,
    pub state: SessionState,
}

/// The outcome of the handshake, given what the parser made of the two path
/// parameters: the chat is read first, then the user.
pub open spec fn handshake(
    chat: Result<u128, Seq<char>>,
    user: Result<u128, Seq<char>>,
    session_id: u64,
    r: Result<ChatSession, ServiceError>,
) -> bool {
    match (chat, user) {
        (Err(_), _) => r is Err && r->Err_0.is("Invalid chat UUID"@, BAD_REQUEST),
        (Ok(_), Err(_)) => r is Err && r->Err_0.is("Invalid user UUID"@, BAD_REQUEST),
        (Ok(chat_uid), Ok(user_uid)) => r is Ok && r->Ok_0.chat_uid == chat_uid
            && r->Ok_0.user_uid == user_uid && r->Ok_0.session_id == session_id
            && r->Ok_0.state is Connecting,
    }
}

/// The handshake of the realtime endpoint: both path parameters must be
/// identifiers, or no session is created.
pub fn chat_ws(chat_uid: &str, user_uid: &str, session_id: u64) -> (r: Result<
    ChatSession,
    ServiceError,
>)
    ensures
        handshake(uuid_parse_result(chat_uid@), uuid_parse_result(user_uid@), session_id, r),
{
    let chat = match parse_uuid_or(chat_uid, "Invalid chat UUID") {
        Ok(chat) => chat,
        Err(e) => {
            return Err(e);
        },
    };
    let user = match parse_uuid_or(user_uid, "Invalid user UUID") {
        Ok(user) => user,
        Err(e) => {
            return Err(e);
        },
    };
    Ok(ChatSession::new(chat, user, session_id))
}

impl ChatSession {
    /// A session that has not been registered yet.
    pub fn new(chat_uid: u128, user_uid: u128, session_id: u64) -> (session: Self)
        ensures
            session.chat_uid == chat_uid,
            session.user_uid == user_uid,
            session.session_id == session_id,
            session.state is Connecting,
    {
        ChatSession { chat_uid, user_uid, session_id, state: SessionState::Connecting }
    }

    /// The same connection in another state.
    pub open spec fn in_state(&self, state: SessionState) -> ChatSession {
        ChatSession {
            chat_uid: self.chat_uid,
            user_uid: self.user_uid,
            session_id: self.session_id,
            state,
        }
    }

    /// Whether `publication` is the work that a message with `content` from
    /// this session asks for: the frame goes to every session attached to the
    /// chat but this one, and the store gets the chat, the author and the
    /// content.
    pub open spec fn publishes(
        &self,
        registry: &RoomRegistry,
        content: Seq<char>,
        publication: &Publication,
    ) -> bool {
        &&& publication.recipients@.no_duplicates()
        &&& publication.recipients@.to_set() == registry.sessions(self.chat_uid).remove(
            self.session_id,
        )
        &&& publication.frame@ == envelope_text(self.chat_uid, self.user_uid, content)
        &&& publication.store.chat_uid == self.chat_uid
        &&& publication.store.user_uid == self.user_uid
        &&& publication.store.content@ == content
    }

    /// Whether `reaction` answers a text frame that reads as `reading`.
    pub open spec fn answers(
        &self,
        registry: &RoomRegistry,
        reading: Reading,
        reaction: &Reaction,
    ) -> bool {
        match reading {
            Reading::Malformed => reaction is Dropped,
            Reading::Ignored => reaction is Nothing,
            Reading::Message(content) => reaction is Publish && self.publishes(
                registry,
                content,
                &reaction->Publish_0,
            ),
        }
    }

    /// Registers a connecting session and makes it active. A session in any
    /// other state is left as it is, and so is the registry.
    pub fn started(&mut self, registry: &mut RoomRegistry)
        ensures
            old(self).state is Connecting ==> *final(self) == old(self).in_state(
                SessionState::Active,
            ) && final(registry)@ == joined(old(registry)@, old(self).chat_uid, old(self).session_id),
            old(self).state is Connecting ==> final(registry).sessions(old(self).chat_uid).contains(
                old(self).session_id,
            ),
            !(old(self).state is Connecting) ==> *final(self) == *old(self) && final(registry)@
                == old(registry)@,
            old(self).state.rank() <= final(self).state.rank(),
    {
        match self.state {
            SessionState::Connecting => {
                registry.join(self.chat_uid, self.session_id);
                self.state = SessionState::Active;
            },
            _ => {},
        }
    }

    /// Deregisters the session and closes it, whatever its state was.
    pub fn stopping(&mut self, registry: &mut RoomRegistry)
        ensures
            *final(self) == old(self).in_state(SessionState::Closed),
            final(registry)@ == departed(old(registry)@, old(self).chat_uid, old(self).session_id),
            !final(registry).sessions(old(self).chat_uid).contains(old(self).session_id),
            old(self).state.rank() <= final(self).state.rank(),
    {
        registry.leave(self.chat_uid, self.session_id);
        self.state = SessionState::Closed;
        proof {
            lemma_departed_membership(
                old(registry)@,
                self.chat_uid,
                self.session_id,
                self.chat_uid,
                self.session_id,
            );
        }
    }

    /// The message that the store is handed for `content`.
    pub fn save_to_message(&self, content: &str) -> (message: CreateMessageDTO)
        ensures
            message.chat_uid == self.chat_uid,
            message.user_uid == self.user_uid,
            message.content@ == content@,
    {
        CreateMessageDTO {
            chat_uid: self.chat_uid,
            user_uid: self.user_uid,
            content: content.to_owned(),
        }
    }

    /// The work that a message with `content` asks for.
    pub fn broadcast_message(&self, registry: &RoomRegistry, content: &str) -> (publication:
        Publication)
        ensures
            self.publishes(registry, content@, &publication),
    {
        Publication {
            recipients: registry.peers(self.chat_uid, self.session_id),
            frame: envelope(self.chat_uid, self.user_uid, content),
            store: self.save_to_message(content),
        }
    }

    /// Decides what a text frame asks for, given what it reads as.
    pub fn respond(&self, registry: &RoomRegistry, inbound: Inbound) -> (reaction: Reaction)
        ensures
            self.answers(registry, inbound@, &reaction),
    {
        match inbound {
            Inbound::Malformed => Reaction::Dropped,
            Inbound::Ignored => Reaction::Nothing,
            Inbound::Message(content) => Reaction::Publish(
                self.broadcast_message(registry, content.as_str()),
            ),
        }
    }

    /// Reads a text frame and decides what it asks for.
    pub fn process_ws_message(&self, registry: &RoomRegistry, text: &str) -> (reaction: Reaction)
        ensures
            self.answers(registry, reading_of(json_document(text@)), &reaction),
    {
        self.respond(registry, read_frame(text))
    }

    /// Takes a frame from the transport. Only an active session processes
    /// frames: a text frame is read, a close frame or a transport error
    /// starts the closing, anything else asks for nothing.
    pub fn handle(&mut self, registry: &RoomRegistry, frame: &Frame) -> (reaction: Reaction)
        ensures
            match (old(self).state, *frame) {
                (SessionState::Active, Frame::Text(text)) => *final(self) == *old(self)
                    && old(self).answers(registry, reading_of(json_document(text@)), &reaction),
                (SessionState::Active, Frame::Close) | (SessionState::Active, Frame::Error) => {
                    *final(self) == old(self).in_state(SessionState::Closing) && reaction is Close
                },
                _ => *final(self) == *old(self) && reaction is Nothing,
            },
            old(self).state.rank() <= final(self).state.rank(),
    {
        match self.state {
            SessionState::Active => match frame {
                Frame::Text(text) => self.process_ws_message(registry, text.as_str()),
                Frame::Close => {
                    self.state = SessionState::Closing;
                    Reaction::Close
                },
                Frame::Error => {
                    self.state = SessionState::Closing;
                    Reaction::Close
                },
                Frame::Other => Reaction::Nothing,
            },
            _ => Reaction::Nothing,
        }
    }

    /// Takes a frame that a peer published. Only an active session passes it
    /// on to its connection.
    pub fn deliver(&self, frame: String) -> (outbound: Option<String>)
        ensures
            outbound == (if self.state is Active {
                Some(frame)
            } else {
                None
            }),
    {
        match self.state {
            SessionState::Active => Some(frame),
            _ => None,
        }
    }
}

/// A published frame goes to a session exactly if that session is attached to
/// the author's chat and is not the author's own: to every peer, never back
/// to the author, and never to a session that is attached to other chats
/// only.
pub proof fn lemma_published_to_peers_only(
    session: ChatSession,
    registry: RoomRegistry,
    content: Seq<char>,
    publication: Publication,
    other: u64,
)
    requires
        session.publishes(&registry, content, &publication),
    ensures
        publication.recipients@.contains(other) <==> (registry.sessions(session.chat_uid).contains(
            other,
        ) && other != session.session_id),
{
    assert(publication.recipients@.contains(other) <==> publication.recipients@.to_set().contains(
        other,
    ));
}

} // verus!
