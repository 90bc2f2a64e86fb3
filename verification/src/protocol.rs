//! The messages that pass over the Syphon ports.
//!
//! A client talks to the server in four requests, and the server talks to a client in
//! three messages. Each has a number of its own in its direction.

use vstd::prelude::*;

verus! {

/// A client asks to be told about surfaces.
pub const SYPHON_MSG_ADD_CLIENT_FOR_INFO: i32 = 0;

/// A client asks to be told about frames.
pub const SYPHON_MSG_ADD_CLIENT_FOR_FRAMES: i32 = 1;

/// A client no longer wants to hear about surfaces.
pub const SYPHON_MSG_REMOVE_CLIENT_FOR_INFO: i32 = 2;

/// A client no longer wants to hear about frames.
pub const SYPHON_MSG_REMOVE_CLIENT_FOR_FRAMES: i32 = 3;

/// The server has a new frame on its surface.
pub const SYPHON_MSG_NEW_FRAME: i32 = 1;

/// The server has moved to another surface.
pub const SYPHON_MSG_UPDATE_SURFACE_ID: i32 = 2;

/// The server is going away.
pub const SYPHON_MSG_RETIRE_SERVER: i32 = 3;

/// CoreFoundation's `kCFMessagePortSuccess`.
pub const PORT_SUCCESS: i32 = 0;

/// CoreFoundation's `kCFMessagePortIsInvalid`: nobody listens at the other end any more.
pub const PORT_IS_INVALID: i32 = -3;

/// The code of a message whose payload could not be prepared.
pub const NOT_PREPARED: i32 = -1;

/// The two things a client can subscribe to.
#[derive(Clone, Copy, Debug, PartialEq, Eq, Structural)]
pub enum Channel {
    /// Which surface the server draws on.
    Info,
    /// That there is a new frame on it.
    Frames,
}

/// What a client asks of the server.
#[derive(Clone, Copy, Debug, PartialEq, Eq, Structural)]
pub enum ClientRequest {
    /// Subscribe to a channel.
    Add(Channel),
    /// Leave a channel.
    Remove(Channel),
}

/// The number under which a request travels.
pub open spec fn request_number(request: ClientRequest) -> i32 {
    match request {
        ClientRequest::Add(Channel::Info) => SYPHON_MSG_ADD_CLIENT_FOR_INFO,
        ClientRequest::Add(Channel::Frames) => SYPHON_MSG_ADD_CLIENT_FOR_FRAMES,
        ClientRequest::Remove(Channel::Info) => SYPHON_MSG_REMOVE_CLIENT_FOR_INFO,
        ClientRequest::Remove(Channel::Frames) => SYPHON_MSG_REMOVE_CLIENT_FOR_FRAMES,
    }
}

/// The request that travels under `msgid`, if one does.
pub open spec fn request_of(msgid: i32) -> Option<ClientRequest> {
    if msgid == SYPHON_MSG_ADD_CLIENT_FOR_INFO {
        Some(ClientRequest::Add(Channel::Info))
    } else if msgid == SYPHON_MSG_ADD_CLIENT_FOR_FRAMES {
        Some(ClientRequest::Add(Channel::Frames))
    } else if msgid == SYPHON_MSG_REMOVE_CLIENT_FOR_INFO {
        Some(ClientRequest::Remove(Channel::Info))
    } else if msgid == SYPHON_MSG_REMOVE_CLIENT_FOR_FRAMES {
        Some(ClientRequest::Remove(Channel::Frames))
    } else {
        None
    }
}

/// A request and its number tell each other: no two requests share a number, and a number
/// that is nobody's is no request.
pub proof fn law_request_numbers(msgid: i32, request: ClientRequest)
    ensures
        request_of(msgid) == Some(request) <==> request_number(request) == msgid,
        request_of(msgid) is Some <==> 0 <= msgid <= 3,
        request_of(0) == Some(ClientRequest::Add(Channel::Info)),
        request_of(1) == Some(ClientRequest::Add(Channel::Frames)),
        request_of(2) == Some(ClientRequest::Remove(Channel::Info)),
        request_of(3) == Some(ClientRequest::Remove(Channel::Frames)),
{
}

/// Reads the number of a message that came in over the server's port.
pub fn client_request(msgid: i32) -> (request: Option<ClientRequest>)
    ensures
        request == request_of(msgid),
        msgid == 0 <==> request == Some(ClientRequest::Add(Channel::Info)),
        msgid == 1 <==> request == Some(ClientRequest::Add(Channel::Frames)),
        msgid == 2 <==> request == Some(ClientRequest::Remove(Channel::Info)),
        msgid == 3 <==> request == Some(ClientRequest::Remove(Channel::Frames)),
{
    match msgid {
        SYPHON_MSG_ADD_CLIENT_FOR_INFO => Some(ClientRequest::Add(Channel::Info)),
        SYPHON_MSG_ADD_CLIENT_FOR_FRAMES => Some(ClientRequest::Add(Channel::Frames)),
        SYPHON_MSG_REMOVE_CLIENT_FOR_INFO => Some(ClientRequest::Remove(Channel::Info)),
        SYPHON_MSG_REMOVE_CLIENT_FOR_FRAMES => Some(ClientRequest::Remove(Channel::Frames)),
        _ => None,
    }
}

/// What the server tells a client.
#[derive(Clone, Copy, Debug, PartialEq, Eq, Structural)]
pub enum ClientMessage {
    /// There is a new frame on the surface.
    NewFrame,
    /// The surface is now the one with this id.
    UpdateSurfaceId(u32),
    /// The server is going away.
    RetireServer,
}

impl ClientMessage {
    /// The number under which the message travels.
    pub open spec fn number(self) -> i32 {
        match self {
            ClientMessage::NewFrame => SYPHON_MSG_NEW_FRAME,
            ClientMessage::UpdateSurfaceId(_) => SYPHON_MSG_UPDATE_SURFACE_ID,
            ClientMessage::RetireServer => SYPHON_MSG_RETIRE_SERVER,
        }
    }

    /// The number that travels with the message, if one does.
    pub open spec fn content(self) -> Option<u32> {
        match self {
            ClientMessage::UpdateSurfaceId(surface_id) => Some(surface_id),
            _ => None,
        }
    }

    /// The number under which the message travels.
    pub fn msgid(&self) -> (msgid: i32)
        ensures
            msgid == self.number(),
            self is NewFrame <==> msgid == 1,
            self is UpdateSurfaceId <==> msgid == 2,
            self is RetireServer <==> msgid == 3,
    {
        match self {
            ClientMessage::NewFrame => SYPHON_MSG_NEW_FRAME,
            ClientMessage::UpdateSurfaceId(_) => SYPHON_MSG_UPDATE_SURFACE_ID,
            ClientMessage::RetireServer => SYPHON_MSG_RETIRE_SERVER,
        }
    }

    /// The number to archive and send along, or `None` for a message without payload.
    pub fn payload(&self) -> (payload: Option<u32>)
        ensures
            payload == self.content(),
            forall|surface_id: u32|
                *self == ClientMessage::UpdateSurfaceId(surface_id) <==> payload == Some(surface_id),
    {
        match self {
            ClientMessage::UpdateSurfaceId(surface_id) => Some(*surface_id),
            _ => None,
        }
    }
}

/// A client that is told of a surface is told its very id, and no other message carries a
/// number.
pub proof fn law_surface_id_travels_unchanged(message: ClientMessage, surface_id: u32)
    ensures
        ClientMessage::UpdateSurfaceId(surface_id).content() == Some(surface_id),
        message.content() == Some(surface_id) ==> message == ClientMessage::UpdateSurfaceId(
            surface_id,
        ),
        message is NewFrame ==> message.number() == 1,
        message is UpdateSurfaceId ==> message.number() == 2,
        message is RetireServer ==> message.number() == 3,
{
}

/// What the port answered is what counts, whatever it was; and only a message that the port
/// took with success is delivered.
pub proof fn law_answer_of_the_port_counts(outcome: SendOutcome, answer: i32)
    ensures
        SendOutcome::Sent(answer).result() == answer,
        outcome.result() == 0 ==> outcome == SendOutcome::Sent(0),
        outcome.result() == -3 ==> outcome == SendOutcome::Sent(-3i32),
{
}

/// A client can tell every message from every other by its number and its payload.
pub proof fn law_messages_are_told_apart(a: ClientMessage, b: ClientMessage)
    requires
        a.number() == b.number(),
        a.content() == b.content(),
    ensures
        a == b,
{
}

/// How far a message got.
#[derive(Clone, Copy, Debug, PartialEq, Eq, Structural)]
pub enum SendOutcome {
    /// The payload could not be archived, so nothing was sent.
    NotArchived,
    /// The archive could not be copied into a buffer, so nothing was sent.
    NotCopied,
    /// The port took the message and answered with this code.
    Sent(i32),
}

impl SendOutcome {
    /// The code that stands for the outcome: the port's own where it was asked.
    pub open spec fn result(self) -> i32 {
        match self {
            SendOutcome::Sent(code) => code,
            _ => NOT_PREPARED,
        }
    }

    /// The code that stands for the outcome.
    pub fn code(&self) -> (code: i32)
        ensures
            code == self.result(),
            forall|answer: i32| *self == SendOutcome::Sent(answer) ==> code == answer,
            !(self is Sent) ==> code == -1,
    {
        match self {
            SendOutcome::NotArchived => NOT_PREPARED,
            SendOutcome::NotCopied => NOT_PREPARED,
            SendOutcome::Sent(code) => *code,
        }
    }

    /// Whether the message reached the other end.
    pub fn delivered(&self) -> (delivered: bool)
        ensures
            delivered <==> self.result() == PORT_SUCCESS,
            delivered <==> *self == SendOutcome::Sent(0),
    {
        self.code() == PORT_SUCCESS
    }
}

/// A payload that could not be prepared says nothing about the client: it is neither
/// delivered nor taken for a sign that the client is gone.
pub proof fn law_unprepared_message_blames_nobody(outcome: SendOutcome)
    requires
        !(outcome is Sent),
    ensures
        outcome.result() != PORT_SUCCESS,
        outcome.result() != PORT_IS_INVALID,
{
}

} // verus!
