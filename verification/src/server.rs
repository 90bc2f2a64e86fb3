//! The Syphon server: what it knows of its clients, and what it tells them.
//!
//! The server never touches a port. Where a message is to be sent or a port opened, a
//! method says so in what it returns, and where the outcome matters, another method
//! takes it back.

use vstd::prelude::*;
use std::sync::Arc;
use crate::announce;
use crate::announce::{broadcast_notification, Notification, SERVER_ANNOUNCE, SERVER_RETIRE};
use crate::clients;
use crate::clients::{dead_clients, ClientTable, Outgoing};
use crate::protocol;
use crate::protocol::{client_request, Channel, ClientMessage, ClientRequest};

verus! {

/// What a server's identifier starts with.
pub const UUID_PREFIX: &'static str = "info.v002.Syphon.";

/// What a [`SyphonServer`] holds.
#[verifier::ext_equal]
#[verifier::reject_recursive_types(P)]
pub struct ServerModel<P> {
    /// The identifier, which is the name of the server's port too.
    pub uuid: Seq<char>,
    /// The name that people see.
    pub name: Seq<char>,
    /// The surface the server draws on, or 0 before there is one.
    pub surface_id: u32,
    /// Who is told about surfaces, and through which port.
    pub info: Map<Seq<char>, Arc<P>>,
    /// Who is told about frames, and through which port.
    pub frames: Map<Seq<char>, Arc<P>>,
}

impl<P> ServerModel<P> {
    /// The clients of a channel.
    pub open spec fn clients(self, channel: Channel) -> Map<Seq<char>, Arc<P>> {
        match channel {
            Channel::Info => self.info,
            Channel::Frames => self.frames,
        }
    }

    /// The server with other clients on a channel.
    pub open spec fn with_clients(
        self,
        channel: Channel,
        clients: Map<Seq<char>, Arc<P>>,
    ) -> ServerModel<P> {
        match channel {
            Channel::Info => ServerModel { info: clients, ..self },
            Channel::Frames => ServerModel { frames: clients, ..self },
        }
    }

    /// The server once a client has joined a channel.
    pub open spec fn join(
        self,
        channel: Channel,
        client: Seq<char>,
        port: Arc<P>,
    ) -> ServerModel<P> {
        self.with_clients(channel, self.clients(channel).insert(client, port))
    }

    /// The server once a client has left a channel.
    pub open spec fn leave(self, channel: Channel, client: Seq<char>) -> ServerModel<P> {
        self.with_clients(channel, self.clients(channel).remove(client))
    }

    /// What a client is told when it joins a channel: how things stand, once there is a
    /// surface.
    pub open spec fn greeting(self, channel: Channel) -> Option<ClientMessage> {
        if self.surface_id == 0 {
            None
        } else {
            match channel {
                Channel::Info => Some(ClientMessage::UpdateSurfaceId(self.surface_id)),
                Channel::Frames => Some(ClientMessage::NewFrame),
            }
        }
    }

    /// Whether clients must be told that the surface is now `surface_id`.
    pub open spec fn moves_to(self, surface_id: u32) -> bool {
        self.surface_id != surface_id && surface_id != 0
    }

    /// Everyone the server knows. A client of both channels is known by its port for info.
    pub open spec fn everyone(self) -> Map<Seq<char>, Arc<P>> {
        self.frames.union_prefer_right(self.info)
    }

    /// How many clients the server has: as many as its busier channel.
    pub open spec fn count(self) -> nat {
        if self.frames.dom().len() >= self.info.dom().len() {
            self.frames.dom().len()
        } else {
            self.info.dom().len()
        }
    }

    /// The server after it has stopped.
    pub open spec fn stopped(self) -> ServerModel<P> {
        ServerModel { info: Map::empty(), frames: Map::empty(), ..self }
    }
}

/// What is left to do about a message that came in.
pub enum CallbackStep<P> {
    /// Nothing.
    Done,
    /// Open the port that is named after the client, and hand the outcome to
    /// [`SyphonServer::connected`].
    Connect {
        /// The channel the client wants to join.
        channel: Channel,
        /// The client.
        client: String,
    },
    /// Send this to the client that has just joined.
    Send(Outgoing<P>),
}

/// `step` greets `client`, which has just joined `channel` of `server` with `port`: it
/// sends the greeting if there is one, and is done otherwise.
pub open spec fn greets<P>(
    step: CallbackStep<P>,
    server: ServerModel<P>,
    channel: Channel,
    client: Seq<char>,
    port: Arc<P>,
) -> bool {
    match server.greeting(channel) {
        None => step is Done,
        Some(message) => {
            &&& step matches CallbackStep::Send(outgoing)
            &&& outgoing.client@ == client
            &&& outgoing.port == port
            &&& outgoing.message == message
        },
    }
}

/// What a [`Publication`] holds.
#[verifier::ext_equal]
#[verifier::reject_recursive_types(P)]
pub struct PublicationModel<P> {
    /// To the clients for info, that the server has moved to another surface.
    pub surface_updates: Seq<Outgoing<P>>,
    /// To the clients for frames, that there is a new frame.
    pub new_frames: Seq<Outgoing<P>>,
}

/// The messages by which a surface is published.
pub struct Publication<P> {
    messages: Vec<Outgoing<P>>,
    surface_updates: usize,
}

impl<P> View for Publication<P> {
    type V = PublicationModel<P>;

    closed spec fn view(&self) -> PublicationModel<P> {
        PublicationModel {
            surface_updates: self.messages@.take(self.surface_updates as int),
            new_frames: self.messages@.skip(self.surface_updates as int),
        }
    }
}

impl<P> Publication<P> {
    #[verifier::type_invariant]
    spec fn well_formed(self) -> bool {
        self.surface_updates <= self.messages@.len()
    }

    /// The messages in the order in which they are sent: those about the surface go first.
    pub fn messages(&self) -> (messages: &Vec<Outgoing<P>>)
        ensures
            messages@ == self@.surface_updates + self@.new_frames,
    {
        proof {
            use_type_invariant(self);
        }
        assert(self@.surface_updates + self@.new_frames =~= self.messages@);
        &self.messages
    }
}

/// The clients that were dropped because their port turned out to be invalid.
#[derive(Debug, PartialEq, Eq)]
pub struct Dropped {
    /// From the channel for info.
    pub info: Vec<String>,
    /// From the channel for frames.
    pub frames: Vec<String>,
}

/// Something to do for a server.
pub enum Action<P> {
    /// Let the server's messages arrive on a queue with this label.
    ServeOn {
        /// The label.
        queue_label: String,
    },
    /// Send this to a client.
    Send(Outgoing<P>),
    /// Close the server's port.
    ClosePort,
    /// Post this to the system.
    Post(Notification),
}

/// `actions` start `server`: its messages have a queue before the system hears of it.
pub open spec fn starts<P>(actions: Seq<Action<P>>, server: ServerModel<P>) -> bool {
    &&& actions.len() == 2
    &&& actions[0] matches Action::ServeOn { queue_label: label }
    &&& label@ == queue_label(server.uuid)
    &&& actions[1] matches Action::Post(posted)
    &&& posted@ == announce::notification(SERVER_ANNOUNCE@, server.uuid, server.name)
}

/// What is sent by actions that send.
pub open spec fn sends<P>(actions: Seq<Action<P>>) -> Seq<Outgoing<P>> {
    actions.map_values(|action: Action<P>| action->Send_0)
}

/// `actions` retire `server`: first every client is told, then the port is closed, and
/// after that the system hears of it.
pub open spec fn retires<P>(actions: Seq<Action<P>>, server: ServerModel<P>) -> bool {
    let told = actions.len() - 2;
    &&& told >= 0
    &&& forall|i: int| 0 <= i < told ==> (#[trigger] actions[i]) is Send
    &&& clients::reaches(
        sends(actions.take(told)),
        server.everyone(),
        ClientMessage::RetireServer,
    )
    &&& actions[told] is ClosePort
    &&& actions[told + 1] matches Action::Post(posted)
    &&& posted@ == announce::notification(SERVER_RETIRE@, server.uuid, server.name)
}

/// The identifier of the server that drew `raw_uuid`.
pub open spec fn server_uuid(raw_uuid: Seq<char>) -> Seq<char> {
    UUID_PREFIX@ + raw_uuid
}

/// The complaint about a port that could not be opened.
pub open spec fn port_failure(uuid: Seq<char>) -> Seq<char> {
    "failed to create CFMessagePort with name `"@ + uuid + "`"@
}

/// The label of the queue on which a server's messages arrive.
pub open spec fn queue_label(uuid: Seq<char>) -> Seq<char> {
    uuid + ".dispatch"@
}

/// A Syphon server, over clients whose ports are of type `P`.
pub struct SyphonServer<P> {
    uuid: String,
    name: String,
    surface_id: u32,
    info_clients: ClientTable<P>,
    frame_clients: ClientTable<P>,
}

impl<P> View for SyphonServer<P> {
    type V = ServerModel<P>;

    closed spec fn view(&self) -> ServerModel<P> {
        ServerModel {
            uuid: self.uuid@,
            name: self.name@,
            surface_id: self.surface_id,
            info: self.info_clients@,
            frames: self.frame_clients@,
        }
    }
}

impl<P> SyphonServer<P> {
    /// A server that shows `server_name`, has no surface yet and nobody to tell about it.
    /// `raw_uuid` is drawn at random, and sets it apart from every other server.
    pub fn new(server_name: &str, raw_uuid: &str) -> (server: Self)
        ensures
            server@ == (ServerModel::<P> {
                uuid: server_uuid(raw_uuid@),
                name: server_name@,
                surface_id: 0,
                info: Map::empty(),
                frames: Map::empty(),
            }),
            server@.uuid == "info.v002.Syphon."@ + raw_uuid@,
            server@.name == server_name@,
    {
        SyphonServer {
            uuid: UUID_PREFIX.to_owned().concat(raw_uuid),
            name: server_name.to_owned(),
            surface_id: 0,
            info_clients: ClientTable::new(),
            frame_clients: ClientTable::new(),
        }
    }

    /// Goes on once the port named after the server has been asked for: `port_is_open`
    /// tells whether it could be had. Says what to do then, one after the other.
    pub fn opened(&self, port_is_open: bool) -> (startup: Result<Vec<Action<P>>, String>)
        ensures
            match startup {
                Ok(actions) => port_is_open && starts(actions@, self@),
                Err(complaint) => !port_is_open && complaint@ == port_failure(self@.uuid),
            },
            startup is Ok <==> port_is_open,
            startup matches Err(complaint) ==> complaint@
                == "failed to create CFMessagePort with name `"@ + self@.uuid + "`"@,
            startup matches Ok(actions) ==> {
                &&& actions@.len() == 2
                &&& actions@[0] matches Action::ServeOn { queue_label: label }
                &&& label@ == self@.uuid + ".dispatch"@
                &&& actions@[1] matches Action::Post(posted)
                &&& posted.name@ == "info.v002.Syphon.ServerAnnounce"@
                &&& posted.object@ == self@.uuid
                &&& posted.deliver_immediately
            },
    {
        if !port_is_open {
            let complaint = "failed to create CFMessagePort with name `".to_owned().concat(
                self.uuid.as_str(),
            ).concat("`");
            return Err(complaint);
        }
        let announcement = broadcast_notification(
            SERVER_ANNOUNCE,
            self.uuid.as_str(),
            self.name.as_str(),
        );
        let mut actions: Vec<Action<P>> = Vec::new();
        actions.push(Action::ServeOn { queue_label: self.uuid.clone().concat(".dispatch") });
        actions.push(Action::Post(announcement));
        Ok(actions)
    }

    /// Takes a message that came in over the server's port. `client_uuid` is the client
    /// that it names, if it names one.
    ///
    /// A client that asks for frames and is known for info joins with the port it has;
    /// every other client that wants to join needs one first.
    pub fn message_callback(&mut self, msgid: i32, client_uuid: Option<String>) -> (step:
        CallbackStep<P>)
        ensures
            match (protocol::request_of(msgid), client_uuid) {
                (Some(ClientRequest::Add(channel)), Some(client)) => if channel == Channel::Frames
                    && old(self)@.info.contains_key(client@) {
                    let port = old(self)@.info[client@];
                    &&& final(self)@ == old(self)@.join(Channel::Frames, client@, port)
                    &&& greets(step, old(self)@, Channel::Frames, client@, port)
                } else {
                    &&& final(self)@ == old(self)@
                    &&& step == CallbackStep::<P>::Connect { channel, client }
                },
                (Some(ClientRequest::Remove(channel)), Some(client)) => {
                    &&& final(self)@ == old(self)@.leave(channel, client@)
                    &&& step is Done
                },
                _ => final(self)@ == old(self)@ && step is Done,
            },
            final(self)@.uuid == old(self)@.uuid,
            final(self)@.name == old(self)@.name,
            final(self)@.surface_id == old(self)@.surface_id,
            client_uuid is None || !(0 <= msgid <= 3) ==> final(self)@ == old(self)@
                && step is Done,
            client_uuid matches Some(client) ==> (msgid == 0 ==> {
                &&& final(self)@ == old(self)@
                &&& step matches CallbackStep::Connect { channel, client: named }
                &&& channel == Channel::Info
                &&& named@ == client@
            }),
            client_uuid matches Some(client) ==> (msgid == 1 && !old(self)@.info.contains_key(
                client@,
            ) ==> {
                &&& final(self)@ == old(self)@
                &&& step matches CallbackStep::Connect { channel, client: named }
                &&& channel == Channel::Frames
                &&& named@ == client@
            }),
            client_uuid matches Some(client) ==> (msgid == 1 && old(self)@.info.contains_key(
                client@,
            ) ==> {
                &&& final(self)@.info == old(self)@.info
                &&& final(self)@.frames == old(self)@.frames.insert(
                    client@,
                    old(self)@.info[client@],
                )
                &&& old(self)@.surface_id == 0 ==> step is Done
                &&& old(self)@.surface_id != 0 ==> {
                    &&& step matches CallbackStep::Send(outgoing)
                    &&& outgoing.client@ == client@
                    &&& outgoing.port == old(self)@.info[client@]
                    &&& outgoing.message == ClientMessage::NewFrame
                }
            }),
            client_uuid matches Some(client) ==> (msgid == 2 ==> {
                &&& final(self)@.info == old(self)@.info.remove(client@)
                &&& final(self)@.frames == old(self)@.frames
                &&& step is Done
            }),
            client_uuid matches Some(client) ==> (msgid == 3 ==> {
                &&& final(self)@.info == old(self)@.info
                &&& final(self)@.frames == old(self)@.frames.remove(client@)
                &&& step is Done
            }),
    {
        let client = match client_uuid {
            Some(client) => client,
            None => {
                return CallbackStep::Done;
            },
        };
        match client_request(msgid) {
            Some(ClientRequest::Add(Channel::Info)) => CallbackStep::Connect {
                channel: Channel::Info,
                client,
            },
            Some(ClientRequest::Add(Channel::Frames)) => {
                match self.info_clients.get(&client) {
                    Some(port) => self.connected(Channel::Frames, client, Some(port)),
                    None => CallbackStep::Connect { channel: Channel::Frames, client },
                }
            },
            Some(ClientRequest::Remove(Channel::Info)) => {
                self.info_clients.remove(&client);
                CallbackStep::Done
            },
            Some(ClientRequest::Remove(Channel::Frames)) => {
                self.frame_clients.remove(&client);
                CallbackStep::Done
            },
            None => CallbackStep::Done,
        }
    }

    /// Takes a client in whose port has been asked for. Without a port, nothing comes of
    /// the client's request.
    pub fn connected(&mut self, channel: Channel, client: String, port: Option<Arc<P>>) -> (step:
        CallbackStep<P>)
        ensures
            match port {
                Some(port) => {
                    &&& final(self)@ == old(self)@.join(channel, client@, port)
                    &&& greets(step, old(self)@, channel, client@, port)
                },
                None => final(self)@ == old(self)@ && step is Done,
            },
            final(self)@.uuid == old(self)@.uuid,
            final(self)@.name == old(self)@.name,
            final(self)@.surface_id == old(self)@.surface_id,
            port matches Some(port) ==> {
                &&& channel == Channel::Info ==> final(self)@.info == old(self)@.info.insert(
                    client@,
                    port,
                ) && final(self)@.frames == old(self)@.frames
                &&& channel == Channel::Frames ==> final(self)@.info == old(self)@.info
                    && final(self)@.frames == old(self)@.frames.insert(client@, port)
                &&& old(self)@.surface_id == 0 ==> step is Done
                &&& old(self)@.surface_id != 0 ==> {
                    &&& step matches CallbackStep::Send(outgoing)
                    &&& outgoing.client@ == client@
                    &&& outgoing.port == port
                    &&& outgoing.message == (match channel {
                        Channel::Info => ClientMessage::UpdateSurfaceId(old(self)@.surface_id),
                        Channel::Frames => ClientMessage::NewFrame,
                    })
                }
            },
    {
        let port = match port {
            Some(port) => port,
            None => {
                return CallbackStep::Done;
            },
        };
        let message = match channel {
            Channel::Info => {
                self.info_clients.insert(client.clone(), port.clone());
                ClientMessage::UpdateSurfaceId(self.surface_id)
            },
            Channel::Frames => {
                self.frame_clients.insert(client.clone(), port.clone());
                ClientMessage::NewFrame
            },
        };
        if self.surface_id == 0 {
            CallbackStep::Done
        } else {
            CallbackStep::Send(Outgoing { client, port, message })
        }
    }

    /// Puts the surface with this id on show, and says who is to hear of it: the clients
    /// for info if it is another surface than before, and a surface at all; the clients
    /// for frames each time.
    pub fn publish_surface(&mut self, surface_id: u32) -> (publication: Publication<P>)
        ensures
            final(self)@ == (ServerModel { surface_id, ..old(self)@ }),
            if old(self)@.moves_to(surface_id) {
                clients::reaches(
                    publication@.surface_updates,
                    old(self)@.info,
                    ClientMessage::UpdateSurfaceId(surface_id),
                )
            } else {
                publication@.surface_updates == Seq::<Outgoing<P>>::empty()
            },
            clients::reaches(publication@.new_frames, old(self)@.frames, ClientMessage::NewFrame),
            surface_id != 0 && surface_id != old(self)@.surface_id ==> clients::reaches(
                publication@.surface_updates,
                old(self)@.info,
                ClientMessage::UpdateSurfaceId(surface_id),
            ),
            surface_id == 0 || surface_id == old(self)@.surface_id
                ==> publication@.surface_updates.len() == 0,
    {
        let id_changed = self.surface_id != surface_id;
        if id_changed {
            self.surface_id = surface_id;
        }
        let mut messages = if id_changed && surface_id != 0 {
            self.info_clients.address(ClientMessage::UpdateSurfaceId(surface_id))
        } else {
            Vec::new()
        };
        let mut new_frames = self.frame_clients.address(ClientMessage::NewFrame);
        let ghost (updates, frames) = (messages@, new_frames@);
        let surface_updates = messages.len();
        messages.append(&mut new_frames);
        let publication = Publication { messages, surface_updates };
        assert(publication@.surface_updates =~= updates);
        assert(publication@.new_frames =~= frames);
        publication
    }

    /// Hears how a publication went, `codes` being the answers to its messages in their
    /// order. A client whose port turned out to be invalid is dropped from the channel that
    /// the message was about.
    pub fn published(&mut self, publication: &Publication<P>, codes: &Vec<i32>) -> (dropped:
        Dropped)
        requires
            codes@.len() == publication@.surface_updates.len() + publication@.new_frames.len(),
        ensures
            ({
                let updates = publication@.surface_updates;
                let frames = publication@.new_frames;
                let update_codes = codes@.take(updates.len() as int);
                let frame_codes = codes@.skip(updates.len() as int);
                &&& final(self)@ == (ServerModel {
                    info: old(self)@.info.remove_keys(
                        clients::unreachable_clients(updates, update_codes),
                    ),
                    frames: old(self)@.frames.remove_keys(
                        clients::unreachable_clients(frames, frame_codes),
                    ),
                    ..old(self)@
                })
                &&& dropped.info@.map_values(|client: String| client@)
                    == clients::unreachable_in_order(updates, update_codes)
                &&& dropped.frames@.map_values(|client: String| client@)
                    == clients::unreachable_in_order(frames, frame_codes)
            }),
            final(self)@.uuid == old(self)@.uuid,
            final(self)@.name == old(self)@.name,
            final(self)@.surface_id == old(self)@.surface_id,
            final(self)@.info.submap_of(old(self)@.info),
            final(self)@.frames.submap_of(old(self)@.frames),
            forall|client: Seq<char>| #[trigger]
                old(self)@.info.contains_key(client) ==> (final(self)@.info.contains_key(client)
                    <==> forall|i: int|
                    0 <= i < publication@.surface_updates.len() && codes@[i] == -3 ==> (
                    #[trigger] publication@.surface_updates[i]).client@ != client),
            forall|client: Seq<char>| #[trigger]
                old(self)@.frames.contains_key(client) ==> (final(self)@.frames.contains_key(client)
                    <==> forall|i: int|
                    0 <= i < publication@.new_frames.len()
                        && codes@[publication@.surface_updates.len() + i] == -3 ==> (
                    #[trigger] publication@.new_frames[i]).client@ != client),
    {
        proof {
            use_type_invariant(publication);
        }
        let split = publication.surface_updates;
        let info = dead_clients(&publication.messages, codes, 0, split);
        let frames = dead_clients(&publication.messages, codes, split, codes.len());
        self.info_clients.remove_all(&info);
        self.frame_clients.remove_all(&frames);
        assert(publication@.surface_updates =~= publication.messages@.subrange(0, split as int));
        assert(publication@.new_frames =~= publication.messages@.subrange(
            split as int,
            codes@.len() as int,
        ));
        assert(codes@.take(split as int) =~= codes@.subrange(0, split as int));
        assert(codes@.skip(split as int) =~= codes@.subrange(split as int, codes@.len() as int));
        proof {
            let updates = publication@.surface_updates;
            let new_frames = publication@.new_frames;
            let update_codes = codes@.take(updates.len() as int);
            let frame_codes = codes@.skip(updates.len() as int);
            assert forall|client: Seq<char>| #[trigger]
                old(self)@.info.contains_key(client) implies (self@.info.contains_key(client)
                <==> forall|i: int|
                0 <= i < updates.len() && codes@[i] == -3 ==> (#[trigger] updates[i]).client@
                    != client) by {
                assert(forall|i: int| 0 <= i < updates.len() ==> update_codes[i] == codes@[i]);
            }
            assert forall|client: Seq<char>| #[trigger]
                old(self)@.frames.contains_key(client) implies (self@.frames.contains_key(client)
                <==> forall|i: int|
                0 <= i < new_frames.len() && codes@[updates.len() + i] == -3 ==> (
                #[trigger] new_frames[i]).client@ != client) by {
                assert(forall|i: int|
                    0 <= i < new_frames.len() ==> #[trigger] frame_codes[i] == codes@[updates.len()
                        + i]);
            }
        }
        Dropped { info, frames }
    }

    /// How many clients the server has: as many as its busier channel, in 32 bits.
    pub fn client_count(&self) -> (count: u32)
        ensures
            self@.info.dom().finite(),
            self@.frames.dom().finite(),
            count == self@.count() % 0x1_0000_0000,
            self@.frames.dom().len() >= self@.info.dom().len() ==> count
                == self@.frames.dom().len() % 0x1_0000_0000,
            self@.info.dom().len() >= self@.frames.dom().len() ==> count
                == self@.info.dom().len() % 0x1_0000_0000,
    {
        let frames = self.frame_clients.len();
        let info = self.info_clients.len();
        let count: u64 = (if frames >= info { frames } else { info }) as u64;
        assert(#[verifier::truncate] (count as u32) == count % 0x1_0000_0000) by (bit_vector);
        #[verifier::truncate] (count as u32)
    }

    /// Takes leave of everyone. Says what to do, one after the other.
    pub fn stop(&mut self) -> (actions: Vec<Action<P>>)
        ensures
            final(self)@ == old(self)@.stopped(),
            retires(actions@, old(self)@),
            final(self)@.info == Map::<Seq<char>, Arc<P>>::empty(),
            final(self)@.frames == Map::<Seq<char>, Arc<P>>::empty(),
            final(self)@.uuid == old(self)@.uuid,
            final(self)@.name == old(self)@.name,
            final(self)@.surface_id == old(self)@.surface_id,
            actions@.len() >= 2,
            actions@[actions@.len() - 2] is ClosePort,
            actions@.last() matches Action::Post(posted) && posted.name@
                == "info.v002.Syphon.ServerRetire"@ && posted.object@ == old(self)@.uuid
                && posted.deliver_immediately,
    {
        let notices = self.info_clients.address_with(
            &self.frame_clients,
            ClientMessage::RetireServer,
        );
        self.info_clients = ClientTable::new();
        self.frame_clients = ClientTable::new();
        let notification = broadcast_notification(
            SERVER_RETIRE,
            self.uuid.as_str(),
            self.name.as_str(),
        );
        let ghost told = notices@;
        let mut actions: Vec<Action<P>> = Vec::new();
        for notice in rest: notices
            invariant
                rest.seq() == told,
                sends(actions@) == told.take(rest.index() as int),
                forall|i: int| 0 <= i < actions@.len() ==> (#[trigger] actions@[i]) is Send,
        {
            let ghost before = actions@;
            actions.push(Action::Send(notice));
            assert(sends(actions@) =~= sends(before).push(notice));
            assert(told.take(rest.index() + 1) =~= told.take(rest.index() as int).push(notice));
        }
        let ghost sent = actions@;
        actions.push(Action::ClosePort);
        actions.push(Action::Post(notification));
        assert(told.take(told.len() as int) =~= told);
        assert(actions@.take(sent.len() as int) =~= sent);
        actions
    }

    /// The identifier, under which the server opens its port.
    pub fn uuid(&self) -> (uuid: &str)
        ensures
            uuid@ == self@.uuid,
    {
        self.uuid.as_str()
    }

    /// The name that people see.
    pub fn name(&self) -> (name: &str)
        ensures
            name@ == self@.name,
    {
        self.name.as_str()
    }

    /// The surface the server draws on, or 0 before there is one.
    pub fn surface_id(&self) -> (surface_id: u32)
        ensures
            surface_id == self@.surface_id,
    {
        self.surface_id
    }
}

} // verus!
