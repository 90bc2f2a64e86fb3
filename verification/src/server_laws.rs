//! What holds of a server across its operations.

use vstd::prelude::*;
use std::sync::Arc;
use crate::announce;
use crate::announce::{SERVER_ANNOUNCE, SERVER_RETIRE};
use crate::clients;
use crate::clients::Outgoing;
use crate::protocol::{Channel, ClientMessage, PORT_IS_INVALID};
use crate::server;
use crate::server::{Action, CallbackStep, ServerModel, UUID_PREFIX};

verus! {

/// Servers that drew different identifiers differ in their full ones, and in the labels of
/// their queues.
pub proof fn law_servers_are_set_apart(raw_uuid: Seq<char>, other: Seq<char>)
    requires
        raw_uuid != other,
    ensures
        server::server_uuid(raw_uuid) != server::server_uuid(other),
        server::queue_label(server::server_uuid(raw_uuid)) != server::queue_label(
            server::server_uuid(other),
        ),
{
    let (a, b) = (server::server_uuid(raw_uuid), server::server_uuid(other));
    let prefix = UUID_PREFIX@.len() as int;
    if a == b {
        assert(raw_uuid =~= a.skip(prefix));
        assert(other =~= b.skip(prefix));
    }
    let (la, lb) = (server::queue_label(a), server::queue_label(b));
    if la == lb {
        assert(a =~= la.take(a.len() as int));
        assert(b =~= lb.take(b.len() as int));
    }
}

/// A server is known by what it drew, behind the prefix that all servers share; its queue
/// and the complaint about its port are named after it.
pub proof fn law_server_is_named_after_what_it_drew(raw_uuid: Seq<char>, uuid: Seq<char>)
    ensures
        server::server_uuid(raw_uuid) == "info.v002.Syphon."@ + raw_uuid,
        server::queue_label(uuid) == uuid + ".dispatch"@,
        server::port_failure(uuid) == "failed to create CFMessagePort with name `"@ + uuid + "`"@,
{
}

/// A client that joins a channel is on that channel then, with the port it joined with,
/// whatever its name; and the other channel is as it was.
pub proof fn law_joining_puts_the_client_on_the_channel<P>(
    server: ServerModel<P>,
    client: Seq<char>,
    port: Arc<P>,
    other: Seq<char>,
)
    ensures
        ({
            let joined = server.join(Channel::Info, client, port);
            &&& joined.info.contains_key(client)
            &&& joined.info[client] == port
            &&& other != client ==> (joined.info.contains_key(other)
                <==> server.info.contains_key(other)) && (server.info.contains_key(other)
                ==> joined.info[other] == server.info[other])
            &&& joined.frames == server.frames
            &&& joined.surface_id == server.surface_id
        }),
        ({
            let joined = server.join(Channel::Frames, client, port);
            &&& joined.frames.contains_key(client)
            &&& joined.frames[client] == port
            &&& other != client ==> (joined.frames.contains_key(other)
                <==> server.frames.contains_key(other)) && (server.frames.contains_key(other)
                ==> joined.frames[other] == server.frames[other])
            &&& joined.info == server.info
            &&& joined.surface_id == server.surface_id
        }),
        server.clients(Channel::Info) == server.info,
        server.clients(Channel::Frames) == server.frames,
{
}

/// A client that leaves a channel is not on that channel any more, whatever its name; the
/// others stay, and the other channel is as it was.
pub proof fn law_leaving_takes_the_client_off_the_channel<P>(
    server: ServerModel<P>,
    client: Seq<char>,
    other: Seq<char>,
)
    ensures
        ({
            let left = server.leave(Channel::Info, client);
            &&& !left.info.contains_key(client)
            &&& other != client ==> (left.info.contains_key(other) <==> server.info.contains_key(
                other,
            )) && (server.info.contains_key(other) ==> left.info[other] == server.info[other])
            &&& left.frames == server.frames
            &&& left.surface_id == server.surface_id
        }),
        ({
            let left = server.leave(Channel::Frames, client);
            &&& !left.frames.contains_key(client)
            &&& other != client ==> (left.frames.contains_key(other)
                <==> server.frames.contains_key(other)) && (server.frames.contains_key(other)
                ==> left.frames[other] == server.frames[other])
            &&& left.info == server.info
            &&& left.surface_id == server.surface_id
        }),
{
}

/// A client that joins is greeted exactly if there is a surface: on the channel for info with
/// the id of that surface, on the one for frames with word of a frame.
pub proof fn law_greeting_tells_how_things_stand<P>(server: ServerModel<P>)
    ensures
        server.surface_id == 0 ==> server.greeting(Channel::Info) is None && server.greeting(
            Channel::Frames,
        ) is None,
        server.surface_id != 0 ==> server.greeting(Channel::Info) == Some(
            ClientMessage::UpdateSurfaceId(server.surface_id),
        ) && server.greeting(Channel::Frames) == Some(ClientMessage::NewFrame),
{
}

/// A step that greets a client sends it one message if there is a surface, to that client and
/// through the port that it joined with, and is done otherwise.
pub proof fn law_greeting_goes_to_who_joined<P>(
    step: CallbackStep<P>,
    server: ServerModel<P>,
    channel: Channel,
    client: Seq<char>,
    port: Arc<P>,
)
    requires
        server::greets(step, server, channel, client, port),
    ensures
        server.surface_id == 0 <==> step is Done,
        server.surface_id != 0 ==> {
            &&& step matches CallbackStep::Send(outgoing)
            &&& outgoing.client@ == client
            &&& outgoing.port == port
            &&& channel == Channel::Info ==> outgoing.message == ClientMessage::UpdateSurfaceId(
                server.surface_id,
            )
            &&& channel == Channel::Frames ==> outgoing.message == ClientMessage::NewFrame
        },
{
}

/// A batch takes its message to every client that it is for, whatever the client's name,
/// through that client's port, and just once.
pub proof fn law_batch_reaches_each_client<P>(
    batch: Seq<Outgoing<P>>,
    clients: Map<Seq<char>, Arc<P>>,
    message: ClientMessage,
    client: Seq<char>,
)
    requires
        clients::reaches(batch, clients, message),
        clients.contains_key(client),
    ensures
        exists|i: int|
            {
                &&& 0 <= i < batch.len()
                &&& (#[trigger] batch[i]).client@ == client
                &&& batch[i].port == clients[client]
                &&& batch[i].message == message
                &&& forall|k: int|
                    0 <= k < batch.len() && k != i ==> (#[trigger] batch[k]).client@ != client
            },
{
    let i = choose|i: int| 0 <= i < batch.len() && (#[trigger] batch[i]).client@ == client;
    assert(batch[i].client@ == client);
    assert forall|k: int| 0 <= k < batch.len() && k != i implies (#[trigger] batch[k]).client@
        != client by {}
}

/// A batch takes nothing to anybody else.
pub proof fn law_batch_reaches_nobody_else<P>(
    batch: Seq<Outgoing<P>>,
    clients: Map<Seq<char>, Arc<P>>,
    message: ClientMessage,
    i: int,
)
    requires
        clients::reaches(batch, clients, message),
        0 <= i < batch.len(),
    ensures
        clients.contains_key(batch[i].client@),
        batch[i].port == clients[batch[i].client@],
        batch[i].message == message,
{
}

/// A client that has joined the channel for info hears of the next surface, by its id and
/// through the port that it joined with.
pub proof fn law_who_joined_hears_of_the_next_surface<P>(
    server: ServerModel<P>,
    client: Seq<char>,
    port: Arc<P>,
    surface_id: u32,
    updates: Seq<Outgoing<P>>,
)
    requires
        surface_id != 0,
        surface_id != server.surface_id,
        clients::reaches(
            updates,
            server.join(Channel::Info, client, port).info,
            ClientMessage::UpdateSurfaceId(surface_id),
        ),
    ensures
        server.join(Channel::Info, client, port).moves_to(surface_id),
        exists|i: int|
            {
                &&& 0 <= i < updates.len()
                &&& (#[trigger] updates[i]).client@ == client
                &&& updates[i].port == port
                &&& updates[i].message.number() == 2
                &&& updates[i].message.content() == Some(surface_id)
            },
{
    let joined = server.join(Channel::Info, client, port);
    let message = ClientMessage::UpdateSurfaceId(surface_id);
    law_batch_reaches_each_client(updates, joined.info, message, client);
    let i = choose|i: int|
        0 <= i < updates.len() && (#[trigger] updates[i]).client@ == client && updates[i].port
            == joined.info[client] && updates[i].message == message;
    assert(updates[i].client@ == client);
}

/// A client that has joined the channel for frames hears of the next frame, through the port
/// that it joined with.
pub proof fn law_who_joined_hears_of_the_next_frame<P>(
    server: ServerModel<P>,
    client: Seq<char>,
    port: Arc<P>,
    new_frames: Seq<Outgoing<P>>,
)
    requires
        clients::reaches(
            new_frames,
            server.join(Channel::Frames, client, port).frames,
            ClientMessage::NewFrame,
        ),
    ensures
        exists|i: int|
            {
                &&& 0 <= i < new_frames.len()
                &&& (#[trigger] new_frames[i]).client@ == client
                &&& new_frames[i].port == port
                &&& new_frames[i].message.number() == 1
                &&& new_frames[i].message.content() is None
            },
{
    let joined = server.join(Channel::Frames, client, port);
    law_batch_reaches_each_client(new_frames, joined.frames, ClientMessage::NewFrame, client);
    let i = choose|i: int|
        0 <= i < new_frames.len() && (#[trigger] new_frames[i]).client@ == client
            && new_frames[i].port == joined.frames[client] && new_frames[i].message
            == ClientMessage::NewFrame;
    assert(new_frames[i].client@ == client);
}

/// A client that has left a channel is sent nothing about it any more.
pub proof fn law_who_left_hears_nothing<P>(
    server: ServerModel<P>,
    channel: Channel,
    client: Seq<char>,
    batch: Seq<Outgoing<P>>,
    message: ClientMessage,
    i: int,
)
    requires
        clients::reaches(
            batch,
            match channel {
                Channel::Info => server.leave(channel, client).info,
                Channel::Frames => server.leave(channel, client).frames,
            },
            message,
        ),
        0 <= i < batch.len(),
    ensures
        batch[i].client@ != client,
{
}

/// A client counts as unreachable exactly if a message to it came back with the code of an
/// invalid port, and the list names the same clients as the set.
pub proof fn law_unreachable_is_who_did_not_answer<P>(
    batch: Seq<Outgoing<P>>,
    codes: Seq<i32>,
    client: Seq<char>,
)
    requires
        codes.len() == batch.len(),
    ensures
        clients::unreachable_clients(batch, codes).contains(client) <==> exists|i: int|
            0 <= i < batch.len() && codes[i] == -3 && (#[trigger] batch[i]).client@ == client,
        clients::unreachable_in_order(batch, codes).contains(client) <==> exists|i: int|
            0 <= i < batch.len() && codes[i] == -3 && (#[trigger] batch[i]).client@ == client,
{
    clients::lemma_unreachable(batch, codes, client);
    if clients::unreachable_clients(batch, codes).contains(client) {
        let i = choose|i: int|
            #![trigger batch[i]]
            0 <= i < batch.len() && i < codes.len() && codes[i] == PORT_IS_INVALID
                && batch[i].client@ == client;
        assert(batch[i].client@ == client);
    }
}

/// One message more adds its client at the end of the list of those unreachable if it came
/// back with the code of an invalid port, and nobody otherwise.
pub proof fn law_unreachable_are_listed_in_order<P>(
    batch: Seq<Outgoing<P>>,
    codes: Seq<i32>,
    outgoing: Outgoing<P>,
    code: i32,
)
    requires
        codes.len() == batch.len(),
    ensures
        ({
            let before = clients::unreachable_in_order(batch, codes);
            let after = clients::unreachable_in_order(batch.push(outgoing), codes.push(code));
            &&& code == -3 ==> after == before.push(outgoing.client@)
            &&& code != -3 ==> after == before
        }),
        clients::unreachable_in_order(Seq::<Outgoing<P>>::empty(), Seq::empty()).len() == 0,
{
    assert(batch.push(outgoing).drop_last() =~= batch);
    assert(codes.push(code).drop_last() =~= codes);
}

/// The names of a list are those that stand in it.
pub proof fn law_names_are_those_in_the_list(list: Seq<String>, name: Seq<char>)
    ensures
        clients::names(list).contains(name) <==> exists|i: int|
            0 <= i < list.len() && (#[trigger] list[i])@ == name,
{
}

/// Clients are told of a surface exactly if there is one and it is another than before.
pub proof fn law_when_a_surface_is_news<P>(server: ServerModel<P>, surface_id: u32)
    ensures
        server.moves_to(surface_id) <==> surface_id != 0 && surface_id != server.surface_id,
{
}

/// Everyone is who is on either channel, with the port for info where there is one.
pub proof fn law_everyone_is_on_a_channel<P>(server: ServerModel<P>, client: Seq<char>)
    ensures
        server.everyone().contains_key(client) <==> server.info.contains_key(client)
            || server.frames.contains_key(client),
        server.info.contains_key(client) ==> server.everyone()[client] == server.info[client],
        !server.info.contains_key(client) && server.frames.contains_key(client)
            ==> server.everyone()[client] == server.frames[client],
{
}

/// The number of clients is that of one channel, and no less than that of the other.
pub proof fn law_count_is_that_of_the_busier_channel<P>(server: ServerModel<P>)
    ensures
        server.count() >= server.info.dom().len(),
        server.count() >= server.frames.dom().len(),
        server.count() == server.info.dom().len() || server.count() == server.frames.dom().len(),
{
}

/// A server that has stopped knows nobody, and is otherwise the server it was.
pub proof fn law_stopping_forgets_the_clients_only<P>(server: ServerModel<P>, client: Seq<char>)
    ensures
        !server.stopped().info.contains_key(client),
        !server.stopped().frames.contains_key(client),
        server.stopped().uuid == server.uuid,
        server.stopped().name == server.name,
        server.stopped().surface_id == server.surface_id,
{
}

/// A server that starts has its queue, labelled after it, before it is announced; and the
/// announcement is posted as such, about this server and at once.
pub proof fn law_starting_announces_the_server<P>(server: ServerModel<P>, actions: Seq<Action<P>>)
    requires
        server::starts(actions, server),
    ensures
        actions.len() == 2,
        actions[0] matches Action::ServeOn { queue_label } && queue_label@ == server.uuid
            + ".dispatch"@,
        actions[1] matches Action::Post(posted) && posted.name@
            == "info.v002.Syphon.ServerAnnounce"@ && posted.object@ == server.uuid
            && posted.deliver_immediately,
{
    let posted = actions[1]->Post_0;
    announce::law_notification_is_the_one_asked_for(
        posted,
        SERVER_ANNOUNCE@,
        server.uuid,
        server.name,
    );
}

/// A server that stops sends nothing but word of its end, to clients that it knows, to each
/// through the right port and only once; and the notification at the end is posted as such,
/// about this server and at once.
pub proof fn law_stopping_tells_only_the_clients<P>(
    server: ServerModel<P>,
    actions: Seq<Action<P>>,
    i: int,
    k: int,
)
    requires
        server::retires(actions, server),
        0 <= i < k < actions.len(),
    ensures
        actions[i] matches Action::Send(notice) ==> {
            &&& notice.message == ClientMessage::RetireServer
            &&& server.info.contains_key(notice.client@) || server.frames.contains_key(
                notice.client@,
            )
            &&& server.info.contains_key(notice.client@) ==> notice.port
                == server.info[notice.client@]
            &&& !server.info.contains_key(notice.client@) ==> notice.port
                == server.frames[notice.client@]
            &&& actions[k] matches Action::Send(other) ==> other.client@ != notice.client@
        },
        actions.last() matches Action::Post(posted) && posted.name@
            == "info.v002.Syphon.ServerRetire"@ && posted.object@ == server.uuid
            && posted.deliver_immediately,
{
    let told = actions.len() - 2;
    let notices = server::sends(actions.take(told));
    if i < told {
        assert(notices[i] == actions[i]->Send_0);
    }
    if k < told {
        assert(notices[k] == actions[k]->Send_0);
    }
    announce::law_notification_is_the_one_asked_for(
        actions.last()->Post_0,
        SERVER_RETIRE@,
        server.uuid,
        server.name,
    );
}

/// A client that leaves a channel that it was not on before it joined leaves no trace.
pub proof fn law_leaving_undoes_joining<P>(
    server: ServerModel<P>,
    channel: Channel,
    client: Seq<char>,
    port: Arc<P>,
)
    requires
        !server.clients(channel).contains_key(client),
    ensures
        server.join(channel, client, port).leave(channel, client) == server,
{
    assert(server.clients(channel).insert(client, port).remove(client) =~= server.clients(
        channel,
    ));
}

/// A client that joins a channel again is there once, with the port it has now.
pub proof fn law_joining_again_replaces_the_port<P>(
    server: ServerModel<P>,
    channel: Channel,
    client: Seq<char>,
    before: Arc<P>,
    port: Arc<P>,
)
    ensures
        server.join(channel, client, before).join(channel, client, port) == server.join(
            channel,
            client,
            port,
        ),
{
    assert(server.clients(channel).insert(client, before).insert(client, port)
        =~= server.clients(channel).insert(client, port));
}

/// What a client does on one channel touches neither the other channel, nor the other
/// clients, nor anything else about the server.
pub proof fn law_clients_do_not_interfere<P>(
    server: ServerModel<P>,
    channel: Channel,
    client: Seq<char>,
    port: Arc<P>,
    other_channel: Channel,
    other: Seq<char>,
)
    requires
        other_channel != channel || other != client,
    ensures
        ({
            let joined = server.join(channel, client, port);
            let left = server.leave(channel, client);
            &&& joined.clients(other_channel).contains_key(other) <==> server.clients(
                other_channel,
            ).contains_key(other)
            &&& left.clients(other_channel).contains_key(other) <==> server.clients(
                other_channel,
            ).contains_key(other)
            &&& server.clients(other_channel).contains_key(other) ==> joined.clients(
                other_channel,
            )[other] == server.clients(other_channel)[other] && left.clients(
                other_channel,
            )[other] == server.clients(other_channel)[other]
            &&& joined.uuid == server.uuid && joined.name == server.name && joined.surface_id
                == server.surface_id
            &&& left.uuid == server.uuid && left.name == server.name && left.surface_id
                == server.surface_id
        }),
{
}

/// Once a surface is on show, showing it again is news to nobody, and no surface at all is
/// never news.
pub proof fn law_surface_is_news_once<P>(server: ServerModel<P>, surface_id: u32)
    ensures
        !(ServerModel { surface_id, ..server }).moves_to(surface_id),
        !server.moves_to(0),
{
}

/// A batch for nobody is empty.
pub proof fn law_nobody_needs_no_message<P>(
    batch: Seq<Outgoing<P>>,
    clients: Map<Seq<char>, Arc<P>>,
    message: ClientMessage,
)
    requires
        clients::reaches(batch, clients, message),
        clients.dom() =~= Set::<Seq<char>>::empty(),
    ensures
        batch.len() == 0,
{
    if batch.len() > 0 {
        assert(clients.contains_key(batch[0].client@));
    }
}

/// A batch holds exactly as many messages as there are clients.
pub proof fn law_one_message_per_client<P>(
    batch: Seq<Outgoing<P>>,
    clients: Map<Seq<char>, Arc<P>>,
    message: ClientMessage,
)
    requires
        clients::reaches(batch, clients, message),
    ensures
        clients.dom().finite(),
        batch.len() == clients.dom().len(),
    decreases batch.len(),
{
    if batch.len() == 0 {
        assert forall|client: Seq<char>| !clients.dom().contains(client) by {
            assert(clients.contains_key(client) == clients.dom().contains(client));
        }
        assert(clients.dom() =~= Set::<Seq<char>>::empty());
    } else {
        let last = batch.last();
        let rest = batch.drop_last();
        let others = clients.remove(last.client@);
        assert(batch[batch.len() - 1] == last);
        assert forall|client: Seq<char>| #[trigger] others.contains_key(client) implies exists|
            i: int,
        | 0 <= i < rest.len() && (#[trigger] rest[i]).client@ == client by {
            assert(clients.contains_key(client));
            let i = choose|i: int|
                0 <= i < batch.len() && (#[trigger] batch[i]).client@ == client;
            assert(rest[i] == batch[i]);
        }
        assert forall|i: int| #![trigger rest[i]] 0 <= i < rest.len() implies {
            &&& others.contains_key(rest[i].client@)
            &&& others[rest[i].client@] == rest[i].port
            &&& rest[i].message == message
        } by {
            assert(rest[i] == batch[i]);
        }
        law_one_message_per_client(rest, others, message);
        assert(clients.dom() =~= others.dom().insert(last.client@));
    }
}

/// A server that stops tells every client of either channel, and a client of both channels
/// through its port for info.
pub proof fn law_everyone_hears_of_the_end<P>(
    server: ServerModel<P>,
    actions: Seq<Action<P>>,
    channel: Channel,
    client: Seq<char>,
)
    requires
        server::retires(actions, server),
        server.clients(channel).contains_key(client),
    ensures
        exists|i: int|
            {
                &&& 0 <= i < actions.len()
                &&& (#[trigger] actions[i]) matches Action::Send(notice)
                &&& notice.client@ == client
                &&& notice.message == ClientMessage::RetireServer
                &&& notice.port == (if server.info.contains_key(client) {
                    server.info[client]
                } else {
                    server.frames[client]
                })
            },
{
    let notices = server::sends(actions.take(actions.len() - 2));
    assert(server.everyone().contains_key(client));
    let i = choose|i: int|
        0 <= i < notices.len() && (#[trigger] notices[i]).client@ == client;
    assert(notices[i].client@ == client);
    assert(actions[i] is Send);
    assert(actions[i]->Send_0 == notices[i]);
}

/// A server that stops posts one notification, and that last of all: after every client was
/// told, and after its port was closed, which happens once.
pub proof fn law_the_system_hears_last<P>(server: ServerModel<P>, actions: Seq<Action<P>>, i: int)
    requires
        server::retires(actions, server),
        0 <= i < actions.len(),
    ensures
        actions[i] is Post <==> i == actions.len() - 1,
        actions[i] is ClosePort <==> i == actions.len() - 2,
        actions[i] is Send <==> i < actions.len() - 2,
{
}

/// A server retires under the identifier, the name and the description under which it was
/// announced, whatever happened in between.
pub proof fn law_retirement_matches_announcement<P>(
    server: ServerModel<P>,
    startup: Seq<Action<P>>,
    happenings: Seq<Happening<P>>,
    actions: Seq<Action<P>>,
)
    requires
        server.surface_id == 0,
        server::starts(startup, server),
        server::retires(actions, history(server, Map::empty(), happenings).0),
    ensures
        ({
            &&& startup.last() matches Action::Post(announced)
            &&& actions.last() matches Action::Post(retired)
            &&& announced@ == announce::notification(SERVER_ANNOUNCE@, server.uuid, server.name)
            &&& retired@ == announce::notification(SERVER_RETIRE@, server.uuid, server.name)
            &&& retired@.object == announced@.object
            &&& retired@.user_info == announced@.user_info
        }),
{
    law_info_clients_are_always_informed(server, happenings);
}

/// A server that has stopped has no clients left, so stopping it again tells nobody and
/// changes nothing: it closes its port and posts its notification, and that is all.
pub proof fn law_stopping_again_tells_nobody<P>(server: ServerModel<P>, actions: Seq<Action<P>>)
    requires
        server::retires(actions, server.stopped()),
    ensures
        actions.len() == 2,
        server.stopped().count() == 0,
        server.stopped().stopped() == server.stopped(),
{
    law_nobody_needs_no_message(
        server::sends(actions.take(actions.len() - 2)),
        server.stopped().everyone(),
        ClientMessage::RetireServer,
    );
}

/// A client stays exactly if the message to it did not come back from an invalid port, and
/// it keeps its port. Nobody comes in.
pub proof fn law_only_dead_clients_are_dropped<P>(
    batch: Seq<Outgoing<P>>,
    clients: Map<Seq<char>, Arc<P>>,
    message: ClientMessage,
    codes: Seq<i32>,
    i: int,
)
    requires
        clients::reaches(batch, clients, message),
        codes.len() == batch.len(),
        0 <= i < batch.len(),
    ensures
        ({
            let left = clients.remove_keys(clients::unreachable_clients(batch, codes));
            &&& left.contains_key(batch[i].client@) <==> codes[i] != PORT_IS_INVALID
            &&& left.submap_of(clients)
        }),
{
    let gone = clients::unreachable_clients(batch, codes);
    let client = batch[i].client@;
    if gone.contains(client) {
        let k = choose|k: int|
            #![trigger batch[k]]
            0 <= k < batch.len() && k < codes.len() && codes[k] == PORT_IS_INVALID
                && batch[k].client@ == client;
        assert(k == i);
    }
    if codes[i] == PORT_IS_INVALID {
        assert(gone.contains(client));
    }
}

/// Where every message arrives, everyone stays.
pub proof fn law_living_clients_stay<P>(
    batch: Seq<Outgoing<P>>,
    clients: Map<Seq<char>, Arc<P>>,
    codes: Seq<i32>,
)
    requires
        forall|i: int| 0 <= i < codes.len() ==> codes[i] != PORT_IS_INVALID,
    ensures
        clients.remove_keys(clients::unreachable_clients(batch, codes)) == clients,
{
    assert(clients.remove_keys(clients::unreachable_clients(batch, codes)) =~= clients);
}

/// The number of clients is 0 exactly if nobody is on either channel, and never more than
/// the number of those that would be told if the server stopped.
pub proof fn law_count_of_clients<P>(server: ServerModel<P>)
    requires
        server.info.dom().finite(),
        server.frames.dom().finite(),
    ensures
        server.count() == 0 <==> server.info == Map::<Seq<char>, Arc<P>>::empty() && server.frames
            == Map::<Seq<char>, Arc<P>>::empty(),
        server.count() <= server.everyone().dom().len(),
{
    let all = server.everyone().dom();
    assert(all =~= server.frames.dom().union(server.info.dom()));
    vstd::set_lib::lemma_len_subset(server.frames.dom(), all);
    vstd::set_lib::lemma_len_subset(server.info.dom(), all);
    if server.count() == 0 {
        assert(server.info.dom() =~= Set::<Seq<char>>::empty());
        assert(server.frames.dom() =~= Set::<Seq<char>>::empty());
        assert(server.info =~= Map::<Seq<char>, Arc<P>>::empty());
        assert(server.frames =~= Map::<Seq<char>, Arc<P>>::empty());
    }
}

/// One client more on a channel raises the number of clients by one at most, and one less
/// lowers it by one at most.
pub proof fn law_count_moves_in_single_steps<P>(
    server: ServerModel<P>,
    channel: Channel,
    client: Seq<char>,
    port: Arc<P>,
)
    requires
        server.info.dom().finite(),
        server.frames.dom().finite(),
    ensures
        server.count() <= server.join(channel, client, port).count() <= server.count() + 1,
        server.count() - 1 <= server.leave(channel, client).count() <= server.count(),
{
    let clients = server.clients(channel);
    assert(clients.insert(client, port).dom() =~= clients.dom().insert(client));
    assert(clients.remove(client).dom() =~= clients.dom().remove(client));
}

/// Something that happens to a server.
pub enum Happening<P> {
    /// A client joins a channel with a port.
    Joins {
        /// The channel.
        channel: Channel,
        /// The client.
        client: Seq<char>,
        /// Its port.
        port: Arc<P>,
    },
    /// A client leaves a channel.
    Leaves {
        /// The channel.
        channel: Channel,
        /// The client.
        client: Seq<char>,
    },
    /// A surface is published.
    Published {
        /// Its id.
        surface_id: u32,
    },
    /// Clients turn out to be gone.
    Dropped {
        /// From the channel for info.
        info: Set<Seq<char>>,
        /// From the channel for frames.
        frames: Set<Seq<char>>,
    },
    /// The server stops.
    Stopped,
}

/// The server once that has happened.
pub open spec fn after<P>(server: ServerModel<P>, happening: Happening<P>) -> ServerModel<P> {
    match happening {
        Happening::Joins { channel, client, port } => server.join(channel, client, port),
        Happening::Leaves { channel, client } => server.leave(channel, client),
        Happening::Published { surface_id } => ServerModel { surface_id, ..server },
        Happening::Dropped { info, frames } => ServerModel {
            info: server.info.remove_keys(info),
            frames: server.frames.remove_keys(frames),
            ..server
        },
        Happening::Stopped => server.stopped(),
    }
}

/// Publishing a surface leaves the number of clients as it is, and dropping those that turn
/// out to be gone never raises it.
pub proof fn law_publishing_adds_no_clients<P>(
    server: ServerModel<P>,
    surface_id: u32,
    info: Set<Seq<char>>,
    frames: Set<Seq<char>>,
)
    requires
        server.info.dom().finite(),
        server.frames.dom().finite(),
    ensures
        ({
            let published = after(server, Happening::Published { surface_id });
            &&& published.count() == server.count()
            &&& after(published, Happening::Dropped { info, frames }).count() <= server.count()
        }),
{
    vstd::set_lib::lemma_len_subset(server.info.remove_keys(info).dom(), server.info.dom());
    vstd::set_lib::lemma_len_subset(server.frames.remove_keys(frames).dom(), server.frames.dom());
}

/// The surface of which each client for info was told last, once that has happened: `told`
/// says of which it was before. A client that joins anew has been told nothing but its
/// greeting.
pub open spec fn told_after<P>(
    server: ServerModel<P>,
    told: Map<Seq<char>, u32>,
    happening: Happening<P>,
) -> Map<Seq<char>, u32> {
    match happening {
        Happening::Joins { channel: Channel::Info, client, .. } => match server.greeting(
            Channel::Info,
        ) {
            Some(ClientMessage::UpdateSurfaceId(surface_id)) => told.insert(client, surface_id),
            _ => told.remove(client),
        },
        Happening::Published { surface_id } => if server.moves_to(surface_id) {
            told.union_prefer_right(server.info.dom().mk_map(|client: Seq<char>| surface_id))
        } else {
            told
        },
        _ => told,
    }
}

/// Every client for info knows the surface that is on show, if one is.
pub open spec fn all_informed<P>(server: ServerModel<P>, told: Map<Seq<char>, u32>) -> bool {
    server.surface_id != 0 ==> forall|client: Seq<char>| #[trigger]
        server.info.contains_key(client) ==> told.contains_key(client) && told[client]
            == server.surface_id
}

/// Whatever happens, every client for info keeps being told which surface is on show,
/// however late it joined.
pub proof fn law_info_clients_stay_informed<P>(
    server: ServerModel<P>,
    told: Map<Seq<char>, u32>,
    happening: Happening<P>,
)
    requires
        all_informed(server, told),
    ensures
        all_informed(after(server, happening), told_after(server, told, happening)),
{
    let later = after(server, happening);
    let told_later = told_after(server, told, happening);
    if later.surface_id != 0 {
        assert forall|client: Seq<char>| #[trigger]
            later.info.contains_key(client) implies told_later.contains_key(client)
            && told_later[client] == later.surface_id by {
            match happening {
                Happening::Joins { channel: Channel::Info, client: joined, .. } => {
                    if client != joined {
                        assert(server.info.contains_key(client));
                    }
                },
                _ => {
                    assert(server.info.contains_key(client));
                },
            }
        }
    }
}

/// The server, and what its clients for info were told last, once all of that has happened
/// one after the other.
pub open spec fn history<P>(
    server: ServerModel<P>,
    told: Map<Seq<char>, u32>,
    happenings: Seq<Happening<P>>,
) -> (ServerModel<P>, Map<Seq<char>, u32>)
    decreases happenings.len(),
{
    if happenings.len() == 0 {
        (server, told)
    } else {
        let (before, told_before) = history(server, told, happenings.drop_last());
        (
            after(before, happenings.last()),
            told_after(before, told_before, happenings.last()),
        )
    }
}

/// At no time in the life of a server that starts without a surface is there a client for
/// info that was not told of the surface on show; and the server is the same one throughout.
pub proof fn law_info_clients_are_always_informed<P>(
    server: ServerModel<P>,
    happenings: Seq<Happening<P>>,
)
    requires
        server.surface_id == 0,
    ensures
        ({
            let (now, told) = history(server, Map::empty(), happenings);
            &&& all_informed(now, told)
            &&& now.uuid == server.uuid
            &&& now.name == server.name
        }),
    decreases happenings.len(),
{
    if happenings.len() > 0 {
        law_info_clients_are_always_informed(server, happenings.drop_last());
        let (before, told) = history(server, Map::empty(), happenings.drop_last());
        law_info_clients_stay_informed(before, told, happenings.last());
        law_identity_is_kept(before, happenings.last());
    }
}

/// Whatever happens, a server keeps its identifier and its name.
pub proof fn law_identity_is_kept<P>(server: ServerModel<P>, happening: Happening<P>)
    ensures
        after(server, happening).uuid == server.uuid,
        after(server, happening).name == server.name,
{
}

} // verus!
