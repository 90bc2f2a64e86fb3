use std::sync::Arc;

use karakuri_syphon::announce::{broadcast_notification, Field, Notification};
use karakuri_syphon::clients::{dead_clients, ClientTable, Outgoing};
use karakuri_syphon::protocol::{Channel, ClientMessage};
use karakuri_syphon::server::{Action, CallbackStep, Publication, SyphonServer};
use karakuri_syphon::unsupported;

const ADD_INFO: i32 = 0;
const ADD_FRAMES: i32 = 1;
const REMOVE_INFO: i32 = 2;
const REMOVE_FRAMES: i32 = 3;

fn server() -> SyphonServer<u32> {
    SyphonServer::new("TestServer", "0000-1111")
}

fn name(client: &str) -> Option<String> {
    Some(client.to_string())
}

fn is_done(step: &CallbackStep<u32>) -> bool {
    matches!(step, CallbackStep::Done)
}

fn sent(step: CallbackStep<u32>) -> (String, u32, ClientMessage) {
    match step {
        CallbackStep::Send(outgoing) => (outgoing.client, *outgoing.port, outgoing.message),
        _ => panic!("nothing to send"),
    }
}

fn asked(step: CallbackStep<u32>) -> (Channel, String) {
    match step {
        CallbackStep::Connect { channel, client } => (channel, client),
        _ => panic!("nothing to open"),
    }
}

/// Who gets what through which port, in the order of the names.
fn listed(batch: &[Outgoing<u32>]) -> Vec<(String, u32, ClientMessage)> {
    let mut all: Vec<(String, u32, ClientMessage)> = batch
        .iter()
        .map(|outgoing| (outgoing.client.clone(), *outgoing.port, outgoing.message))
        .collect();
    all.sort_by(|a, b| a.0.cmp(&b.0));
    all
}

fn is_update(outgoing: &Outgoing<u32>) -> bool {
    matches!(outgoing.message, ClientMessage::UpdateSurfaceId(_))
}

/// The messages about the surface.
fn updates(publication: &Publication<u32>) -> &[Outgoing<u32>] {
    let messages = publication.messages();
    let count = messages.iter().filter(|outgoing| is_update(outgoing)).count();
    &messages[..count]
}

/// The messages about the frame, which come behind those about the surface.
fn frames(publication: &Publication<u32>) -> &[Outgoing<u32>] {
    let messages = publication.messages();
    let count = messages.iter().filter(|outgoing| is_update(outgoing)).count();
    assert!(messages[count..].iter().all(|outgoing| !is_update(outgoing)));
    &messages[count..]
}

/// The label of the queue and the announcement of a server that starts.
fn started(server: &SyphonServer<u32>) -> (String, Notification) {
    let mut actions = server.opened(true).ok().expect("create server");
    assert_eq!(actions.len(), 2);
    match (actions.remove(0), actions.remove(0)) {
        (Action::ServeOn { queue_label }, Action::Post(posted)) => (queue_label, posted),
        _ => panic!("other actions"),
    }
}

/// The notices and the notification of a server that stops, which closes its port in between.
fn stopped(server: &mut SyphonServer<u32>) -> (Vec<Outgoing<u32>>, Notification) {
    let mut actions = server.stop();
    let posted = match actions.pop() {
        Some(Action::Post(posted)) => posted,
        _ => panic!("no notification at the end"),
    };
    assert!(matches!(actions.pop(), Some(Action::ClosePort)));
    let notices = actions
        .into_iter()
        .map(|action| match action {
            Action::Send(outgoing) => outgoing,
            _ => panic!("no notice"),
        })
        .collect();
    (notices, posted)
}

/// A message comes in, and the port that it may take is `port`.
fn exchange(
    server: &mut SyphonServer<u32>,
    msgid: i32,
    client: &str,
    port: Option<u32>,
) -> CallbackStep<u32> {
    match server.message_callback(msgid, name(client)) {
        CallbackStep::Connect { channel, client } => {
            server.connected(channel, client, port.map(Arc::new))
        }
        step => step,
    }
}

#[test]
fn test_syphon_server_lifecycle() {
    let mut server: SyphonServer<u32> = SyphonServer::new("TestServer", "0000-1111");
    assert!(server.opened(true).is_ok());
    assert_eq!(server.client_count(), 0);
    server.publish_surface(42);
    server.publish_surface(42);
    server.publish_surface(43);
    assert_eq!(server.client_count(), 0);
    server.stop();
}

#[test]
fn test_message_port_sending() {
    let mut server = server();
    exchange(&mut server, ADD_INFO, "info.v002.Syphon.TestPort.12345", Some(5));
    exchange(&mut server, ADD_FRAMES, "info.v002.Syphon.TestPort.12345", None);

    let publication = server.publish_surface(4242);
    assert_eq!(publication.messages().len(), 2);
    let update = &publication.messages()[0];
    assert_eq!(update.client, "info.v002.Syphon.TestPort.12345");
    assert_eq!(update.message.msgid(), 2);
    assert_eq!(update.message.payload(), Some(4242));

    let frame = &publication.messages()[1];
    assert_eq!(frame.client, "info.v002.Syphon.TestPort.12345");
    assert_eq!(frame.message.msgid(), 1);
    assert_eq!(frame.message.payload(), None);
}

#[test]
fn new_server_is_empty() {
    let server = server();
    assert_eq!(server.uuid(), "info.v002.Syphon.0000-1111");
    assert_eq!(server.name(), "TestServer");
    assert_eq!(server.surface_id(), 0);
    assert_eq!(server.client_count(), 0);
}

#[test]
fn opening_succeeds_with_a_port() {
    let (queue_label, announcement) = started(&server());
    assert_eq!(queue_label, "info.v002.Syphon.0000-1111.dispatch");
    assert_eq!(announcement.name, "info.v002.Syphon.ServerAnnounce");
    assert_eq!(announcement.object, "info.v002.Syphon.0000-1111");
}

#[test]
fn opening_fails_without_a_port() {
    assert_eq!(
        server().opened(false).err().unwrap(),
        "failed to create CFMessagePort with name `info.v002.Syphon.0000-1111`"
    );
}

#[test]
fn description_of_a_server() {
    let (_, posted) = started(&server());
    let keys: Vec<&str> = posted.user_info.iter().map(|entry| entry.0.as_str()).collect();
    assert_eq!(
        keys,
        vec![
            "SyphonServerDescriptionDictionaryVersionKey",
            "SyphonServerDescriptionNameKey",
            "SyphonServerDescriptionUUIDKey",
            "SyphonServerDescriptionAppNameKey",
            "SyphonServerDescriptionSurfacesKey",
        ]
    );
    assert!(posted.deliver_immediately);
    assert!(matches!(&posted.user_info[0].1, Field::Number(0)));
    assert!(matches!(&posted.user_info[1].1, Field::Text(text) if text == "TestServer"));
    assert!(
        matches!(&posted.user_info[2].1, Field::Text(text) if text == "info.v002.Syphon.0000-1111")
    );
    assert!(matches!(&posted.user_info[3].1, Field::Text(text) if text == "Karakuri"));
    match &posted.user_info[4].1 {
        Field::Records(records) => assert_eq!(
            records,
            &vec![(
                "SyphonSurfaceType".to_string(),
                "SyphonSurfaceTypeIOSurface".to_string()
            )]
        ),
        _ => panic!("no records"),
    }
}

#[test]
fn joining_needs_a_port() {
    let mut server = server();
    let step = server.message_callback(ADD_INFO, name("a"));
    assert_eq!(asked(step), (Channel::Info, "a".to_string()));
    assert_eq!(server.client_count(), 0);
    assert!(is_done(&server.connected(Channel::Info, "a".to_string(), None)));
    assert_eq!(server.client_count(), 0);
    assert!(is_done(&server.connected(Channel::Info, "a".to_string(), Some(Arc::new(1)))));
    assert_eq!(server.client_count(), 1);
}

#[test]
fn frames_use_the_port_for_info() {
    let mut server = server();
    exchange(&mut server, ADD_INFO, "a", Some(7));
    assert!(is_done(&server.message_callback(ADD_FRAMES, name("a"))));
    assert_eq!(
        listed(frames(&server.publish_surface(0))),
        vec![("a".to_string(), 7, ClientMessage::NewFrame)]
    );
    let step = server.message_callback(ADD_FRAMES, name("b"));
    assert_eq!(asked(step), (Channel::Frames, "b".to_string()));
}

#[test]
fn asking_for_info_always_opens_a_port() {
    let mut server = server();
    exchange(&mut server, ADD_INFO, "a", Some(7));
    let step = server.message_callback(ADD_INFO, name("a"));
    assert_eq!(asked(step), (Channel::Info, "a".to_string()));
    server.connected(Channel::Info, "a".to_string(), Some(Arc::new(8)));
    assert_eq!(server.client_count(), 1);
    assert_eq!(
        listed(updates(&server.publish_surface(1))),
        vec![("a".to_string(), 8, ClientMessage::UpdateSurfaceId(1))]
    );
}

#[test]
fn late_clients_are_greeted() {
    let mut server = server();
    server.publish_surface(42);
    assert_eq!(
        sent(exchange(&mut server, ADD_INFO, "a", Some(7))),
        ("a".to_string(), 7, ClientMessage::UpdateSurfaceId(42))
    );
    assert_eq!(
        sent(exchange(&mut server, ADD_FRAMES, "a", None)),
        ("a".to_string(), 7, ClientMessage::NewFrame)
    );
    assert_eq!(
        sent(exchange(&mut server, ADD_FRAMES, "b", Some(9))),
        ("b".to_string(), 9, ClientMessage::NewFrame)
    );
    assert_eq!(server.client_count(), 2);
}

#[test]
fn early_clients_are_not_greeted() {
    let mut server = server();
    assert!(is_done(&exchange(&mut server, ADD_INFO, "a", Some(7))));
    assert!(is_done(&exchange(&mut server, ADD_FRAMES, "a", None)));
    server.publish_surface(5);
    server.publish_surface(0);
    assert!(is_done(&exchange(&mut server, ADD_INFO, "b", Some(8))));
}

#[test]
fn leaving_one_channel_keeps_the_other() {
    let mut server = server();
    exchange(&mut server, ADD_INFO, "a", Some(7));
    exchange(&mut server, ADD_FRAMES, "a", None);
    assert!(is_done(&server.message_callback(REMOVE_INFO, name("a"))));
    assert_eq!(server.client_count(), 1);
    let publication = server.publish_surface(3);
    assert!(updates(&publication).is_empty());
    assert_eq!(frames(&publication).len(), 1);
    assert!(is_done(&server.message_callback(REMOVE_FRAMES, name("a"))));
    assert_eq!(server.client_count(), 0);
    assert!(is_done(&server.message_callback(REMOVE_FRAMES, name("a"))));
}

#[test]
fn other_messages_are_ignored() {
    let mut server = server();
    exchange(&mut server, ADD_INFO, "a", Some(7));
    assert!(is_done(&server.message_callback(4, name("b"))));
    assert!(is_done(&server.message_callback(-1, name("a"))));
    assert!(is_done(&server.message_callback(ADD_INFO, None)));
    assert!(is_done(&server.message_callback(ADD_FRAMES, None)));
    assert!(is_done(&server.message_callback(REMOVE_INFO, None)));
    assert!(is_done(&server.message_callback(REMOVE_FRAMES, None)));
    assert_eq!(server.client_count(), 1);
}

#[test]
fn surface_is_news_once() {
    let mut server = server();
    exchange(&mut server, ADD_INFO, "a", Some(1));
    exchange(&mut server, ADD_INFO, "b", Some(2));
    exchange(&mut server, ADD_FRAMES, "c", Some(3));
    let first = server.publish_surface(42);
    assert_eq!(
        listed(updates(&first)),
        vec![
            ("a".to_string(), 1, ClientMessage::UpdateSurfaceId(42)),
            ("b".to_string(), 2, ClientMessage::UpdateSurfaceId(42)),
        ]
    );
    assert_eq!(listed(frames(&first)), vec![("c".to_string(), 3, ClientMessage::NewFrame)]);
    let again = server.publish_surface(42);
    assert!(updates(&again).is_empty());
    assert_eq!(frames(&again).len(), 1);
    let nothing = server.publish_surface(0);
    assert!(updates(&nothing).is_empty());
    assert_eq!(frames(&nothing).len(), 1);
    assert_eq!(server.surface_id(), 0);
    assert_eq!(updates(&server.publish_surface(42)).len(), 2);
}

#[test]
fn dead_clients_are_dropped() {
    let mut server = server();
    exchange(&mut server, ADD_INFO, "a", Some(1));
    exchange(&mut server, ADD_INFO, "b", Some(2));
    exchange(&mut server, ADD_FRAMES, "a", None);
    exchange(&mut server, ADD_FRAMES, "b", None);
    let publication = server.publish_surface(9);
    let codes: Vec<i32> = publication
        .messages()
        .iter()
        .map(|outgoing| match (is_update(outgoing), outgoing.client.as_str()) {
            (true, "a") => -3,
            (true, _) => -1,
            (false, "a") => 0,
            (false, _) => -5,
        })
        .collect();
    let dropped = server.published(&publication, &codes);
    assert_eq!(dropped.info, vec!["a".to_string()]);
    assert!(dropped.frames.is_empty());
    let after = server.publish_surface(10);
    assert_eq!(
        listed(updates(&after)),
        vec![("b".to_string(), 2, ClientMessage::UpdateSurfaceId(10))]
    );
    assert_eq!(frames(&after).len(), 2);
}

#[test]
fn count_is_that_of_the_busier_channel() {
    let mut server = server();
    exchange(&mut server, ADD_INFO, "a", Some(1));
    exchange(&mut server, ADD_INFO, "b", Some(2));
    exchange(&mut server, ADD_FRAMES, "c", Some(3));
    assert_eq!(server.client_count(), 2);
    exchange(&mut server, ADD_FRAMES, "d", Some(4));
    exchange(&mut server, ADD_FRAMES, "e", Some(5));
    assert_eq!(server.client_count(), 3);
}

#[test]
fn stopping_tells_everyone_once() {
    let mut server = server();
    exchange(&mut server, ADD_FRAMES, "a", Some(1));
    exchange(&mut server, ADD_INFO, "a", Some(2));
    exchange(&mut server, ADD_INFO, "b", Some(3));
    exchange(&mut server, ADD_FRAMES, "c", Some(4));
    let (notices, notification) = stopped(&mut server);
    assert_eq!(
        listed(&notices),
        vec![
            ("a".to_string(), 2, ClientMessage::RetireServer),
            ("b".to_string(), 3, ClientMessage::RetireServer),
            ("c".to_string(), 4, ClientMessage::RetireServer),
        ]
    );
    assert_eq!(notification.name, "info.v002.Syphon.ServerRetire");
    assert_eq!(notification.object, "info.v002.Syphon.0000-1111");
    assert!(notification.deliver_immediately);
    assert_eq!(server.client_count(), 0);
    let (notices, notification) = stopped(&mut server);
    assert!(notices.is_empty());
    assert_eq!(notification.name, "info.v002.Syphon.ServerRetire");
}

#[test]
fn a_table_holds_each_client_once() {
    let mut table: ClientTable<u32> = ClientTable::new();
    let (a, b) = ("a".to_string(), "b".to_string());
    table.insert(a.clone(), Arc::new(1));
    table.insert(b.clone(), Arc::new(2));
    table.insert(a.clone(), Arc::new(3));
    assert_eq!(table.len(), 2);
    assert_eq!(table.get(&a), Some(Arc::new(3)));
    table.remove(&a);
    assert_eq!(table.get(&a), None);
    assert_eq!(table.get(&b), Some(Arc::new(2)));
    table.remove_all(&vec![a, b.clone(), b]);
    assert_eq!(table.len(), 0);
}

#[test]
fn no_server_without_syphon() {
    assert_eq!(
        unsupported::SyphonServer::new("TestServer").unwrap_err(),
        "Syphon is only supported on macOS"
    );
    let mut server = unsupported::SyphonServer;
    server.publish_surface(42);
    assert_eq!(server.client_count(), 0);
    server.stop();
}

#[test]
fn servers_are_set_apart() {
    let one: SyphonServer<u32> = SyphonServer::new("Stage", "1");
    let two: SyphonServer<u32> = SyphonServer::new("Stage", "2");
    let (one_label, one_posted) = started(&one);
    let (two_label, two_posted) = started(&two);
    assert_eq!(one_label, "info.v002.Syphon.1.dispatch");
    assert_eq!(two_label, "info.v002.Syphon.2.dispatch");
    assert_ne!(one_posted.object, two_posted.object);
}

#[test]
fn identity_is_kept() {
    let mut server = server();
    exchange(&mut server, ADD_INFO, "a", Some(1));
    let (_, announced) = started(&server);
    let publication = server.publish_surface(4);
    server.published(&publication, &vec![-3]);
    server.message_callback(REMOVE_INFO, name("a"));
    let (_, retired) = stopped(&mut server);
    assert_eq!(retired.object, announced.object);
    assert_eq!(format!("{:?}", retired.user_info), format!("{:?}", announced.user_info));
    assert_eq!(server.uuid(), "info.v002.Syphon.0000-1111");
    assert_eq!(server.name(), "TestServer");
    assert_eq!(server.surface_id(), 4);
}

#[test]
fn info_clients_know_the_surface() {
    let mut server = server();
    exchange(&mut server, ADD_INFO, "early", Some(1));
    let told = listed(updates(&server.publish_surface(7)));
    assert_eq!(told, vec![("early".to_string(), 1, ClientMessage::UpdateSurfaceId(7))]);
    let greeting = sent(exchange(&mut server, ADD_INFO, "late", Some(2)));
    assert_eq!(greeting, ("late".to_string(), 2, ClientMessage::UpdateSurfaceId(7)));
    server.publish_surface(0);
    assert!(is_done(&exchange(&mut server, ADD_INFO, "between", Some(3))));
    let told = listed(updates(&server.publish_surface(7)));
    assert_eq!(
        told,
        vec![
            ("between".to_string(), 3, ClientMessage::UpdateSurfaceId(7)),
            ("early".to_string(), 1, ClientMessage::UpdateSurfaceId(7)),
            ("late".to_string(), 2, ClientMessage::UpdateSurfaceId(7)),
        ]
    );
}

#[test]
fn dead_clients_come_in_order() {
    let mut table: ClientTable<u32> = ClientTable::new();
    for (port, client) in ["a", "b", "c", "d"].iter().enumerate() {
        table.insert(client.to_string(), Arc::new(port as u32));
    }
    let batch = table.address(ClientMessage::NewFrame);
    let expected: Vec<String> =
        vec![batch[1].client.clone(), batch[2].client.clone()];
    assert_eq!(dead_clients(&batch, &vec![0, -3, -3, -4], 0, 4), expected);
    assert_eq!(dead_clients(&batch, &vec![-3, -3, -3, -3], 1, 3), expected);
    assert!(dead_clients(&batch, &vec![-3, -3, -3, -3], 2, 2).is_empty());
}

#[test]
fn codes_prune_the_channel_they_are_about() {
    let mut server = server();
    exchange(&mut server, ADD_INFO, "a", Some(1));
    exchange(&mut server, ADD_FRAMES, "a", None);
    exchange(&mut server, ADD_FRAMES, "b", Some(2));
    let publication = server.publish_surface(6);
    let codes: Vec<i32> = publication
        .messages()
        .iter()
        .map(|outgoing| if is_update(outgoing) { 0 } else { -3 })
        .collect();
    let mut dropped = server.published(&publication, &codes);
    dropped.frames.sort();
    assert!(dropped.info.is_empty());
    assert_eq!(dropped.frames, vec!["a".to_string(), "b".to_string()]);
    assert_eq!(server.client_count(), 1);
    assert!(frames(&server.publish_surface(6)).is_empty());
}

#[test]
fn one_client_changes_the_count_by_one_at_most() {
    let mut server = server();
    exchange(&mut server, ADD_INFO, "a", Some(1));
    assert_eq!(server.client_count(), 1);
    exchange(&mut server, ADD_FRAMES, "b", Some(2));
    assert_eq!(server.client_count(), 1);
    exchange(&mut server, ADD_FRAMES, "a", None);
    assert_eq!(server.client_count(), 2);
    server.message_callback(REMOVE_FRAMES, name("b"));
    assert_eq!(server.client_count(), 1);
}

#[test]
fn broadcast_of_a_server() {
    let posted = broadcast_notification("info.v002.Syphon.ServerAnnounce", "u1", "TestServer");
    assert_eq!(posted.name, "info.v002.Syphon.ServerAnnounce");
    assert_eq!(posted.object, "u1");
    assert_eq!(posted.user_info.len(), 5);
    assert!(matches!(&posted.user_info[1].1, Field::Text(text) if text == "TestServer"));
    assert!(matches!(&posted.user_info[2].1, Field::Text(text) if text == "u1"));
    assert!(posted.deliver_immediately);
}

#[test]
fn publishing_adds_no_clients() {
    let mut server = server();
    exchange(&mut server, ADD_FRAMES, "a", Some(1));
    exchange(&mut server, ADD_FRAMES, "b", Some(2));
    let publication = server.publish_surface(6);
    assert_eq!(server.client_count(), 2);
    server.published(&publication, &vec![0, -3]);
    assert_eq!(server.client_count(), 1);
}
