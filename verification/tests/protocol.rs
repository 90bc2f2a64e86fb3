use karakuri_syphon::protocol::{
    client_request, Channel, ClientMessage, ClientRequest, SendOutcome, NOT_PREPARED,
    PORT_IS_INVALID, PORT_SUCCESS, SYPHON_MSG_ADD_CLIENT_FOR_FRAMES,
    SYPHON_MSG_ADD_CLIENT_FOR_INFO, SYPHON_MSG_NEW_FRAME, SYPHON_MSG_REMOVE_CLIENT_FOR_FRAMES,
    SYPHON_MSG_REMOVE_CLIENT_FOR_INFO, SYPHON_MSG_RETIRE_SERVER, SYPHON_MSG_UPDATE_SURFACE_ID,
};

#[test]
fn message_numbers() {
    assert_eq!(SYPHON_MSG_ADD_CLIENT_FOR_INFO, 0);
    assert_eq!(SYPHON_MSG_ADD_CLIENT_FOR_FRAMES, 1);
    assert_eq!(SYPHON_MSG_REMOVE_CLIENT_FOR_INFO, 2);
    assert_eq!(SYPHON_MSG_REMOVE_CLIENT_FOR_FRAMES, 3);
    assert_eq!(SYPHON_MSG_NEW_FRAME, 1);
    assert_eq!(SYPHON_MSG_UPDATE_SURFACE_ID, 2);
    assert_eq!(SYPHON_MSG_RETIRE_SERVER, 3);
    assert_eq!((PORT_SUCCESS, NOT_PREPARED, PORT_IS_INVALID), (0, -1, -3));
}

#[test]
fn requests_are_read_by_number() {
    assert_eq!(client_request(0), Some(ClientRequest::Add(Channel::Info)));
    assert_eq!(client_request(1), Some(ClientRequest::Add(Channel::Frames)));
    assert_eq!(client_request(2), Some(ClientRequest::Remove(Channel::Info)));
    assert_eq!(client_request(3), Some(ClientRequest::Remove(Channel::Frames)));
    assert_eq!(client_request(4), None);
    assert_eq!(client_request(-1), None);
    assert_eq!(client_request(i32::MIN), None);
}

#[test]
fn messages_carry_number_and_payload() {
    let update = ClientMessage::UpdateSurfaceId(4242);
    assert_eq!((update.msgid(), update.payload()), (2, Some(4242)));
    assert_eq!((ClientMessage::NewFrame.msgid(), ClientMessage::NewFrame.payload()), (1, None));
    let retire = ClientMessage::RetireServer;
    assert_eq!((retire.msgid(), retire.payload()), (3, None));
}

#[test]
fn outcomes_have_codes() {
    assert_eq!(SendOutcome::NotArchived.code(), -1);
    assert_eq!(SendOutcome::NotCopied.code(), -1);
    assert_eq!(SendOutcome::Sent(-5).code(), -5);
    assert!(SendOutcome::Sent(0).delivered());
    assert!(!SendOutcome::Sent(-3).delivered());
    assert!(!SendOutcome::NotArchived.delivered());
}
