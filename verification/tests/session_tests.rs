use localsend_core::progress::FileProgress;
use localsend_core::protos::{
    AppState, ClientMessage, DeviceInfo, FileInfo, FileOffer, FileType, ReceiveSession,
    ReceiveStatus, SendInfo, SendRequest, ServerMessage,
};
use localsend_core::session::{
    begin_send_file, begin_send_request, finish_send_file, handle_cancel_request,
    handle_send_request, join_path, reply_for_selection, resolve_send_request, RequestError,
};

fn peer(alias: &str) -> DeviceInfo {
    DeviceInfo {
        alias: alias.to_string(),
        device_type: "desktop".to_string(),
        device_model: None,
        ip: "192.168.1.7".to_string(),
        port: 53317,
    }
}

fn offer(id: &str, size: usize, name: &str, file_type: FileType) -> FileOffer {
    FileOffer {
        file_id: id.to_string(),
        info: FileInfo {
            id: id.to_string(),
            size,
            file_name: name.to_string(),
            file_type,
        },
    }
}

fn one_file_request() -> SendRequest {
    SendRequest {
        device_info: peer("peer"),
        files: vec![offer("f1", 5, "a.txt", FileType::Text)],
    }
}

fn three_file_request() -> SendRequest {
    SendRequest {
        device_info: peer("peer"),
        files: vec![
            offer("f1", 5, "a.txt", FileType::Text),
            offer("f2", 7, "b.pdf", FileType::Pdf),
            offer("f3", 9, "c.png", FileType::Image),
        ],
    }
}

fn allow(ids: &[&str]) -> Option<ClientMessage> {
    Some(ClientMessage::Allow(ids.iter().map(|s| s.to_string()).collect()))
}

#[test]
fn happy_path_one_file() {
    let mut state = AppState::new("./test_files/".to_string());
    let mut outbox: Vec<ServerMessage> = Vec::new();
    let req = one_file_request();

    let toks = match handle_send_request(&mut state, &req, allow(&["f1"]), &mut outbox) {
        Ok(t) => t,
        Err(e) => panic!("expected 200, got {:?}", e),
    };
    assert_eq!(toks.len(), 1);
    assert_eq!(toks[0].file_id, "f1");
    let token = toks[0].token.clone();
    assert!(uuid::Uuid::parse_str(&token).is_ok());
    assert_eq!(outbox.len(), 1);
    assert!(matches!(&outbox[0], ServerMessage::SendRequest(r) if r.device_info.alias == "peer"));
    assert!(state.receive_session.is_some());

    let info = SendInfo {
        file_id: "f1".to_string(),
        token,
    };
    let path = match begin_send_file(&mut state, &info, &mut outbox) {
        Ok(p) => p,
        Err(e) => panic!("expected 200, got {:?}", e),
    };
    assert_eq!(path, "./test_files/a.txt");
    assert_eq!(outbox.len(), 2);
    assert!(matches!(&outbox[1], ServerMessage::SendFileRequest(id, n) if id == "f1" && *n == 0));

    let body: &[u8] = b"HELLO";
    let mut progress = FileProgress::new("f1".to_string());
    assert!(progress.record_chunk(body.len(), &mut outbox));
    assert_eq!(progress.bytes_received, 5);
    assert!(matches!(&outbox[2], ServerMessage::SendFileRequest(id, n) if id == "f1" && *n == 5));

    assert!(finish_send_file(&mut state, &"f1".to_string(), true).is_ok());
    assert!(state.receive_session.is_none());
}

#[test]
fn decline_answers_403_and_leaves_no_session() {
    let mut state = AppState::new("./test_files/".to_string());
    let mut outbox: Vec<ServerMessage> = Vec::new();
    let req = one_file_request();

    match handle_send_request(&mut state, &req, Some(ClientMessage::Decline), &mut outbox) {
        Err(e) => {
            assert_eq!(e, RequestError::Declined);
            assert_eq!(e.status_code(), 403);
            assert_eq!(e.message(), "User declined the request");
        },
        Ok(_) => panic!("expected 403"),
    }
    assert!(state.receive_session.is_none());
    // The request reached the front end before the decline came back.
    assert_eq!(outbox.len(), 1);
    assert!(matches!(&outbox[0], ServerMessage::SendRequest(_)));

    // A subsequent request goes through.
    assert!(handle_send_request(&mut state, &req, allow(&["f1"]), &mut outbox).is_ok());
}

#[test]
fn closed_channel_counts_as_decline() {
    let mut state = AppState::new("./test_files/".to_string());
    let mut outbox: Vec<ServerMessage> = Vec::new();
    let req = one_file_request();
    match handle_send_request(&mut state, &req, None, &mut outbox) {
        Err(e) => assert_eq!(e, RequestError::Declined),
        Ok(_) => panic!("expected 403"),
    }
    assert!(state.receive_session.is_none());
}

#[test]
fn partial_accept_two_of_three() {
    let mut state = AppState::new("./test_files/".to_string());
    let mut outbox: Vec<ServerMessage> = Vec::new();
    let req = three_file_request();

    let toks = handle_send_request(&mut state, &req, allow(&["f1", "f3"]), &mut outbox).unwrap();
    let ids: Vec<&str> = toks.iter().map(|t| t.file_id.as_str()).collect();
    assert_eq!(ids, vec!["f1", "f3"]);
    assert_ne!(toks[0].token, toks[1].token);

    // Streaming the file that was not accepted is refused with 500.
    let info = SendInfo {
        file_id: "f2".to_string(),
        token: toks[0].token.clone(),
    };
    let before = outbox.len();
    match begin_send_file(&mut state, &info, &mut outbox) {
        Err(e) => {
            assert_eq!(e, RequestError::UnknownFileId);
            assert_eq!(e.status_code(), 500);
        },
        Ok(_) => panic!("expected 500"),
    }
    assert!(state.receive_session.is_some());
    // The start-of-file event went out before the id was looked up.
    assert_eq!(outbox.len(), before + 1);
    assert!(matches!(&outbox[before], ServerMessage::SendFileRequest(id, n) if id == "f2" && *n == 0));
}

#[test]
fn conflict_second_request_blocked() {
    let mut state = AppState::new("./test_files/".to_string());
    let mut outbox: Vec<ServerMessage> = Vec::new();
    let req = one_file_request();

    assert!(handle_send_request(&mut state, &req, allow(&["f1"]), &mut outbox).is_ok());
    let published = outbox.len();

    let req2 = SendRequest {
        device_info: peer("second"),
        files: vec![offer("g1", 3, "d.txt", FileType::Text)],
    };
    match handle_send_request(&mut state, &req2, allow(&["g1"]), &mut outbox) {
        Err(e) => {
            assert_eq!(e, RequestError::Blocked);
            assert_eq!(e.status_code(), 409);
            assert_eq!(e.message(), "Blocked by another sesssion");
        },
        Ok(_) => panic!("expected 409"),
    }
    // The refused request published nothing.
    assert_eq!(outbox.len(), published);
}

#[test]
fn cancel_mid_stream() {
    let mut state = AppState::new("./test_files/".to_string());
    let mut outbox: Vec<ServerMessage> = Vec::new();
    let req = one_file_request();

    let toks = handle_send_request(&mut state, &req, allow(&["f1"]), &mut outbox).unwrap();
    let info = SendInfo {
        file_id: "f1".to_string(),
        token: toks[0].token.clone(),
    };
    assert!(begin_send_file(&mut state, &info, &mut outbox).is_ok());

    // Cancel arrives while the body is streaming.
    let before = outbox.len();
    assert!(handle_cancel_request(&mut state, &mut outbox).is_ok());
    assert_eq!(outbox.len(), before + 1);
    assert!(matches!(&outbox[before], ServerMessage::CancelSession));
    assert!(state.receive_session.is_none());

    // The in-flight transfer's post-flight finds the session gone: 500.
    match finish_send_file(&mut state, &"f1".to_string(), true) {
        Err(e) => {
            assert_eq!(e, RequestError::SessionCancelled);
            assert_eq!(e.status_code(), 500);
        },
        Ok(_) => panic!("expected 500"),
    }

    // So does the next send.
    match begin_send_file(&mut state, &info, &mut outbox) {
        Err(e) => assert_eq!(e, RequestError::NoActiveSession),
        Ok(_) => panic!("expected 500"),
    }
}

#[test]
fn cancel_without_session_answers_400() {
    let mut state = AppState::new("./test_files/".to_string());
    let mut outbox: Vec<ServerMessage> = Vec::new();
    match handle_cancel_request(&mut state, &mut outbox) {
        Err(e) => {
            assert_eq!(e, RequestError::NoSessionToCancel);
            assert_eq!(e.status_code(), 400);
            assert_eq!(e.message(), "Cannot cancel a non existant session");
        },
        Ok(_) => panic!("expected 400"),
    }
    assert!(outbox.is_empty());
}

#[test]
fn send_without_session_answers_500() {
    let mut state = AppState::new("./test_files/".to_string());
    let mut outbox: Vec<ServerMessage> = Vec::new();
    let info = SendInfo {
        file_id: "f1".to_string(),
        token: "t".to_string(),
    };
    match begin_send_file(&mut state, &info, &mut outbox) {
        Err(e) => {
            assert_eq!(e, RequestError::NoActiveSession);
            assert_eq!(e.status_code(), 500);
            assert_eq!(e.message(), "Call to /send without requesting a send");
        },
        Ok(_) => panic!("expected 500"),
    }
    assert!(outbox.is_empty());
}

#[test]
fn wrong_token_answers_403() {
    let mut state = AppState::new("./test_files/".to_string());
    let mut outbox: Vec<ServerMessage> = Vec::new();
    let req = one_file_request();
    let toks = handle_send_request(&mut state, &req, allow(&["f1"]), &mut outbox).unwrap();

    let mut wrong = toks[0].token.clone();
    wrong.push('x');
    let info = SendInfo {
        file_id: "f1".to_string(),
        token: wrong,
    };
    match begin_send_file(&mut state, &info, &mut outbox) {
        Err(e) => {
            assert_eq!(e, RequestError::WrongToken);
            assert_eq!(e.status_code(), 403);
        },
        Ok(_) => panic!("expected 403"),
    }
}

#[test]
fn unknown_allowed_ids_are_skipped() {
    let mut state = AppState::new("./test_files/".to_string());
    let mut outbox: Vec<ServerMessage> = Vec::new();
    let req = one_file_request();
    let toks = handle_send_request(&mut state, &req, allow(&["zz", "f1"]), &mut outbox).unwrap();
    assert_eq!(toks.len(), 1);
    assert_eq!(toks[0].file_id, "f1");
}

#[test]
fn duplicate_allowed_ids_get_one_token() {
    let mut state = AppState::new("./test_files/".to_string());
    let mut outbox: Vec<ServerMessage> = Vec::new();
    let req = one_file_request();
    let toks = handle_send_request(&mut state, &req, allow(&["f1", "f1"]), &mut outbox).unwrap();
    assert_eq!(toks.len(), 1);
}

#[test]
fn empty_allow_creates_empty_session() {
    let mut state = AppState::new("./test_files/".to_string());
    let mut outbox: Vec<ServerMessage> = Vec::new();
    let req = one_file_request();
    let toks = handle_send_request(&mut state, &req, allow(&[]), &mut outbox).unwrap();
    assert!(toks.is_empty());
    assert!(state.receive_session.is_some());
}

#[test]
fn session_stays_open_until_every_file_is_terminal() {
    let mut state = AppState::new("./test_files/".to_string());
    let mut outbox: Vec<ServerMessage> = Vec::new();
    let req = three_file_request();
    let toks = handle_send_request(&mut state, &req, allow(&["f1", "f3"]), &mut outbox).unwrap();

    let info1 = SendInfo {
        file_id: "f1".to_string(),
        token: toks[0].token.clone(),
    };
    assert!(begin_send_file(&mut state, &info1, &mut outbox).is_ok());
    assert!(finish_send_file(&mut state, &"f1".to_string(), true).is_ok());
    // f3 is still waiting: the session survives.
    assert!(state.receive_session.is_some());

    let info3 = SendInfo {
        file_id: "f3".to_string(),
        token: toks[1].token.clone(),
    };
    assert!(begin_send_file(&mut state, &info3, &mut outbox).is_ok());
    // A failed stream still counts as terminal.
    assert!(finish_send_file(&mut state, &"f3".to_string(), false).is_ok());
    assert!(state.receive_session.is_none());
}

#[test]
fn file_status_tracks_the_stream() {
    let mut state = AppState::new("./test_files/".to_string());
    let mut outbox: Vec<ServerMessage> = Vec::new();
    let req = three_file_request();
    let toks = handle_send_request(&mut state, &req, allow(&["f1", "f3"]), &mut outbox).unwrap();
    {
        let sess = state.receive_session.as_ref().unwrap();
        assert_eq!(sess.status, ReceiveStatus::Waiting);
        assert_eq!(sess.files.len(), 2);
        assert!(sess.files.iter().all(|f| f.status == ReceiveStatus::Waiting));
        assert_eq!(sess.files[0].token, toks[0].token);
        assert_eq!(sess.files[1].token, toks[1].token);
    }
    let info1 = SendInfo {
        file_id: "f1".to_string(),
        token: toks[0].token.clone(),
    };
    assert!(begin_send_file(&mut state, &info1, &mut outbox).is_ok());
    {
        let sess = state.receive_session.as_ref().unwrap();
        assert_eq!(sess.status, ReceiveStatus::Receiving);
        assert_eq!(sess.files[0].status, ReceiveStatus::Receiving);
        assert_eq!(sess.files[1].status, ReceiveStatus::Waiting);
    }
    assert!(finish_send_file(&mut state, &"f1".to_string(), false).is_ok());
    {
        let sess = state.receive_session.as_ref().unwrap();
        assert_eq!(sess.files[0].status, ReceiveStatus::FinishedWithErrors);
    }
}

#[test]
fn begin_and_resolve_compose_like_the_handler() {
    let mut state = AppState::new("./test_files/".to_string());
    let mut outbox: Vec<ServerMessage> = Vec::new();
    let req = one_file_request();
    assert!(begin_send_request(&state, &req, &mut outbox).is_ok());
    assert_eq!(outbox.len(), 1);
    let toks = resolve_send_request(&mut state, &req, allow(&["f1"])).unwrap();
    assert_eq!(toks.len(), 1);
    assert!(state.receive_session.is_some());
}

#[test]
fn receive_session_new_is_empty_and_waiting() {
    let s = ReceiveSession::new(peer("peer"), "./test_files/".to_string());
    assert!(s.files.is_empty());
    assert_eq!(s.status, ReceiveStatus::Waiting);
    assert_eq!(s.destination_directory, "./test_files/");
    assert_eq!(s.sender.alias, "peer");
}

#[test]
fn reply_for_selection_declines_on_empty() {
    assert!(matches!(reply_for_selection(vec![]), ClientMessage::Decline));
    match reply_for_selection(vec!["f1".to_string(), "f2".to_string()]) {
        ClientMessage::Allow(ids) => assert_eq!(ids, vec!["f1".to_string(), "f2".to_string()]),
        ClientMessage::Decline => panic!("expected Allow"),
    }
}

#[test]
fn join_path_inserts_exactly_one_separator() {
    assert_eq!(join_path("./test_files/", "a.txt"), "./test_files/a.txt");
    assert_eq!(join_path("./test_files", "a.txt"), "./test_files/a.txt");
    assert_eq!(join_path("", "a.txt"), "/a.txt");
}

#[test]
fn error_statuses_match_the_protocol() {
    assert_eq!(RequestError::Blocked.status_code(), 409);
    assert_eq!(RequestError::Declined.status_code(), 403);
    assert_eq!(RequestError::NoSessionToCancel.status_code(), 400);
    assert_eq!(RequestError::NoActiveSession.status_code(), 500);
    assert_eq!(RequestError::UnknownFileId.status_code(), 500);
    assert_eq!(RequestError::WrongToken.status_code(), 403);
    assert_eq!(RequestError::SessionCancelled.status_code(), 500);
    assert_eq!(
        RequestError::SessionCancelled.message(),
        "Session might have been cancelled while receiving file"
    );
}

#[test]
fn tokens_are_version_4_uuids() {
    let mut state = AppState::new("./test_files/".to_string());
    let mut outbox: Vec<ServerMessage> = Vec::new();
    let req = three_file_request();
    let toks = handle_send_request(&mut state, &req, allow(&["f1", "f2", "f3"]), &mut outbox)
        .unwrap();
    assert_eq!(toks.len(), 3);
    for t in &toks {
        let parsed = uuid::Uuid::parse_str(&t.token).expect("token must parse as a UUID");
        assert_eq!(parsed.get_version_num(), 4);
        assert_eq!(t.token, t.token.to_lowercase());
        assert_eq!(t.token.len(), 36);
    }
    // Unique within one response.
    assert_ne!(toks[0].token, toks[1].token);
    assert_ne!(toks[0].token, toks[2].token);
    assert_ne!(toks[1].token, toks[2].token);
}
