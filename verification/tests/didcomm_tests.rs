use affinidi_messaging_didcomm::identity::PrivateIdentity;
use affinidi_messaging_didcomm::message::forward::wrap_in_forward;
use affinidi_messaging_didcomm::{DIDCommAgent, Message};
use messaging_mediator::auth::{jwt_public_key, validate_bearer, AuthService};
use messaging_mediator::config::settings::Config;
use messaging_mediator::didcomm::{
    crypto_operations, envelope_sender, pack_all, pack_one, unpack_envelope, unpack_outcome,
    UnpackFailure,
};
use messaging_mediator::digest::did_hash;
use messaging_mediator::errors::ErrorKind;
use messaging_mediator::inbound::{handle_inbound, InboundMessageResponse};
use messaging_mediator::messages::{UnpackMetadata, UnpackedMessage};
use messaging_mediator::sdk::authentication::{
    ATMConfig, ATMErrorKind, AuthAction, AuthEvent, HttpReply, ATM,
};
use messaging_mediator::session::{RequestLimits, Session};
use messaging_mediator::state::SharedData;

const MEDIATOR: &str = "did:peer:mediator1";
const ALICE: &str = "did:peer:alice";
const BOB: &str = "did:peer:bob";
const INNER: &str = r#"{"ciphertext":"ghi","iv":"def","protected":"abc","recipients":[],"tag":"jkl"}"#;

struct World {
    mediator: DIDCommAgent,
    alice: DIDCommAgent,
}

fn world() -> World {
    let m = PrivateIdentity::generate(MEDIATOR);
    let a = PrivateIdentity::generate(ALICE);
    let mut mediator = DIDCommAgent::new();
    mediator.add_peer(a.to_resolved());
    let mut alice = DIDCommAgent::new();
    alice.add_peer(m.to_resolved());
    mediator.add_identity(m);
    alice.add_identity(a);
    World { mediator, alice }
}

fn session(did: &str) -> Session {
    Session::new(
        "session-1",
        did,
        RequestLimits {
            max_listed_messages: 10,
            max_deleted_messages: 10,
            to_recipients_limit: 10,
            to_keys_per_recipient_limit: 100,
            crypto_operations_per_message_limit: 1000,
        },
    )
}

fn state(agent: DIDCommAgent) -> SharedData {
    let mut config = Config::default();
    config.mediator_did = MEDIATOR.to_string();
    config.max_queued_messages = 2;
    config.message_expiry_minutes = 1;
    SharedData::new(config, agent, 0)
}

fn note(to: &str) -> UnpackedMessage {
    UnpackedMessage {
        id: "note-1".to_string(),
        type_: "https://example.org/note/1.0".to_string(),
        from: Some(ALICE.to_string()),
        to: Some(vec![to.to_string()]),
        thid: Some("thread".to_string()),
        pthid: None,
        created_time: Some(5),
        expires_time: Some(500),
        body: r#"{"text":"hello"}"#.to_string(),
        attachments: Some(r#"[{"data":{"base64":"eA"}}]"#.to_string()),
    }
}

#[test]
fn packed_message_unpacks_to_the_same_message() {
    let w = world();
    let s = session(ALICE);
    let packed = pack_all(&w.alice, &note(MEDIATOR), &vec![MEDIATOR.to_string()], ALICE, &s).unwrap();
    assert_eq!(packed.len(), 1);
    assert_eq!(packed[0].to_did, MEDIATOR);
    assert_ne!(packed[0].packed, note(MEDIATOR).body);
    let (msg, meta) = unpack_envelope(&w.mediator, &packed[0].packed, Some(ALICE), 1000, "s").unwrap();
    let sent = note(MEDIATOR);
    assert_eq!(msg.id, sent.id);
    assert_eq!(msg.type_, sent.type_);
    assert_eq!(msg.from, sent.from);
    assert_eq!(msg.to, sent.to);
    assert_eq!(msg.thid, sent.thid);
    assert_eq!(msg.pthid, sent.pthid);
    assert_eq!(msg.created_time, sent.created_time);
    assert_eq!(msg.expires_time, sent.expires_time);
    assert_eq!(msg.body, sent.body);
    assert_eq!(msg.attachments, sent.attachments);
    assert!(meta.encrypted);
    assert!(meta.authenticated);
    assert!(!meta.anonymous_sender);
    assert_eq!(meta.encrypted_to_kids.len(), 1);
    assert!(meta.encrypted_from_kid.is_some());
}

#[test]
fn packing_needs_the_keys_of_both_ends() {
    let w = world();
    let s = session(ALICE);
    let none = pack_all(&w.alice, &note(MEDIATOR), &Vec::new(), ALICE, &s).unwrap();
    assert!(none.is_empty());
    let stranger =
        pack_all(&w.alice, &note(BOB), &vec![MEDIATOR.to_string(), BOB.to_string()], ALICE, &s);
    let e = stranger.unwrap_err();
    assert_eq!(e.kind, ErrorKind::PackError);
    assert_eq!(e.session_id, "session-1");
    let not_me = pack_all(&w.alice, &note(MEDIATOR), &vec![MEDIATOR.to_string()], BOB, &s);
    assert_eq!(not_me.unwrap_err().kind, ErrorKind::PackError);
    let mut bad = note(MEDIATOR);
    bad.body = "no json".to_string();
    let unreadable = pack_all(&w.alice, &bad, &vec![MEDIATOR.to_string()], ALICE, &s);
    assert_eq!(unreadable.unwrap_err().kind, ErrorKind::PackError);
}

#[test]
fn envelope_that_cannot_be_read_is_told_from_one_that_cannot_be_opened() {
    let w = world();
    let garbage = unpack_envelope(&w.mediator, "not an envelope", None, 1000, "s").unwrap_err();
    assert_eq!(garbage.kind, ErrorKind::ParseError);
    assert_eq!(garbage.session_id, "s");
    let s = session(ALICE);
    let packed = pack_all(&w.alice, &note(MEDIATOR), &vec![MEDIATOR.to_string()], ALICE, &s).unwrap();
    // Alice holds no key that the envelope was encrypted to.
    let foreign = unpack_envelope(&w.alice, &packed[0].packed, Some(ALICE), 1000, "s").unwrap_err();
    assert_eq!(foreign.kind, ErrorKind::UnpackError);
    let meta = UnpackMetadata {
        encrypted: false,
        authenticated: false,
        non_repudiation: false,
        anonymous_sender: false,
        encrypted_from_kid: None,
        encrypted_to_kids: Vec::new(),
        sign_from: None,
        messaging_service: None,
    };
    assert_eq!(unpack_outcome(Ok(Some((note(BOB), meta))), 0, "s").unwrap().0.id, "note-1");
    assert_eq!(unpack_outcome(Ok(None), 9, "s").unwrap_err().kind, ErrorKind::UnpackError);
    assert_eq!(unpack_outcome(Err(UnpackFailure::Parse), 9, "s").unwrap_err().kind, ErrorKind::ParseError);
    assert_eq!(unpack_outcome(Err(UnpackFailure::Unpack), 9, "s").unwrap_err().kind, ErrorKind::UnpackError);
}

#[test]
fn plaintext_message_is_unpacked_without_keys() {
    let agent = DIDCommAgent::new();
    let text = r#"{"id":"1","type":"https://example.org/t","body":{"a":1},"to":["did:peer:x"]}"#;
    let (msg, meta) = unpack_envelope(&agent, text, None, 1000, "s").unwrap();
    assert_eq!(msg.id, "1");
    assert_eq!(msg.type_, "https://example.org/t");
    assert_eq!(msg.body, r#"{"a":1}"#);
    assert_eq!(msg.to, Some(vec!["did:peer:x".to_string()]));
    assert_eq!(msg.from, None);
    assert_eq!(msg.attachments, None);
    assert!(!meta.encrypted && !meta.authenticated);
}

#[test]
fn forward_envelope_is_stored_for_the_next_hop_unopened() {
    let w = world();
    let forward = wrap_in_forward("did:peer:mediator2", INNER).unwrap();
    let envelope = w.alice.pack_authcrypt(&forward, ALICE, MEDIATOR).unwrap();
    let mut state = state(w.mediator);
    let next = did_hash("did:peer:mediator2");
    state.streams.subscribe(&next, "uuid-2", "elsewhere");
    let response = handle_inbound(&mut state, &session(ALICE), &envelope, Some(ALICE), 10).unwrap();
    let id = match response {
        InboundMessageResponse::Stored(list) => {
            assert!(list.errors.is_empty());
            assert_eq!(list.messages.len(), 1);
            assert_eq!(list.messages[0].0, "did:peer:mediator2");
            list.messages[0].1
        }
        other => panic!("unexpected {:?}", other),
    };
    assert_eq!(state.database.get_message(&next, id, 11), Ok(INNER.to_string()));
    assert_eq!(state.streams.take_pending(&next, "uuid-2"), vec![INNER]);
}

#[test]
fn three_messages_to_a_mailbox_of_two_yield_one_error() {
    let w = world();
    let forward = wrap_in_forward(BOB, INNER).unwrap();
    let mut state = state(w.mediator);
    let mut served = 0;
    let mut failed = Vec::new();
    for _ in 0..3 {
        let envelope = w.alice.pack_authcrypt(&forward, ALICE, MEDIATOR).unwrap();
        match handle_inbound(&mut state, &session(ALICE), &envelope, Some(ALICE), 10).unwrap() {
            InboundMessageResponse::Stored(list) => {
                served += list.messages.len();
                failed.extend(list.errors);
            }
            other => panic!("unexpected {:?}", other),
        }
    }
    assert_eq!(served, 2);
    assert_eq!(failed, vec![(BOB.to_string(), "OverCapacity".to_string())]);
}

#[test]
fn ping_is_answered_with_an_envelope_for_the_sender() {
    let w = world();
    let ping = Message::build(
        "ping-1",
        "https://didcomm.org/trust-ping/2.0/ping",
        serde_json::Value::Object(serde_json::Map::new()),
    )
    .from(ALICE.to_string())
    .to(MEDIATOR.to_string())
    .finalize();
    let envelope = w.alice.pack_authcrypt(&ping, ALICE, MEDIATOR).unwrap();
    let mut state = state(w.mediator);
    let response = handle_inbound(&mut state, &session(ALICE), &envelope, Some(ALICE), 10).unwrap();
    let id = match response {
        InboundMessageResponse::Stored(list) => {
            assert_eq!(list.messages.len(), 1);
            assert_eq!(list.messages[0].0, ALICE);
            list.messages[0].1
        }
        other => panic!("unexpected {:?}", other),
    };
    let stored = state.database.get_message(&did_hash(ALICE), id, 11).unwrap();
    let (answer, meta) = unpack_envelope(&w.alice, &stored, Some(MEDIATOR), 1000, "s").unwrap();
    assert_eq!(answer.type_, "https://didcomm.org/trust-ping/2.0/ping-response");
    assert_eq!(answer.thid.as_deref(), Some("ping-1"));
    assert_eq!(answer.from.as_deref(), Some(MEDIATOR));
    assert_eq!(answer.to, Some(vec![ALICE.to_string()]));
    assert_eq!(answer.created_time, Some(10));
    assert!(meta.encrypted && meta.authenticated);
}

#[test]
fn inbound_failures_leave_the_store_alone() {
    let w = world();
    let mut state = state(w.mediator);
    let s = session(ALICE);
    for text in ["garbage", "", "{", "{}", "[]"] {
        let garbage = handle_inbound(&mut state, &s, text, Some(ALICE), 10).unwrap_err();
        assert_eq!(garbage.kind, ErrorKind::ParseError, "{:?}", text);
        assert_eq!(garbage.session_id, "session-1");
    }
    let mut expired = wrap_in_forward(BOB, INNER).unwrap();
    expired.expires_time = Some(10);
    let envelope = w.alice.pack_authcrypt(&expired, ALICE, MEDIATOR).unwrap();
    let late = handle_inbound(&mut state, &s, &envelope, Some(ALICE), 10).unwrap_err();
    assert_eq!(late.kind, ErrorKind::MessageExpired);
    assert_eq!(late.session_id, "session-1");
    let unknown = Message::build("1", "https://example.org/unknown", serde_json::Value::Null).finalize();
    let envelope = w.alice.pack_authcrypt(&unknown, ALICE, MEDIATOR).unwrap();
    let odd = handle_inbound(&mut state, &s, &envelope, Some(ALICE), 10).unwrap_err();
    assert_eq!(odd.kind, ErrorKind::ParseError);
    let not_forward = Message::build(
        "2",
        "https://didcomm.org/routing/2.0/forward",
        serde_json::Value::Object(serde_json::Map::new()),
    )
    .finalize();
    let envelope = w.alice.pack_authcrypt(&not_forward, ALICE, MEDIATOR).unwrap();
    let bad = handle_inbound(&mut state, &s, &envelope, Some(ALICE), 10).unwrap_err();
    assert_eq!(bad.kind, ErrorKind::RequestDataError);
    assert_eq!(state.database.message_count(), 0);
}

#[test]
fn authentication_end_to_end() {
    let w = world();
    let rng = ring::rand::SystemRandom::new();
    let key = ring::signature::Ed25519KeyPair::generate_pkcs8(&rng).unwrap().as_ref().to_vec();
    let public = jwt_public_key(&key).unwrap();
    let mut service = AuthService::new(900, 86400);
    let mut atm = ATM::new(ATMConfig {
        my_did: Some(ALICE.to_string()),
        atm_did: Some(MEDIATOR.to_string()),
        atm_api: "https://m.example".to_string(),
    });

    let challenge = service.begin_challenge(ALICE, "s", 100).unwrap();
    let nonce = challenge.nonce.clone();
    let reply = AuthEvent::ChallengeReply(HttpReply::Answer(Some(challenge)));
    let envelope = match atm.authenticate(&w.alice, reply, 120) {
        AuthAction::PostResponse { url, body } => {
            assert_eq!(url, "https://m.example/authenticate");
            body
        }
        other => panic!("unexpected {:?}", other),
    };
    let (echo, _) = unpack_envelope(&w.mediator, &envelope, Some(ALICE), 1000, "s").unwrap();
    assert!(echo.body.contains(&nonce));
    assert_eq!(echo.expires_time, Some(180));
    let envelope = &envelope;

    let tokens = service
        .authenticate_packed(&w.mediator, envelope, Some(ALICE), 1000, &key, "s", 120)
        .unwrap();
    let claims = validate_bearer(&tokens.access_token, &public, "s", 121).unwrap();
    assert_eq!(claims.sub, ALICE);
    assert_eq!(claims.exp, 120 + 900);

    let replay = service.authenticate_packed(&w.mediator, envelope, Some(ALICE), 1000, &key, "s", 121);
    assert_eq!(replay.unwrap_err().kind, ErrorKind::AuthFailed);
    let garbage = service.authenticate_packed(&w.mediator, "garbage", Some(ALICE), 1000, &key, "s", 121);
    assert_eq!(garbage.unwrap_err().kind, ErrorKind::AuthFailed);
}

#[test]
fn response_that_is_not_authenticated_is_refused() {
    let w = world();
    let rng = ring::rand::SystemRandom::new();
    let key = ring::signature::Ed25519KeyPair::generate_pkcs8(&rng).unwrap().as_ref().to_vec();
    let mut service = AuthService::new(900, 86400);
    service.issue_challenge(ALICE, "n0".to_string(), "s", 100).unwrap();
    let body: serde_json::Value = serde_json::from_str(
        r#"{"nonce":"n0","bound_did":"did:peer:alice","issued_at":100,"expires_at":160}"#,
    )
    .unwrap();
    let response = Message::build("r", "https://affinidi.com/atm/1.0/authenticate", body)
        .from(ALICE.to_string())
        .to(MEDIATOR.to_string())
        .finalize();
    // Anonymous encryption does not prove who sent the response.
    let anonymous = w.alice.pack_anoncrypt(&response, MEDIATOR).unwrap();
    let refused = service.authenticate_packed(&w.mediator, &anonymous, None, 1000, &key, "s", 120);
    assert_eq!(refused.unwrap_err().kind, ErrorKind::AuthFailed);
    // Nor does a response in the clear.
    let clear = String::from_utf8(response.to_json().unwrap()).unwrap();
    let refused = service.authenticate_packed(&w.mediator, &clear, None, 1000, &key, "s", 120);
    assert_eq!(refused.unwrap_err().kind, ErrorKind::AuthFailed);
    assert_eq!(service.outstanding_count(), 1);
    let authcrypted = w.alice.pack_authcrypt(&response, ALICE, MEDIATOR).unwrap();
    assert!(service.authenticate_packed(&w.mediator, &authcrypted, Some(ALICE), 1000, &key, "s", 120).is_ok());
}

#[test]
fn client_sends_archived_bytes_to_the_recipient() {
    let w = world();
    let atm = ATM::new(ATMConfig {
        my_did: Some(ALICE.to_string()),
        atm_did: Some(MEDIATOR.to_string()),
        atm_api: "https://m.example".to_string(),
    });
    let tokens = messaging_mediator::auth::AuthorizationResponse {
        access_token: "a".to_string(),
        refresh_token: "r".to_string(),
    };
    let request = atm
        .send_rkyv_message(&w.alice, MEDIATOR, "id-1".to_string(), &[1, 2, 255], Some("https://m.example/inbound".to_string()), &tokens)
        .unwrap();
    assert_eq!(request.url, "https://m.example/inbound");
    assert_eq!(request.authorization.as_deref(), Some("Bearer a"));
    let (msg, meta) = unpack_envelope(&w.mediator, &request.body, Some(ALICE), 1000, "s").unwrap();
    assert_eq!(msg.id, "id-1");
    assert_eq!(msg.type_, "https://didcomm.org/rkyv/1.0/message");
    assert_eq!(msg.to, Some(vec![MEDIATOR.to_string()]));
    assert_eq!(msg.attachments.as_deref(), Some(r#"[{"data":{"base64":"AQL_"}}]"#));
    assert!(meta.authenticated);

    let grid = atm
        .send_grid_message(&w.alice, "https://example.org/grid/1.0", MEDIATOR, "id-2".to_string(), &[9], Some("https://m.example/inbound".to_string()), &tokens)
        .unwrap();
    assert_eq!(grid.url, "https://m.example/inbound");
    assert_eq!(grid.authorization.as_deref(), Some("Bearer a"));
    let (msg, _) = unpack_envelope(&w.mediator, &grid.body, Some(ALICE), 1000, "s").unwrap();
    assert_eq!(msg.type_, "https://example.org/grid/1.0");

    let nowhere = atm.send_rkyv_message(&w.alice, MEDIATOR, "id".to_string(), &[1], None, &tokens);
    assert_eq!(nowhere.unwrap_err().kind, ATMErrorKind::TransportError);
    let stranger = atm.send_grid_message(&w.alice, "p", BOB, "id".to_string(), &[1], Some("e".to_string()), &tokens);
    assert_eq!(stranger.unwrap_err().kind, ATMErrorKind::MsgSendError);
    let lost = atm.send_grid_message(&w.alice, "p", MEDIATOR, "id".to_string(), &[1], None, &tokens);
    let lost = lost.unwrap_err();
    assert_eq!(lost.kind, ATMErrorKind::TransportError);
    assert_eq!(lost.reason, "No messaging service");
    let nobody = ATM::new(ATMConfig { my_did: None, atm_did: None, atm_api: String::new() });
    let unconfigured = nobody.pack_payload(&w.alice, "id".to_string(), "t", MEDIATOR, &[1]);
    assert_eq!(unconfigured.unwrap_err().kind, ATMErrorKind::ConfigError);
}

#[test]
fn envelope_names_its_sender() {
    let w = world();
    let s = session(ALICE);
    let packed = pack_all(&w.alice, &note(MEDIATOR), &vec![MEDIATOR.to_string()], ALICE, &s).unwrap();
    assert_eq!(envelope_sender(&packed[0].packed), Some(ALICE.to_string()));
    let forward = wrap_in_forward(BOB, INNER).unwrap();
    let anonymous = w.alice.pack_anoncrypt(&forward, MEDIATOR).unwrap();
    assert_eq!(envelope_sender(&anonymous), None);
    assert_eq!(envelope_sender("garbage"), None);
    assert_eq!(envelope_sender("{}"), None);
}

#[test]
fn unpacking_is_held_to_the_limit_of_operations() {
    let w = world();
    let s = session(ALICE);
    let packed = pack_all(&w.alice, &note(MEDIATOR), &vec![MEDIATOR.to_string()], ALICE, &s).unwrap();
    assert!(unpack_envelope(&w.mediator, &packed[0].packed, Some(ALICE), 1, "s").is_ok());
    let e = unpack_envelope(&w.mediator, &packed[0].packed, Some(ALICE), 0, "s").unwrap_err();
    assert_eq!(e.kind, ErrorKind::UnpackError);
    // A message in the clear takes no operation at all.
    let clear = r#"{"id":"1","type":"https://example.org/t","body":{}}"#;
    assert!(unpack_envelope(&w.mediator, clear, None, 0, "s").is_ok());
    let meta = |encrypted, non_repudiation| UnpackMetadata {
        encrypted,
        authenticated: false,
        non_repudiation,
        anonymous_sender: false,
        encrypted_from_kid: None,
        encrypted_to_kids: Vec::new(),
        sign_from: None,
        messaging_service: None,
    };
    assert_eq!(crypto_operations(&meta(false, false)), 0);
    assert_eq!(crypto_operations(&meta(true, false)), 1);
    assert_eq!(crypto_operations(&meta(false, true)), 1);
    assert_eq!(crypto_operations(&meta(true, true)), 2);
    assert!(unpack_outcome(Ok(Some((note(BOB), meta(true, true)))), 2, "s").is_ok());
    let over = unpack_outcome(Ok(Some((note(BOB), meta(true, true)))), 1, "s").unwrap_err();
    assert_eq!(over.kind, ErrorKind::UnpackError);
}

#[test]
fn packing_is_held_to_the_limit_of_keys() {
    let w = world();
    let mut s = session(ALICE);
    s.limits.to_keys_per_recipient_limit = 0;
    let e = pack_all(&w.alice, &note(MEDIATOR), &vec![MEDIATOR.to_string()], ALICE, &s).unwrap_err();
    assert_eq!(e.kind, ErrorKind::PackError);
    assert!(pack_all(&w.alice, &note(MEDIATOR), &Vec::new(), ALICE, &s).unwrap().is_empty());
    s.limits.to_keys_per_recipient_limit = 1;
    assert!(pack_all(&w.alice, &note(MEDIATOR), &vec![MEDIATOR.to_string()], ALICE, &s).is_ok());
}

#[test]
fn text_that_is_no_json_is_neither_unpacked_nor_packed() {
    let w = world();
    for envelope in ["", "not json", "{", "{\"a\":}", "[1,2", "{}", "[1,2]", "7"] {
        let e = unpack_envelope(&w.mediator, envelope, Some(ALICE), 1000, "s").unwrap_err();
        assert_eq!(e.kind, ErrorKind::ParseError, "{:?}", envelope);
        assert_eq!(e.session_id, "s");
    }
    assert!(pack_one(&w.alice, &note(MEDIATOR), ALICE, MEDIATOR).is_some());
    let mut no_body = note(MEDIATOR);
    no_body.body = "{\"text\":".to_string();
    assert_eq!(pack_one(&w.alice, &no_body, ALICE, MEDIATOR), None);
    let mut no_attachments = note(MEDIATOR);
    no_attachments.attachments = Some("[{".to_string());
    assert_eq!(pack_one(&w.alice, &no_attachments, ALICE, MEDIATOR), None);
    let mut odd_attachments = note(MEDIATOR);
    odd_attachments.attachments = Some("{\"not\":\"a list\"}".to_string());
    assert_eq!(pack_one(&w.alice, &odd_attachments, ALICE, MEDIATOR), None);
    let mut bare = note(MEDIATOR);
    bare.attachments = None;
    assert!(pack_one(&w.alice, &bare, ALICE, MEDIATOR).is_some());
    assert_eq!(pack_one(&w.alice, &note(BOB), ALICE, BOB), None);
}
