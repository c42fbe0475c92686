use messaging_mediator::digest::did_hash;
use messaging_mediator::dispatch::{message_type, ping_response, process_message, MessageType};
use messaging_mediator::errors::ErrorKind;
use messaging_mediator::handlers::{
    message_delete_handler, message_fetch_handler, message_list_handler, DeleteMessageRequest,
    FetchMessagesRequest, ListMessagesRequest,
};
use messaging_mediator::inbound::{
    complete_inbound, deliver_plan, handle_unpacked, plan_delivery, store_all, stream_all,
    InboundMessageResponse, InboundPlan, PackedFor,
};
use messaging_mediator::mailbox::model::{Folder, StoreLimits};
use messaging_mediator::mailbox::store::MailboxStore;
use messaging_mediator::messages::{
    MessageResponse, ProcessMessageResponse, UnpackedMessage,
};
use messaging_mediator::routing::{forward_response, process, ParsedForward};
use messaging_mediator::session::{RequestLimits, Session};
use messaging_mediator::streaming::LiveStreams;

const MEDIATOR: &str = "did:peer:mediator1";
const FORWARD: &str = "https://didcomm.org/routing/2.0/forward";
const INNER: &str = r#"{"ciphertext":"ghi","iv":"def","protected":"abc","recipients":[],"tag":"jkl"}"#;

fn request_limits(recipients: usize, deleted: u32) -> RequestLimits {
    RequestLimits {
        max_listed_messages: 2,
        max_deleted_messages: deleted,
        to_recipients_limit: recipients,
        to_keys_per_recipient_limit: 100,
        crypto_operations_per_message_limit: 1000,
    }
}

fn session(did: &str, recipients: usize, deleted: u32) -> Session {
    Session::new("session-1", did, request_limits(recipients, deleted))
}

fn store(max_queued: u32) -> MailboxStore {
    MailboxStore::new(StoreLimits {
        max_message_size: 4096,
        max_queued_messages: max_queued,
        message_expiry_minutes: 1,
        max_listed_messages: 2,
        max_deleted_messages: 3,
    })
}

fn message(type_: &str, expires_time: Option<u64>, parts: &(String, Option<String>)) -> UnpackedMessage {
    UnpackedMessage {
        id: "msg-1".to_string(),
        type_: type_.to_string(),
        from: Some("did:peer:alice".to_string()),
        to: Some(vec![MEDIATOR.to_string()]),
        thid: None,
        pthid: None,
        created_time: Some(10),
        expires_time,
        body: parts.0.clone(),
        attachments: parts.1.clone(),
    }
}

fn plain() -> (String, Option<String>) {
    ("{}".to_string(), None)
}

fn forward_parts(next: &str) -> (String, Option<String>) {
    (
        format!(r#"{{"next":"{}"}}"#, next),
        Some(format!(r#"[{{"data":{{"json":{}}}}}]"#, INNER)),
    )
}

fn answer_to(dids: Vec<String>, store_message: bool) -> ProcessMessageResponse {
    let mut m = message("https://example.org/answer", None, &plain());
    m.to = Some(dids);
    ProcessMessageResponse {
        store_message,
        force_live_delivery: false,
        message_response: MessageResponse::Message(m),
    }
}

fn packed_for(dids: &[&str]) -> Vec<PackedFor> {
    dids.iter()
        .map(|d| PackedFor { to_did: d.to_string(), packed: format!("packed for {}", d) })
        .collect()
}

#[test]
fn session_caches_the_hash_of_its_did() {
    let s = session("did:peer:bob", 1, 1);
    assert_eq!(s.session_id, "session-1");
    assert_eq!(s.did, "did:peer:bob");
    assert_eq!(s.did_hash, did_hash("did:peer:bob"));
    assert_eq!(s.limits.to_recipients_limit, 1);
}

#[test]
fn forward_is_unwrapped_for_the_next_hop() {
    let s = session("did:peer:alice", 10, 10);
    let msg = message(FORWARD, Some(200), &forward_parts("did:peer:mediator2"));
    let response = process(&msg, &s, 100).unwrap().unwrap();
    assert!(response.store_message);
    assert!(response.force_live_delivery);
    match response.message_response {
        MessageResponse::PackedMessage { to, packed_message } => {
            assert_eq!(to, "did:peer:mediator2");
            assert_eq!(packed_message, INNER);
        }
        other => panic!("unexpected {:?}", other),
    }
}

#[test]
fn message_that_is_no_forward_request_is_refused() {
    let s = session("did:peer:alice", 10, 10);
    let good = forward_parts("x");
    let cases: Vec<(&str, (String, Option<String>))> = vec![
        (FORWARD, ("not json".to_string(), good.1.clone())),
        (FORWARD, ("{}".to_string(), good.1.clone())),
        (FORWARD, (r#"{"next":5}"#.to_string(), good.1.clone())),
        ("https://didcomm.org/routing/2.0/other", good.clone()),
        (FORWARD, (good.0.clone(), None)),
        (FORWARD, (good.0.clone(), Some("[]".to_string()))),
        (FORWARD, (good.0.clone(), Some("not json".to_string()))),
        (FORWARD, (good.0.clone(), Some(r#"[{"data":{"base64":"eA"}}]"#.to_string()))),
    ];
    for (type_, parts) in cases {
        let e = process(&message(type_, None, &parts), &s, 100).unwrap_err();
        assert_eq!(e.kind, ErrorKind::RequestDataError, "{:?}", parts);
        assert_eq!(e.session_id, "session-1");
    }
    assert!(process(&message(FORWARD, None, &good), &s, 100).is_ok());
}

#[test]
fn message_expiring_now_is_expired() {
    let s = session("did:peer:alice", 10, 10);
    let plaintext = forward_parts("did:peer:mediator2");
    assert!(process(&message(FORWARD, Some(101), &plaintext), &s, 100).is_ok());
    let at = process(&message(FORWARD, Some(100), &plaintext), &s, 100).unwrap_err();
    assert_eq!(at.kind, ErrorKind::MessageExpired);
    assert_eq!(at.reason, "Message expired at (100) now(100)");
    let after = process(&message(FORWARD, Some(99), &plaintext), &s, 100).unwrap_err();
    assert_eq!(after.kind, ErrorKind::MessageExpired);
    assert_eq!(after.reason, "Message expired at (99) now(100)");
    assert_eq!(after.session_id, "session-1");
    let gone = message(FORWARD, Some(7), &plain()).expiry_error("s", 1234567).unwrap();
    assert_eq!(gone.reason, "Message expired at (7) now(1234567)");
    assert!(message(FORWARD, Some(8), &plain()).expiry_error("s", 7).is_none());
    assert!(message(FORWARD, None, &plain()).expiry_error("s", u64::MAX).is_none());
    assert!(message(FORWARD, Some(100), &plain()).expired_at(100));
    assert!(!message(FORWARD, Some(100), &plain()).expired_at(99));
    assert!(!message(FORWARD, None, &plain()).expired_at(u64::MAX));
    let dispatched = process_message(&message(FORWARD, Some(100), &plaintext), &s, MEDIATOR, 100);
    assert_eq!(dispatched.unwrap_err().kind, ErrorKind::MessageExpired);
    let unknown = process_message(&message("x", Some(100), &plain()), &s, MEDIATOR, 100);
    assert_eq!(unknown.unwrap_err().kind, ErrorKind::MessageExpired);
}

#[test]
fn forward_response_follows_what_was_parsed() {
    let s = session("did:peer:alice", 10, 10);
    let parsed = ParsedForward { next: "n".to_string(), forwarded_msg: "e".to_string() };
    let response = forward_response(Some(parsed), &s).unwrap().unwrap();
    assert!(matches!(
        response.message_response,
        MessageResponse::PackedMessage { to, packed_message } if to == "n" && packed_message == "e"
    ));
    let refused = forward_response(None, &s).unwrap_err();
    assert_eq!(refused.kind, ErrorKind::RequestDataError);
    assert_eq!(refused.reason, "Message is not a valid ForwardRequest");
}

#[test]
fn handler_is_chosen_by_type() {
    assert_eq!(message_type(FORWARD), MessageType::Forward);
    assert_eq!(message_type("https://didcomm.org/trust-ping/2.0/ping"), MessageType::TrustPing);
    assert_eq!(message_type("https://didcomm.org/basicmessage/2.0/message"), MessageType::Unknown);
    let s = session("did:peer:alice", 10, 10);
    let unknown = process_message(&message("https://example.org/x", None, &plain()), &s, MEDIATOR, 1);
    assert_eq!(unknown.unwrap_err().kind, ErrorKind::ParseError);
    let forwarded = process_message(
        &message(FORWARD, None, &forward_parts("did:peer:bob")),
        &s,
        MEDIATOR,
        1,
    );
    assert!(matches!(
        forwarded.unwrap().unwrap().message_response,
        MessageResponse::PackedMessage { to, .. } if to == "did:peer:bob"
    ));
}

#[test]
fn ping_is_answered_to_its_sender() {
    let s = session("did:peer:alice", 10, 10);
    let ping = message("https://didcomm.org/trust-ping/2.0/ping", None, &plain());
    let response = ping_response(&ping, &s, MEDIATOR, "answer-1".to_string(), 50).unwrap().unwrap();
    assert!(response.store_message);
    assert!(!response.force_live_delivery);
    match response.message_response {
        MessageResponse::Message(m) => {
            assert_eq!(m.id, "answer-1");
            assert_eq!(m.type_, "https://didcomm.org/trust-ping/2.0/ping-response");
            assert_eq!(m.from.as_deref(), Some(MEDIATOR));
            assert_eq!(m.to, Some(vec!["did:peer:alice".to_string()]));
            assert_eq!(m.thid.as_deref(), Some("msg-1"));
            assert_eq!(m.created_time, Some(50));
            assert_eq!(m.expires_time, None);
            assert_eq!(m.body, "{}");
            assert_eq!(m.attachments, None);
        }
        other => panic!("unexpected {:?}", other),
    }
    let mut anonymous = message("https://didcomm.org/trust-ping/2.0/ping", None, &plain());
    anonymous.from = None;
    let refused = ping_response(&anonymous, &s, MEDIATOR, "a".to_string(), 50);
    assert_eq!(refused.unwrap_err().kind, ErrorKind::RequestDataError);
    let dispatched = process_message(&ping, &s, MEDIATOR, 50).unwrap().unwrap();
    match dispatched.message_response {
        MessageResponse::Message(m) => assert!(!m.id.is_empty()),
        other => panic!("unexpected {:?}", other),
    }
}

#[test]
fn recipients_at_the_limit_are_planned_one_more_is_refused() {
    let s = session("did:peer:alice", 100, 10);
    let hundred: Vec<String> = (1..=100).map(|i| format!("did:peer:d{}", i)).collect();
    match plan_delivery(&s, Some(answer_to(hundred.clone(), true))).unwrap() {
        InboundPlan::Pack { recipients, store_message, force_live_delivery, message } => {
            assert_eq!(recipients, hundred);
            assert!(store_message);
            assert!(!force_live_delivery);
            assert_eq!(message.id, "msg-1");
        }
        other => panic!("unexpected {:?}", other),
    }
    let mut more = hundred;
    more.push("did:peer:d101".to_string());
    let e = plan_delivery(&s, Some(answer_to(more, true))).unwrap_err();
    assert_eq!(e.kind, ErrorKind::PackError);
    assert_eq!(e.session_id, "session-1");
    assert_eq!(e.reason, "Recipient count(101) exceeds limit");
}

#[test]
fn answer_without_recipients_is_a_pack_error() {
    let s = session("did:peer:alice", 3, 10);
    let none = plan_delivery(&s, Some(answer_to(Vec::new(), true))).unwrap_err();
    assert_eq!(none.kind, ErrorKind::PackError);
    assert_eq!(none.reason, "Recipients are empty");
    let mut nobody = answer_to(Vec::new(), true);
    if let MessageResponse::Message(m) = &mut nobody.message_response {
        m.to = None;
    }
    assert_eq!(plan_delivery(&s, Some(nobody)).unwrap_err().kind, ErrorKind::PackError);
    let empty = ProcessMessageResponse {
        store_message: true,
        force_live_delivery: false,
        message_response: MessageResponse::Empty,
    };
    assert_eq!(plan_delivery(&s, Some(empty)).unwrap_err().kind, ErrorKind::PackError);
    assert_eq!(plan_delivery(&s, None).unwrap_err().kind, ErrorKind::InternalError);
}

#[test]
fn packed_answer_is_delivered_as_it_is() {
    let s = session("did:peer:alice", 0, 10);
    let packed = ProcessMessageResponse {
        store_message: true,
        force_live_delivery: true,
        message_response: MessageResponse::PackedMessage {
            to: "did:peer:bob".to_string(),
            packed_message: "envelope".to_string(),
        },
    };
    match plan_delivery(&s, Some(packed)).unwrap() {
        InboundPlan::Deliver { to_did_packed, store_message, force_live_delivery } => {
            assert_eq!(to_did_packed.len(), 1);
            assert_eq!(to_did_packed[0].to_did, "did:peer:bob");
            assert_eq!(to_did_packed[0].packed, "envelope");
            assert!(store_message && force_live_delivery);
        }
        other => panic!("unexpected {:?}", other),
    }
}

#[test]
fn forward_is_stored_for_the_next_hop_and_pushed_by_force() {
    let s = session("did:peer:alice", 10, 10);
    let mut mailbox = store(10);
    let mut bus = LiveStreams::new("m1", 32);
    bus.subscribe(&did_hash("did:peer:mediator2"), "uuid-2", "m2");
    let msg = message(FORWARD, None, &forward_parts("did:peer:mediator2"));
    let plan = handle_unpacked(&msg, &s, MEDIATOR, 5).unwrap();
    let (to_did_packed, store_message, force) = match plan {
        InboundPlan::Deliver { to_did_packed, store_message, force_live_delivery } => {
            (to_did_packed, store_message, force_live_delivery)
        }
        other => panic!("unexpected {:?}", other),
    };
    let response =
        complete_inbound(&mut mailbox, &mut bus, &s, MEDIATOR, &to_did_packed, store_message, force, 5);
    let id = match response {
        InboundMessageResponse::Stored(list) => {
            assert!(list.errors.is_empty());
            assert_eq!(list.messages.len(), 1);
            assert_eq!(list.messages[0].0, "did:peer:mediator2");
            list.messages[0].1
        }
        other => panic!("unexpected {:?}", other),
    };
    let next = did_hash("did:peer:mediator2");
    assert_eq!(mailbox.get_message(&next, id, 6), Ok(INNER.to_string()));
    assert_eq!(bus.take_pending(&next, "uuid-2"), vec![INNER]);
    let headers = mailbox.list_messages(&did_hash(MEDIATOR), Folder::Outbox, 2, 6);
    assert_eq!(headers.len(), 1);
}

#[test]
fn inbound_refuses_what_the_handlers_refuse() {
    let limited = session("did:peer:alice", 0, 10);
    let ping = message("https://didcomm.org/trust-ping/2.0/ping", None, &plain());
    assert_eq!(handle_unpacked(&ping, &limited, MEDIATOR, 5).unwrap_err().kind, ErrorKind::PackError);
    let s = session("did:peer:alice", 1, 10);
    match handle_unpacked(&ping, &s, MEDIATOR, 5).unwrap() {
        InboundPlan::Pack { recipients, store_message, force_live_delivery, .. } => {
            assert_eq!(recipients, vec!["did:peer:alice"]);
            assert!(store_message);
            assert!(!force_live_delivery);
        }
        other => panic!("unexpected {:?}", other),
    }
    let expired = message(FORWARD, Some(5), &forward_parts("x"));
    assert_eq!(handle_unpacked(&expired, &s, MEDIATOR, 5).unwrap_err().kind, ErrorKind::MessageExpired);
    let bad = message(FORWARD, None, &plain());
    assert_eq!(handle_unpacked(&bad, &s, MEDIATOR, 5).unwrap_err().kind, ErrorKind::RequestDataError);
    let unknown = message("x", None, &plain());
    assert_eq!(handle_unpacked(&unknown, &s, MEDIATOR, 5).unwrap_err().kind, ErrorKind::ParseError);
}

#[test]
fn full_mailbox_is_an_error_for_its_recipient_only() {
    let s = session("did:peer:alice", 10, 10);
    let mut mailbox = store(2);
    let mut bus = LiveStreams::new("m1", 32);
    let items = packed_for(&["did:peer:bob", "did:peer:bob", "did:peer:bob", "did:peer:carol"]);
    match complete_inbound(&mut mailbox, &mut bus, &s, MEDIATOR, &items, true, false, 0) {
        InboundMessageResponse::Stored(list) => {
            let served: Vec<&str> = list.messages.iter().map(|m| m.0.as_str()).collect();
            assert_eq!(served, vec!["did:peer:bob", "did:peer:bob", "did:peer:carol"]);
            assert_eq!(
                list.errors,
                vec![("did:peer:bob".to_string(), "OverCapacity".to_string())]
            );
        }
        other => panic!("unexpected {:?}", other),
    }
    assert_eq!(mailbox.queue_length(&did_hash("did:peer:bob")), 2);
    assert_eq!(mailbox.queue_length(&did_hash("did:peer:carol")), 1);
}

#[test]
fn answer_that_is_not_stored_is_handed_back() {
    let s = session("did:peer:alice", 10, 10);
    let mut mailbox = store(2);
    let mut bus = LiveStreams::new("m1", 32);
    bus.subscribe(&did_hash("did:peer:bob"), "uuid-1", "m1");
    let items = packed_for(&["did:peer:bob"]);
    match complete_inbound(&mut mailbox, &mut bus, &s, MEDIATOR, &items, false, false, 0) {
        InboundMessageResponse::Ephemeral(packed) => assert_eq!(packed, "packed for did:peer:bob"),
        other => panic!("unexpected {:?}", other),
    }
    assert_eq!(mailbox.message_count(), 0);
    assert_eq!(
        bus.take_pending(&did_hash("did:peer:bob"), "uuid-1"),
        vec!["packed for did:peer:bob"]
    );
}

#[test]
fn streaming_and_storing_go_through_all_recipients() {
    let s = session("did:peer:alice", 10, 10);
    let mut mailbox = store(5);
    let mut bus = LiveStreams::new("m1", 32);
    bus.subscribe(&did_hash("did:peer:carol"), "uuid-c", "m1");
    let items = packed_for(&["did:peer:bob", "did:peer:carol", "did:peer:carol"]);
    stream_all(&mut bus, &items, false);
    assert_eq!(bus.take_pending(&did_hash("did:peer:carol"), "uuid-c").len(), 2);
    let list = store_all(&mut mailbox, &s, MEDIATOR, &items, 0);
    assert_eq!(list.messages.len(), 3);
    assert!(list.errors.is_empty());
    assert!(list.messages[0].1 < list.messages[1].1 && list.messages[1].1 < list.messages[2].1);
    let empty = store_all(&mut mailbox, &s, MEDIATOR, &Vec::new(), 0);
    assert!(empty.messages.is_empty() && empty.errors.is_empty());
}

#[test]
fn delete_at_the_limit_succeeds_one_more_is_refused() {
    let s = session("did:peer:bob", 10, 3);
    let mut mailbox = store(10);
    let ids: Vec<u64> = (0..4)
        .map(|i| mailbox.store_message("x", "m", "did:peer:bob", None, i).unwrap())
        .collect();
    let too_many = DeleteMessageRequest { message_ids: ids.clone() };
    let e = message_delete_handler(&s, &mut mailbox, &too_many, 10).unwrap_err();
    assert_eq!(e.kind, ErrorKind::RequestDataError);
    assert_eq!(e.session_id, "session-1");
    assert_eq!(
        e.reason,
        "Operation exceeds the allowed limit. You may delete a maximum of 3 messages per request. Received 4 ids."
    );
    assert_eq!(mailbox.message_count(), 4);

    let at_limit = DeleteMessageRequest { message_ids: ids[..3].to_vec() };
    let response = message_delete_handler(&s, &mut mailbox, &at_limit, 10).unwrap();
    assert_eq!(response.session_id, "session-1");
    assert_eq!(response.http_code, 200);
    assert_eq!(response.error_code, 0);
    assert_eq!(response.error_code_str, "NA");
    assert_eq!(response.message, "Success");
    let done = response.data.unwrap();
    assert_eq!(done.success, ids[..3].to_vec());
    assert!(done.errors.is_empty());
    assert_eq!(mailbox.message_count(), 1);
}

#[test]
fn delete_records_what_fails_and_goes_on() {
    let bob = session("did:peer:bob", 10, 5);
    let mut mailbox = store(10);
    let mine = mailbox.store_message("x", "m", "did:peer:bob", None, 0).unwrap();
    let other = mailbox.store_message("x", "m", "did:peer:carol", None, 0).unwrap();
    let request = DeleteMessageRequest { message_ids: vec![other, mine, mine, 999] };
    let done = message_delete_handler(&bob, &mut mailbox, &request, 1).unwrap().data.unwrap();
    assert_eq!(done.success, vec![mine]);
    assert_eq!(
        done.errors,
        vec![
            (other, "NotFound".to_string()),
            (mine, "NotFound".to_string()),
            (999, "NotFound".to_string())
        ]
    );
    assert_eq!(mailbox.message_count(), 1);
    let none = DeleteMessageRequest { message_ids: Vec::new() };
    let nothing = message_delete_handler(&bob, &mut mailbox, &none, 1).unwrap().data.unwrap();
    assert!(nothing.success.is_empty() && nothing.errors.is_empty());
}

#[test]
fn mailbox_round_trip_through_the_handlers() {
    let alice = session("did:peer:alice", 10, 10);
    let bob = session("did:peer:bob", 10, 10);
    let mut mailbox = store(10);
    let mut bus = LiveStreams::new("m1", 32);
    let packed = "p".repeat(1024);
    let items = vec![PackedFor { to_did: "did:peer:bob".to_string(), packed: packed.clone() }];
    let m1 = match complete_inbound(&mut mailbox, &mut bus, &alice, MEDIATOR, &items, true, false, 0) {
        InboundMessageResponse::Stored(list) => {
            assert_eq!(list.messages.len(), 1);
            assert_eq!(list.messages[0].0, "did:peer:bob");
            list.messages[0].1
        }
        other => panic!("unexpected {:?}", other),
    };
    let list = ListMessagesRequest { did_hash: bob.did_hash.clone(), folder: Folder::Inbox, limit: 2 };
    let headers = message_list_handler(&bob, &mut mailbox, &list, 1).unwrap().data.unwrap();
    assert_eq!(headers.len(), 1);
    assert_eq!(headers[0].message_id, m1);
    assert_eq!(headers[0].byte_length, 1024);

    let fetch = FetchMessagesRequest { message_ids: vec![m1, m1 + 1] };
    let fetched = message_fetch_handler(&bob, &mut mailbox, &fetch, 2).data.unwrap();
    assert_eq!(fetched.messages, vec![(m1, packed)]);
    assert_eq!(fetched.errors, vec![(m1 + 1, "NotFound".to_string())]);
    let stranger = message_fetch_handler(&alice, &mut mailbox, &fetch, 2).data.unwrap();
    assert!(stranger.messages.is_empty());

    let delete = DeleteMessageRequest { message_ids: vec![m1] };
    let deleted = message_delete_handler(&bob, &mut mailbox, &delete, 3).unwrap().data.unwrap();
    assert_eq!(deleted.success, vec![m1]);
    let again = message_list_handler(&bob, &mut mailbox, &list, 4).unwrap().data.unwrap();
    assert!(again.is_empty());
}

#[test]
fn listing_is_for_the_own_mailbox_and_within_the_limit() {
    let bob = session("did:peer:bob", 10, 10);
    let mut mailbox = store(10);
    mailbox.store_message("x", "m", "did:peer:bob", None, 0).unwrap();
    let foreign = ListMessagesRequest { did_hash: did_hash("did:peer:carol"), folder: Folder::Inbox, limit: 1 };
    assert_eq!(
        message_list_handler(&bob, &mut mailbox, &foreign, 1).unwrap_err().kind,
        ErrorKind::NotFound
    );
    let too_many = ListMessagesRequest { did_hash: bob.did_hash.clone(), folder: Folder::Inbox, limit: 3 };
    assert_eq!(
        message_list_handler(&bob, &mut mailbox, &too_many, 1).unwrap_err().kind,
        ErrorKind::RequestDataError
    );
    let at_limit = ListMessagesRequest { did_hash: bob.did_hash.clone(), folder: Folder::Inbox, limit: 2 };
    assert_eq!(message_list_handler(&bob, &mut mailbox, &at_limit, 1).unwrap().data.unwrap().len(), 1);
    let expired = message_list_handler(&bob, &mut mailbox, &at_limit, 61).unwrap().data.unwrap();
    assert!(expired.is_empty());
}

#[test]
fn plan_without_recipients_is_delivered_only_if_stored() {
    let s = session("did:peer:alice", 10, 10);
    let agent = affinidi_messaging_didcomm::DIDCommAgent::new();
    let mut mailbox = store(2);
    let mut bus = LiveStreams::new("m1", 32);
    let nothing = |store_message| InboundPlan::Deliver {
        to_did_packed: Vec::new(),
        store_message,
        force_live_delivery: false,
    };
    let e = deliver_plan(&agent, &mut mailbox, &mut bus, &s, MEDIATOR, nothing(false), 0).unwrap_err();
    assert_eq!(e.kind, ErrorKind::PackError);
    match deliver_plan(&agent, &mut mailbox, &mut bus, &s, MEDIATOR, nothing(true), 0).unwrap() {
        InboundMessageResponse::Stored(list) => assert!(list.messages.is_empty() && list.errors.is_empty()),
        other => panic!("unexpected {:?}", other),
    }
    // Without the recipient's key the message cannot be packed.
    let pack = InboundPlan::Pack {
        message: message("https://example.org/answer", None, &plain()),
        recipients: vec!["did:peer:stranger".to_string()],
        store_message: true,
        force_live_delivery: false,
    };
    let e = deliver_plan(&agent, &mut mailbox, &mut bus, &s, MEDIATOR, pack, 0).unwrap_err();
    assert_eq!(e.kind, ErrorKind::PackError);
    assert_eq!(mailbox.message_count(), 0);
}
