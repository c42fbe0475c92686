//! The inbound pipeline after unpacking: dispatch, choice of recipients, and
//! delivery to the live streams and the mailboxes.

use crate::digest::{did_hash, spec_did_hash};
use crate::dispatch::{
    answers_ping, ping_outcome, process_message, refused, refused_because, spec_message_type,
    MessageType,
};
use crate::errors::{ErrorKind, MediatorError};
use crate::mailbox::model::StoreModel;
use crate::mailbox::store::MailboxStore;
use crate::messages::{
    is_expired, MessageResponse, PlaintextModel, ProcessMessageResponse, UnpackedMessage,
};
use crate::didcomm::{json_readable, pack_all, unpack_envelope};
use crate::routing::{expired_outcome, forward_of};
use crate::state::SharedData;
use crate::session::Session;
use crate::streaming::{LiveStreams, StreamsModel};
use crate::text::{clone_texts, spec_with_number, texts, with_number};
use affinidi_messaging_didcomm::DIDCommAgent;
use vstd::prelude::*;

verus! {

/// A packed envelope and the DID it is for.
#[derive(Debug)]
pub struct PackedFor {
    pub to_did: String,
    pub packed: String,
}

/// A packed envelope and the DID it is for.
pub struct PackedModel {
    pub to_did: Seq<char>,
    pub packed: Seq<char>,
}

impl View for PackedFor {
    type V = PackedModel;

    open spec fn view(&self) -> PackedModel {
        PackedModel { to_did: self.to_did@, packed: self.packed@ }
    }
}

/// The models of packed envelopes, in order.
pub open spec fn packed_models(v: Seq<PackedFor>) -> Seq<PackedModel> {
    v.map_values(|p: PackedFor| p@)
}

/// What remains to be done with a handler's answer.
#[derive(Debug)]
pub enum InboundPlan {
    /// The envelopes are packed: deliver them.
    Deliver { to_did_packed: Vec<PackedFor>, store_message: bool, force_live_delivery: bool },
    /// The message is to be packed once for each recipient, from the
    /// mediator's DID, and then delivered.
    Pack {
        message: UnpackedMessage,
        recipients: Vec<String>,
        store_message: bool,
        force_live_delivery: bool,
    },
}

/// The reason for which a message with `count` recipients is not packed
/// where it may have `limit` at most: there are too many, and the reason
/// says how many, or there are none.
pub open spec fn recipients_reason(count: nat, limit: usize) -> Seq<char> {
    if count > limit {
        spec_with_number("Recipient count("@, count, ") exceeds limit"@)
    } else {
        "Recipients are empty"@
    }
}

/// Whether `result` is what is to be done with the answer `processed` where
/// a message may have `limit` recipients at most.
pub open spec fn planned(
    result: Result<InboundPlan, MediatorError>,
    processed: Option<ProcessMessageResponse>,
    limit: usize,
    session_id: Seq<char>,
) -> bool {
    match processed {
        None => refused_because(
            result,
            ErrorKind::InternalError,
            session_id,
            "Expected a message to return, but got None"@,
        ),
        Some(response) => match response.message_response {
            MessageResponse::PackedMessage { to, packed_message } => {
                &&& result matches Ok(
                    InboundPlan::Deliver { to_did_packed, store_message, force_live_delivery },
                )
                &&& packed_models(to_did_packed@) == seq![
                    PackedModel { to_did: to@, packed: packed_message@ },
                ]
                &&& store_message == response.store_message
                &&& force_live_delivery == response.force_live_delivery
            },
            MessageResponse::Message(m) => match m.to {
                Some(dids) => if 0 < dids@.len() <= limit {
                    &&& result matches Ok(
                        InboundPlan::Pack {
                            message,
                            recipients,
                            store_message,
                            force_live_delivery,
                        },
                    )
                    &&& message@ == m@
                    &&& texts(recipients@) == texts(dids@)
                    &&& store_message == response.store_message
                    &&& force_live_delivery == response.force_live_delivery
                } else {
                    refused_because(
                        result,
                        ErrorKind::PackError,
                        session_id,
                        recipients_reason(dids@.len(), limit),
                    )
                },
                None => refused_because(
                    result,
                    ErrorKind::PackError,
                    session_id,
                    "MessageResponse is unmatched"@,
                ),
            },
            MessageResponse::Empty => refused_because(
                result,
                ErrorKind::PackError,
                session_id,
                "MessageResponse is unmatched"@,
            ),
        },
    }
}

/// Decides what is to be done with a handler's answer.
///
/// An envelope that is packed already is delivered to its one recipient. A
/// message still to be packed must name at least one recipient and at most
/// `to_recipients_limit`; else it is refused as `PackError`, as is an answer
/// that names nobody. No answer at all is an `InternalError`.
pub fn plan_delivery(session: &Session, processed: Option<ProcessMessageResponse>) -> (result:
    Result<InboundPlan, MediatorError>)
    ensures
        planned(result, processed, session.limits.to_recipients_limit, session.session_id@),
{
    let sid = session.session_id.as_str();
    match processed {
        None => Err(
            MediatorError::new(
                ErrorKind::InternalError,
                sid,
                "Expected a message to return, but got None",
            ),
        ),
        Some(response) => {
            let store_message = response.store_message;
            let force_live_delivery = response.force_live_delivery;
            match response.message_response {
                MessageResponse::PackedMessage { to, packed_message } => {
                    let ghost one = PackedModel { to_did: to@, packed: packed_message@ };
                    let mut to_did_packed: Vec<PackedFor> = Vec::new();
                    to_did_packed.push(PackedFor { to_did: to, packed: packed_message });
                    assert(packed_models(to_did_packed@) =~= seq![one]);
                    Ok(InboundPlan::Deliver { to_did_packed, store_message, force_live_delivery })
                },
                MessageResponse::Message(message) => {
                    let recipients = match &message.to {
                        Some(dids) => {
                            if dids.len() > session.limits.to_recipients_limit {
                                return Err(
                                    MediatorError::new(
                                        ErrorKind::PackError,
                                        sid,
                                        with_number(
                                            "Recipient count(",
                                            dids.len() as u64,
                                            ") exceeds limit",
                                        ).as_str(),
                                    ),
                                );
                            }
                            if dids.len() == 0 {
                                return Err(
                                    MediatorError::new(
                                        ErrorKind::PackError,
                                        sid,
                                        "Recipients are empty",
                                    ),
                                );
                            }
                            clone_texts(dids)
                        },
                        None => {
                            return Err(
                                MediatorError::new(
                                    ErrorKind::PackError,
                                    sid,
                                    "MessageResponse is unmatched",
                                ),
                            );
                        },
                    };
                    Ok(
                        InboundPlan::Pack {
                            message,
                            recipients,
                            store_message,
                            force_live_delivery,
                        },
                    )
                },
                MessageResponse::Empty => Err(
                    MediatorError::new(ErrorKind::PackError, sid, "MessageResponse is unmatched"),
                ),
            }
        },
    }
}

/// Whether `result` is what the pipeline makes of the message `msg` at the
/// second `now`, where `parts` is what the message carries to forward and a
/// message may have `limit` recipients at most.
pub open spec fn inbound_outcome(
    result: Result<InboundPlan, MediatorError>,
    msg: PlaintextModel,
    parts: Option<(Seq<char>, Seq<char>)>,
    limit: usize,
    session_id: Seq<char>,
    mediator_did: Seq<char>,
    now: u64,
) -> bool {
    if is_expired(msg.expires_time, now) {
        expired_outcome(result, session_id, msg.expires_time, now)
    } else {
        match spec_message_type(msg.type_) {
            MessageType::Forward => match parts {
                Some((next, forwarded)) => {
                    &&& result matches Ok(
                        InboundPlan::Deliver { to_did_packed, store_message, force_live_delivery },
                    )
                    &&& packed_models(to_did_packed@) == seq![
                        PackedModel { to_did: next, packed: forwarded },
                    ]
                    &&& store_message
                    &&& force_live_delivery
                },
                None => refused_because(
                    result,
                    ErrorKind::RequestDataError,
                    session_id,
                    "Message is not a valid ForwardRequest"@,
                ),
            },
            MessageType::TrustPing => match msg.from {
                Some(sender) => if limit >= 1 {
                    &&& result matches Ok(
                        InboundPlan::Pack {
                            message,
                            recipients,
                            store_message,
                            force_live_delivery,
                        },
                    )
                    &&& texts(recipients@) == seq![sender]
                    &&& store_message
                    &&& !force_live_delivery
                    &&& exists|id: Seq<char>| answers_ping(message@, msg, mediator_did, id, now)
                } else {
                    refused_because(
                        result,
                        ErrorKind::PackError,
                        session_id,
                        recipients_reason(1, limit),
                    )
                },
                None => refused_because(
                    result,
                    ErrorKind::RequestDataError,
                    session_id,
                    "Anonymous trust ping cannot be answered"@,
                ),
            },
            MessageType::Unknown => refused_because(
                result,
                ErrorKind::ParseError,
                session_id,
                "Unknown message type"@,
            ),
        }
    }
}

/// Dispatches an unpacked message and decides what is to be done with the
/// answer, at the second `now`.
///
/// An expired message is refused as `MessageExpired`. A forward message
/// yields the forwarded envelope for the next hop, to be stored and pushed
/// live by force; one that carries nothing to forward is refused as
/// `RequestDataError`. A trust ping yields an answer to be packed for its
/// sender. A message of an unknown type is refused as `ParseError`.
pub fn handle_unpacked(
    msg: &UnpackedMessage,
    session: &Session,
    mediator_did: &str,
    now: u64,
) -> (result: Result<InboundPlan, MediatorError>)
    ensures
        inbound_outcome(
            result,
            msg@,
            forward_of(msg@),
            session.limits.to_recipients_limit,
            session.session_id@,
            mediator_did@,
            now,
        ),
{
    let processed = process_message(msg, session, mediator_did, now)?;
    let result = plan_delivery(session, processed);
    proof {
        if spec_message_type(msg.type_@) == MessageType::TrustPing && msg.from is Some {
            let id = choose|id: Seq<char>|
                ping_outcome(
                    Ok::<Option<ProcessMessageResponse>, MediatorError>(processed),
                    msg@,
                    session.session_id@,
                    mediator_did@,
                    id,
                    now,
                );
            let answer = processed->Some_0.message_response->Message_0;
            assert(answers_ping(answer@, msg@, mediator_did@, id, now));
            assert(texts(answer.to->Some_0@).len() == 1);
        }
    }
    result
}

/// What was stored for whom, and what failed for whom.
#[derive(Debug)]
pub struct InboundMessageList {
    /// The recipients served, each with the id of its stored message.
    pub messages: Vec<(String, u64)>,
    /// The recipients not served, each with the reason.
    pub errors: Vec<(String, String)>,
}

/// What an inbound request returns.
#[derive(Debug)]
pub enum InboundMessageResponse {
    /// The response was stored for its recipients.
    Stored(InboundMessageList),
    /// The response was not stored: here is its packed envelope.
    Ephemeral(String),
}

/// The bus after a live delivery was tried for each of `items` in turn.
pub open spec fn streamed(bus: StreamsModel, items: Seq<PackedModel>, force: bool) -> StreamsModel
    decreases items.len(),
{
    if items.len() == 0 {
        bus
    } else {
        streamed(bus, items.drop_last(), force).after_live(
            spec_did_hash(items.last().to_did),
            items.last().packed,
            force,
        )
    }
}

/// The outcome of storing a run of envelopes.
pub struct StoredModel {
    pub store: StoreModel,
    pub messages: Seq<(Seq<char>, u64)>,
    pub errors: Seq<(Seq<char>, Seq<char>)>,
}

/// The store after each of `items` was stored in turn at the second `now`
/// on behalf of `from_did`, with the ids of those stored and the failures of
/// the others, each list in the order of `items`. A failure for one
/// recipient does not keep the next from being served.
pub open spec fn stored(store: StoreModel, items: Seq<PackedModel>, from_did: Seq<char>, now: u64) -> StoredModel
    decreases items.len(),
{
    if items.len() == 0 {
        StoredModel { store, messages: Seq::empty(), errors: Seq::empty() }
    } else {
        let before = stored(store, items.drop_last(), from_did, now);
        let item = items.last();
        let after = before.store.after_store(item.packed, item.to_did, Some(from_did), now);
        match before.store.store_result(item.packed, item.to_did, now) {
            Ok(id) => StoredModel {
                store: after,
                messages: before.messages.push((item.to_did, id)),
                errors: before.errors,
            },
            Err(e) => StoredModel {
                store: after,
                messages: before.messages,
                errors: before.errors.push((item.to_did, e.spec_kind().spec_name())),
            },
        }
    }
}

/// Storing a run of envelopes accounts for every recipient exactly once,
/// as served or as failed; it leaves the store valid; and those served got
/// ids in the order in which their envelopes were handed in.
pub proof fn law_store_all_accounts_for_each(
    store: StoreModel,
    items: Seq<PackedModel>,
    from_did: Seq<char>,
    now: u64,
)
    requires
        store.valid(),
    ensures
        stored(store, items, from_did, now).messages.len() + stored(
            store,
            items,
            from_did,
            now,
        ).errors.len() == items.len(),
        stored(store, items, from_did, now).store.valid(),
        stored(store, items, from_did, now).store.next_id >= store.next_id,
        forall|i: int|
            0 <= i < stored(store, items, from_did, now).messages.len() ==> store.next_id <= (
            #[trigger] stored(store, items, from_did, now).messages[i]).1 < stored(
                store,
                items,
                from_did,
                now,
            ).store.next_id,
        forall|i: int, j: int|
            0 <= i < j < stored(store, items, from_did, now).messages.len() ==> (#[trigger] stored(
                store,
                items,
                from_did,
                now,
            ).messages[i]).1 < (#[trigger] stored(store, items, from_did, now).messages[j]).1,
    decreases items.len(),
{
    if items.len() > 0 {
        law_store_all_accounts_for_each(store, items.drop_last(), from_did, now);
        let before = stored(store, items.drop_last(), from_did, now);
        let item = items.last();
        crate::mailbox::laws::law_store_keeps_valid(
            before.store,
            item.packed,
            item.to_did,
            Some(from_did),
            now,
        );
        let after = stored(store, items, from_did, now);
        if before.store.store_result(item.packed, item.to_did, now) is Ok {
            let last = before.messages.len() as int;
            assert forall|i: int| 0 <= i < after.messages.len() implies store.next_id <= (
            #[trigger] after.messages[i]).1 < after.store.next_id by {
                if i < last {
                    assert(after.messages[i] == before.messages[i]);
                }
            }
            assert forall|i: int, j: int| 0 <= i < j < after.messages.len() implies (
            #[trigger] after.messages[i]).1 < (#[trigger] after.messages[j]).1 by {
                assert(after.messages[i] == before.messages[i]);
                if j < last {
                    assert(after.messages[j] == before.messages[j]);
                }
            }
        } else {
            assert(after.messages == before.messages);
        }
    }
}

/// The recipients and ids of a list of stored messages.
pub open spec fn stored_pairs(v: Seq<(String, u64)>) -> Seq<(Seq<char>, u64)> {
    v.map_values(|p: (String, u64)| (p.0@, p.1))
}

/// The recipients and reasons of a list of failures.
pub open spec fn error_pairs(v: Seq<(String, String)>) -> Seq<(Seq<char>, Seq<char>)> {
    v.map_values(|p: (String, String)| (p.0@, p.1@))
}

/// Whether `response` is what delivering `items` returns.
pub open spec fn delivered(
    response: InboundMessageResponse,
    store: StoreModel,
    items: Seq<PackedModel>,
    from_did: Seq<char>,
    store_message: bool,
    now: u64,
) -> bool {
    if store_message {
        &&& response matches InboundMessageResponse::Stored(list)
        &&& stored_pairs(list.messages@) == stored(store, items, from_did, now).messages
        &&& error_pairs(list.errors@) == stored(store, items, from_did, now).errors
    } else {
        &&& response matches InboundMessageResponse::Ephemeral(packed)
        &&& packed@ == items[0].packed
    }
}

/// Tries a live delivery for each of the envelopes, in order.
pub fn stream_all(streams: &mut LiveStreams, to_did_packed: &Vec<PackedFor>, force: bool)
    requires
        old(streams).wf(),
    ensures
        final(streams).wf(),
        final(streams)@ == streamed(old(streams)@, packed_models(to_did_packed@), force),
{
    let ghost items = packed_models(to_did_packed@);
    let mut i: usize = 0;
    assert(items.take(0) =~= Seq::<PackedModel>::empty());
    while i < to_did_packed.len()
        invariant
            0 <= i <= to_did_packed.len(),
            items == packed_models(to_did_packed@),
            streams.wf(),
            streams@ == streamed(old(streams)@, items.take(i as int), force),
        decreases to_did_packed.len() - i,
    {
        let hash = did_hash(to_did_packed[i].to_did.as_str());
        streams.try_live_stream(hash.as_str(), to_did_packed[i].packed.as_str(), force);
        proof {
            assert(items.take(i + 1).drop_last() =~= items.take(i as int));
            assert(items.take(i + 1).last() == items[i as int]);
        }
        i += 1;
    }
    assert(items.take(i as int) =~= items);
}

/// Stores each of the envelopes in turn, on behalf of `from_did`, and lists
/// who was served and who was not. One recipient's failure is recorded and
/// does not keep the others from being served.
pub fn store_all(
    store: &mut MailboxStore,
    session: &Session,
    from_did: &str,
    to_did_packed: &Vec<PackedFor>,
    now: u64,
) -> (list: InboundMessageList)
    requires
        old(store).wf(),
    ensures
        final(store).wf(),
        final(store)@ == stored(old(store)@, packed_models(to_did_packed@), from_did@, now).store,
        stored_pairs(list.messages@) == stored(
            old(store)@,
            packed_models(to_did_packed@),
            from_did@,
            now,
        ).messages,
        error_pairs(list.errors@) == stored(
            old(store)@,
            packed_models(to_did_packed@),
            from_did@,
            now,
        ).errors,
{
    let ghost items = packed_models(to_did_packed@);
    let mut messages: Vec<(String, u64)> = Vec::new();
    let mut errors: Vec<(String, String)> = Vec::new();
    let mut i: usize = 0;
    proof {
        assert(items.take(0) =~= Seq::<PackedModel>::empty());
        assert(stored_pairs(messages@) =~= Seq::<(Seq<char>, u64)>::empty());
        assert(error_pairs(errors@) =~= Seq::<(Seq<char>, Seq<char>)>::empty());
    }
    while i < to_did_packed.len()
        invariant
            0 <= i <= to_did_packed.len(),
            items == packed_models(to_did_packed@),
            store.wf(),
            store@ == stored(old(store)@, items.take(i as int), from_did@, now).store,
            stored_pairs(messages@) == stored(
                old(store)@,
                items.take(i as int),
                from_did@,
                now,
            ).messages,
            error_pairs(errors@) == stored(old(store)@, items.take(i as int), from_did@, now).errors,
        decreases to_did_packed.len() - i,
    {
        let item = &to_did_packed[i];
        let ghost served = stored_pairs(messages@);
        let ghost failed = error_pairs(errors@);
        proof {
            assert(items.take(i + 1).drop_last() =~= items.take(i as int));
            assert(items.take(i + 1).last() == items[i as int]);
        }
        match store.store_message(
            session.session_id.as_str(),
            item.packed.as_str(),
            item.to_did.as_str(),
            Some(from_did),
            now,
        ) {
            Ok(id) => {
                messages.push((item.to_did.clone(), id));
                assert(stored_pairs(messages@) =~= served.push((item.to_did@, id)));
            },
            Err(e) => {
                errors.push((item.to_did.clone(), e.to_text()));
                assert(error_pairs(errors@) =~= failed.push(
                    (item.to_did@, e.spec_kind().spec_name()),
                ));
            },
        }
        i += 1;
    }
    assert(items.take(i as int) =~= items);
    InboundMessageList { messages, errors }
}

/// Delivers packed envelopes at the second `now`: a live delivery is tried
/// for each, and then, where the response is to be stored, each is stored for
/// its recipient on behalf of the mediator.
///
/// A response that is not stored is handed back as it is; it is meant for one
/// recipient, and of several envelopes the first is handed back.
pub fn complete_inbound(
    store: &mut MailboxStore,
    streams: &mut LiveStreams,
    session: &Session,
    mediator_did: &str,
    to_did_packed: &Vec<PackedFor>,
    store_message: bool,
    force_live_delivery: bool,
    now: u64,
) -> (response: InboundMessageResponse)
    requires
        old(store).wf(),
        old(streams).wf(),
        store_message || to_did_packed@.len() > 0,
    ensures
        final(store).wf(),
        final(streams).wf(),
        final(streams)@ == streamed(
            old(streams)@,
            packed_models(to_did_packed@),
            force_live_delivery,
        ),
        final(store)@ == if store_message {
            stored(old(store)@, packed_models(to_did_packed@), mediator_did@, now).store
        } else {
            old(store)@
        },
        delivered(
            response,
            old(store)@,
            packed_models(to_did_packed@),
            mediator_did@,
            store_message,
            now,
        ),
{
    stream_all(streams, to_did_packed, force_live_delivery);
    if store_message {
        let list = store_all(store, session, mediator_did, to_did_packed, now);
        InboundMessageResponse::Stored(list)
    } else {
        InboundMessageResponse::Ephemeral(to_did_packed[0].packed.clone())
    }
}

/// Whether `items` are envelopes for `recipients`, one for each, in order.
pub open spec fn addressed_to_each(items: Seq<PackedModel>, recipients: Seq<Seq<char>>) -> bool {
    &&& items.len() == recipients.len()
    &&& forall|i: int| 0 <= i < items.len() ==> (#[trigger] items[i]).to_did == recipients[i]
}

/// Whether `response`, `store` and `bus` are what delivering `items` makes
/// of the store `before` and the bus `bus_before`.
pub open spec fn delivery_done(
    response: InboundMessageResponse,
    store: StoreModel,
    bus: StreamsModel,
    before: StoreModel,
    bus_before: StreamsModel,
    items: Seq<PackedModel>,
    from_did: Seq<char>,
    store_message: bool,
    force_live_delivery: bool,
    now: u64,
) -> bool {
    &&& bus == streamed(bus_before, items, force_live_delivery)
    &&& store == if store_message {
        stored(before, items, from_did, now).store
    } else {
        before
    }
    &&& delivered(response, before, items, from_did, store_message, now)
}

/// Whether `response`, `store` and `bus` are what carrying `plan` out makes
/// of the store `before` and the bus `bus_before`: the envelopes of the plan,
/// or envelopes for the recipients of its message, one for each, were
/// delivered.
pub open spec fn plan_delivered(
    plan: InboundPlan,
    response: InboundMessageResponse,
    store: StoreModel,
    bus: StreamsModel,
    before: StoreModel,
    bus_before: StreamsModel,
    mediator_did: Seq<char>,
    now: u64,
) -> bool {
    match plan {
        InboundPlan::Deliver { to_did_packed, store_message, force_live_delivery } => {
            &&& store_message || to_did_packed@.len() > 0
            &&& delivery_done(
                response,
                store,
                bus,
                before,
                bus_before,
                packed_models(to_did_packed@),
                mediator_did,
                store_message,
                force_live_delivery,
                now,
            )
        },
        InboundPlan::Pack { message, recipients, store_message, force_live_delivery } => {
            &&& store_message || recipients@.len() > 0
            &&& exists|items: Seq<PackedModel>|
                {
                    &&& addressed_to_each(items, texts(recipients@))
                    &&& delivery_done(
                        response,
                        store,
                        bus,
                        before,
                        bus_before,
                        items,
                        mediator_did,
                        store_message,
                        force_live_delivery,
                        now,
                    )
                }
        },
    }
}

/// Carries a plan out at the second `now`: envelopes that are packed are
/// delivered; a message still to be packed is packed for each recipient,
/// from the mediator's DID, and then delivered.
///
/// A response that is neither stored nor has a recipient is a `PackError`,
/// and so is a message that cannot be packed for one of its recipients;
/// nothing is delivered then. Whether a message can be packed is for the
/// cryptography to say, and so is what the envelopes hold.
pub fn deliver_plan(
    agent: &DIDCommAgent,
    store: &mut MailboxStore,
    streams: &mut LiveStreams,
    session: &Session,
    mediator_did: &str,
    plan: InboundPlan,
    now: u64,
) -> (result: Result<InboundMessageResponse, MediatorError>)
    requires
        old(store).wf(),
        old(streams).wf(),
    ensures
        final(store).wf(),
        final(streams).wf(),
        result is Err ==> {
            &&& refused(result, ErrorKind::PackError, session.session_id@)
            &&& final(store)@ == old(store)@
            &&& final(streams)@ == old(streams)@
        },
        plan matches InboundPlan::Deliver { to_did_packed, store_message, .. } ==> (result is Ok
            <==> store_message || to_did_packed@.len() > 0),
        plan is Deliver && result is Err ==> refused_because(
            result,
            ErrorKind::PackError,
            session.session_id@,
            "Recipients are empty"@,
        ),
        result matches Ok(response) ==> plan_delivered(
            plan,
            response,
            final(store)@,
            final(streams)@,
            old(store)@,
            old(streams)@,
            mediator_did@,
            now,
        ),
{
    match plan {
        InboundPlan::Deliver { to_did_packed, store_message, force_live_delivery } => {
            if !store_message && to_did_packed.len() == 0 {
                return Err(
                    MediatorError::new(
                        ErrorKind::PackError,
                        session.session_id.as_str(),
                        "Recipients are empty",
                    ),
                );
            }
            Ok(
                complete_inbound(
                    store,
                    streams,
                    session,
                    mediator_did,
                    &to_did_packed,
                    store_message,
                    force_live_delivery,
                    now,
                ),
            )
        },
        InboundPlan::Pack { message, recipients, store_message, force_live_delivery } => {
            if !store_message && recipients.len() == 0 {
                return Err(
                    MediatorError::new(
                        ErrorKind::PackError,
                        session.session_id.as_str(),
                        "Recipients are empty",
                    ),
                );
            }
            let to_did_packed = pack_all(agent, &message, &recipients, mediator_did, session)?;
            let response = complete_inbound(
                store,
                streams,
                session,
                mediator_did,
                &to_did_packed,
                store_message,
                force_live_delivery,
                now,
            );
            proof {
                let items = packed_models(to_did_packed@);
                assert(addressed_to_each(items, texts(recipients@))) by {
                    assert forall|i: int| 0 <= i < items.len() implies (#[trigger] items[i]).to_did
                        == texts(recipients@)[i] by {
                        assert(to_did_packed@[i].to_did@ == recipients@[i]@);
                    }
                }
                assert(delivery_done(
                    response,
                    store@,
                    streams@,
                    old(store)@,
                    old(streams)@,
                    items,
                    mediator_did@,
                    store_message,
                    force_live_delivery,
                    now,
                ));
            }
            Ok(response)
        },
    }
}

/// Whether a failure of `kind` can end an inbound request.
pub open spec fn inbound_failure(kind: ErrorKind) -> bool {
    ||| kind == ErrorKind::ParseError
    ||| kind == ErrorKind::UnpackError
    ||| kind == ErrorKind::MessageExpired
    ||| kind == ErrorKind::RequestDataError
    ||| kind == ErrorKind::PackError
    ||| kind == ErrorKind::InternalError
}

/// Handles an inbound envelope from end to end, at the second `now`: it is
/// unpacked with the keys of the mediator's agent, the message is handed to
/// the handler of its protocol, and the handler's answer is packed where it
/// must be, pushed to live subscribers and stored for its recipients.
///
/// An envelope that is no JSON is a `ParseError`. Of any other envelope,
/// what the cryptography makes of it decides the rest: where the
/// request succeeds, a message was unpacked whose plan, as `handle_unpacked`
/// makes it, was carried out as `deliver_plan` does. A failure for one
/// recipient's mailbox is listed in the response and does not fail the
/// request. A request that fails touches neither the store nor the bus.
pub fn handle_inbound(
    state: &mut SharedData,
    session: &Session,
    message: &str,
    sender_did: Option<&str>,
    now: u64,
) -> (result: Result<InboundMessageResponse, MediatorError>)
    requires
        old(state).wf(),
    ensures
        final(state).wf(),
        final(state).config == old(state).config,
        final(state).auth == old(state).auth,
        final(state).service_start_timestamp == old(state).service_start_timestamp,
        !json_readable(message@) ==> refused_because(
            result,
            ErrorKind::ParseError,
            session.session_id@,
            "Raw inbound DIDComm message"@,
        ),
        result matches Err(e) ==> {
            &&& inbound_failure(e.kind)
            &&& e.session_id@ == session.session_id@
            &&& final(state).database@ == old(state).database@
            &&& final(state).streams@ == old(state).streams@
        },
        result matches Ok(response) ==> exists|msg: UnpackedMessage, plan: InboundPlan|
            {
                &&& inbound_outcome(
                    Ok::<InboundPlan, MediatorError>(plan),
                    msg@,
                    forward_of(msg@),
                    session.limits.to_recipients_limit,
                    session.session_id@,
                    old(state).config.mediator_did@,
                    now,
                )
                &&& plan_delivered(
                    plan,
                    response,
                    final(state).database@,
                    final(state).streams@,
                    old(state).database@,
                    old(state).streams@,
                    old(state).config.mediator_did@,
                    now,
                )
            },
{
    let (msg, _metadata) = unpack_envelope(
        &state.didcomm,
        message,
        sender_did,
        session.limits.crypto_operations_per_message_limit,
        session.session_id.as_str(),
    )?;
    let plan = handle_unpacked(&msg, session, state.config.mediator_did.as_str(), now)?;
    let ghost planned = plan;
    let result = deliver_plan(
        &state.didcomm,
        &mut state.database,
        &mut state.streams,
        session,
        state.config.mediator_did.as_str(),
        plan,
        now,
    );
    proof {
        if result is Ok {
            assert(inbound_outcome(
                Ok::<InboundPlan, MediatorError>(planned),
                msg@,
                forward_of(msg@),
                session.limits.to_recipients_limit,
                session.session_id@,
                old(state).config.mediator_did@,
                now,
            ));
            assert(plan_delivered(
                planned,
                result->Ok_0,
                state.database@,
                state.streams@,
                old(state).database@,
                old(state).streams@,
                old(state).config.mediator_did@,
                now,
            ));
        }
    }
    result
}

} // verus!
