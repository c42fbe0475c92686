//! The handlers of the mailbox requests: list, fetch and delete. Each works on
//! the mailbox of the session's own DID.

use crate::dispatch::refused_because;
use crate::text::{decimal, decimal_text, with_number};
use crate::errors::{ErrorKind, MediatorError};
use crate::mailbox::model::{Folder, StoreModel};
use crate::mailbox::store::{header_models, MailboxStore, MessageHeader};
use crate::messages::UnpackMetadata;
use crate::session::Session;
use vstd::prelude::*;
use vstd::string::StringExecFns;

verus! {

/// The envelope of every successful answer.
#[derive(Debug)]
pub struct SuccessResponse<T> {
    pub session_id: String,
    pub http_code: u16,
    pub error_code: i32,
    pub error_code_str: String,
    pub message: String,
    pub data: Option<T>,
}

/// Whether `response` is the envelope of a success within `session_id`.
pub open spec fn is_success<T>(response: SuccessResponse<T>, session_id: Seq<char>) -> bool {
    &&& response.session_id@ == session_id
    &&& response.http_code == 200
    &&& response.error_code == 0
    &&& response.error_code_str@ == "NA"@
    &&& response.message@ == "Success"@
    &&& response.data is Some
}

/// The envelope of a success that carries `data`.
pub fn success_response<T>(session_id: &str, data: T) -> (response: SuccessResponse<T>)
    ensures
        is_success(response, session_id@),
        response.data == Some(data),
{
    SuccessResponse {
        session_id: session_id.to_owned(),
        http_code: 200,
        error_code: 0,
        error_code_str: "NA".to_owned(),
        message: "Success".to_owned(),
        data: Some(data),
    }
}

/// A body with what unpacking found out about its envelope.
#[derive(Debug)]
pub struct ResponseData {
    pub body: String,
    pub metadata: UnpackMetadata,
}

/// A request to delete messages.
#[derive(Debug)]
pub struct DeleteMessageRequest {
    pub message_ids: Vec<u64>,
}

/// Which messages were deleted, and which were not and why.
#[derive(Debug)]
pub struct DeleteMessageResponse {
    pub success: Vec<u64>,
    pub errors: Vec<(u64, String)>,
}

/// The outcome of deleting a run of messages.
pub struct DeletedModel {
    pub store: StoreModel,
    pub success: Seq<u64>,
    pub errors: Seq<(u64, Seq<char>)>,
}

/// The store after the caller with DID hash `h` deleted each of `ids` in
/// turn at the second `now`, with the ids deleted and the failures of the
/// others, each list in the order of `ids`.
pub open spec fn deleted(store: StoreModel, h: Seq<char>, ids: Seq<u64>, now: u64) -> DeletedModel
    decreases ids.len(),
{
    if ids.len() == 0 {
        DeletedModel { store, success: Seq::empty(), errors: Seq::empty() }
    } else {
        let before = deleted(store, h, ids.drop_last(), now);
        let id = ids.last();
        let after = before.store.after_delete(h, id, now);
        match before.store.delete_result(h, id, now) {
            Ok(_) => DeletedModel {
                store: after,
                success: before.success.push(id),
                errors: before.errors,
            },
            Err(e) => DeletedModel {
                store: after,
                success: before.success,
                errors: before.errors.push((id, e.spec_kind().spec_name())),
            },
        }
    }
}

/// The ids and reasons of a list of failures.
pub open spec fn id_errors(v: Seq<(u64, String)>) -> Seq<(u64, Seq<char>)> {
    v.map_values(|p: (u64, String)| (p.0, p.1@))
}

/// The reason for which a request that lists `received` ids is refused
/// where one request may delete `limit` messages at most.
pub open spec fn delete_limit_reason(limit: u32, received: nat) -> Seq<char> {
    "Operation exceeds the allowed limit. You may delete a maximum of "@ + decimal_text(
        limit as nat,
    ) + " messages per request. Received "@ + decimal_text(received) + " ids."@
}

/// Deletes the listed messages from the mailbox of the session's DID, at the
/// second `now`.
///
/// A request that lists more than `max_deleted_messages` ids is refused as
/// `RequestDataError` and deletes nothing. Otherwise each id is tried in turn;
/// a message that cannot be deleted is recorded with the reason and does not
/// keep the others from being deleted.
pub fn message_delete_handler(
    session: &Session,
    store: &mut MailboxStore,
    body: &DeleteMessageRequest,
    now: u64,
) -> (result: Result<SuccessResponse<DeleteMessageResponse>, MediatorError>)
    requires
        old(store).wf(),
    ensures
        final(store).wf(),
        body.message_ids@.len() > session.limits.max_deleted_messages ==> {
            &&& refused_because(
                result,
                ErrorKind::RequestDataError,
                session.session_id@,
                delete_limit_reason(session.limits.max_deleted_messages, body.message_ids@.len()),
            )
            &&& final(store)@ == old(store)@
        },
        body.message_ids@.len() <= session.limits.max_deleted_messages ==> {
            &&& result matches Ok(response)
            &&& is_success(response, session.session_id@)
            &&& response.data matches Some(done)
            &&& done.success@ == deleted(
                old(store)@,
                session.did_hash@,
                body.message_ids@,
                now,
            ).success
            &&& id_errors(done.errors@) == deleted(
                old(store)@,
                session.did_hash@,
                body.message_ids@,
                now,
            ).errors
            &&& final(store)@ == deleted(
                old(store)@,
                session.did_hash@,
                body.message_ids@,
                now,
            ).store
        },
{
    if body.message_ids.len() > session.limits.max_deleted_messages as usize {
        let mut reason = with_number(
            "Operation exceeds the allowed limit. You may delete a maximum of ",
            session.limits.max_deleted_messages as u64,
            " messages per request. Received ",
        );
        reason.append(decimal(body.message_ids.len() as u64).as_str());
        reason.append(" ids.");
        return Err(
            MediatorError::new(
                ErrorKind::RequestDataError,
                session.session_id.as_str(),
                reason.as_str(),
            ),
        );
    }
    let ghost ids = body.message_ids@;
    let ghost h = session.did_hash@;
    let mut success: Vec<u64> = Vec::new();
    let mut errors: Vec<(u64, String)> = Vec::new();
    let mut i: usize = 0;
    proof {
        assert(ids.take(0) =~= Seq::<u64>::empty());
        assert(id_errors(errors@) =~= Seq::<(u64, Seq<char>)>::empty());
    }
    while i < body.message_ids.len()
        invariant
            0 <= i <= body.message_ids.len(),
            ids == body.message_ids@,
            h == session.did_hash@,
            store.wf(),
            store@ == deleted(old(store)@, h, ids.take(i as int), now).store,
            success@ == deleted(old(store)@, h, ids.take(i as int), now).success,
            id_errors(errors@) == deleted(old(store)@, h, ids.take(i as int), now).errors,
        decreases body.message_ids.len() - i,
    {
        let id = body.message_ids[i];
        let ghost failed = id_errors(errors@);
        proof {
            assert(ids.take(i + 1).drop_last() =~= ids.take(i as int));
            assert(ids.take(i + 1).last() == ids[i as int]);
        }
        match store.delete_message(
            session.session_id.as_str(),
            session.did_hash.as_str(),
            id,
            now,
        ) {
            Ok(_) => {
                success.push(id);
            },
            Err(e) => {
                errors.push((id, e.to_text()));
                assert(id_errors(errors@) =~= failed.push((id, e.spec_kind().spec_name())));
            },
        }
        i += 1;
    }
    assert(ids.take(i as int) =~= ids);
    Ok(success_response(session.session_id.as_str(), DeleteMessageResponse { success, errors }))
}

/// A request to list the headers of a folder.
#[derive(Debug)]
pub struct ListMessagesRequest {
    /// The hash of the DID whose folder is meant: the caller's own.
    pub did_hash: String,
    pub folder: Folder,
    pub limit: usize,
}

/// Lists the headers of a folder of the session's DID, at the second `now`.
///
/// A request for the folder of another DID is refused as `NotFound`, one for
/// more than `max_listed_messages` headers as `RequestDataError`; neither
/// touches the store. Otherwise the answer is that of `list_messages`.
pub fn message_list_handler(
    session: &Session,
    store: &mut MailboxStore,
    body: &ListMessagesRequest,
    now: u64,
) -> (result: Result<SuccessResponse<Vec<MessageHeader>>, MediatorError>)
    requires
        old(store).wf(),
    ensures
        final(store).wf(),
        body.did_hash@ != session.did_hash@ ==> {
            &&& refused_because(
                result,
                ErrorKind::NotFound,
                session.session_id@,
                "The mailbox does not belong to the session"@,
            )
            &&& final(store)@ == old(store)@
        },
        body.did_hash@ == session.did_hash@ && body.limit > session.limits.max_listed_messages
            ==> {
            &&& refused_because(
                result,
                ErrorKind::RequestDataError,
                session.session_id@,
                "Operation exceeds the allowed limit of messages that one request may list"@,
            )
            &&& final(store)@ == old(store)@
        },
        body.did_hash@ == session.did_hash@ && body.limit <= session.limits.max_listed_messages
            ==> {
            &&& result matches Ok(response)
            &&& is_success(response, session.session_id@)
            &&& response.data matches Some(headers)
            &&& header_models(headers@) == old(store)@.list_result(
                body.folder,
                session.did_hash@,
                body.limit,
                now,
            )
            &&& final(store)@ == old(store)@.purged(body.folder, session.did_hash@, now)
        },
{
    if !(body.did_hash == session.did_hash) {
        return Err(
            MediatorError::new(
                ErrorKind::NotFound,
                session.session_id.as_str(),
                "The mailbox does not belong to the session",
            ),
        );
    }
    if body.limit > session.limits.max_listed_messages as usize {
        return Err(
            MediatorError::new(
                ErrorKind::RequestDataError,
                session.session_id.as_str(),
                "Operation exceeds the allowed limit of messages that one request may list",
            ),
        );
    }
    let headers = store.list_messages(session.did_hash.as_str(), body.folder, body.limit, now);
    Ok(success_response(session.session_id.as_str(), headers))
}

/// A request to fetch messages.
#[derive(Debug)]
pub struct FetchMessagesRequest {
    pub message_ids: Vec<u64>,
}

/// The messages fetched, and which were not and why.
#[derive(Debug)]
pub struct FetchMessagesResponse {
    pub messages: Vec<(u64, String)>,
    pub errors: Vec<(u64, String)>,
}

/// The outcome of fetching a run of messages.
pub struct FetchedModel {
    pub store: StoreModel,
    pub messages: Seq<(u64, Seq<char>)>,
    pub errors: Seq<(u64, Seq<char>)>,
}

/// The store after the caller with DID hash `h` fetched each of `ids` in
/// turn at the second `now`, with the packed messages found and the failures
/// of the others, each list in the order of `ids`.
pub open spec fn fetched(store: StoreModel, h: Seq<char>, ids: Seq<u64>, now: u64) -> FetchedModel
    decreases ids.len(),
{
    if ids.len() == 0 {
        FetchedModel { store, messages: Seq::empty(), errors: Seq::empty() }
    } else {
        let before = fetched(store, h, ids.drop_last(), now);
        let id = ids.last();
        let after = before.store.purged(Folder::Inbox, h, now);
        match before.store.get_result(h, id, now) {
            Ok(packed) => FetchedModel {
                store: after,
                messages: before.messages.push((id, packed)),
                errors: before.errors,
            },
            Err(e) => FetchedModel {
                store: after,
                messages: before.messages,
                errors: before.errors.push((id, e.spec_kind().spec_name())),
            },
        }
    }
}

/// Fetches the listed messages from the mailbox of the session's DID, at the
/// second `now`. A message that cannot be fetched is recorded with the reason
/// and does not keep the others from being fetched.
pub fn message_fetch_handler(
    session: &Session,
    store: &mut MailboxStore,
    body: &FetchMessagesRequest,
    now: u64,
) -> (response: SuccessResponse<FetchMessagesResponse>)
    requires
        old(store).wf(),
    ensures
        final(store).wf(),
        is_success(response, session.session_id@),
        response.data matches Some(found) && {
            &&& id_errors(found.messages@) == fetched(
                old(store)@,
                session.did_hash@,
                body.message_ids@,
                now,
            ).messages
            &&& id_errors(found.errors@) == fetched(
                old(store)@,
                session.did_hash@,
                body.message_ids@,
                now,
            ).errors
        },
        final(store)@ == fetched(old(store)@, session.did_hash@, body.message_ids@, now).store,
{
    let ghost ids = body.message_ids@;
    let ghost h = session.did_hash@;
    let mut messages: Vec<(u64, String)> = Vec::new();
    let mut errors: Vec<(u64, String)> = Vec::new();
    let mut i: usize = 0;
    proof {
        assert(ids.take(0) =~= Seq::<u64>::empty());
        assert(id_errors(messages@) =~= Seq::<(u64, Seq<char>)>::empty());
        assert(id_errors(errors@) =~= Seq::<(u64, Seq<char>)>::empty());
    }
    while i < body.message_ids.len()
        invariant
            0 <= i <= body.message_ids.len(),
            ids == body.message_ids@,
            h == session.did_hash@,
            store.wf(),
            store@ == fetched(old(store)@, h, ids.take(i as int), now).store,
            id_errors(messages@) == fetched(old(store)@, h, ids.take(i as int), now).messages,
            id_errors(errors@) == fetched(old(store)@, h, ids.take(i as int), now).errors,
        decreases body.message_ids.len() - i,
    {
        let id = body.message_ids[i];
        let ghost found = id_errors(messages@);
        let ghost failed = id_errors(errors@);
        proof {
            assert(ids.take(i + 1).drop_last() =~= ids.take(i as int));
            assert(ids.take(i + 1).last() == ids[i as int]);
        }
        match store.get_message(session.did_hash.as_str(), id, now) {
            Ok(packed) => {
                let ghost text = packed@;
                messages.push((id, packed));
                assert(id_errors(messages@) =~= found.push((id, text)));
            },
            Err(e) => {
                errors.push((id, e.to_text()));
                assert(id_errors(errors@) =~= failed.push((id, e.spec_kind().spec_name())));
            },
        }
        i += 1;
    }
    assert(ids.take(i as int) =~= ids);
    success_response(session.session_id.as_str(), FetchMessagesResponse { messages, errors })
}

} // verus!
