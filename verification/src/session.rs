//! The receive-session controller: the decision core behind the three
//! protocol endpoints (`send-request`, `send`, `cancel`).
//!
//! Each handler is a function from the shared [`AppState`] and the incoming
//! values to the next state, a result, and the messages published for the
//! front end.  Handlers append what they publish to an `outbox` vector; the
//! runtime that owns the real queue forwards the appended suffix.  The exact
//! semantics of every handler is captured by a `*_step` predicate, and the
//! protocol laws are proved from those predicates.

use crate::keyseq::{
    first_key_index, has_key, lemma_first_key_index, lemma_first_key_index_is_first, unique_keys,
};
use crate::protos::{
    accepted_ids, offer_ids, AcceptedFile, AcceptedFileView, AppState, ClientMessage, FileOffer,
    ReceiveSession, ReceiveSessionView, ReceiveStatus, SendRequest, SendRequestView,
    ServerMessage,
};
use crate::tokens::{is_uuid_chars, new_uuid_string};
use vstd::prelude::*;
use vstd::string::StrSliceExecFns;
use vstd::string::StringExecFns;

verus! {

/// Why a handler refused a call; each variant maps onto one HTTP status.
#[derive(Clone, Copy, Debug, PartialEq, Eq, Structural)]
pub enum RequestError {
    /// Another session is live; `send-request` answers 409.
    Blocked,
    /// The user declined the transfer; `send-request` answers 403.
    Declined,
    /// `cancel` arrived with no live session; 400.
    NoSessionToCancel,
    /// `send` arrived with no live session; 500.
    NoActiveSession,
    /// `send` named a file id the session does not hold; 500.
    UnknownFileId,
    /// `send` carried a token other than the one issued for its file; 403.
    WrongToken,
    /// The session was cancelled while the file was streaming in; 500.
    SessionCancelled,
}

impl RequestError {
    /// The HTTP status code this error maps onto.
    pub open spec fn spec_status_code(self) -> u16 {
        match self {
            RequestError::Blocked => 409,
            RequestError::Declined => 403,
            RequestError::NoSessionToCancel => 400,
            RequestError::NoActiveSession => 500,
            RequestError::UnknownFileId => 500,
            RequestError::WrongToken => 403,
            RequestError::SessionCancelled => 500,
        }
    }

    /// The response body this error maps onto.
    pub open spec fn spec_message(self) -> Seq<char> {
        match self {
            RequestError::Blocked => "Blocked by another sesssion"@,
            RequestError::Declined => "User declined the request"@,
            RequestError::NoSessionToCancel => "Cannot cancel a non existant session"@,
            RequestError::NoActiveSession => "Call to /send without requesting a send"@,
            RequestError::UnknownFileId => "Call to /send with unknown file id"@,
            RequestError::WrongToken => "Token does not match the requested file id"@,
            RequestError::SessionCancelled => "Session might have been cancelled while receiving file"@,
        }
    }

    /// The HTTP status code this error maps onto.
    pub fn status_code(&self) -> (r: u16)
        ensures
            r == self.spec_status_code(),
    {
        match self {
            RequestError::Blocked => 409,
            RequestError::Declined => 403,
            RequestError::NoSessionToCancel => 400,
            RequestError::NoActiveSession => 500,
            RequestError::UnknownFileId => 500,
            RequestError::WrongToken => 403,
            RequestError::SessionCancelled => 500,
        }
    }

    /// The response body this error maps onto.  The 409 text preserves the
    /// historical spelling on the wire.
    pub fn message(&self) -> (r: String)
        ensures
            r@ == self.spec_message(),
    {
        match self {
            RequestError::Blocked => "Blocked by another sesssion".to_owned(),
            RequestError::Declined => "User declined the request".to_owned(),
            RequestError::NoSessionToCancel => "Cannot cancel a non existant session".to_owned(),
            RequestError::NoActiveSession => "Call to /send without requesting a send".to_owned(),
            RequestError::UnknownFileId => "Call to /send with unknown file id".to_owned(),
            RequestError::WrongToken => "Token does not match the requested file id".to_owned(),
            RequestError::SessionCancelled => {
                "Session might have been cancelled while receiving file".to_owned()
            },
        }
    }
}

/// One entry of the `send-request` response: a file id and the token minted
/// for it.  The response as a whole is the JSON object these entries form.
#[derive(Debug)]
pub struct FileToken {
    pub file_id: String,
    pub token: String,
}

/// Mathematical image of a [`FileToken`].
pub struct FileTokenView {
    pub file_id: Seq<char>,
    pub token: Seq<char>,
}

impl View for FileToken {
    type V = FileTokenView;

    open spec fn view(&self) -> FileTokenView {
        FileTokenView { file_id: self.file_id@, token: self.token@ }
    }
}

/// The file ids of a token list, in order.
pub open spec fn token_ids(toks: Seq<FileTokenView>) -> Seq<Seq<char>> {
    toks.map_values(|t: FileTokenView| t.file_id)
}

/// `dir` and `name` joined with exactly one `/` between them.
pub open spec fn spec_join_path(dir: Seq<char>, name: Seq<char>) -> Seq<char> {
    if dir.len() > 0 && dir.last() == '/' {
        dir + name
    } else {
        dir + seq!['/'] + name
    }
}

/// Destination path of a file: the destination directory and the file name,
/// joined with exactly one separator.
pub fn join_path(dir: &str, name: &str) -> (r: String)
    ensures
        r@ == spec_join_path(dir@, name@),
{
    proof {
        reveal_strlit("/");
    }
    let n = dir.unicode_len();
    let mut out = dir.to_owned();
    if n == 0 || dir.get_char(n - 1) != '/' {
        out.append("/");
    }
    out.append(name);
    out
}

/// The ids the controller accepts when the front end allows `ids` against
/// the offered keys `offered`: the ids that are actually offered, in the
/// order the front end listed them, first occurrence only.
pub open spec fn accepted_id_list(offered: Seq<Seq<char>>, ids: Seq<Seq<char>>) -> Seq<Seq<char>>
    decreases ids.len(),
{
    if ids.len() == 0 {
        Seq::empty()
    } else {
        let prefix = accepted_id_list(offered, ids.drop_last());
        let id = ids.last();
        if has_key(offered, id) && !has_key(prefix, id) {
            prefix.push(id)
        } else {
            prefix
        }
    }
}

/// The views of the ids the front end allowed.
pub open spec fn allowed_ids(ids: Seq<String>) -> Seq<Seq<char>> {
    ids.map_values(|s: String| s@)
}

/// What a fresh session and the token response must look like after a
/// request for `req` was allowed with the id list `ids`: the accepted files
/// are the offered subset of `ids` in order, each still `Waiting`, carrying
/// its offered metadata and a freshly minted token, and the response lists
/// exactly those ids with exactly those tokens.
pub open spec fn accepted_files_ok(
    req: SendRequestView,
    ids: Seq<Seq<char>>,
    files: Seq<AcceptedFileView>,
    toks: Seq<FileTokenView>,
) -> bool {
    let acc = accepted_id_list(offer_ids(req.files), ids);
    &&& accepted_ids(files) == acc
    &&& token_ids(toks) == acc
    &&& toks.len() == files.len()
    &&& forall|i: int|
        0 <= i < files.len() ==> {
            &&& (#[trigger] files[i]).info == req.files_map()[files[i].file_id]
            &&& files[i].status == ReceiveStatus::Waiting
            &&& is_uuid_chars(files[i].token)
            &&& toks[i].token == files[i].token
        }
}

/// Exact semantics of the `send-request` handler, from the state and the
/// front end's reply to the next state, the result, and the published
/// messages.
pub open spec fn send_request_step(
    pre: AppState,
    req: SendRequestView,
    reply: Option<ClientMessage>,
    post: AppState,
    r: Result<Vec<FileToken>, RequestError>,
    emitted: Seq<ServerMessage>,
) -> bool {
    if pre.receive_session is Some {
        // Another session is live: refused outright, nothing published.
        &&& r == Err::<Vec<FileToken>, RequestError>(RequestError::Blocked)
        &&& post == pre
        &&& emitted == Seq::<ServerMessage>::empty()
    } else {
        // The request is published for the front end exactly once.
        &&& emitted.len() == 1
        &&& emitted[0] matches ServerMessage::SendRequest(published) && published@ == req
        &&& match reply {
            Some(ClientMessage::Allow(ids)) => {
                &&& r matches Ok(toks)
                &&& post.receive_session matches Some(sess)
                &&& sess@.sender == req.device_info
                &&& sess@.destination_directory == pre.destination_directory@
                &&& sess@.status == ReceiveStatus::Waiting
                &&& sess@.wf()
                &&& accepted_files_ok(
                    req,
                    allowed_ids(ids@),
                    sess@.files,
                    r->Ok_0@.map_values(|t: FileToken| t@),
                )
                &&& post.destination_directory == pre.destination_directory
            },
            // A decline, or a closed channel, refuses with 403 and leaves
            // the state untouched.
            _ => {
                &&& r == Err::<Vec<FileToken>, RequestError>(RequestError::Declined)
                &&& post == pre
            },
        }
    }
}

/// Exact semantics of the `cancel` handler.
pub open spec fn cancel_step(
    pre: AppState,
    post: AppState,
    r: Result<(), RequestError>,
    emitted: Seq<ServerMessage>,
) -> bool {
    if pre.receive_session is None {
        &&& r == Err::<(), RequestError>(RequestError::NoSessionToCancel)
        &&& post == pre
        &&& emitted == Seq::<ServerMessage>::empty()
    } else {
        &&& r == Ok::<(), RequestError>(())
        &&& post.receive_session is None
        &&& post.destination_directory == pre.destination_directory
        &&& emitted == seq![ServerMessage::CancelSession]
    }
}

/// The conflict gate of the `send-request` handler, run before the front
/// end is consulted: with a live session it refuses with 409 and publishes
/// nothing; otherwise it publishes the request for the front end exactly
/// once.  [`resolve_send_request`] finishes the call once the front end has
/// answered; the runtime holds the state lock across both.
pub fn begin_send_request(
    state: &AppState,
    req: &SendRequest,
    outbox: &mut Vec<ServerMessage>,
) -> (r: Result<(), RequestError>)
    ensures
        state.receive_session is Some ==> {
            &&& r == Err::<(), RequestError>(RequestError::Blocked)
            &&& *final(outbox) == *old(outbox)
        },
        state.receive_session is None ==> {
            &&& r == Ok::<(), RequestError>(())
            &&& final(outbox)@.len() == old(outbox)@.len() + 1
            &&& final(outbox)@.drop_last() == old(outbox)@
            &&& final(outbox)@.last() matches ServerMessage::SendRequest(published)
                && published@ == req@
        },
{
    if state.receive_session.is_some() {
        return Err(RequestError::Blocked);
    }
    outbox.push(ServerMessage::SendRequest(req.duplicate()));
    proof {
        assert(outbox@.drop_last() =~= old(outbox)@);
    }
    Ok(())
}

/// The `cancel` handler: with no live session it refuses with 400;
/// otherwise it drops the session and publishes exactly one
/// `CancelSession`.
pub fn handle_cancel_request(state: &mut AppState, outbox: &mut Vec<ServerMessage>) -> (r:
    Result<(), RequestError>)
    ensures
        old(outbox)@.is_prefix_of(final(outbox)@),
        cancel_step(
            *old(state),
            *final(state),
            r,
            final(outbox)@.skip(old(outbox)@.len() as int),
        ),
{
    if state.receive_session.is_none() {
        proof {
            assert(outbox@.skip(old(outbox)@.len() as int) =~= Seq::<ServerMessage>::empty());
        }
        return Err(RequestError::NoSessionToCancel);
    }
    outbox.push(ServerMessage::CancelSession);
    state.receive_session = None;
    proof {
        assert(outbox@.skip(old(outbox)@.len() as int) =~= seq![ServerMessage::CancelSession]);
        assert(old(outbox)@.is_prefix_of(outbox@)) by {
            assert(outbox@.subrange(0, old(outbox)@.len() as int) =~= old(outbox)@);
        }
    }
    Ok(())
}

/// Position of the first offer carrying `id`, if any.
fn find_offer(files: &Vec<FileOffer>, id: &String) -> (r: Option<usize>)
    ensures
        match r {
            Some(i) => i < files@.len() && first_key_index(
                offer_ids(files@.map_values(|o: FileOffer| o@)),
                id@,
            ) == i as int,
            None => !has_key(offer_ids(files@.map_values(|o: FileOffer| o@)), id@),
        },
{
    let ghost keys = offer_ids(files@.map_values(|o: FileOffer| o@));
    let mut i: usize = 0;
    while i < files.len()
        invariant
            i <= files@.len(),
            keys == offer_ids(files@.map_values(|o: FileOffer| o@)),
            forall|j: int| 0 <= j < i ==> keys[j] != id@,
        decreases files@.len() - i,
    {
        proof {
            assert(keys[i as int] == files@[i as int]@.file_id);
        }
        if files[i].file_id.eq(id) {
            proof {
                lemma_first_key_index_is_first(keys, id@, i as int);
            }
            return Some(i);
        }
        i = i + 1;
    }
    proof {
        lemma_first_key_index(keys, id@);
    }
    None
}

/// Position of the accepted file carrying `id`, if any.
fn find_accepted(files: &Vec<AcceptedFile>, id: &String) -> (r: Option<usize>)
    ensures
        match r {
            Some(i) => i < files@.len() && first_key_index(
                accepted_ids(files@.map_values(|f: AcceptedFile| f@)),
                id@,
            ) == i as int,
            None => !has_key(accepted_ids(files@.map_values(|f: AcceptedFile| f@)), id@),
        },
{
    let ghost keys = accepted_ids(files@.map_values(|f: AcceptedFile| f@));
    let mut i: usize = 0;
    while i < files.len()
        invariant
            i <= files@.len(),
            keys == accepted_ids(files@.map_values(|f: AcceptedFile| f@)),
            forall|j: int| 0 <= j < i ==> keys[j] != id@,
        decreases files@.len() - i,
    {
        proof {
            assert(keys[i as int] == files@[i as int]@.file_id);
        }
        if files[i].file_id.eq(id) {
            proof {
                lemma_first_key_index_is_first(keys, id@, i as int);
            }
            return Some(i);
        }
        i = i + 1;
    }
    proof {
        lemma_first_key_index(keys, id@);
    }
    None
}

/// Finishes a `send-request` call once the front end has answered (or its
/// channel closed, which counts as a decline): a decline leaves the state
/// untouched and maps onto 403; an allow creates the one session, copying
/// the accepted offers and minting one fresh token per accepted file.  Ids
/// the front end lists that were never offered are skipped silently.
pub fn resolve_send_request(
    state: &mut AppState,
    req: &SendRequest,
    reply: Option<ClientMessage>,
) -> (r: Result<Vec<FileToken>, RequestError>)
    requires
        old(state).receive_session is None,
    ensures
        match reply {
            Some(ClientMessage::Allow(ids)) => {
                &&& r matches Ok(toks)
                &&& final(state).receive_session matches Some(sess)
                &&& sess@.sender == req@.device_info
                &&& sess@.destination_directory == old(state).destination_directory@
                &&& sess@.status == ReceiveStatus::Waiting
                &&& sess@.wf()
                &&& accepted_files_ok(
                    req@,
                    allowed_ids(ids@),
                    sess@.files,
                    toks@.map_values(|t: FileToken| t@),
                )
                &&& final(state).destination_directory == old(state).destination_directory
            },
            _ => {
                &&& r == Err::<Vec<FileToken>, RequestError>(RequestError::Declined)
                &&& *final(state) == *old(state)
            },
        },
{
    match reply {
        None | Some(ClientMessage::Decline) => Err(RequestError::Declined),
        Some(ClientMessage::Allow(ids)) => {
            let mut session = ReceiveSession::new(
                req.device_info.duplicate(),
                state.destination_directory.clone(),
            );
            let mut toks: Vec<FileToken> = Vec::new();
            let ghost offered = offer_ids(req@.files);
            let ghost idsv = allowed_ids(ids@);
            let mut i: usize = 0;
            while i < ids.len()
                invariant
                    i <= ids@.len(),
                    idsv == allowed_ids(ids@),
                    idsv.len() == ids@.len(),
                    offered == offer_ids(req@.files),
                    accepted_ids(session@.files) == accepted_id_list(
                        offered,
                        idsv.take(i as int),
                    ),
                    token_ids(toks@.map_values(|t: FileToken| t@)) == accepted_ids(
                        session@.files,
                    ),
                    toks@.len() == session@.files.len(),
                    unique_keys(accepted_ids(session@.files)),
                    forall|k: int|
                        0 <= k < session@.files.len() ==> {
                            &&& has_key(offered, (#[trigger] session@.files[k]).file_id)
                            &&& session@.files[k].info == req@.files[first_key_index(
                                offered,
                                session@.files[k].file_id,
                            )].info
                            &&& session@.files[k].status == ReceiveStatus::Waiting
                            &&& is_uuid_chars(session@.files[k].token)
                            &&& toks@.map_values(|t: FileToken| t@)[k].token
                                == session@.files[k].token
                        },
                    session@.sender == req@.device_info,
                    session@.destination_directory == old(state).destination_directory@,
                    session@.status == ReceiveStatus::Waiting,
                    *state == *old(state),
                decreases ids@.len() - i,
            {
                let ghost acc_pre = accepted_id_list(offered, idsv.take(i as int));
                let id = &ids[i];
                proof {
                    assert(idsv[i as int] == id@);
                    assert(idsv.take(i as int + 1).drop_last() =~= idsv.take(i as int));
                    assert(idsv.take(i as int + 1).last() == idsv[i as int]);
                }
                match find_offer(&req.files, id) {
                    None => {
                        proof {
                            assert(offer_ids(req.files@.map_values(|o: FileOffer| o@))
                                =~= offered);
                        }
                    },
                    Some(oi) => {
                        proof {
                            assert(offer_ids(req.files@.map_values(|o: FileOffer| o@))
                                =~= offered);
                        }
                        match find_accepted(&session.files, id) {
                            Some(_) => {
                                proof {
                                    assert(accepted_ids(
                                        session.files@.map_values(|f: AcceptedFile| f@),
                                    ) =~= accepted_ids(session@.files));
                                }
                            },
                            None => {
                                proof {
                                    assert(accepted_ids(
                                        session.files@.map_values(|f: AcceptedFile| f@),
                                    ) =~= accepted_ids(session@.files));
                                    lemma_first_key_index(acc_pre, id@);
                                }
                                let token = new_uuid_string();
                                let token_copy = token.clone();
                                let ghost files_pre = session@.files;
                                let ghost toks_pre = toks@.map_values(|t: FileToken| t@);
                                session.files.push(
                                    AcceptedFile {
                                        file_id: id.clone(),
                                        info: req.files[oi].info.duplicate(),
                                        status: ReceiveStatus::Waiting,
                                        token,
                                    },
                                );
                                toks.push(FileToken { file_id: id.clone(), token: token_copy });
                                proof {
                                    assert(session@.files.drop_last() =~= files_pre);
                                    assert(accepted_ids(session@.files) =~= accepted_ids(
                                        files_pre,
                                    ).push(id@));
                                    assert(toks@.map_values(|t: FileToken| t@).drop_last()
                                        =~= toks_pre);
                                    assert(token_ids(toks@.map_values(|t: FileToken| t@))
                                        =~= token_ids(toks_pre).push(id@));
                                    let fv = session@.files;
                                    let tv = toks@.map_values(|t: FileToken| t@);
                                    assert(forall|k: int|
                                        0 <= k < files_pre.len() ==> #[trigger] fv[k]
                                            == files_pre[k]);
                                    assert(forall|k: int|
                                        0 <= k < toks_pre.len() ==> #[trigger] tv[k]
                                            == toks_pre[k]);
                                    assert(first_key_index(offered, id@) == oi as int);
                                    assert(req@.files[oi as int] == req.files@[oi as int]@);
                                    assert(fv.last().info == req.files@[oi as int]@.info);
                                    assert(tv.last().token == fv.last().token);
                                }
                            },
                        }
                    },
                }
                i = i + 1;
            }
            proof {
                assert(idsv.take(ids@.len() as int) =~= idsv);
            }
            let result: Vec<FileToken> = toks;
            state.receive_session = Some(session);
            Ok(result)
        },
    }
}

/// The `send-request` handler as one step, for a caller that already has
/// the front end's answer in hand: the conflict gate, the publication of
/// the request, and the resolution of the reply.  The live system runs
/// [`begin_send_request`] first, waits for the front end, and then runs
/// [`resolve_send_request`]; the state lock is held across all of it, so
/// the two together behave as this one step.
pub fn handle_send_request(
    state: &mut AppState,
    req: &SendRequest,
    reply: Option<ClientMessage>,
    outbox: &mut Vec<ServerMessage>,
) -> (r: Result<Vec<FileToken>, RequestError>)
    ensures
        old(outbox)@.is_prefix_of(final(outbox)@),
        send_request_step(
            *old(state),
            req@,
            reply,
            *final(state),
            r,
            final(outbox)@.skip(old(outbox)@.len() as int),
        ),
{
    match begin_send_request(state, req, outbox) {
        Err(e) => {
            proof {
                assert(final(outbox)@.skip(old(outbox)@.len() as int)
                    =~= Seq::<ServerMessage>::empty());
                assert(final(outbox)@.subrange(0, old(outbox)@.len() as int)
                    =~= old(outbox)@);
            }
            Err(e)
        },
        Ok(()) => {
            let r = resolve_send_request(state, req, reply);
            proof {
                assert(final(outbox)@.skip(old(outbox)@.len() as int)
                    =~= seq![final(outbox)@.last()]);
                assert(final(outbox)@.subrange(0, old(outbox)@.len() as int)
                    =~= old(outbox)@);
            }
            r
        },
    }
}

/// Exact semantics of the pre-flight phase of the `send` handler: what is
/// checked, published and recorded before the file body starts streaming.
/// The start-of-file progress event is published as soon as a session
/// exists, before the file id is looked up, so an unknown id still leaves
/// one event behind.
pub open spec fn begin_send_file_step(
    pre: AppState,
    info: crate::protos::SendInfoView,
    post: AppState,
    r: Result<String, RequestError>,
    emitted: Seq<ServerMessage>,
) -> bool {
    match pre.receive_session {
        None => {
            &&& r == Err::<String, RequestError>(RequestError::NoActiveSession)
            &&& post == pre
            &&& emitted == Seq::<ServerMessage>::empty()
        },
        Some(sess) => {
            let s = sess@;
            &&& emitted.len() == 1
            &&& emitted[0] matches ServerMessage::SendFileRequest(fid, n) && fid@
                == info.file_id && n == 0
            &&& if !has_key(accepted_ids(s.files), info.file_id) {
                &&& r == Err::<String, RequestError>(RequestError::UnknownFileId)
                &&& post == pre
            } else if s.token_map()[info.file_id] != info.token {
                &&& r == Err::<String, RequestError>(RequestError::WrongToken)
                &&& post == pre
            } else {
                &&& r matches Ok(path) && path@ == spec_join_path(
                    s.destination_directory,
                    s.files_map()[info.file_id].file_name,
                )
                &&& post.receive_session matches Some(ns) && ns@ == ReceiveSessionView {
                    status: ReceiveStatus::Receiving,
                    ..s.with_file_status(info.file_id, ReceiveStatus::Receiving)
                }
                &&& post.destination_directory == pre.destination_directory
            }
        },
    }
}

/// The pre-flight phase of the `send` handler, run under the state lock
/// before any body byte is read: it refuses a call outside a session (500),
/// publishes the start-of-file progress event, refuses an unknown file id
/// (500) or a token other than the one issued for the file (403), marks the
/// file and the session `Receiving`, and hands back the path the body
/// should be written to.
pub fn begin_send_file(
    state: &mut AppState,
    info: &crate::protos::SendInfo,
    outbox: &mut Vec<ServerMessage>,
) -> (r: Result<String, RequestError>)
    ensures
        old(outbox)@.is_prefix_of(final(outbox)@),
        begin_send_file_step(
            *old(state),
            info@,
            *final(state),
            r,
            final(outbox)@.skip(old(outbox)@.len() as int),
        ),
{
    match &mut state.receive_session {
        None => {
            proof {
                assert(final(outbox)@.skip(old(outbox)@.len() as int)
                    =~= Seq::<ServerMessage>::empty());
                assert(final(outbox)@.subrange(0, old(outbox)@.len() as int)
                    =~= old(outbox)@);
            }
            Err(RequestError::NoActiveSession)
        },
        Some(session) => {
            outbox.push(ServerMessage::SendFileRequest(info.file_id.clone(), 0));
            proof {
                assert(final(outbox)@.skip(old(outbox)@.len() as int)
                    =~= seq![final(outbox)@.last()]);
                assert(final(outbox)@.subrange(0, old(outbox)@.len() as int)
                    =~= old(outbox)@);
            }
            let ghost s = session@;
            match find_accepted(&session.files, &info.file_id) {
                None => {
                    proof {
                        assert(accepted_ids(session.files@.map_values(|f: AcceptedFile| f@))
                            =~= accepted_ids(s.files));
                    }
                    Err(RequestError::UnknownFileId)
                },
                Some(idx) => {
                    proof {
                        assert(accepted_ids(session.files@.map_values(|f: AcceptedFile| f@))
                            =~= accepted_ids(s.files));
                        assert(s.token_map()[info@.file_id] == s.files[idx as int].token);
                        assert(s.files_map()[info@.file_id] == s.files[idx as int].info);
                    }
                    if !session.files[idx].token.eq(&info.token) {
                        return Err(RequestError::WrongToken);
                    }
                    let updated = AcceptedFile {
                        file_id: session.files[idx].file_id.clone(),
                        info: session.files[idx].info.duplicate(),
                        status: ReceiveStatus::Receiving,
                        token: session.files[idx].token.clone(),
                    };
                    let path = join_path(
                        session.destination_directory.as_str(),
                        updated.info.file_name.as_str(),
                    );
                    session.files.set(idx, updated);
                    session.status = ReceiveStatus::Receiving;
                    proof {
                        assert(session@.files =~= s.files.update(
                            idx as int,
                            AcceptedFileView {
                                status: ReceiveStatus::Receiving,
                                ..s.files[idx as int]
                            },
                        ));
                        assert(session@ =~= ReceiveSessionView {
                            status: ReceiveStatus::Receiving,
                            ..s.with_file_status(info@.file_id, ReceiveStatus::Receiving)
                        });
                    }
                    Ok(path)
                },
            }
        },
    }
}

/// Whether every accepted file has reached a terminal state.
fn all_terminal(files: &Vec<AcceptedFile>) -> (r: bool)
    ensures
        r == forall|i: int|
            0 <= i < files@.len() ==> crate::protos::is_terminal((#[trigger] files@[i])@.status),
{
    let mut i: usize = 0;
    while i < files.len()
        invariant
            i <= files@.len(),
            forall|j: int|
                0 <= j < i ==> crate::protos::is_terminal((#[trigger] files@[j])@.status),
        decreases files@.len() - i,
    {
        let terminal = match files[i].status {
            ReceiveStatus::Finished => true,
            ReceiveStatus::FinishedWithErrors => true,
            _ => false,
        };
        if !terminal {
            proof {
                assert(!crate::protos::is_terminal(files@[i as int]@.status));
            }
            return false;
        }
        i = i + 1;
    }
    true
}

/// Exact semantics of the post-flight phase of the `send` handler: how the
/// outcome of one streamed file is recorded once the stream has ended.
pub open spec fn finish_send_file_step(
    pre: AppState,
    fid: Seq<char>,
    success: bool,
    post: AppState,
    r: Result<(), RequestError>,
) -> bool {
    match pre.receive_session {
        None => {
            &&& r == Err::<(), RequestError>(RequestError::SessionCancelled)
            &&& post == pre
        },
        Some(sess) => {
            let s = sess@;
            let st = if success {
                ReceiveStatus::Finished
            } else {
                ReceiveStatus::FinishedWithErrors
            };
            let s2 = if has_key(accepted_ids(s.files), fid) {
                s.with_file_status(fid, st)
            } else {
                s
            };
            &&& r == Ok::<(), RequestError>(())
            &&& if s2.all_files_terminal() {
                post.receive_session is None
            } else {
                post.receive_session matches Some(ns) && ns@ == s2
            }
            &&& post.destination_directory == pre.destination_directory
        },
    }
}

/// The post-flight phase of the `send` handler, run under the state lock
/// once the file body has ended: if a concurrent `cancel` dropped the
/// session it answers 500; otherwise it records the file's outcome, and
/// when every accepted file has reached a terminal state it closes the
/// session.
pub fn finish_send_file(state: &mut AppState, file_id: &String, success: bool) -> (r: Result<
    (),
    RequestError,
>)
    ensures
        finish_send_file_step(*old(state), file_id@, success, *final(state), r),
{
    let all;
    match &mut state.receive_session {
        None => {
            return Err(RequestError::SessionCancelled);
        },
        Some(session) => {
            let ghost s = session@;
            match find_accepted(&session.files, file_id) {
                None => {
                    proof {
                        assert(accepted_ids(session.files@.map_values(|f: AcceptedFile| f@))
                            =~= accepted_ids(s.files));
                    }
                },
                Some(idx) => {
                    proof {
                        assert(accepted_ids(session.files@.map_values(|f: AcceptedFile| f@))
                            =~= accepted_ids(s.files));
                    }
                    let updated = AcceptedFile {
                        file_id: session.files[idx].file_id.clone(),
                        info: session.files[idx].info.duplicate(),
                        status: if success {
                            ReceiveStatus::Finished
                        } else {
                            ReceiveStatus::FinishedWithErrors
                        },
                        token: session.files[idx].token.clone(),
                    };
                    session.files.set(idx, updated);
                    proof {
                        let st = if success {
                            ReceiveStatus::Finished
                        } else {
                            ReceiveStatus::FinishedWithErrors
                        };
                        assert(session@.files =~= s.files.update(
                            idx as int,
                            AcceptedFileView { status: st, ..s.files[idx as int] },
                        ));
                        assert(session@ =~= s.with_file_status(file_id@, st));
                    }
                },
            }
            let ghost s2 = session@;
            all = all_terminal(&session.files);
            proof {
                if all {
                    assert forall|i: int|
                        0 <= i < s2.files.len() implies crate::protos::is_terminal(
                        (#[trigger] s2.files[i]).status,
                    ) by {
                        assert(s2.files[i] == session.files@[i]@);
                    }
                } else {
                    assert(exists|i: int|
                        0 <= i < session.files@.len() && !crate::protos::is_terminal(
                            (#[trigger] session.files@[i])@.status,
                        ));
                    let i = choose|i: int|
                        0 <= i < session.files@.len() && !crate::protos::is_terminal(
                            (#[trigger] session.files@[i])@.status,
                        );
                    assert(s2.files[i] == session.files@[i]@);
                    assert(!s2.all_files_terminal());
                }
            }
        },
    }
    if all {
        state.receive_session = None;
    }
    Ok(())
}

/// What the front end answers for a selection of file ids: an empty
/// selection declines the transfer, anything else allows exactly the
/// selected ids.
pub fn reply_for_selection(selected: Vec<String>) -> (r: ClientMessage)
    ensures
        selected@.len() == 0 ==> r == ClientMessage::Decline,
        selected@.len() > 0 ==> (r matches ClientMessage::Allow(ids) && ids == selected),
{
    if selected.is_empty() {
        ClientMessage::Decline
    } else {
        ClientMessage::Allow(selected)
    }
}

/// What the controller accepts is always a well-formed selection: its ids
/// are unique and every one of them was offered.
pub proof fn lemma_accepted_id_list_wf(offered: Seq<Seq<char>>, ids: Seq<Seq<char>>)
    ensures
        unique_keys(accepted_id_list(offered, ids)),
        forall|j: int|
            0 <= j < accepted_id_list(offered, ids).len() ==> has_key(
                offered,
                #[trigger] accepted_id_list(offered, ids)[j],
            ),
    decreases ids.len(),
{
    if ids.len() > 0 {
        lemma_accepted_id_list_wf(offered, ids.drop_last());
        let prefix = accepted_id_list(offered, ids.drop_last());
        let id = ids.last();
        if has_key(offered, id) && !has_key(prefix, id) {
            lemma_first_key_index(prefix, id);
        }
    }
}

/// When the front end allows a duplicate-free selection of offered ids,
/// the controller accepts exactly that selection, in that order.
pub proof fn lemma_accepted_id_list_exact(offered: Seq<Seq<char>>, ids: Seq<Seq<char>>)
    requires
        unique_keys(ids),
        forall|j: int| 0 <= j < ids.len() ==> has_key(offered, #[trigger] ids[j]),
    ensures
        accepted_id_list(offered, ids) == ids,
    decreases ids.len(),
{
    if ids.len() > 0 {
        let head = ids.drop_last();
        lemma_accepted_id_list_exact(offered, head);
        let id = ids.last();
        assert(!has_key(head, id)) by {
            lemma_first_key_index(head, id);
        }
        assert(head.push(id) =~= ids);
    }
}

/// At-most-one-session law: however two `send-request` calls interleave
/// around the state lock, once one has been accepted, the other is refused
/// with 409 `Blocked` and changes nothing.
pub proof fn lemma_at_most_one_session(
    s0: AppState,
    req1: SendRequestView,
    reply1: Option<ClientMessage>,
    s1: AppState,
    r1: Result<Vec<FileToken>, RequestError>,
    em1: Seq<ServerMessage>,
    req2: SendRequestView,
    reply2: Option<ClientMessage>,
    s2: AppState,
    r2: Result<Vec<FileToken>, RequestError>,
    em2: Seq<ServerMessage>,
)
    requires
        send_request_step(s0, req1, reply1, s1, r1, em1),
        send_request_step(s1, req2, reply2, s2, r2, em2),
        r1 is Ok,
    ensures
        r2 == Err::<Vec<FileToken>, RequestError>(RequestError::Blocked),
        s2 == s1,
        em2 == Seq::<ServerMessage>::empty(),
{
    assert(s0.receive_session is None);
    match reply1 {
        Some(ClientMessage::Allow(_)) => {
            assert(s1.receive_session is Some);
        },
        _ => {
            assert(r1 is Err);
        },
    }
}

/// Token-bijection law: an accepted request's response lists exactly the
/// allowed ids that were offered (first occurrences, in the front end's
/// order); those ids are unique; every token has the shape of a version-4
/// UUID string; and the ids of the response equal the file ids of the
/// session that was created.  When the front end's selection is itself
/// duplicate-free and entirely offered, the response ids are exactly the
/// selection.
pub proof fn lemma_token_bijection(
    pre: AppState,
    req: SendRequestView,
    ids: Vec<String>,
    post: AppState,
    r: Result<Vec<FileToken>, RequestError>,
    emitted: Seq<ServerMessage>,
)
    requires
        pre.receive_session is None,
        send_request_step(pre, req, Some(ClientMessage::Allow(ids)), post, r, emitted),
    ensures
        r matches Ok(toks) && {
            let tv = toks@.map_values(|t: FileToken| t@);
            &&& token_ids(tv) == accepted_id_list(offer_ids(req.files), allowed_ids(ids@))
            &&& unique_keys(token_ids(tv))
            &&& forall|i: int| 0 <= i < tv.len() ==> is_uuid_chars((#[trigger] tv[i]).token)
            &&& post.receive_session matches Some(sess) && accepted_ids(sess@.files)
                == token_ids(tv)
            &&& (unique_keys(allowed_ids(ids@)) && (forall|j: int|
                0 <= j < ids@.len() ==> has_key(
                    offer_ids(req.files),
                    #[trigger] allowed_ids(ids@)[j],
                ))) ==> token_ids(tv) == allowed_ids(ids@)
        },
{
    lemma_accepted_id_list_wf(offer_ids(req.files), allowed_ids(ids@));
    if unique_keys(allowed_ids(ids@)) && (forall|j: int|
        0 <= j < ids@.len() ==> has_key(offer_ids(req.files), #[trigger] allowed_ids(ids@)[j])) {
        lemma_accepted_id_list_exact(offer_ids(req.files), allowed_ids(ids@));
    }
    let toks = r->Ok_0;
    let tv = toks@.map_values(|t: FileToken| t@);
    let sess = post.receive_session->0;
    assert(forall|i: int|
        0 <= i < tv.len() ==> is_uuid_chars((#[trigger] tv[i]).token)) by {
        assert(forall|i: int|
            0 <= i < sess@.files.len() ==> is_uuid_chars((#[trigger] sess@.files[i]).token));
        assert(forall|i: int| 0 <= i < tv.len() ==> tv[i].token == sess@.files[i].token);
    }
}

/// Whether recording `success` for `fid` leaves every accepted file of the
/// live session in a terminal state.
pub open spec fn outcome_closes_session(pre: AppState, fid: Seq<char>, success: bool) -> bool {
    match pre.receive_session {
        None => false,
        Some(sess) => {
            let s = sess@;
            let st = if success {
                ReceiveStatus::Finished
            } else {
                ReceiveStatus::FinishedWithErrors
            };
            let s2 = if has_key(accepted_ids(s.files), fid) {
                s.with_file_status(fid, st)
            } else {
                s
            };
            s2.all_files_terminal()
        },
    }
}

/// Session-closure law: when the outcome recorded for a file leaves every
/// accepted file terminal, the post-flight step clears the session, and
/// the next inspection of the state finds none.
pub proof fn lemma_session_closure(
    pre: AppState,
    fid: Seq<char>,
    success: bool,
    post: AppState,
    r: Result<(), RequestError>,
)
    requires
        finish_send_file_step(pre, fid, success, post, r),
        outcome_closes_session(pre, fid, success),
    ensures
        post.receive_session is None,
        r == Ok::<(), RequestError>(()),
{
}

/// Cancel law: a cancel on a live session publishes exactly one
/// `CancelSession` and clears the session; a `send` pre-flight arriving
/// after it is refused with status 500, publishes nothing, and changes
/// nothing.
pub proof fn lemma_cancel_then_send(
    s0: AppState,
    s1: AppState,
    r1: Result<(), RequestError>,
    em1: Seq<ServerMessage>,
    info: crate::protos::SendInfoView,
    s2: AppState,
    r2: Result<String, RequestError>,
    em2: Seq<ServerMessage>,
)
    requires
        s0.receive_session is Some,
        cancel_step(s0, s1, r1, em1),
        begin_send_file_step(s1, info, s2, r2, em2),
    ensures
        em1 == seq![ServerMessage::CancelSession],
        s1.receive_session is None,
        r2 == Err::<String, RequestError>(RequestError::NoActiveSession),
        RequestError::NoActiveSession.spec_status_code() == 500,
        s2 == s1,
        em2 == Seq::<ServerMessage>::empty(),
{
}

} // verus!
