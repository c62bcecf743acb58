//! The dispatch pipeline: verification gates everything, classification
//! branches into the probe acknowledgment or the query executor, and the
//! formatter renders the final envelope.

use crate::auth::ed25519_verifies;
use crate::auth::signed_message;
use crate::auth::verify_request;
use crate::auth::AuthorityKey;
use crate::auth::SIGNATURE_HEX_LEN;
use crate::hexcode::hex_decoded;
use crate::hexcode::is_hex_string;
use crate::index::entries_view;
use crate::index::execute_query;
use crate::index::fts_results;
use crate::index::index_entries;
use crate::index::results_isolated;
use crate::index::Entry;
use crate::index::EntryView;
use crate::index::Index;
use crate::payload::decode_payload;
use crate::payload::decoded_payload;
use crate::payload::DecodeOutcome;
use crate::payload::Payload;
use crate::reply::format_results;
use crate::reply::format_view;
use crate::reply::message_reply;
use crate::reply::message_reply_view;
use crate::reply::ping_reply;
use crate::reply::ping_reply_view;
use crate::reply::Reply;
use crate::reply::ReplyView;
use crate::RequestError;
use vstd::prelude::*;

verus! {

/// The reply a command invocation gets, over the engine-result name: the
/// formatted results when the engine answers a nonempty query, and the
/// no-results message when the query is empty or the engine rejects it.
pub open spec fn invoke_reply_view(
    entries: Seq<EntryView>,
    collection: Seq<char>,
    query: Seq<char>,
) -> ReplyView {
    if query.len() == 0 {
        message_reply_view(format_view(Seq::<EntryView>::empty()))
    } else {
        match fts_results(entries, collection, query) {
            Some(rs) => message_reply_view(format_view(rs)),
            None => message_reply_view(format_view(Seq::<EntryView>::empty())),
        }
    }
}

/// Answers a classified payload: a probe gets the acknowledgment and never
/// reaches the query executor; a command invocation gets exactly
/// `invoke_reply_view` — the formatted search results, where an empty or
/// engine-rejected query counts as no results.
pub fn respond(index: &Index, payload: &Payload) -> (r: Reply)
    ensures
        payload is Probe ==> r@ == ping_reply_view(),
        payload matches Payload::Invoke(c) ==> r@ == invoke_reply_view(
            index_entries(*index),
            c.collection@,
            c.query_text@,
        ),
        payload matches Payload::Invoke(c) ==> (c.query_text@.len() > 0 ==> results_isolated(
            index_entries(*index),
            c.collection@,
            c.query_text@,
        )),
{
    match payload {
        Payload::Probe => ping_reply(),
        Payload::Invoke(c) => {
            let results: Vec<Entry> = match execute_query(
                index,
                c.collection.as_str(),
                c.query_text.as_str(),
            ) {
                Ok(v) => v,
                Err(_) => Vec::new(),
            };
            proof {
                if results@.len() == 0 {
                    assert(entries_view(results@) =~= Seq::<EntryView>::empty());
                }
            }
            let msg = format_results(&results);
            message_reply(msg.as_str())
        },
    }
}

/// Processes one inbound request end to end.
///
/// Verification gates all further work: a missing header, a malformed
/// signature or a rejected signature terminates the request with the
/// matching error and no reply envelope is built. Once the signature is
/// accepted, the outcome is exactly what `decoded_payload` says of the
/// body: its error, the probe acknowledgment, or the command's
/// `invoke_reply_view` over the index.
pub fn handle(
    key: &AuthorityKey,
    index: &Index,
    signature_hex: Option<&Vec<u8>>,
    timestamp: Option<&Vec<u8>>,
    body: Vec<u8>,
) -> (r: Result<Reply, RequestError>)
    requires
        key.wf(),
    ensures
        ((r matches Err(e) && e == RequestError::MissingHeader) <==> (signature_hex is None
            || timestamp is None)),
        signature_hex matches Some(sh) ==> ((r matches Err(e) && e
            == RequestError::MalformedSignature) <==> (timestamp is Some && !(is_hex_string(sh@)
            && sh@.len() == SIGNATURE_HEX_LEN))),
        signature_hex matches Some(sh) ==> timestamp matches Some(ts) ==> (is_hex_string(sh@)
            && sh@.len() == SIGNATURE_HEX_LEN) ==> {
            let accepted = ed25519_verifies(key@, signed_message(ts@, body@), hex_decoded(sh@));
            &&& (!accepted <==> (r matches Err(e) && e == RequestError::VerificationFailed))
            &&& (accepted ==> match decoded_payload(body@) {
                DecodeOutcome::Probe => (r matches Ok(rep) && rep@ == ping_reply_view()),
                DecodeOutcome::Invoke { collection, query } => (r matches Ok(rep) && rep@
                    == invoke_reply_view(index_entries(*index), collection, query) && (query.len()
                    > 0 ==> results_isolated(index_entries(*index), collection, query))),
                DecodeOutcome::Fail { error } => (r matches Err(e) && e == error),
            })
        },
{
    let verified = match verify_request(key, signature_hex, timestamp, body) {
        Ok(v) => v,
        Err(e) => {
            return Err(e);
        },
    };
    let payload = match decode_payload(verified.body()) {
        Ok(p) => p,
        Err(e) => {
            return Err(e);
        },
    };
    Ok(respond(index, &payload))
}

} // verus!
