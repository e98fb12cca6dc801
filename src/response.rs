use vstd::prelude::*;
use crate::codec::{MessageId, decode_identifier, hex_decoded, is_id_hex};
use crate::error::ClientError;
use crate::json::{
    Json, envelope_id_strings, id_strings, json_error_text, json_of, member, parse_json, take_member,
};

verus! {

/// Every string of the list is an identifier's text.
pub open spec fn all_id_hex(strs: Seq<String>) -> bool {
    forall|i: int| 0 <= i < strs.len() ==> is_id_hex(#[trigger] strs[i]@)
}

/// `i` is the first entry of the list that is not an identifier's text.
pub open spec fn first_bad_id(strs: Seq<String>, i: int) -> bool {
    &&& 0 <= i < strs.len()
    &&& !is_id_hex(strs[i]@)
    &&& forall|j: int| 0 <= j < i ==> is_id_hex(#[trigger] strs[j]@)
}

/// What decoding a list of identifier texts gives: all of them, in order, or the
/// first malformed one as the error.
pub open spec fn ids_outcome(strs: Seq<String>, r: Result<Vec<MessageId>, ClientError>) -> bool {
    if all_id_hex(strs) {
        r matches Ok(ids) && ids@.len() == strs.len() && forall|i: int|
            0 <= i < strs.len() ==> #[trigger] ids@[i].bytes@ == hex_decoded(strs[i]@)
    } else {
        r matches Err(e) && e matches ClientError::MalformedIdentifier { text } && exists|i: int|
            #[trigger] first_bad_id(strs, i) && text@ == strs[i]@
    }
}

/// The error for any status other than 200: the status and the body as sent.
pub open spec fn is_node_error<T>(r: Result<T, ClientError>, status: u16, body: Seq<char>) -> bool {
    r matches Err(e) && e matches ClientError::NodeError { status: s, body: b } && s == status && b@ == body
}

pub open spec fn is_malformed_response<T>(r: Result<T, ClientError>) -> bool {
    r matches Err(e) && e is MalformedResponse
}

/// Decodes identifier texts, all or nothing: one malformed entry fails the whole list.
pub fn decode_identifiers(strs: &Vec<String>) -> (r: Result<Vec<MessageId>, ClientError>)
    ensures
        ids_outcome(strs@, r),
{
    let mut ids: Vec<MessageId> = Vec::new();
    let mut i: usize = 0;
    while i < strs.len()
        invariant
            i <= strs@.len(),
            ids@.len() == i,
            forall|j: int| 0 <= j < i ==> is_id_hex(#[trigger] strs@[j]@),
            forall|j: int| 0 <= j < i ==> #[trigger] ids@[j].bytes@ == hex_decoded(strs@[j]@),
        decreases strs@.len() - i,
    {
        match decode_identifier(strs[i].as_str()) {
            Ok(bytes) => {
                ids.push(MessageId::new(bytes));
            },
            Err(e) => {
                assert(first_bad_id(strs@, i as int));
                assert(!all_id_hex(strs@));
                return Err(e);
            },
        }
        i = i + 1;
    }
    Ok(ids)
}

fn malformed(context: &str) -> (r: ClientError)
    ensures
        r is MalformedResponse,
{
    ClientError::MalformedResponse { context: context.to_owned() }
}

/// What an identifier envelope gives: `MalformedResponse` unless it holds an array of
/// strings under `data.<field>`, else the decoding of those strings.
pub open spec fn id_envelope_outcome(j: Json, field: Seq<char>, r: Result<Vec<MessageId>, ClientError>) -> bool {
    match id_strings(j, field) {
        None => is_malformed_response(r),
        Some(strs) => ids_outcome(strs, r),
    }
}

/// What a payload envelope gives: `MalformedResponse` without a `data` member, else
/// that member.
pub open spec fn payload_outcome(j: Json, r: Result<Json, ClientError>) -> bool {
    match member(j, "data"@) {
        None => is_malformed_response(r),
        Some(d) => r == Ok::<Json, ClientError>(d),
    }
}

/// Decodes the identifiers of an envelope already read as JSON.
pub fn decode_id_envelope(j: Json, field: &str) -> (r: Result<Vec<MessageId>, ClientError>)
    ensures
        id_envelope_outcome(j, field@, r),
{
    match envelope_id_strings(j, field) {
        Some(strs) => decode_identifiers(&strs),
        None => Err(malformed("no array of identifier strings under data")),
    }
}

/// The payload of an envelope already read as JSON.
pub fn decode_payload_envelope(j: Json) -> (r: Result<Json, ClientError>)
    ensures
        payload_outcome(j, r),
{
    proof { reveal_strlit("data"); }
    match take_member(j, "data") {
        Some(d) => Ok(d),
        None => Err(malformed("no data member in the response")),
    }
}

/// Decodes an answer that carries identifiers: `{"data": {<field>: [hex, ...]}}`.
/// A status other than 200 gives `NodeError` with the body untouched.
pub fn decode_id_list(status: u16, body: String, field: &str) -> (r: Result<Vec<MessageId>, ClientError>)
    ensures
        status != 200 ==> is_node_error(r, status, body@),
        status == 200 ==> match json_of(body@) {
            None => is_malformed_response(r),
            Some(j) => id_envelope_outcome(j, field@, r),
        },
{
    if status != 200 {
        return Err(ClientError::NodeError { status, body });
    }
    match parse_json(body.as_str()) {
        Ok(j) => decode_id_envelope(j, field),
        Err(e) => Err(ClientError::MalformedResponse { context: json_error_text(&e) }),
    }
}

/// Decodes an answer that carries one payload: `{"data": <payload>}`.
/// A status other than 200 gives `NodeError` with the body untouched.
pub fn decode_payload(status: u16, body: String) -> (r: Result<Json, ClientError>)
    ensures
        status != 200 ==> is_node_error(r, status, body@),
        status == 200 ==> match json_of(body@) {
            None => is_malformed_response(r),
            Some(j) => payload_outcome(j, r),
        },
{
    if status != 200 {
        return Err(ClientError::NodeError { status, body });
    }
    match parse_json(body.as_str()) {
        Ok(j) => decode_payload_envelope(j),
        Err(e) => Err(ClientError::MalformedResponse { context: json_error_text(&e) }),
    }
}

/// An answer taken as text: the body itself on status 200, no envelope read.
pub fn decode_raw(status: u16, body: String) -> (r: Result<String, ClientError>)
    ensures
        status != 200 ==> is_node_error(r, status, body@),
        status == 200 ==> (r matches Ok(t) && t == body),
{
    if status != 200 {
        return Err(ClientError::NodeError { status, body });
    }
    Ok(body)
}

} // verus!
