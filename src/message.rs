use vstd::prelude::*;
use crate::client::{Client, build_url, pairs_view, url_text, valid_base};
use crate::codec::{MessageId, encode_identifier, encode_index_bytes, lower_hex_of};
use crate::error::ClientError;
use crate::json::{Json, json_of};
use crate::response::{
    decode_id_list, decode_payload, decode_raw, id_envelope_outcome, is_malformed_response,
    is_node_error, payload_outcome,
};

verus! {

pub open spec fn messages_path() -> Seq<char> {
    "api/v1/messages"@
}

/// `api/v1/messages/{id}` followed by `suffix`.
pub open spec fn message_path(id_hex: Seq<char>, suffix: Seq<char>) -> Seq<char> {
    messages_path() + seq!['/'] + id_hex + suffix
}

/// What preparing a call gives for a pool, a path and query pairs: no node when the
/// pool is empty, else the URL on the first node, or `InvalidUrl` for a bad base.
pub open spec fn request_outcome(
    pool: Seq<Seq<char>>,
    path: Seq<char>,
    q: Seq<(Seq<char>, Seq<char>)>,
    r: Result<String, ClientError>,
) -> bool {
    if pool.len() == 0 {
        r == Err::<String, ClientError>(ClientError::NoNodeAvailable)
    } else if !valid_base(pool[0]) {
        r matches Err(e) && e matches ClientError::InvalidUrl { base } && base@ == pool[0]
    } else {
        r matches Ok(u) && u@ == url_text(pool[0], path, q)
    }
}

fn target(client: &Client, path: &str, query: &Vec<(String, String)>) -> (r: Result<
    String,
    ClientError,
>)
    ensures
        request_outcome(client.pool(), path@, pairs_view(query@), r),
{
    let base = client.get_node()?;
    build_url(base.as_str(), path, query)
}

fn id_path(id: &MessageId, suffix: &str) -> (r: String)
    ensures
        lower_hex_of(r@.subrange(16, 80), id.bytes@),
        r@ == message_path(r@.subrange(16, 80), suffix@),
{
    let h = encode_identifier(&id.bytes);
    let mut p = "api/v1/messages/".to_owned();
    proof {
        reveal_strlit("api/v1/messages/");
        reveal_strlit("api/v1/messages");
    }
    p.append(h.as_str());
    p.append(suffix);
    assert(p@.subrange(16, 80) =~= h@);
    assert(p@ =~= message_path(h@, suffix@));
    p
}

/// A prepared call whose answer lists identifiers under `field`.
pub struct IdsRequest {
    pub url: String,
    pub path: String,
    pub field: String,
}

/// A prepared call whose answer is one JSON payload in the envelope.
pub struct PayloadRequest {
    pub url: String,
    pub path: String,
}

/// A prepared call whose answer is taken as text.
pub struct RawRequest {
    pub url: String,
    pub path: String,
}

pub open spec fn ids_url(r: Result<IdsRequest, ClientError>) -> Result<String, ClientError> {
    match r {
        Ok(q) => Ok(q.url),
        Err(e) => Err(e),
    }
}

pub open spec fn payload_url(r: Result<PayloadRequest, ClientError>) -> Result<String, ClientError> {
    match r {
        Ok(q) => Ok(q.url),
        Err(e) => Err(e),
    }
}

pub open spec fn raw_url(r: Result<RawRequest, ClientError>) -> Result<String, ClientError> {
    match r {
        Ok(q) => Ok(q.url),
        Err(e) => Err(e),
    }
}

impl IdsRequest {
    /// Decodes the node's answer to this call; the request is used up.
    pub fn finish(self, status: u16, body: String) -> (r: Result<Vec<MessageId>, ClientError>)
        ensures
            status != 200 ==> is_node_error(r, status, body@),
            status == 200 ==> match json_of(body@) {
                None => is_malformed_response(r),
                Some(j) => id_envelope_outcome(j, self.field@, r),
            },
    {
        decode_id_list(status, body, self.field.as_str())
    }
}

impl PayloadRequest {
    /// Decodes the node's answer to this call; the request is used up.
    pub fn finish(self, status: u16, body: String) -> (r: Result<Json, ClientError>)
        ensures
            status != 200 ==> is_node_error(r, status, body@),
            status == 200 ==> match json_of(body@) {
                None => is_malformed_response(r),
                Some(j) => payload_outcome(j, r),
            },
    {
        decode_payload(status, body)
    }
}

impl RawRequest {
    /// Takes the node's answer to this call as text; the request is used up.
    pub fn finish(self, status: u16, body: String) -> (r: Result<String, ClientError>)
        ensures
            status != 200 ==> is_node_error(r, status, body@),
            status == 200 ==> (r matches Ok(t) && t == body),
    {
        decode_raw(status, body)
    }
}

/// Builder of the `api/v1/messages` calls. Each call takes the builder by value, so
/// one builder serves one call.
pub struct GetMessageBuilder<'a> {
    client: &'a Client,
}

impl<'a> GetMessageBuilder<'a> {
    /// The node pool of the client that the calls go to.
    pub closed spec fn pool(&self) -> Seq<Seq<char>> {
        self.client.pool()
    }

    pub fn new(client: &'a Client) -> (r: Self)
        ensures
            r.pool() == client.pool(),
    {
        Self { client }
    }

    /// Search for messages by index: `api/v1/messages?index=<hex of index>`.
    pub fn index(self, index: &[u8]) -> (r: Result<IdsRequest, ClientError>)
        ensures
            exists|h: Seq<char>|
                #[trigger] lower_hex_of(h, index@) && request_outcome(
                    self.pool(),
                    messages_path(),
                    seq![("index"@, h)],
                    ids_url(r),
                ),
            r matches Ok(q) ==> q.path@ == messages_path() && q.field@ == "messageIds"@,
    {
        let h = encode_index_bytes(index);
        let ghost hv = h@;
        let query = vec![("index".to_owned(), h)];
        assert(pairs_view(query@) =~= seq![("index"@, hv)]);
        let path = "api/v1/messages";
        let url = target(self.client, path, &query)?;
        Ok(IdsRequest { url, path: path.to_owned(), field: "messageIds".to_owned() })
    }

    /// Fetch a message: `api/v1/messages/{id}`; the answer's payload is the message as
    /// JSON. Turning it into a typed message needs the ledger's message crate, which
    /// this library does not depend on.
    pub fn data(self, message_id: &MessageId) -> (r: Result<PayloadRequest, ClientError>)
        ensures
            exists|h: Seq<char>|
                #[trigger] lower_hex_of(h, message_id.bytes@) && request_outcome(
                    self.pool(),
                    message_path(h, Seq::empty()),
                    Seq::empty(),
                    payload_url(r),
                ) && (r matches Ok(q) ==> q.path@ == message_path(h, Seq::empty())),
    {
        let path = id_path(message_id, "");
        proof { reveal_strlit(""); }
        let url = target(self.client, path.as_str(), &Vec::new())?;
        Ok(PayloadRequest { url, path })
    }

    /// Fetch a message's metadata: `api/v1/messages/{id}/metadata`.
    pub fn metadata(self, message_id: &MessageId) -> (r: Result<PayloadRequest, ClientError>)
        ensures
            exists|h: Seq<char>|
                #[trigger] lower_hex_of(h, message_id.bytes@) && request_outcome(
                    self.pool(),
                    message_path(h, "/metadata"@),
                    Seq::empty(),
                    payload_url(r),
                ) && (r matches Ok(q) ==> q.path@ == message_path(h, "/metadata"@)),
    {
        let path = id_path(message_id, "/metadata");
        let url = target(self.client, path.as_str(), &Vec::new())?;
        Ok(PayloadRequest { url, path })
    }

    /// Fetch a message's bytes as the node sends them: `api/v1/messages/{id}/raw`.
    pub fn raw(self, message_id: &MessageId) -> (r: Result<RawRequest, ClientError>)
        ensures
            exists|h: Seq<char>|
                #[trigger] lower_hex_of(h, message_id.bytes@) && request_outcome(
                    self.pool(),
                    message_path(h, "/raw"@),
                    Seq::empty(),
                    raw_url(r),
                ) && (r matches Ok(q) ==> q.path@ == message_path(h, "/raw"@)),
    {
        let path = id_path(message_id, "/raw");
        let url = target(self.client, path.as_str(), &Vec::new())?;
        Ok(RawRequest { url, path })
    }

    /// The messages that reference a message: `api/v1/messages/{id}/children`.
    pub fn children(self, message_id: &MessageId) -> (r: Result<IdsRequest, ClientError>)
        ensures
            exists|h: Seq<char>|
                #[trigger] lower_hex_of(h, message_id.bytes@) && request_outcome(
                    self.pool(),
                    message_path(h, "/children"@),
                    Seq::empty(),
                    ids_url(r),
                ) && (r matches Ok(q) ==> q.path@ == message_path(h, "/children"@)),
            r matches Ok(q) ==> q.field@ == "childrenMessageIds"@,
    {
        let path = id_path(message_id, "/children");
        let url = target(self.client, path.as_str(), &Vec::new())?;
        Ok(IdsRequest { url, path, field: "childrenMessageIds".to_owned() })
    }
}

} // verus!
