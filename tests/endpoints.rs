use iota_client::client::Client;
use iota_client::codec::{encode_identifier, MessageId};
use iota_client::error::ClientError;
use iota_client::json::Json;
use iota_client::message::GetMessageBuilder;
use iota_client::response::{
    decode_id_envelope, decode_id_list, decode_identifiers, decode_payload, decode_payload_envelope,
    decode_raw,
};

const NODE: &str = "http://localhost:14265";

fn id_a() -> MessageId {
    MessageId::new([0x11u8; 32])
}

fn id_b() -> MessageId {
    let mut b = [0u8; 32];
    b[0] = 0xde;
    b[1] = 0xad;
    MessageId::new(b)
}

fn client() -> Client {
    Client::new(vec![NODE.to_string()])
}

#[test]
fn index_request_url() {
    let c = client();
    let q = GetMessageBuilder::new(&c).index(b"hello").unwrap();
    assert_eq!(q.url, "http://localhost:14265/api/v1/messages?index=68656c6c6f");
    assert_eq!(q.path, "api/v1/messages");
    assert_eq!(q.field, "messageIds");
}

#[test]
fn message_request_urls() {
    let c = client();
    let id = id_b();
    let h = encode_identifier(&id.bytes);
    let d = GetMessageBuilder::new(&c).data(&id).unwrap();
    assert_eq!(d.url, format!("{}/api/v1/messages/{}", NODE, h));
    assert_eq!(d.path, format!("api/v1/messages/{}", h));
    let m = GetMessageBuilder::new(&c).metadata(&id).unwrap();
    assert_eq!(m.url, format!("{}/api/v1/messages/{}/metadata", NODE, h));
    let r = GetMessageBuilder::new(&c).raw(&id).unwrap();
    assert_eq!(r.url, format!("{}/api/v1/messages/{}/raw", NODE, h));
    let ch = GetMessageBuilder::new(&c).children(&id).unwrap();
    assert_eq!(ch.url, format!("{}/api/v1/messages/{}/children", NODE, h));
    assert_eq!(ch.field, "childrenMessageIds");
}

#[test]
fn empty_pool_fails_every_call() {
    let c = Client::new(vec![]);
    let id = id_a();
    assert_eq!(GetMessageBuilder::new(&c).index(b"x").err(), Some(ClientError::NoNodeAvailable));
    assert_eq!(GetMessageBuilder::new(&c).data(&id).err(), Some(ClientError::NoNodeAvailable));
    assert_eq!(GetMessageBuilder::new(&c).metadata(&id).err(), Some(ClientError::NoNodeAvailable));
    assert_eq!(GetMessageBuilder::new(&c).raw(&id).err(), Some(ClientError::NoNodeAvailable));
    assert_eq!(GetMessageBuilder::new(&c).children(&id).err(), Some(ClientError::NoNodeAvailable));
}

#[test]
fn bad_node_address_is_invalid_url() {
    let c = Client::new(vec!["localhost".to_string()]);
    assert_eq!(
        GetMessageBuilder::new(&c).index(b"x").err(),
        Some(ClientError::InvalidUrl { base: "localhost".to_string() })
    );
}

#[test]
fn envelope_ids_in_order() {
    let body = format!(
        "{{\"data\":{{\"messageIds\":[\"{}\",\"{}\"]}}}}",
        id_b().to_hex(),
        id_a().to_hex()
    );
    let c = client();
    let q = GetMessageBuilder::new(&c).index(b"hello").unwrap();
    assert_eq!(q.finish(200, body), Ok(vec![id_b(), id_a()]));
}

#[test]
fn envelope_with_extra_members() {
    let body = format!(
        "{{\"data\":{{\"index\":\"68656c6c6f\",\"count\":1,\"messageIds\":[\"{}\"]}}}}",
        id_a().to_hex()
    );
    assert_eq!(decode_id_list(200, body, "messageIds"), Ok(vec![id_a()]));
}

#[test]
fn one_bad_id_fails_all() {
    let body = format!("{{\"data\":{{\"messageIds\":[\"{}\",\"not-hex\"]}}}}", id_a().to_hex());
    assert_eq!(
        decode_id_list(200, body, "messageIds"),
        Err(ClientError::MalformedIdentifier { text: "not-hex".to_string() })
    );
}

#[test]
fn first_bad_id_is_reported() {
    let strs = vec![id_a().to_hex(), "zz".to_string(), "yy".to_string()];
    assert_eq!(
        decode_identifiers(&strs),
        Err(ClientError::MalformedIdentifier { text: "zz".to_string() })
    );
    assert_eq!(decode_identifiers(&vec![]), Ok(vec![]));
}

#[test]
fn children_ids() {
    let body = format!("{{\"data\":{{\"childrenMessageIds\":[\"{}\"]}}}}", id_a().to_hex());
    let c = client();
    let q = GetMessageBuilder::new(&c).children(&id_b()).unwrap();
    assert_eq!(q.finish(200, body), Ok(vec![id_a()]));
}

#[test]
fn not_found_is_node_error() {
    let body = format!("{{\"data\":{{\"messageIds\":[\"{}\"]}}}}", id_a().to_hex());
    assert_eq!(
        decode_id_list(404, body.clone(), "messageIds"),
        Err(ClientError::NodeError { status: 404, body: body.clone() })
    );
    assert_eq!(
        decode_payload(404, "not json".to_string()).err(),
        Some(ClientError::NodeError { status: 404, body: "not json".to_string() })
    );
    assert_eq!(
        decode_raw(500, "boom".to_string()),
        Err(ClientError::NodeError { status: 500, body: "boom".to_string() })
    );
}

#[test]
fn malformed_bodies() {
    let r = decode_id_list(200, "{not json".to_string(), "messageIds");
    assert!(matches!(r, Err(ClientError::MalformedResponse { .. })));
    let r = decode_id_list(200, "{\"messageIds\":[]}".to_string(), "messageIds");
    assert!(matches!(r, Err(ClientError::MalformedResponse { .. })));
    let r = decode_id_list(200, "{\"data\":{\"messageIds\":\"ab\"}}".to_string(), "messageIds");
    assert!(matches!(r, Err(ClientError::MalformedResponse { .. })));
    let r = decode_id_list(200, "{\"data\":{\"messageIds\":[1]}}".to_string(), "messageIds");
    assert!(matches!(r, Err(ClientError::MalformedResponse { .. })));
    let r = decode_payload(200, "[]".to_string());
    assert!(matches!(r, Err(ClientError::MalformedResponse { .. })));
}

#[test]
fn payload_is_unwrapped() {
    let v = decode_payload(200, "{\"data\":{\"isSolid\":true}}".to_string());
    assert_eq!(v, Ok(Json::Object(vec![("isSolid".to_string(), Json::Bool(true))])));
}

#[test]
fn raw_body_passes_through() {
    let body = "{\"data\":\"not unwrapped\"}".to_string();
    let c = client();
    let q = GetMessageBuilder::new(&c).raw(&id_a()).unwrap();
    assert_eq!(q.finish(200, body.clone()), Ok(body));
    assert_eq!(decode_raw(200, String::new()), Ok(String::new()));
}

#[test]
fn metadata_payload_is_returned() {
    let c = client();
    let q = GetMessageBuilder::new(&c).metadata(&id_a()).unwrap();
    let body = "{\"data\":{\"messageId\":\"ab\",\"parents\":[\"cd\"],\"milestoneIndex\":7}}";
    let expected = Json::Object(vec![
        ("messageId".to_string(), Json::Str("ab".to_string())),
        ("milestoneIndex".to_string(), Json::Number("7".to_string())),
        ("parents".to_string(), Json::Array(vec![Json::Str("cd".to_string())])),
    ]);
    assert_eq!(q.finish(200, body.to_string()), Ok(expected));
}

#[test]
fn payload_without_data_is_malformed() {
    let r = decode_payload(200, "{\"other\":1}".to_string());
    assert!(matches!(r, Err(ClientError::MalformedResponse { .. })));
    let r = decode_payload(200, "".to_string());
    assert!(matches!(r, Err(ClientError::MalformedResponse { .. })));
}

#[test]
fn id_envelope_from_model() {
    let env = Json::Object(vec![(
        "data".to_string(),
        Json::Object(vec![(
            "messageIds".to_string(),
            Json::Array(vec![Json::Str(id_a().to_hex()), Json::Str(id_b().to_hex())]),
        )]),
    )]);
    assert_eq!(decode_id_envelope(env, "messageIds"), Ok(vec![id_a(), id_b()]));
    let wrong_field = Json::Object(vec![(
        "data".to_string(),
        Json::Object(vec![("messageIds".to_string(), Json::Array(vec![]))]),
    )]);
    assert!(matches!(
        decode_id_envelope(wrong_field, "childrenMessageIds"),
        Err(ClientError::MalformedResponse { .. })
    ));
    assert!(matches!(decode_id_envelope(Json::Null, "messageIds"), Err(ClientError::MalformedResponse { .. })));
}

#[test]
fn payload_envelope_from_model() {
    let env = Json::Object(vec![
        ("x".to_string(), Json::Null),
        ("data".to_string(), Json::Str("p".to_string())),
    ]);
    assert_eq!(decode_payload_envelope(env), Ok(Json::Str("p".to_string())));
    assert!(matches!(decode_payload_envelope(Json::Array(vec![])), Err(ClientError::MalformedResponse { .. })));
}
