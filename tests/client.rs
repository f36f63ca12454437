use std::cell::Cell;

use openai_api::classifications::{Builder, Response, SelectedExample};
use openai_api::client::{check_reply, complete, finish, Client, ClientError, Method, Reply};
use openai_api::content;
use openai_api::model::Model;

const STUB_REPLY: &str = "{\"completion\":\"cmpl-2euN7lUVZ0d4RKbQqRV79IiiE6M1f\",\
    \"label\":\"Negative\",\"model\":\"curie:2020-05-03\",\"object\":\"classification\",\
    \"search_model\":\"ada\",\"selected_examples\":[{\"document\":1,\"label\":\"Negative\",\
    \"text\":\"I am sad.\"},{\"document\":0,\"label\":\"Positive\",\"text\":\"A happy moment\"}]}";

fn text(v: &serde_json::Value, key: &str) -> Result<String, String> {
    v[key].as_str().map(String::from).ok_or(format!("missing field {}", key))
}

fn parse_classification(body: Vec<u8>) -> Result<Response, String> {
    let v: serde_json::Value = serde_json::from_slice(&body).map_err(|e| e.to_string())?;
    let mut selected = Vec::new();
    for e in v["selected_examples"].as_array().ok_or(String::from("missing selected_examples"))? {
        selected.push(SelectedExample {
            document: e["document"].as_u64().ok_or(String::from("missing document"))? as usize,
            label: text(e, "label")?,
            text: text(e, "text")?,
            logpropbs: None,
        });
    }
    Ok(Response {
        completion: text(&v, "completion")?,
        label: text(&v, "label")?,
        model: text(&v, "model")?,
        object: text(&v, "object")?,
        search_model: text(&v, "search_model")?,
        selected_examples: selected,
    })
}

#[test]
fn classification_end_to_end_against_a_stub() {
    let client = Client::with_base_url(String::from("SECRET-REDACTED"), String::from("http://stub"));
    let request = Builder::new()
        .model(Model::Curie)
        .query(String::from("It is a rainy day :("))
        .build()
        .unwrap();
    let call = client.prepare(&request);
    assert_eq!(call.method, Method::Post);
    assert_eq!(call.url, "http://stub/classifications");
    assert_eq!(call.authorization, "Bearer SECRET-REDACTED");
    assert_eq!(
        call.body,
        Some(String::from("{\"model\":\"curie\",\"query\":\"It is a rainy day :(\"}"))
    );
    let reply = Reply::Received { status: 200, body: STUB_REPLY.as_bytes().to_vec() };
    let response = complete(reply, parse_classification).unwrap();
    assert_eq!(response.completion, "cmpl-2euN7lUVZ0d4RKbQqRV79IiiE6M1f");
    assert_eq!(response.label, "Negative");
    assert_eq!(response.model, "curie:2020-05-03");
    assert_eq!(response.object, "classification");
    assert_eq!(response.search_model, "ada");
    assert_eq!(response.selected_examples.len(), 2);
    assert_eq!(response.selected_examples[0].document, 1);
    assert_eq!(response.selected_examples[0].label, "Negative");
    assert_eq!(response.selected_examples[0].text, "I am sad.");
    assert_eq!(response.selected_examples[1].document, 0);
    assert_eq!(response.selected_examples[1].text, "A happy moment");
}

#[test]
fn malformed_body_is_a_deserialize_error() {
    let reply = Reply::Received { status: 200, body: b"{\"label\": ".to_vec() };
    let r = complete(reply, parse_classification);
    match r {
        Err(e) => {
            assert!(!e.is_transport());
            assert!(matches!(e, ClientError::Deserialize(_)));
        }
        Ok(_) => panic!("a malformed body gave a response"),
    }
}

#[test]
fn unreachable_is_a_transport_error_and_nothing_is_parsed() {
    let called = Cell::new(false);
    let r = complete(Reply::Unreachable(String::from("connection refused")), |b: Vec<u8>| {
        called.set(true);
        parse_classification(b)
    });
    assert!(!called.get());
    match r {
        Err(ClientError::Transport(m)) => assert_eq!(m, "connection refused"),
        _ => panic!("expected a transport error"),
    }
}

#[test]
fn failed_status_is_not_parsed() {
    let called = Cell::new(false);
    let r = complete(Reply::Received { status: 500, body: STUB_REPLY.as_bytes().to_vec() }, |b: Vec<u8>| {
        called.set(true);
        parse_classification(b)
    });
    assert!(!called.get());
    match r {
        Err(e) => {
            assert!(e.is_transport());
            assert!(matches!(e, ClientError::Status(500)));
        }
        Ok(_) => panic!("a failed status gave a response"),
    }
}

#[test]
fn check_reply_passes_success_bodies_through() {
    assert!(matches!(check_reply(Reply::Received { status: 204, body: vec![1, 2] }), Ok(b) if b == vec![1, 2]));
    assert!(matches!(check_reply(Reply::Received { status: 199, body: vec![] }), Err(ClientError::Status(199))));
    assert!(matches!(check_reply(Reply::Received { status: 300, body: vec![] }), Err(ClientError::Status(300))));
    assert!(matches!(check_reply(Reply::Unreachable(String::from("dns"))), Err(ClientError::Transport(_))));
}

#[test]
fn finish_keeps_the_parsed_value() {
    assert!(matches!(finish::<u32>(Ok(7)), Ok(7)));
    assert!(matches!(finish::<u32>(Err(String::from("bad"))), Err(ClientError::Deserialize(m)) if m == "bad"));
}

#[test]
fn default_client_targets_the_service() {
    let client = Client::new(String::from("tok"));
    assert_eq!(client.gpt_token(), "tok");
    assert_eq!(client.base_url(), "https://api.openai.com/v1");
    let call = client.prepare(&content::Request { file_id: String::from("file-XjGxS3KTG0uNmNOK362iJua3") });
    assert_eq!(call.method, Method::Get);
    assert_eq!(call.url, "https://api.openai.com/v1/files/file-XjGxS3KTG0uNmNOK362iJua3/content");
    assert_eq!(call.authorization, "Bearer tok");
    assert!(call.body.is_none());
}
