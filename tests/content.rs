use openai_api::client::{ClientError, Reply};
use openai_api::content::{parse_response, response_for};

#[test]
fn content_is_the_whole_body() {
    let r = parse_response(b"line one\nline two".to_vec()).unwrap();
    assert_eq!(r.content, "line one\nline two");
    let r = parse_response("h\u{e9}llo".as_bytes().to_vec()).unwrap();
    assert_eq!(r.content, "h\u{e9}llo");
    assert_eq!(parse_response(Vec::new()).unwrap().content, "");
}

#[test]
fn content_that_is_not_text_is_a_deserialize_error() {
    match parse_response(vec![0x66, 0xff, 0x66]) {
        Err(ClientError::Deserialize(m)) => assert_eq!(m, "the body is not valid UTF-8"),
        _ => panic!("expected a deserialize error"),
    }
}

#[test]
fn content_reply_paths() {
    let ok = response_for(Reply::Received { status: 200, body: b"abc".to_vec() }).unwrap();
    assert_eq!(ok.content, "abc");
    assert!(matches!(response_for(Reply::Unreachable(String::from("timeout"))), Err(ClientError::Transport(_))));
    assert!(matches!(response_for(Reply::Received { status: 404, body: b"abc".to_vec() }), Err(ClientError::Status(404))));
    assert!(matches!(response_for(Reply::Received { status: 200, body: vec![0xc0] }), Err(ClientError::Deserialize(_))));
}
