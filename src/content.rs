//! Fetching the content of an uploaded file.
use vstd::prelude::*;
use vstd::utf8::{decode_utf8, valid_utf8};

use crate::client::{check_reply, reply_body, Action, ClientError, Method, Reply};

verus! {

/// A request for the content of the file `file_id`.
pub struct Request {
    pub file_id: String,
}

/// The content of a file: the whole reply body, as text.
pub struct Response {
    pub content: String,
}

/// Relies on `String::from_utf8`: the text when the bytes are valid UTF-8.
#[verifier::external_body]
fn utf8_text(b: Vec<u8>) -> (r: Option<String>)
    ensures
        match r {
            Some(s) => valid_utf8(b@) && s@ == decode_utf8(b@),
            None => !valid_utf8(b@),
        },
{
    String::from_utf8(b).ok()
}

/// The message of the error for a body that is not text.
pub open spec fn not_text_message() -> Seq<char> {
    "the body is not valid UTF-8"@
}

/// The response for the body of a successful reply: the body read as
/// UTF-8 text, or a deserialization error when it is not.
pub fn parse_response(body: Vec<u8>) -> (r: Result<Response, ClientError>)
    ensures
        match r {
            Ok(resp) => valid_utf8(body@) && resp.content@ == decode_utf8(body@),
            Err(e) => !valid_utf8(body@) && match e {
                ClientError::Deserialize(m) => m@ == not_text_message(),
                _ => false,
            },
        },
{
    match utf8_text(body) {
        Some(content) => Ok(Response { content }),
        None => Err(ClientError::Deserialize(String::from_str("the body is not valid UTF-8"))),
    }
}

/// The response for a reply: a transport error when it failed or did not
/// succeed, else what [`parse_response`] makes of its body.
pub fn response_for(reply: Reply) -> (r: Result<Response, ClientError>)
    ensures
        reply_body(reply) is Err ==> r == Err::<Response, ClientError>(reply_body(reply)->Err_0),
        reply_body(reply) is Ok ==> {
            let body = reply_body(reply)->Ok_0;
            match r {
                Ok(resp) => valid_utf8(body@) && resp.content@ == decode_utf8(body@),
                Err(e) => !valid_utf8(body@) && match e {
                    ClientError::Deserialize(m) => m@ == not_text_message(),
                    _ => false,
                },
            }
        },
{
    match check_reply(reply) {
        Ok(body) => parse_response(body),
        Err(e) => Err(e),
    }
}

impl Action for Request {
    type Response = Response;

    open spec fn spec_url(&self, base: Seq<char>) -> Seq<char> {
        base + "/files/"@ + self.file_id@ + "/content"@
    }

    open spec fn spec_method(&self) -> Method {
        Method::Get
    }

    open spec fn spec_body(&self) -> Option<Seq<char>> {
        None
    }

    fn url(&self, base: &str) -> (r: String) {
        String::from_str(base).concat("/files/").concat(self.file_id.as_str()).concat("/content")
    }

    fn method(&self) -> (r: Method) {
        Method::Get
    }

    fn request_body(&self) -> (r: Option<String>) {
        None
    }
}

} // verus!
