//! One calling convention for every operation: a payload describes its
//! request, the client adds the credential, and the reply is turned into a
//! typed response or an error.
use vstd::prelude::*;

use crate::OPENAI_URL;

verus! {

/// The HTTP method of a request.
#[derive(Debug, Clone, Copy, PartialEq, Eq, Structural)]
pub enum Method {
    Get,
    Post,
    Delete,
}

/// What a payload contributes to its request.
pub trait Action {
    /// The typed response of the operation.
    type Response;

    /// The absolute address of the operation under `base`.
    spec fn spec_url(&self, base: Seq<char>) -> Seq<char>;

    /// The method of the operation.
    spec fn spec_method(&self) -> Method;

    /// The request body, if the operation sends one.
    spec fn spec_body(&self) -> Option<Seq<char>>;

    fn url(&self, base: &str) -> (r: String)
        ensures
            r@ == self.spec_url(base@),
    ;

    fn method(&self) -> (r: Method)
        ensures
            r == self.spec_method(),
    ;

    fn request_body(&self) -> (r: Option<String>)
        ensures
            r.deep_view() == self.spec_body(),
    ;
}

/// A request ready to be sent.
pub struct HttpCall {
    pub method: Method,
    pub url: String,
    /// The value of the `Authorization` header.
    pub authorization: String,
    /// The JSON body, if any.
    pub body: Option<String>,
}

/// Holds the credential and the base address; it never changes after
/// construction, so one client serves any number of calls.
pub struct Client {
    token: String,
    base_url: String,
}

impl Client {
    /// The credential.
    pub closed spec fn spec_token(&self) -> Seq<char> {
        self.token@
    }

    /// The base address.
    pub closed spec fn spec_base(&self) -> Seq<char> {
        self.base_url@
    }

    /// A client of the service at its usual address.
    pub fn new(token: String) -> (r: Client)
        ensures
            r.spec_token() == token@,
            r.spec_base() == OPENAI_URL@,
    {
        Client { token, base_url: String::from_str(OPENAI_URL) }
    }

    /// A client of a service at another address, such as a stand-in.
    pub fn with_base_url(token: String, base_url: String) -> (r: Client)
        ensures
            r.spec_token() == token@,
            r.spec_base() == base_url@,
    {
        Client { token, base_url }
    }

    /// The credential.
    pub fn gpt_token(&self) -> (r: &str)
        ensures
            r@ == self.spec_token(),
    {
        self.token.as_str()
    }

    /// The base address.
    pub fn base_url(&self) -> (r: &str)
        ensures
            r@ == self.spec_base(),
    {
        self.base_url.as_str()
    }

    /// The request for a payload: its method, its address under the base,
    /// the bearer credential and its body.
    pub fn prepare<A: Action>(&self, req: &A) -> (r: HttpCall)
        ensures
            r.method == req.spec_method(),
            r.url@ == req.spec_url(self.spec_base()),
            r.authorization@ == "Bearer "@ + self.spec_token(),
            r.body.deep_view() == req.spec_body(),
    {
        let url = req.url(self.base_url.as_str());
        let authorization = String::from_str("Bearer ").concat(self.token.as_str());
        HttpCall { method: req.method(), url, authorization, body: req.request_body() }
    }
}

/// What the transport brought back.
pub enum Reply {
    /// No reply came: the connection, the name lookup, TLS or a timeout failed.
    Unreachable(String),
    /// The service replied with this status and body.
    Received { status: u16, body: Vec<u8> },
}

/// Why a call did not produce a typed response.
#[derive(Debug)]
pub enum ClientError {
    /// The service could not be reached.
    Transport(String),
    /// The service replied with a status other than success.
    Status(u16),
    /// The reply's body did not have the shape of the response.
    Deserialize(String),
}

impl ClientError {
    /// Whether the error arose in the transport, before any body was read.
    pub fn is_transport(&self) -> (r: bool)
        ensures
            r == !(*self is Deserialize),
    {
        !matches!(self, ClientError::Deserialize(_))
    }
}

/// Whether a status reports success.
pub open spec fn is_success(status: u16) -> bool {
    200 <= status < 300
}

/// The body to parse, or the transport error, for a reply.
pub open spec fn reply_body(reply: Reply) -> Result<Vec<u8>, ClientError> {
    match reply {
        Reply::Unreachable(m) => Err(ClientError::Transport(m)),
        Reply::Received { status, body } => if is_success(status) {
            Ok(body)
        } else {
            Err(ClientError::Status(status))
        },
    }
}

/// The outcome of parsing a body.
pub open spec fn parsed_outcome<R>(parsed: Result<R, String>) -> Result<R, ClientError> {
    match parsed {
        Ok(v) => Ok(v),
        Err(m) => Err(ClientError::Deserialize(m)),
    }
}

/// The body of a successful reply; a transport error otherwise.
pub fn check_reply(reply: Reply) -> (r: Result<Vec<u8>, ClientError>)
    ensures
        r == reply_body(reply),
{
    match reply {
        Reply::Unreachable(m) => Err(ClientError::Transport(m)),
        Reply::Received { status, body } => {
            if 200 <= status && status < 300 {
                Ok(body)
            } else {
                Err(ClientError::Status(status))
            }
        },
    }
}

/// The typed response, or a deserialization error, from the result of
/// parsing a body.
pub fn finish<R>(parsed: Result<R, String>) -> (r: Result<R, ClientError>)
    ensures
        r == parsed_outcome(parsed),
{
    match parsed {
        Ok(v) => Ok(v),
        Err(m) => Err(ClientError::Deserialize(m)),
    }
}

/// The typed response for a reply: `parse` reads the body of a successful
/// reply and is not called otherwise.
pub fn complete<R, F: Fn(Vec<u8>) -> Result<R, String>>(reply: Reply, parse: F) -> (r: Result<
    R,
    ClientError,
>)
    requires
        forall|b: Vec<u8>| parse.requires((b,)),
    ensures
        reply_body(reply) is Err ==> r == Err::<R, ClientError>(reply_body(reply)->Err_0),
        reply_body(reply) is Ok ==> exists|p: Result<R, String>|
            parse.ensures((reply_body(reply)->Ok_0,), p) && r == parsed_outcome(p),
{
    match check_reply(reply) {
        Ok(body) => {
            let parsed = parse(body);
            finish(parsed)
        },
        Err(e) => Err(e),
    }
}

/// A reply that never arrived gives a transport error, and no body reaches
/// a parser.
pub proof fn lemma_unreachable_is_transport(m: String)
    ensures
        reply_body(Reply::Unreachable(m)) == Err::<Vec<u8>, ClientError>(ClientError::Transport(m)),
{
}

/// A body that does not parse gives a deserialization error, never a
/// transport error and never a response.
pub proof fn lemma_malformed_is_deserialize<R>(m: String)
    ensures
        parsed_outcome(Err::<R, String>(m)) == Err::<R, ClientError>(ClientError::Deserialize(m)),
{
}

/// A body that parses gives exactly the parsed response.
pub proof fn lemma_parsed_kept<R>(v: R)
    ensures
        parsed_outcome(Ok::<R, String>(v)) == Ok::<R, ClientError>(v),
{
}

} // verus!
