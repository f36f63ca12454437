//! Classifying a query against labelled examples.
//!
//! A [`Request`] is assembled with a [`Builder`]: `model` and `query` are
//! required, every other field is optional and is left out of the request
//! body when it was never set.
use vstd::prelude::*;

use crate::json::{
    array, array_text, boolean, bool_text, decimal, decimal_text, fixed3, fixed3_text, json_str,
    object, object_text, quote, signed, signed_text, str_array, str_array_text,
};
use crate::client::{Action, Method};
use crate::model::{model_name, Model};

verus! {

/// A sampling temperature, in thousandths (`900` is `0.9`).
#[derive(Debug, Clone, Copy, PartialEq, Eq, Structural)]
pub struct Temperature {
    pub thousandths: u32,
}

/// A classification request.
///
/// `examples` and `file` are alternative sources of labelled examples; the
/// service expects at most one of them, which this type does not enforce.
pub struct Request {
    /// The engine that produces the label.
    pub model: Model,
    /// The text to classify.
    pub query: String,
    /// Labelled examples, each a text followed by its label.
    pub examples: Option<Vec<Vec<String>>>,
    /// The id of an uploaded file of labelled examples.
    pub file: Option<String>,
    /// The candidate labels.
    pub labels: Option<Vec<String>>,
    /// The engine used to search the examples.
    pub search_model: Option<Model>,
    /// The sampling temperature.
    pub temperature: Option<Temperature>,
    /// How many most likely tokens to report log probabilities for.
    pub logprobs: Option<u8>,
    /// The most examples that the search ranks.
    pub max_examples: Option<u64>,
    /// Biases of tokens, by token id, in the order they were given.
    pub logit_bias: Option<Vec<(String, i8)>>,
    /// Whether the reply includes the final prompt.
    pub return_prompt: Option<bool>,
    /// Whether the reply includes document metadata.
    pub return_metadata: Option<bool>,
    /// Objects to expand in the reply.
    pub expand: Option<Vec<String>>,
    /// An identifier of the end user.
    pub user: Option<String>,
}

/// A member of the body for an optional field: present only when set.
pub open spec fn opt_member(key: Seq<char>, v: Option<Seq<char>>) -> Seq<(Seq<char>, Seq<char>)> {
    match v {
        Some(t) => seq![(key, t)],
        None => Seq::empty(),
    }
}

/// The JSON text of a list of labelled examples.
pub open spec fn examples_text(e: Seq<Seq<Seq<char>>>) -> Seq<char> {
    array_text(e.map_values(|x: Seq<Seq<char>>| str_array_text(x)))
}

/// The JSON text of token biases: an object from token id to bias.
pub open spec fn bias_text(b: Seq<(Seq<char>, i8)>) -> Seq<char> {
    object_text(b.map_values(|p: (Seq<char>, i8)| (p.0, signed_text(p.1 as int))))
}

/// The body text of `examples`, when it is set.
pub open spec fn examples_value(r: Request) -> Option<Seq<char>> {
    match r.examples {
        Some(e) => Some(examples_text(e.deep_view())),
        None => None,
    }
}

/// The body text of `file`, when it is set.
pub open spec fn file_value(r: Request) -> Option<Seq<char>> {
    match r.file {
        Some(f) => Some(json_str(f@)),
        None => None,
    }
}

/// The body text of `labels`, when it is set.
pub open spec fn labels_value(r: Request) -> Option<Seq<char>> {
    match r.labels {
        Some(l) => Some(str_array_text(l.deep_view())),
        None => None,
    }
}

/// The body text of `search_model`, when it is set.
pub open spec fn search_model_value(r: Request) -> Option<Seq<char>> {
    match r.search_model {
        Some(m) => Some(json_str(model_name(m))),
        None => None,
    }
}

/// The body text of `temperature`, when it is set.
pub open spec fn temperature_value(r: Request) -> Option<Seq<char>> {
    match r.temperature {
        Some(t) => Some(fixed3_text(t.thousandths as nat)),
        None => None,
    }
}

/// The body text of `logprobs`, when it is set.
pub open spec fn logprobs_value(r: Request) -> Option<Seq<char>> {
    match r.logprobs {
        Some(n) => Some(decimal_text(n as nat)),
        None => None,
    }
}

/// The body text of `max_examples`, when it is set.
pub open spec fn max_examples_value(r: Request) -> Option<Seq<char>> {
    match r.max_examples {
        Some(n) => Some(decimal_text(n as nat)),
        None => None,
    }
}

/// The body text of `logit_bias`, when it is set.
pub open spec fn logit_bias_value(r: Request) -> Option<Seq<char>> {
    match r.logit_bias {
        Some(b) => Some(bias_text(b.deep_view())),
        None => None,
    }
}

/// The body text of `return_prompt`, when it is set.
pub open spec fn return_prompt_value(r: Request) -> Option<Seq<char>> {
    match r.return_prompt {
        Some(b) => Some(bool_text(b)),
        None => None,
    }
}

/// The body text of `return_metadata`, when it is set.
pub open spec fn return_metadata_value(r: Request) -> Option<Seq<char>> {
    match r.return_metadata {
        Some(b) => Some(bool_text(b)),
        None => None,
    }
}

/// The body text of `expand`, when it is set.
pub open spec fn expand_value(r: Request) -> Option<Seq<char>> {
    match r.expand {
        Some(l) => Some(str_array_text(l.deep_view())),
        None => None,
    }
}

/// The body text of `user`, when it is set.
pub open spec fn user_value(r: Request) -> Option<Seq<char>> {
    match r.user {
        Some(u) => Some(json_str(u@)),
        None => None,
    }
}

/// The members of the JSON body of a request, in field order; an optional
/// field that is not set has no member.
pub open spec fn request_members(r: Request) -> Seq<(Seq<char>, Seq<char>)> {
    seq![("model"@, json_str(model_name(r.model))), ("query"@, json_str(r.query@))]
        + opt_member("examples"@, examples_value(r))
        + opt_member("file"@, file_value(r))
        + opt_member("labels"@, labels_value(r))
        + opt_member("search_model"@, search_model_value(r))
        + opt_member("temperature"@, temperature_value(r))
        + opt_member("logprobs"@, logprobs_value(r))
        + opt_member("max_examples"@, max_examples_value(r))
        + opt_member("logit_bias"@, logit_bias_value(r))
        + opt_member("return_prompt"@, return_prompt_value(r))
        + opt_member("return_metadata"@, return_metadata_value(r))
        + opt_member("expand"@, expand_value(r))
        + opt_member("user"@, user_value(r))
}

/// Appends the member for an optional field, if it is set.
fn push_opt(members: &mut Vec<(String, String)>, key: &str, value: Option<String>)
    ensures
        final(members).deep_view() == old(members).deep_view() + opt_member(
            key@,
            value.deep_view(),
        ),
{
    match value {
        Some(t) => {
            members.push((String::from_str(key), t));
            assert(final(members).deep_view() =~= old(members).deep_view() + seq![(key@, t@)]);
        },
        None => {
            assert(old(members).deep_view() + Seq::empty() =~= old(members).deep_view());
        },
    }
}

/// The JSON text of a list of labelled examples.
fn examples_json(e: &Vec<Vec<String>>) -> (r: String)
    ensures
        r@ == examples_text(e.deep_view()),
{
    let ghost want = e.deep_view().map_values(|x: Seq<Seq<char>>| str_array_text(x));
    let mut texts: Vec<String> = Vec::new();
    let mut i: usize = 0;
    while i < e.len()
        invariant
            i <= e.len(),
            texts.len() == i,
            want == e.deep_view().map_values(|x: Seq<Seq<char>>| str_array_text(x)),
            forall|j: int| 0 <= j < i ==> (#[trigger] texts@[j])@ == want[j],
        decreases e.len() - i,
    {
        let t = str_array(&e[i]);
        texts.push(t);
        i = i + 1;
    }
    assert(texts.deep_view() =~= want);
    array(&texts)
}

/// The JSON text of token biases.
fn bias_json(b: &Vec<(String, i8)>) -> (r: String)
    ensures
        r@ == bias_text(b.deep_view()),
{
    let ghost want = b.deep_view().map_values(
        |p: (Seq<char>, i8)| (p.0, signed_text(p.1 as int)),
    );
    let mut members: Vec<(String, String)> = Vec::new();
    let mut i: usize = 0;
    while i < b.len()
        invariant
            i <= b.len(),
            members.len() == i,
            want == b.deep_view().map_values(|p: (Seq<char>, i8)| (p.0, signed_text(p.1 as int))),
            forall|j: int| 0 <= j < i ==> (#[trigger] members@[j]).deep_view() == want[j],
        decreases b.len() - i,
    {
        let key = b[i].0.clone();
        let value = signed(b[i].1 as i64);
        members.push((key, value));
        i = i + 1;
    }
    assert(members.deep_view() =~= want);
    object(&members)
}

/// No token appears twice.
pub open spec fn keys_unique(b: Seq<(Seq<char>, i8)>) -> bool {
    forall|i: int, j: int| 0 <= i < j < b.len() ==> (#[trigger] b[i]).0 != (#[trigger] b[j]).0
}

/// Sets the bias of token `k` to `v`: in its place if it is there, else at
/// the end.
pub open spec fn bias_insert(b: Seq<(Seq<char>, i8)>, k: Seq<char>, v: i8) -> Seq<(Seq<char>, i8)> {
    if exists|i: int| 0 <= i < b.len() && (#[trigger] b[i]).0 == k {
        b.update(choose|i: int| 0 <= i < b.len() && (#[trigger] b[i]).0 == k, (k, v))
    } else {
        b.push((k, v))
    }
}

/// The biases that the entries set, one after another.
pub open spec fn bias_from(entries: Seq<(Seq<char>, i8)>) -> Seq<(Seq<char>, i8)>
    decreases entries.len(),
{
    if entries.len() == 0 {
        Seq::empty()
    } else {
        bias_insert(bias_from(entries.drop_last()), entries.last().0, entries.last().1)
    }
}

/// Sets the bias of one token.
fn insert_bias(b: &mut Vec<(String, i8)>, k: String, v: i8)
    requires
        keys_unique(old(b).deep_view()),
    ensures
        final(b).deep_view() == bias_insert(old(b).deep_view(), k@, v),
        keys_unique(final(b).deep_view()),
{
    let ghost bs = old(b).deep_view();
    let mut i: usize = 0;
    let mut found = false;
    while i < b.len() && !found
        invariant
            i <= b.len(),
            b.deep_view() == bs,
            keys_unique(bs),
            found ==> i < b.len() && bs[i as int].0 == k@,
            !found ==> forall|j: int| 0 <= j < i ==> (#[trigger] bs[j]).0 != k@,
        decreases b.len() - i + (if found { 0int } else { 1int }),
    {
        if b[i].0 == k {
            found = true;
        } else {
            i = i + 1;
        }
    }
    if found {
        proof {
            assert(exists|j: int| 0 <= j < bs.len() && (#[trigger] bs[j]).0 == k@);
            let c = choose|j: int| 0 <= j < bs.len() && (#[trigger] bs[j]).0 == k@;
            assert(c == i);
        }
        b.set(i, (k, v));
        assert(b.deep_view() =~= bs.update(i as int, (k@, v)));
    } else {
        b.push((k, v));
        assert(b.deep_view() =~= bs.push((k@, v)));
    }
}

impl Request {
    /// The members of the JSON body, in field order, leaving out every
    /// optional field that is not set.
    pub fn members(&self) -> (r: Vec<(String, String)>)
        ensures
            r.deep_view() == request_members(*self),
    {
        let mut ms: Vec<(String, String)> = Vec::new();
        ms.push((String::from_str("model"), quote(self.model.name())));
        ms.push((String::from_str("query"), quote(self.query.as_str())));
        assert(ms.deep_view() =~= seq![
            ("model"@, json_str(model_name(self.model))),
            ("query"@, json_str(self.query@)),
        ]);
        push_opt(
            &mut ms,
            "examples",
            match &self.examples {
                Some(e) => Some(examples_json(e)),
                None => None,
            },
        );
        push_opt(
            &mut ms,
            "file",
            match &self.file {
                Some(f) => Some(quote(f.as_str())),
                None => None,
            },
        );
        push_opt(
            &mut ms,
            "labels",
            match &self.labels {
                Some(l) => Some(str_array(l)),
                None => None,
            },
        );
        push_opt(
            &mut ms,
            "search_model",
            match &self.search_model {
                Some(m) => Some(quote(m.name())),
                None => None,
            },
        );
        push_opt(
            &mut ms,
            "temperature",
            match &self.temperature {
                Some(t) => Some(fixed3(t.thousandths as u64)),
                None => None,
            },
        );
        push_opt(
            &mut ms,
            "logprobs",
            match &self.logprobs {
                Some(n) => Some(decimal(*n as u64)),
                None => None,
            },
        );
        push_opt(
            &mut ms,
            "max_examples",
            match &self.max_examples {
                Some(n) => Some(decimal(*n)),
                None => None,
            },
        );
        push_opt(
            &mut ms,
            "logit_bias",
            match &self.logit_bias {
                Some(b) => Some(bias_json(b)),
                None => None,
            },
        );
        push_opt(
            &mut ms,
            "return_prompt",
            match &self.return_prompt {
                Some(b) => Some(String::from_str(boolean(*b))),
                None => None,
            },
        );
        push_opt(
            &mut ms,
            "return_metadata",
            match &self.return_metadata {
                Some(b) => Some(String::from_str(boolean(*b))),
                None => None,
            },
        );
        push_opt(
            &mut ms,
            "expand",
            match &self.expand {
                Some(l) => Some(str_array(l)),
                None => None,
            },
        );
        push_opt(
            &mut ms,
            "user",
            match &self.user {
                Some(u) => Some(quote(u.as_str())),
                None => None,
            },
        );
        assert(ms.deep_view() =~= request_members(*self));
        ms
    }

    /// The JSON body of this request.
    pub fn body(&self) -> (r: String)
        ensures
            r@ == object_text(request_members(*self)),
    {
        object(&self.members())
    }
}

/// Why a [`Builder`] could not produce a [`Request`]: a required field was
/// never set.
#[derive(Debug, Clone, Copy, PartialEq, Eq, Structural)]
pub enum BuildError {
    /// `model` was never set.
    MissingModel,
    /// `query` was never set.
    MissingQuery,
}

impl BuildError {
    /// The name of the field that was missing.
    pub fn field(&self) -> (r: &'static str)
        ensures
            r@ == match *self {
                BuildError::MissingModel => "model"@,
                BuildError::MissingQuery => "query"@,
            },
    {
        match self {
            BuildError::MissingModel => "model",
            BuildError::MissingQuery => "query",
        }
    }
}

/// Accumulates the fields of a [`Request`]; [`Builder::build`] checks that
/// the required ones are there.
pub struct Builder {
    pub model: Option<Model>,
    pub query: Option<String>,
    pub examples: Option<Vec<Vec<String>>>,
    pub file: Option<String>,
    pub labels: Option<Vec<String>>,
    pub search_model: Option<Model>,
    pub temperature: Option<Temperature>,
    pub logprobs: Option<u8>,
    pub max_examples: Option<u64>,
    pub logit_bias: Option<Vec<(String, i8)>>,
    pub return_prompt: Option<bool>,
    pub return_metadata: Option<bool>,
    pub expand: Option<Vec<String>>,
    pub user: Option<String>,
}

/// A builder with no field set.
pub open spec fn empty_builder() -> Builder {
    Builder {
        model: None,
        query: None,
        examples: None,
        file: None,
        labels: None,
        search_model: None,
        temperature: None,
        logprobs: None,
        max_examples: None,
        logit_bias: None,
        return_prompt: None,
        return_metadata: None,
        expand: None,
        user: None,
    }
}

/// What [`Builder::build`] gives for a builder.
pub open spec fn build_result(b: Builder) -> Result<Request, BuildError> {
    match b.model {
        None => Err(BuildError::MissingModel),
        Some(model) => match b.query {
            None => Err(BuildError::MissingQuery),
            Some(query) => Ok(
                Request {
                    model,
                    query,
                    examples: b.examples,
                    file: b.file,
                    labels: b.labels,
                    search_model: b.search_model,
                    temperature: b.temperature,
                    logprobs: b.logprobs,
                    max_examples: b.max_examples,
                    logit_bias: b.logit_bias,
                    return_prompt: b.return_prompt,
                    return_metadata: b.return_metadata,
                    expand: b.expand,
                    user: b.user,
                },
            ),
        },
    }
}

impl Default for Builder {
    fn default() -> (r: Self)
        ensures
            r == empty_builder(),
    {
        Builder::new()
    }
}

impl Builder {
    /// A builder with no field set.
    pub fn new() -> (r: Self)
        ensures
            r == empty_builder(),
    {
        Builder {
            model: None,
            query: None,
            examples: None,
            file: None,
            labels: None,
            search_model: None,
            temperature: None,
            logprobs: None,
            max_examples: None,
            logit_bias: None,
            return_prompt: None,
            return_metadata: None,
            expand: None,
            user: None,
        }
    }

    /// The request, or the first required field that is missing.
    pub fn build(self) -> (r: Result<Request, BuildError>)
        ensures
            r == build_result(self),
    {
        let model = match self.model {
            Some(m) => m,
            None => {
                return Err(BuildError::MissingModel);
            },
        };
        let query = match self.query {
            Some(q) => q,
            None => {
                return Err(BuildError::MissingQuery);
            },
        };
        Ok(
            Request {
                model,
                query,
                examples: self.examples,
                file: self.file,
                labels: self.labels,
                search_model: self.search_model,
                temperature: self.temperature,
                logprobs: self.logprobs,
                max_examples: self.max_examples,
                logit_bias: self.logit_bias,
                return_prompt: self.return_prompt,
                return_metadata: self.return_metadata,
                expand: self.expand,
                user: self.user,
            },
        )
    }

    /// Sets `model`.
    pub fn model(self, v: Model) -> (r: Self)
        ensures
            r == (Builder { model: Some(v), ..self }),
    {
        Builder { model: Some(v), ..self }
    }

    /// Sets `query`.
    pub fn query(self, v: String) -> (r: Self)
        ensures
            r == (Builder { query: Some(v), ..self }),
    {
        Builder { query: Some(v), ..self }
    }

    /// Sets `examples`.
    pub fn examples(self, v: Vec<Vec<String>>) -> (r: Self)
        ensures
            r == (Builder { examples: Some(v), ..self }),
    {
        Builder { examples: Some(v), ..self }
    }

    /// Sets `file`.
    pub fn file(self, v: String) -> (r: Self)
        ensures
            r == (Builder { file: Some(v), ..self }),
    {
        Builder { file: Some(v), ..self }
    }

    /// Sets `labels`.
    pub fn labels(self, v: Vec<String>) -> (r: Self)
        ensures
            r == (Builder { labels: Some(v), ..self }),
    {
        Builder { labels: Some(v), ..self }
    }

    /// Sets `search_model`.
    pub fn search_model(self, v: Model) -> (r: Self)
        ensures
            r == (Builder { search_model: Some(v), ..self }),
    {
        Builder { search_model: Some(v), ..self }
    }

    /// Sets `temperature`.
    pub fn temperature(self, v: Temperature) -> (r: Self)
        ensures
            r == (Builder { temperature: Some(v), ..self }),
    {
        Builder { temperature: Some(v), ..self }
    }

    /// Sets `logprobs`.
    pub fn logprobs(self, v: u8) -> (r: Self)
        ensures
            r == (Builder { logprobs: Some(v), ..self }),
    {
        Builder { logprobs: Some(v), ..self }
    }

    /// Sets `max_examples`.
    pub fn max_examples(self, v: u64) -> (r: Self)
        ensures
            r == (Builder { max_examples: Some(v), ..self }),
    {
        Builder { max_examples: Some(v), ..self }
    }

    /// Sets `logit_bias` from `(token, bias)` entries; a token given more
    /// than once keeps its first place and its last bias.
    pub fn logit_bias(self, entries: Vec<(String, i8)>) -> (r: Self)
        ensures
            r == (Builder { logit_bias: r.logit_bias, ..self }),
            r.logit_bias is Some,
            r.logit_bias->Some_0.deep_view() == bias_from(entries.deep_view()),
            keys_unique(r.logit_bias->Some_0.deep_view()),
    {
        let mut b: Vec<(String, i8)> = Vec::new();
        let ghost es = entries.deep_view();
        let mut i: usize = 0;
        while i < entries.len()
            invariant
                i <= entries.len(),
                es == entries.deep_view(),
                b.deep_view() == bias_from(es.take(i as int)),
                keys_unique(b.deep_view()),
            decreases entries.len() - i,
        {
            proof {
                assert(es.take(i as int + 1).drop_last() =~= es.take(i as int));
            }
            insert_bias(&mut b, entries[i].0.clone(), entries[i].1);
            i = i + 1;
        }
        assert(es.take(entries.len() as int) =~= es);
        Builder { logit_bias: Some(b), ..self }
    }

    /// Sets `return_prompt`.
    pub fn return_prompt(self, v: bool) -> (r: Self)
        ensures
            r == (Builder { return_prompt: Some(v), ..self }),
    {
        Builder { return_prompt: Some(v), ..self }
    }

    /// Sets `return_metadata`.
    pub fn return_metadata(self, v: bool) -> (r: Self)
        ensures
            r == (Builder { return_metadata: Some(v), ..self }),
    {
        Builder { return_metadata: Some(v), ..self }
    }

    /// Sets `expand`.
    pub fn expand(self, v: Vec<String>) -> (r: Self)
        ensures
            r == (Builder { expand: Some(v), ..self }),
    {
        Builder { expand: Some(v), ..self }
    }

    /// Sets `user`.
    pub fn user(self, v: String) -> (r: Self)
        ensures
            r == (Builder { user: Some(v), ..self }),
    {
        Builder { user: Some(v), ..self }
    }
}

/// Whether some member of a body has the key.
pub open spec fn has_member(ms: Seq<(Seq<char>, Seq<char>)>, key: Seq<char>) -> bool {
    exists|i: int| 0 <= i < ms.len() && (#[trigger] ms[i]).0 == key
}

/// Whether the field of `r` under the body key `k` is set; the required
/// fields always are, and no other key names a field.
pub open spec fn key_is_set(r: Request, k: Seq<char>) -> bool {
    k == "model"@ || k == "query"@
        || (k == "examples"@ && r.examples is Some)
        || (k == "file"@ && r.file is Some)
        || (k == "labels"@ && r.labels is Some)
        || (k == "search_model"@ && r.search_model is Some)
        || (k == "temperature"@ && r.temperature is Some)
        || (k == "logprobs"@ && r.logprobs is Some)
        || (k == "max_examples"@ && r.max_examples is Some)
        || (k == "logit_bias"@ && r.logit_bias is Some)
        || (k == "return_prompt"@ && r.return_prompt is Some)
        || (k == "return_metadata"@ && r.return_metadata is Some)
        || (k == "expand"@ && r.expand is Some)
        || (k == "user"@ && r.user is Some)
}

proof fn lemma_append_opt(
    ms: Seq<(Seq<char>, Seq<char>)>,
    key: Seq<char>,
    v: Option<Seq<char>>,
    r: Request,
)
    requires
        forall|i: int| 0 <= i < ms.len() ==> key_is_set(r, (#[trigger] ms[i]).0),
        v is Some ==> key_is_set(r, key),
    ensures
        forall|i: int|
            0 <= i < (ms + opt_member(key, v)).len() ==> key_is_set(
                r,
                (#[trigger] (ms + opt_member(key, v))[i]).0,
            ),
{
    let all = ms + opt_member(key, v);
    assert forall|i: int| 0 <= i < all.len() implies key_is_set(r, (#[trigger] all[i]).0) by {
        if i >= ms.len() {
            assert(all[i] == opt_member(key, v)[i - ms.len()]);
        } else {
            assert(all[i] == ms[i]);
        }
    }
}

/// Every member of a request's body belongs to a field that is set.
pub proof fn lemma_members_of_set_fields(r: Request)
    ensures
        forall|i: int|
            0 <= i < request_members(r).len() ==> key_is_set(r, (#[trigger] request_members(r)[i]).0),
{
    let m0: Seq<(Seq<char>, Seq<char>)> = seq![
        ("model"@, json_str(model_name(r.model))),
        ("query"@, json_str(r.query@)),
    ];
    assert forall|i: int| 0 <= i < m0.len() implies key_is_set(r, (#[trigger] m0[i]).0) by {}
    let m1 = m0 + opt_member("examples"@, examples_value(r));
    lemma_append_opt(m0, "examples"@, examples_value(r), r);
    let m2 = m1 + opt_member("file"@, file_value(r));
    lemma_append_opt(m1, "file"@, file_value(r), r);
    let m3 = m2 + opt_member("labels"@, labels_value(r));
    lemma_append_opt(m2, "labels"@, labels_value(r), r);
    let m4 = m3 + opt_member("search_model"@, search_model_value(r));
    lemma_append_opt(m3, "search_model"@, search_model_value(r), r);
    let m5 = m4 + opt_member("temperature"@, temperature_value(r));
    lemma_append_opt(m4, "temperature"@, temperature_value(r), r);
    let m6 = m5 + opt_member("logprobs"@, logprobs_value(r));
    lemma_append_opt(m5, "logprobs"@, logprobs_value(r), r);
    let m7 = m6 + opt_member("max_examples"@, max_examples_value(r));
    lemma_append_opt(m6, "max_examples"@, max_examples_value(r), r);
    let m8 = m7 + opt_member("logit_bias"@, logit_bias_value(r));
    lemma_append_opt(m7, "logit_bias"@, logit_bias_value(r), r);
    let m9 = m8 + opt_member("return_prompt"@, return_prompt_value(r));
    lemma_append_opt(m8, "return_prompt"@, return_prompt_value(r), r);
    let m10 = m9 + opt_member("return_metadata"@, return_metadata_value(r));
    lemma_append_opt(m9, "return_metadata"@, return_metadata_value(r), r);
    let m11 = m10 + opt_member("expand"@, expand_value(r));
    lemma_append_opt(m10, "expand"@, expand_value(r), r);
    let m12 = m11 + opt_member("user"@, user_value(r));
    lemma_append_opt(m11, "user"@, user_value(r), r);
    assert(request_members(r) =~= m12);
}

/// The key of an optional field that is not set names no field that is set.
proof fn lemma_unset_keys(r: Request)
    ensures
        r.examples is None ==> !key_is_set(r, "examples"@),
        r.file is None ==> !key_is_set(r, "file"@),
        r.labels is None ==> !key_is_set(r, "labels"@),
        r.search_model is None ==> !key_is_set(r, "search_model"@),
        r.temperature is None ==> !key_is_set(r, "temperature"@),
        r.logprobs is None ==> !key_is_set(r, "logprobs"@),
        r.max_examples is None ==> !key_is_set(r, "max_examples"@),
        r.logit_bias is None ==> !key_is_set(r, "logit_bias"@),
        r.return_prompt is None ==> !key_is_set(r, "return_prompt"@),
        r.return_metadata is None ==> !key_is_set(r, "return_metadata"@),
        r.expand is None ==> !key_is_set(r, "expand"@),
        r.user is None ==> !key_is_set(r, "user"@),
{
    reveal_strlit("model");
    reveal_strlit("query");
    reveal_strlit("examples");
    reveal_strlit("file");
    reveal_strlit("labels");
    reveal_strlit("search_model");
    reveal_strlit("temperature");
    reveal_strlit("logprobs");
    reveal_strlit("max_examples");
    reveal_strlit("logit_bias");
    reveal_strlit("return_prompt");
    reveal_strlit("return_metadata");
    reveal_strlit("expand");
    reveal_strlit("user");
    assert("model"@.len() == 5 && "model"@[0] == 'm');
    assert("query"@.len() == 5 && "query"@[0] == 'q');
    assert("examples"@.len() == 8 && "examples"@[0] == 'e');
    assert("file"@.len() == 4 && "file"@[0] == 'f');
    assert("labels"@.len() == 6 && "labels"@[0] == 'l');
    assert("search_model"@.len() == 12 && "search_model"@[0] == 's');
    assert("temperature"@.len() == 11 && "temperature"@[0] == 't');
    assert("logprobs"@.len() == 8 && "logprobs"@[0] == 'l');
    assert("max_examples"@.len() == 12 && "max_examples"@[0] == 'm');
    assert("logit_bias"@.len() == 10 && "logit_bias"@[0] == 'l');
    assert("return_prompt"@.len() == 13 && "return_prompt"@[0] == 'r');
    assert("return_metadata"@.len() == 15 && "return_metadata"@[0] == 'r');
    assert("expand"@.len() == 6 && "expand"@[0] == 'e');
    assert("user"@.len() == 4 && "user"@[0] == 'u');
}

/// An optional field that was left out contributes no key to the body.
pub proof fn lemma_unset_fields_absent(r: Request)
    ensures
        r.examples is None ==> !has_member(request_members(r), "examples"@),
        r.file is None ==> !has_member(request_members(r), "file"@),
        r.labels is None ==> !has_member(request_members(r), "labels"@),
        r.search_model is None ==> !has_member(request_members(r), "search_model"@),
        r.temperature is None ==> !has_member(request_members(r), "temperature"@),
        r.logprobs is None ==> !has_member(request_members(r), "logprobs"@),
        r.max_examples is None ==> !has_member(request_members(r), "max_examples"@),
        r.logit_bias is None ==> !has_member(request_members(r), "logit_bias"@),
        r.return_prompt is None ==> !has_member(request_members(r), "return_prompt"@),
        r.return_metadata is None ==> !has_member(request_members(r), "return_metadata"@),
        r.expand is None ==> !has_member(request_members(r), "expand"@),
        r.user is None ==> !has_member(request_members(r), "user"@),
{
    lemma_members_of_set_fields(r);
    lemma_unset_keys(r);
}

/// A builder yields a request exactly when both required fields are set;
/// otherwise it names the first one missing, `model` before `query`.
pub proof fn lemma_build_needs_required(b: Builder)
    ensures
        build_result(b) is Ok <==> (b.model is Some && b.query is Some),
        b.model is None ==> build_result(b) == Err::<Request, BuildError>(BuildError::MissingModel),
        b.model is Some && b.query is None ==> build_result(b) == Err::<Request, BuildError>(
            BuildError::MissingQuery,
        ),
{
}

/// A response to a [`Request`].
pub struct Response {
    /// The id of the completion that produced the label.
    pub completion: String,
    /// The chosen label.
    pub label: String,
    /// The engine that produced the label.
    pub model: String,
    /// The kind of object.
    pub object: String,
    /// The engine used for the search.
    pub search_model: String,
    /// The examples used to judge the query.
    pub selected_examples: Vec<SelectedExample>,
}

/// An example that the search selected.
pub struct SelectedExample {
    /// The document the example is in.
    pub document: usize,
    /// The label of the example.
    pub label: String,
    /// The text of the example.
    pub text: String,
    /// The most likely tokens.
    pub logpropbs: Option<LogProbs>,
}

/// Log probabilities of tokens. Each probability is kept as the decimal
/// text that the service sent.
pub struct LogProbs {
    pub tokens: Vec<String>,
    pub token_logprobs: Vec<String>,
    pub text_offset: Vec<usize>,
}

impl Action for Request {
    type Response = Response;

    open spec fn spec_url(&self, base: Seq<char>) -> Seq<char> {
        base + "/classifications"@
    }

    open spec fn spec_method(&self) -> Method {
        Method::Post
    }

    open spec fn spec_body(&self) -> Option<Seq<char>> {
        Some(object_text(request_members(*self)))
    }

    fn url(&self, base: &str) -> (r: String) {
        String::from_str(base).concat("/classifications")
    }

    fn method(&self) -> (r: Method) {
        Method::Post
    }

    fn request_body(&self) -> (r: Option<String>) {
        Some(self.body())
    }
}

} // verus!
