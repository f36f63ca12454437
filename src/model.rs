//! The closed set of engines that a request can target.
use vstd::prelude::*;

use crate::OPENAI_URL;

verus! {

/// An engine of the remote service.
#[derive(Debug, Clone, Copy, PartialEq, Eq, Structural)]
pub enum Model {
    Ada,
    Babbage,
    Curie,
    Davinci,
}

/// The path fragment, under the base address, of an engine.
pub open spec fn engine_path(m: Model) -> Seq<char> {
    match m {
        Model::Ada => "/engines/text-ada-001/"@,
        Model::Babbage => "/engines/text-babbage-001"@,
        Model::Curie => "/engines/text-curie-001"@,
        Model::Davinci => "/engines/text-davinci-002"@,
    }
}

/// The lower-case name under which an engine travels in a request body.
pub open spec fn model_name(m: Model) -> Seq<char> {
    match m {
        Model::Ada => "ada"@,
        Model::Babbage => "babbage"@,
        Model::Curie => "curie"@,
        Model::Davinci => "davinci"@,
    }
}

impl Model {
    /// The absolute address of this engine, followed by `action`.
    pub fn url(&self, action: &str) -> (r: String)
        ensures
            r@ == OPENAI_URL@ + engine_path(*self) + action@,
    {
        let base = String::from_str(OPENAI_URL);
        let with_engine = match self {
            Model::Ada => base.concat("/engines/text-ada-001/"),
            Model::Babbage => base.concat("/engines/text-babbage-001"),
            Model::Curie => base.concat("/engines/text-curie-001"),
            Model::Davinci => base.concat("/engines/text-davinci-002"),
        };
        with_engine.concat(action)
    }

    /// The name of this engine in a request body.
    pub fn name(&self) -> (r: &'static str)
        ensures
            r@ == model_name(*self),
    {
        match self {
            Model::Ada => "ada",
            Model::Babbage => "babbage",
            Model::Curie => "curie",
            Model::Davinci => "davinci",
        }
    }
}

/// Distinct engines resolve to distinct addresses, and no engine's address
/// is a prefix of another's.
pub proof fn lemma_engine_urls_distinct(a: Model, b: Model)
    requires
        a != b,
    ensures
        engine_path(a) != engine_path(b),
        !(engine_path(a).len() <= engine_path(b).len() && engine_path(b).subrange(
            0,
            engine_path(a).len() as int,
        ) == engine_path(a)),
{
    reveal_strlit("/engines/text-ada-001/");
    reveal_strlit("/engines/text-babbage-001");
    reveal_strlit("/engines/text-curie-001");
    reveal_strlit("/engines/text-davinci-002");
    let pa = engine_path(a);
    let pb = engine_path(b);
    assert(pa[14] != pb[14] || pa[15] != pb[15]);
    assert(pa.len() > 15 && pb.len() > 15);
    if pa.len() <= pb.len() && pb.subrange(0, pa.len() as int) == pa {
        assert(pb.subrange(0, pa.len() as int)[14] == pb[14]);
        assert(pb.subrange(0, pa.len() as int)[15] == pb[15]);
    }
}

} // verus!
