use openai_api::classifications::{BuildError, Builder, Request, Temperature};
use openai_api::model::Model;

fn s(x: &str) -> String {
    String::from(x)
}

fn required_only() -> Request {
    Builder::default().model(Model::Curie).query(s("It is a rainy day :(")).build().unwrap()
}

fn everything() -> Request {
    Builder::new()
        .model(Model::Curie)
        .search_model(Model::Ada)
        .query(s("It is a rainy day :("))
        .examples(vec![
            vec![s("A happy moment"), s("Positive")],
            vec![s("I am sad."), s("Negative")],
        ])
        .file(s("file-1"))
        .labels(vec![s("Positive"), s("Negative"), s("Neutral")])
        .temperature(Temperature { thousandths: 900 })
        .logprobs(5)
        .max_examples(10)
        .logit_bias(vec![(s("50256"), -100)])
        .return_prompt(true)
        .return_metadata(false)
        .expand(vec![s("completion")])
        .user(s("u1"))
        .build()
        .unwrap()
}

#[test]
fn required_fields_only_body() {
    assert_eq!(required_only().body(), "{\"model\":\"curie\",\"query\":\"It is a rainy day :(\"}");
}

#[test]
fn unset_optional_fields_are_absent() {
    let body = required_only().body();
    for key in [
        "examples", "file", "labels", "search_model", "temperature", "logprobs",
        "max_examples", "logit_bias", "return_prompt", "return_metadata", "expand", "user",
    ] {
        assert!(!body.contains(&format!("\"{}\"", key)));
    }
    let members = required_only().members();
    assert_eq!(members.len(), 2);
}

#[test]
fn every_field_set_body() {
    let expected = "{\"model\":\"curie\",\"query\":\"It is a rainy day :(\",\
        \"examples\":[[\"A happy moment\",\"Positive\"],[\"I am sad.\",\"Negative\"]],\
        \"file\":\"file-1\",\"labels\":[\"Positive\",\"Negative\",\"Neutral\"],\
        \"search_model\":\"ada\",\"temperature\":0.900,\"logprobs\":5,\"max_examples\":10,\
        \"logit_bias\":{\"50256\":-100},\"return_prompt\":true,\"return_metadata\":false,\
        \"expand\":[\"completion\"],\"user\":\"u1\"}";
    assert_eq!(everything().body(), expected);
}

#[test]
fn body_is_valid_json() {
    let v: serde_json::Value = serde_json::from_str(&everything().body()).unwrap();
    assert_eq!(v["temperature"].as_f64(), Some(0.9));
    assert_eq!(v["logit_bias"]["50256"].as_i64(), Some(-100));
    assert_eq!(v["query"].as_str(), Some("It is a rainy day :("));
}

#[test]
fn one_optional_field_set() {
    let r = Builder::new().model(Model::Ada).query(s("q")).user(s("me")).build().unwrap();
    assert_eq!(r.body(), "{\"model\":\"ada\",\"query\":\"q\",\"user\":\"me\"}");
}

#[test]
fn missing_model_fails() {
    let r = Builder::new().query(s("q")).build();
    assert!(matches!(r, Err(BuildError::MissingModel)));
    assert_eq!(BuildError::MissingModel.field(), "model");
}

#[test]
fn missing_query_fails() {
    let r = Builder::new().model(Model::Davinci).labels(vec![s("A")]).build();
    assert!(matches!(r, Err(BuildError::MissingQuery)));
    assert_eq!(BuildError::MissingQuery.field(), "query");
}

#[test]
fn missing_both_names_model_first() {
    assert!(matches!(Builder::default().build(), Err(BuildError::MissingModel)));
}

#[test]
fn repeated_bias_token_keeps_last_value() {
    let r = Builder::new()
        .model(Model::Babbage)
        .query(s("q"))
        .logit_bias(vec![(s("1"), 1), (s("2"), 2), (s("1"), -3)])
        .build()
        .unwrap();
    assert_eq!(
        r.body(),
        "{\"model\":\"babbage\",\"query\":\"q\",\"logit_bias\":{\"1\":-3,\"2\":2}}"
    );
}

#[test]
fn empty_lists_are_still_sent() {
    let r = Builder::new()
        .model(Model::Ada)
        .query(s(""))
        .labels(Vec::new())
        .examples(Vec::new())
        .build()
        .unwrap();
    assert_eq!(r.body(), "{\"model\":\"ada\",\"query\":\"\",\"examples\":[],\"labels\":[]}");
}
