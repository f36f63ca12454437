use openai_api::model::Model;
use openai_api::OPENAI_URL;

#[test]
fn ada_url_keeps_its_trailing_slash() {
    assert_eq!(
        Model::Ada.url("completions"),
        "https://api.openai.com/v1/engines/text-ada-001/completions"
    );
}

#[test]
fn each_model_maps_to_its_engine() {
    assert_eq!(Model::Babbage.url(""), "https://api.openai.com/v1/engines/text-babbage-001");
    assert_eq!(Model::Curie.url("/x"), "https://api.openai.com/v1/engines/text-curie-001/x");
    assert_eq!(
        Model::Davinci.url("/completions"),
        "https://api.openai.com/v1/engines/text-davinci-002/completions"
    );
}

#[test]
fn engine_urls_do_not_overlap() {
    let all = [Model::Ada, Model::Babbage, Model::Curie, Model::Davinci];
    for a in all.iter() {
        for b in all.iter() {
            if a != b {
                let ua = a.url("");
                let ub = b.url("");
                assert!(!ub.starts_with(&ua));
            }
        }
    }
    assert!(Model::Ada.url("").starts_with(OPENAI_URL));
}

#[test]
fn model_names_are_lower_case() {
    assert_eq!(Model::Ada.name(), "ada");
    assert_eq!(Model::Babbage.name(), "babbage");
    assert_eq!(Model::Curie.name(), "curie");
    assert_eq!(Model::Davinci.name(), "davinci");
}
