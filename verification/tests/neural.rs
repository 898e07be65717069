use disyn::error::Error;
use disyn::json::{Json, JsonItems, JsonMembers};
use disyn::neural::{
    steps_from_draws, chat_request, content_text, extract_content, extraction_prompt, facts_from_content, facts_from_reply,
    memory_section, parse_plan_draft, plan_draft_from_content, proposal_prompt,
    OllamaFactExtractor, OpenAiConfig, OpenAiFactExtractor, OpenAiProposalEngine,
};
use disyn::types::CostClass;

fn text(s: &str) -> Json {
    Json::Str(s.to_string())
}

fn array(items: Vec<Json>) -> Json {
    let mut list = JsonItems::End;
    for item in items.into_iter().rev() {
        list = JsonItems::Item(Box::new(item), Box::new(list));
    }
    Json::Array(list)
}

fn object(members: Vec<(&str, Json)>) -> Json {
    let mut list = JsonMembers::End;
    for (k, v) in members.into_iter().rev() {
        list = JsonMembers::Member(k.to_string(), Box::new(v), Box::new(list));
    }
    Json::Object(list)
}

fn reply(content: Json) -> Json {
    object(vec![("choices", array(vec![object(vec![("message", object(vec![("content", content)]))])]))])
}

#[test]
fn openai_extractor_requires_api_key() {
    let config = OpenAiConfig {
        api_key: String::new(),
        model: "gpt-4o".into(),
        base_url: "https://api.openai.com/v1".into(),
    };
    let result = OpenAiFactExtractor::new(config);
    assert!(result.is_err());
}

#[test]
fn openai_engine_reports_the_missing_key() {
    let config = OpenAiConfig { api_key: String::new(), model: "m".into(), base_url: "u".into() };
    match OpenAiProposalEngine::new(config) {
        Err(Error::Inference(m)) => assert_eq!(m, "OPENAI_API_KEY not set"),
        _ => panic!("expected an inference error"),
    }
}

#[test]
fn clients_keep_their_configuration() {
    let config = OpenAiConfig { api_key: "k".into(), model: "llama3".into(), base_url: "http://localhost:11434/v1".into() };
    let ollama = OllamaFactExtractor::new(config.clone()).ok().unwrap();
    assert_eq!(ollama.client().config().model, "llama3");
    let openai = OpenAiFactExtractor::new(config).ok().unwrap();
    assert_eq!(openai.client().config().base_url, "http://localhost:11434/v1");
}

#[test]
fn content_is_read_from_the_first_choice() {
    let data = reply(text("{\"entities\":[]}"));
    assert_eq!(content_text(&data).ok().unwrap(), "{\"entities\":[]}");
}

#[test]
fn missing_content_is_an_inference_error() {
    for data in [
        object(vec![]),
        object(vec![("choices", array(vec![]))]),
        object(vec![("choices", text("x"))]),
        reply(Json::Number("3".into())),
    ] {
        match content_text(&data) {
            Err(Error::Inference(m)) => assert_eq!(m, "LLM response missing content field"),
            _ => panic!("expected an inference error"),
        }
    }
}

#[test]
fn entities_keep_only_strings() {
    let parsed = object(vec![("entities", array(vec![text("alice"), Json::Number("1".into()), text("bob")]))]);
    let facts = facts_from_content(&parsed);
    assert_eq!(facts.entities, vec!["alice".to_string(), "bob".to_string()]);
    assert!(facts.relations.is_empty());
    assert!(facts_from_content(&object(vec![])).entities.is_empty());
}

#[test]
fn plan_steps_take_defaults_and_fresh_keys() {
    let parsed = object(vec![
        (
            "steps",
            array(vec![
                object(vec![("action", text("echo hi")), ("parameters", object(vec![("n", Json::Number("2".into()))]))]),
                object(vec![("action", Json::Bool(true))]),
            ]),
        ),
        ("rationale", text("because")),
    ]);
    let draft = plan_draft_from_content(&parsed).ok().unwrap();
    assert_eq!(draft.steps.len(), 2);
    assert_eq!(draft.steps[0].action, "echo hi");
    assert!(matches!(draft.steps[0].parameters, Json::Object(_)));
    assert_eq!(draft.steps[1].action, "unknown");
    assert!(matches!(draft.steps[1].parameters, Json::Null));
    assert_eq!(draft.steps[0].estimated_cost.class, Some(CostClass::Neural));
    assert_eq!(draft.steps[0].estimated_cost.input_tokens, 0);
    assert_ne!(draft.steps[0].idempotency_key, draft.steps[1].idempotency_key);
    for step in &draft.steps {
        assert_eq!((step.idempotency_key >> 76) & 0xf, 4);
        assert_eq!((step.idempotency_key >> 62) & 0x3, 2);
    }
    assert_eq!(draft.rationale, "because");
    let bare = plan_draft_from_content(&object(vec![])).ok().unwrap();
    assert!(bare.steps.is_empty());
    assert_eq!(bare.rationale, "LLM-generated plan");
}

#[test]
fn prompts_render_entities_and_context() {
    assert_eq!(extraction_prompt("{\"q\":1}"), "Extract entities and relations from: {\"q\":1}");
    let entities = vec!["a".to_string(), "b\"c".to_string()];
    assert_eq!(
        proposal_prompt(&entities, &Some("seen before".into())),
        "Given these facts, propose a plan: [\"a\", \"b\\\"c\"]\n\nPrior context:\nseen before"
    );
    assert_eq!(proposal_prompt(&vec![], &Some(String::new())), "Given these facts, propose a plan: []");
    assert_eq!(memory_section(&None), "");
}

#[test]
fn reply_content_is_parsed_as_json() {
    let data = reply(text("{\"rationale\":\"why\",\"steps\":[{\"action\":\"ls\",\"parameters\":{\"n\":2}},{}]}"));
    let doc = extract_content(&data).ok().unwrap();
    match &doc {
        Json::Object(_) => {}
        _ => panic!("expected an object"),
    }
    let draft = parse_plan_draft(&data).ok().unwrap();
    assert_eq!(draft.steps.len(), 2);
    assert_eq!(draft.steps[0].action, "ls");
    match &draft.steps[0].parameters {
        Json::Object(JsonMembers::Member(name, value, _)) => {
            assert_eq!(name, "n");
            assert!(matches!(&**value, Json::Number(n) if n == "2"));
        }
        _ => panic!("expected the parameters object"),
    }
    assert_eq!(draft.steps[1].action, "unknown");
    assert!(matches!(draft.steps[1].parameters, Json::Null));
    assert_eq!(draft.rationale, "why");
}

#[test]
fn reply_entities_are_extracted() {
    let data = reply(text("{\"entities\":[\"db\",7,\"cache\"]}"));
    let facts = facts_from_reply(&data).ok().unwrap();
    assert_eq!(facts.entities, vec!["db".to_string(), "cache".to_string()]);
    assert!(facts.relations.is_empty());
}

#[test]
fn invalid_content_json_is_an_inference_error() {
    let data = reply(text("not json"));
    for result in [extract_content(&data).err(), parse_plan_draft(&data).err(), facts_from_reply(&data).err()] {
        match result {
            Some(Error::Inference(m)) => {
                assert!(m.starts_with("LLM response is not valid JSON: "));
                assert!(m.len() > "LLM response is not valid JSON: ".len());
            }
            _ => panic!("expected an inference error"),
        }
    }
    match parse_plan_draft(&object(vec![])) {
        Err(Error::Inference(m)) => assert_eq!(m, "LLM response missing content field"),
        _ => panic!("expected an inference error"),
    }
}

#[test]
fn chat_requests_carry_the_model_and_prompt() {
    let body = chat_request("gpt-4o", "hello");
    assert!(matches!(body.field("model"), Some(Json::Str(m)) if m == "gpt-4o"));
    let messages = body.field("messages").unwrap().as_items().unwrap();
    let first = messages.get(0).unwrap();
    assert!(matches!(first.field("role"), Some(Json::Str(r)) if r == "user"));
    assert!(matches!(first.field("content"), Some(Json::Str(c)) if c == "hello"));
    assert!(messages.get(1).is_none());
    let format = body.field("response_format").unwrap();
    assert!(matches!(format.field("type"), Some(Json::Str(t)) if t == "json_object"));
}

#[test]
fn step_keys_are_made_from_the_drawn_bytes() {
    let items = match array(vec![object(vec![("action", text("a"))]), object(vec![])]) {
        Json::Array(items) => items,
        _ => unreachable!(),
    };
    let steps = steps_from_draws(&items, &vec![[0u8; 16], [0xffu8; 16]]);
    assert_eq!(steps.len(), 2);
    assert_eq!(steps[0].idempotency_key, 0x0000_0000_0000_4000_8000_0000_0000_0000);
    assert_eq!(steps[1].idempotency_key, 0xffff_ffff_ffff_4fff_bfff_ffff_ffff_ffff);
    assert_eq!(steps[0].action, "a");
    assert_eq!(steps[1].action, "unknown");
}

#[test]
fn client_failures_and_missing_keys_are_told_apart() {
    let config = OpenAiConfig { api_key: "k".into(), model: "m".into(), base_url: "u".into() };
    match OpenAiFactExtractor::new(config) {
        Ok(_) => {}
        Err(Error::Inference(m)) => assert!(m.starts_with("HTTP client could not be built: ")),
        Err(_) => panic!("expected an inference error"),
    }
}
