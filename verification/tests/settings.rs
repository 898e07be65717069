use disyn::config::Config;
use disyn::error::Error;
use disyn::telemetry::TracingSink;
use disyn::text::{i64_text, join_texts, u64_text};

fn config(provider: &str, key: &str) -> Config {
    Config {
        provider: provider.into(),
        api_key: key.into(),
        model: "gpt-4o".into(),
        max_tokens: 10_000,
        step_timeout_secs: 30,
    }
}

#[test]
fn openai_without_key_is_refused() {
    match config("openai", "").validate() {
        Err(Error::Other(m)) => assert_eq!(m, "OPENAI_API_KEY must be set when provider is 'openai'"),
        _ => panic!("expected a configuration error"),
    }
}

#[test]
fn other_setups_are_accepted() {
    assert!(config("openai", "sk-x").validate().is_ok());
    assert!(config("ollama", "").validate().is_ok());
    assert!(config("OpenAI", "").validate().is_ok());
}

#[test]
fn numbers_render_in_decimal() {
    assert_eq!(u64_text(0), "0");
    assert_eq!(u64_text(1234567890), "1234567890");
    assert_eq!(u64_text(u64::MAX), u64::MAX.to_string());
    assert_eq!(i64_text(-42), "-42");
    assert_eq!(i64_text(i64::MIN), i64::MIN.to_string());
}

#[test]
fn texts_join_with_separators() {
    assert_eq!(join_texts(&vec![], ", "), "");
    assert_eq!(join_texts(&vec!["a".to_string()], ", "), "a");
    assert_eq!(join_texts(&vec!["a".to_string(), "b".to_string(), "c".to_string()], ", "), "a, b, c");
}

#[test]
fn tracing_sink_is_stateless() {
    let _ = TracingSink::init();
    let _ = TracingSink::default();
}
