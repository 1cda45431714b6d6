use standalone_router::tokenizer::{
    continue_tokenizing, LoadPlaceholderTokenizer, PreprocessorTokenizer, RequestTokenizer, TokenizeAnswer,
    TokenizeStep,
};
use std::sync::Arc;

fn read() -> TokenizeStep {
    TokenizeStep::ReadRequest { body: "{}".to_string() }
}

fn template() -> TokenizeStep {
    TokenizeStep::ApplyTemplate { body: "{}".to_string() }
}

fn encode() -> TokenizeStep {
    TokenizeStep::Encode { text: "hi".to_string() }
}

fn placeholder(body: &str) -> Vec<u32> {
    match LoadPlaceholderTokenizer.tokenize_for_routing(body) {
        TokenizeStep::Done(Ok(tokens)) => tokens,
        _ => panic!("the placeholder is done at once"),
    }
}

#[test]
fn placeholder_is_sized_to_the_request() {
    assert_eq!(placeholder(""), vec![0u32]);
    assert_eq!(placeholder("abc"), vec![0u32]);
    assert_eq!(placeholder("abcdefgh"), vec![0u32, 0]);
    assert_eq!(placeholder("abcdefghijk"), vec![0u32, 0]);
    // The size is counted in bytes.
    assert_eq!(placeholder("\u{20ac}\u{20ac}\u{20ac}\u{20ac}").len(), 3);
}

#[test]
fn preprocessor_applies_template_then_tokenizes() {
    let shared = Arc::new(7u8);
    let tokenizer = PreprocessorTokenizer::new(shared.clone());
    assert!(Arc::ptr_eq(&tokenizer.preprocessor, &shared));
    match tokenizer.tokenize_for_routing("{\"messages\":[]}") {
        TokenizeStep::ReadRequest { body } => assert_eq!(body, "{\"messages\":[]}"),
        _ => panic!("the body is read first"),
    }
    match continue_tokenizing(read(), TokenizeAnswer::Read(Ok(()))) {
        TokenizeStep::ApplyTemplate { body } => assert_eq!(body, "{}"),
        _ => panic!("the template comes next"),
    }
    match continue_tokenizing(template(), TokenizeAnswer::Formatted(Ok(Some("<user>hi".to_string())))) {
        TokenizeStep::Encode { text } => assert_eq!(text, "<user>hi"),
        _ => panic!("the prompt is tokenized"),
    }
    match continue_tokenizing(encode(), TokenizeAnswer::Encoded(Ok(vec![3, 1, 4]))) {
        TokenizeStep::Done(tokens) => assert_eq!(tokens, Ok(vec![3, 1, 4])),
        _ => panic!("the tokens end it"),
    }
}

#[test]
fn model_without_template_has_empty_prompt() {
    match continue_tokenizing(template(), TokenizeAnswer::Formatted(Ok(None))) {
        TokenizeStep::Encode { text } => assert_eq!(text, ""),
        _ => panic!("the empty prompt is tokenized"),
    }
}

#[test]
fn errors_end_tokenization() {
    match continue_tokenizing(read(), TokenizeAnswer::Read(Err("no messages".to_string()))) {
        TokenizeStep::Done(tokens) => assert_eq!(tokens, Err("no messages".to_string())),
        _ => panic!("the template is not applied to a body that cannot be read"),
    }
    match continue_tokenizing(template(), TokenizeAnswer::Formatted(Err("bad request".to_string()))) {
        TokenizeStep::Done(tokens) => assert_eq!(tokens, Err("bad request".to_string())),
        _ => panic!("an error ends it"),
    }
    match continue_tokenizing(encode(), TokenizeAnswer::Encoded(Err("no vocabulary".to_string()))) {
        TokenizeStep::Done(tokens) => assert_eq!(tokens, Err("no vocabulary".to_string())),
        _ => panic!("an error ends it"),
    }
}

#[test]
fn answers_to_other_steps_change_nothing() {
    let step = continue_tokenizing(read(), TokenizeAnswer::Formatted(Ok(None)));
    assert!(matches!(step, TokenizeStep::ReadRequest { body } if body == "{}"));
    let step = continue_tokenizing(template(), TokenizeAnswer::Encoded(Ok(vec![1])));
    assert!(matches!(step, TokenizeStep::ApplyTemplate { body } if body == "{}"));
    let step = continue_tokenizing(encode(), TokenizeAnswer::Formatted(Ok(None)));
    assert!(matches!(step, TokenizeStep::Encode { text } if text == "hi"));
}
