//! Turning a request body into the token IDs that routing works on.
//!
//! A tokenizer says what is to be done next; whoever drives it does that and hands the
//! answer to [`continue_tokenizing`], until the tokens are there. The routing core thus
//! stays free of any particular tokenizer.
use std::sync::Arc;
use vstd::prelude::*;
#[allow(unused_imports)]
use vstd::utf8::encode_utf8;

verus! {

/// What is to be done next to tokenize a request.
pub enum TokenizeStep {
    /// Read this body as a chat completion request.
    ReadRequest { body: String },
    /// Apply the model's chat template to the request that was read from this body.
    ApplyTemplate { body: String },
    /// Tokenize this text.
    Encode { text: String },
    /// Nothing: these are the tokens, or the reason why there are none.
    Done(Result<Vec<u32>, String>),
}

/// What came of a step.
pub enum TokenizeAnswer {
    /// The body was read, or why it is no chat completion request.
    Read(Result<(), String>),
    /// The formatted prompt, if the model has a template, or why it could not be made.
    Formatted(Result<Option<String>, String>),
    /// The tokens of the text, or why there are none.
    Encoded(Result<Vec<u32>, String>),
}

/// The step as a mathematical value.
pub enum TokenizeStepView {
    ReadRequest { body: Seq<char> },
    ApplyTemplate { body: Seq<char> },
    Encode { text: Seq<char> },
    Done(Result<Seq<u32>, Seq<char>>),
}

/// The tokens of a tokenization, or its error, as mathematical values.
pub open spec fn tokens_view(r: Result<Vec<u32>, String>) -> Result<Seq<u32>, Seq<char>> {
    match r {
        Ok(tokens) => Ok(tokens@),
        Err(e) => Err(e@),
    }
}

impl View for TokenizeStep {
    type V = TokenizeStepView;

    open spec fn view(&self) -> TokenizeStepView {
        match *self {
            TokenizeStep::ReadRequest { body } => TokenizeStepView::ReadRequest { body: body@ },
            TokenizeStep::ApplyTemplate { body } => TokenizeStepView::ApplyTemplate { body: body@ },
            TokenizeStep::Encode { text } => TokenizeStepView::Encode { text: text@ },
            TokenizeStep::Done(r) => TokenizeStepView::Done(tokens_view(r)),
        }
    }
}

/// The step that follows an answer. The template is applied to the body that was read. A
/// model without a template has the empty prompt; an error ends the tokenization. An answer
/// to another step changes nothing.
pub open spec fn step_after(step: TokenizeStepView, answer: TokenizeAnswer) -> TokenizeStepView {
    match (step, answer) {
        (TokenizeStepView::ReadRequest { body }, TokenizeAnswer::Read(read)) => match read {
            Ok(()) => TokenizeStepView::ApplyTemplate { body },
            Err(e) => TokenizeStepView::Done(Err(e@)),
        },
        (TokenizeStepView::ApplyTemplate { .. }, TokenizeAnswer::Formatted(formatted)) => match formatted {
            Ok(Some(prompt)) => TokenizeStepView::Encode { text: prompt@ },
            Ok(None) => TokenizeStepView::Encode { text: Seq::empty() },
            Err(e) => TokenizeStepView::Done(Err(e@)),
        },
        (TokenizeStepView::Encode { .. }, TokenizeAnswer::Encoded(encoded)) => TokenizeStepView::Done(
            tokens_view(encoded),
        ),
        _ => step,
    }
}

/// Says what follows an answer.
pub fn continue_tokenizing(step: TokenizeStep, answer: TokenizeAnswer) -> (next: TokenizeStep)
    ensures
        next@ == step_after(step@, answer),
{
    match (step, answer) {
        (TokenizeStep::ReadRequest { body }, TokenizeAnswer::Read(read)) => match read {
            Ok(()) => TokenizeStep::ApplyTemplate { body },
            Err(e) => TokenizeStep::Done(Err(e)),
        },
        (TokenizeStep::ApplyTemplate { .. }, TokenizeAnswer::Formatted(formatted)) => match formatted {
            Ok(Some(prompt)) => TokenizeStep::Encode { text: prompt },
            Ok(None) => TokenizeStep::Encode { text: String::new() },
            Err(e) => TokenizeStep::Done(Err(e)),
        },
        (TokenizeStep::Encode { .. }, TokenizeAnswer::Encoded(encoded)) => TokenizeStep::Done(encoded),
        (step, _) => step,
    }
}

/// Tokenizes request bodies for prefix matching and load projection. Each front end may
/// bring its own.
pub trait RequestTokenizer: Send + Sync {
    /// The first step of tokenizing a body.
    fn tokenize_for_routing(&self, body: &str) -> (first: TokenizeStep);
}

/// Exact tokenization by the model's own preprocessor: the body is read as a chat completion
/// request, the chat template is applied to it, then the formatted prompt is tokenized.
pub struct PreprocessorTokenizer<P> {
    pub preprocessor: Arc<P>,
}

impl<P> PreprocessorTokenizer<P> {
    pub fn new(preprocessor: Arc<P>) -> (tokenizer: Self)
        ensures
            tokenizer.preprocessor == preprocessor,
    {
        Self { preprocessor }
    }
}

impl<P: Send + Sync> RequestTokenizer for PreprocessorTokenizer<P> {
    fn tokenize_for_routing(&self, body: &str) -> (first: TokenizeStep)
        ensures
            first@ == (TokenizeStepView::ReadRequest { body: body@ }),
    {
        TokenizeStep::ReadRequest { body: body.to_owned() }
    }
}

/// A placeholder for load-aware routing: nothing is tokenized, the tokens only reflect the
/// size of the request.
pub struct LoadPlaceholderTokenizer;

/// How many bytes of a body count as one token.
pub const AVG_CHARS_PER_TOKEN: usize = 4;

/// The number of placeholder tokens of a body: one for every four bytes of it, but at
/// least one.
pub open spec fn placeholder_count(body: Seq<char>) -> nat {
    let n = encode_utf8(body).len() / AVG_CHARS_PER_TOKEN as nat;
    if n < 1 { 1 } else { n }
}

/// The placeholder tokens of a body.
pub open spec fn placeholder_tokens(body: Seq<char>) -> Seq<u32> {
    Seq::new(placeholder_count(body), |i: int| 0u32)
}

impl RequestTokenizer for LoadPlaceholderTokenizer {
    fn tokenize_for_routing(&self, body: &str) -> (first: TokenizeStep)
        ensures
            first@ == TokenizeStepView::Done(Ok(placeholder_tokens(body@))),
    {
        let n = body.as_bytes().len() / AVG_CHARS_PER_TOKEN;
        let count = if n < 1 { 1 } else { n };
        let tokens = vec![0u32; count];
        assert(tokens@ =~= placeholder_tokens(body@));
        TokenizeStep::Done(Ok(tokens))
    }
}

/// The scheduler always sees an input of positive length: no body has an empty
/// placeholder.
pub proof fn law_placeholder_is_never_empty(body: Seq<char>)
    ensures
        placeholder_tokens(body).len() > 0,
{
}

/// What exact tokenization comes to when reading the body comes to `read` and the
/// preprocessor answers `formatted` and `encoded`, where it is asked to: the first error is
/// the result, or else the tokens are.
pub open spec fn exact_tokens(
    read: Result<(), String>,
    formatted: Result<Option<String>, String>,
    encoded: Result<Vec<u32>, String>,
) -> Result<Seq<u32>, Seq<char>> {
    match (read, formatted) {
        (Ok(()), Ok(_)) => tokens_view(encoded),
        (Ok(()), Err(e)) => Err(e@),
        (Err(e), _) => Err(e@),
    }
}

/// Exact tokenization reads the body, then applies the template, then calls the tokenizer,
/// each once. The template is not applied to a body that cannot be read, and nothing is
/// tokenized where the template failed. The tokenizer gets the formatted prompt or, without
/// a template, the empty text.
pub proof fn law_template_then_tokens(
    body: Seq<char>,
    read: Result<(), String>,
    formatted: Result<Option<String>, String>,
    encoded: Result<Vec<u32>, String>,
)
    ensures
        ({
            let first = TokenizeStepView::ReadRequest { body };
            let second = step_after(first, TokenizeAnswer::Read(read));
            let third = step_after(second, TokenizeAnswer::Formatted(formatted));
            let last = step_after(third, TokenizeAnswer::Encoded(encoded));
            let done = TokenizeStepView::Done(exact_tokens(read, formatted, encoded));
            &&& read is Ok ==> second == (TokenizeStepView::ApplyTemplate { body })
            &&& read is Err ==> second == done && third == done
            &&& read is Ok && formatted is Ok ==> third == (TokenizeStepView::Encode {
                text: match formatted->Ok_0 {
                    Some(prompt) => prompt@,
                    None => Seq::empty(),
                },
            })
            &&& read is Ok && formatted is Err ==> third == done
            &&& last == done
        }),
{
}

} // verus!
