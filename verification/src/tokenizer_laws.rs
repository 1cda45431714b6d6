//! What the tokenizers ask for and what becomes of the answers, in terms of the request body
//! and the answers.
#[allow(unused_imports)]
use crate::tokenizer::{
    continue_tokenizing, LoadPlaceholderTokenizer, PreprocessorTokenizer, RequestTokenizer, TokenizeAnswer,
    TokenizeStep,
};
use std::sync::Arc;
use vstd::prelude::*;
#[allow(unused_imports)]
use vstd::utf8::encode_utf8;

verus! {

/// A tokenizer works with the preprocessor that it was made with.
pub proof fn law_preprocessor_is_kept<P>(preprocessor: Arc<P>, tokenizer: PreprocessorTokenizer<P>)
    requires
        call_ensures(PreprocessorTokenizer::<P>::new, (preprocessor,), tokenizer),
    ensures
        tokenizer.preprocessor == preprocessor,
{
}

/// Exact tokenization starts with reading the body, the whole of it and as it is.
pub proof fn law_exact_tokenization_starts_with_the_body<P: Send + Sync>(
    tokenizer: PreprocessorTokenizer<P>,
    body: &str,
    first: TokenizeStep,
)
    requires
        call_ensures(PreprocessorTokenizer::<P>::tokenize_for_routing, (&tokenizer, body), first),
    ensures
        first matches TokenizeStep::ReadRequest { body: read } && read@ == body@,
{
}

/// The placeholder tokens of a body are zeros, one for each four whole bytes of it, and one
/// for a body of fewer.
pub proof fn law_placeholder_reflects_the_size(body: &str, first: TokenizeStep)
    requires
        call_ensures(
            LoadPlaceholderTokenizer::tokenize_for_routing,
            (&LoadPlaceholderTokenizer, body),
            first,
        ),
    ensures
        ({
            let size = encode_utf8(body@).len();
            &&& first matches TokenizeStep::Done(Ok(tokens))
            &&& size < 8 ==> tokens@.len() == 1
            &&& size >= 4 ==> 4 * tokens@.len() <= size < 4 * tokens@.len() + 4
            &&& forall|i: int| 0 <= i < tokens@.len() ==> #[trigger] tokens@[i] == 0
        }),
{
}

/// A longer body never has fewer placeholder tokens, and four bytes more give one more.
pub proof fn law_placeholder_grows_with_the_size(
    short: &str,
    long: &str,
    short_first: TokenizeStep,
    long_first: TokenizeStep,
)
    requires
        call_ensures(
            LoadPlaceholderTokenizer::tokenize_for_routing,
            (&LoadPlaceholderTokenizer, short),
            short_first,
        ),
        call_ensures(LoadPlaceholderTokenizer::tokenize_for_routing, (&LoadPlaceholderTokenizer, long), long_first),
    ensures
        short_first matches TokenizeStep::Done(Ok(few)) && long_first matches TokenizeStep::Done(Ok(many)) && {
            let (s, l) = (encode_utf8(short@).len(), encode_utf8(long@).len());
            &&& s <= l ==> few@.len() <= many@.len()
            &&& s >= 4 && l == s + 4 ==> many@.len() == few@.len() + 1
        },
{
}

/// A body that was read has the template applied to it, the same body; one that could not be
/// read ends the tokenization with the reason as it was given, so that no template is applied.
pub proof fn law_template_is_applied_to_what_was_read(body: String, read: Result<(), String>, next: TokenizeStep)
    requires
        call_ensures(
            continue_tokenizing,
            (TokenizeStep::ReadRequest { body }, TokenizeAnswer::Read(read)),
            next,
        ),
    ensures
        match read {
            Ok(()) => next matches TokenizeStep::ApplyTemplate { body: b } && b@ == body@,
            Err(reason) => next matches TokenizeStep::Done(Err(e)) && e@ == reason@,
        },
{
}

/// The prompt that the template gave is tokenized, the whole of it; without a template the
/// empty text is. A template that failed ends the tokenization with the reason as it was
/// given.
pub proof fn law_prompt_is_tokenized_whole(
    body: String,
    formatted: Result<Option<String>, String>,
    next: TokenizeStep,
)
    requires
        call_ensures(
            continue_tokenizing,
            (TokenizeStep::ApplyTemplate { body }, TokenizeAnswer::Formatted(formatted)),
            next,
        ),
    ensures
        match formatted {
            Ok(Some(prompt)) => next matches TokenizeStep::Encode { text } && text@ == prompt@,
            Ok(None) => next matches TokenizeStep::Encode { text } && text@.len() == 0,
            Err(reason) => next matches TokenizeStep::Done(Err(e)) && e@ == reason@,
        },
{
}

/// The tokens of a request are those that the tokenizer answered, all of them and in their
/// order; where it has none, its reason is the result.
pub proof fn law_tokens_are_those_answered(text: String, encoded: Result<Vec<u32>, String>, next: TokenizeStep)
    requires
        call_ensures(
            continue_tokenizing,
            (TokenizeStep::Encode { text }, TokenizeAnswer::Encoded(encoded)),
            next,
        ),
    ensures
        match encoded {
            Ok(tokens) => {
                &&& next matches TokenizeStep::Done(Ok(kept))
                &&& kept@.len() == tokens@.len()
                &&& forall|i: int| 0 <= i < tokens@.len() ==> #[trigger] kept@[i] == tokens@[i]
            },
            Err(reason) => next matches TokenizeStep::Done(Err(e)) && e@ == reason@,
        },
{
}

/// An answer to another step than the one that is waited for changes nothing, and neither
/// does any answer once the tokenization is over.
pub proof fn law_other_answers_are_ignored(step: TokenizeStep, answer: TokenizeAnswer, next: TokenizeStep)
    requires
        call_ensures(continue_tokenizing, (step, answer), next),
    ensures
        match step {
            TokenizeStep::ReadRequest { body } => answer is Read || (next matches TokenizeStep::ReadRequest { body: b }
                && b@ == body@),
            TokenizeStep::ApplyTemplate { body } => answer is Formatted || (next matches TokenizeStep::ApplyTemplate {
                body: b,
            } && b@ == body@),
            TokenizeStep::Encode { text } => answer is Encoded || (next matches TokenizeStep::Encode { text: t } && t@
                == text@),
            TokenizeStep::Done(Ok(tokens)) => next matches TokenizeStep::Done(Ok(kept)) && kept@ == tokens@,
            TokenizeStep::Done(Err(reason)) => next matches TokenizeStep::Done(Err(e)) && e@ == reason@,
        },
{
}

} // verus!
