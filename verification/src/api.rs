//! Types shared by every provider and by the HTTP layer.
use vstd::prelude::*;

use crate::text::{joined, owned, push_char};

verus! {

/// The model served when a client names none.
pub const DEFAULT_MODEL: &'static str = "gemma-4-E2B-it";

/// The address the API listens on by default.
pub const DEFAULT_HOST: &'static str = "127.0.0.1";

/// The port the API listens on by default.
pub const DEFAULT_PORT: u16 = 11435;

/// What went wrong while serving a request.
#[derive(Debug)]
pub enum LlmdError {
    /// The model backend failed; the text says how.
    Backend(String),
    /// No model of the given id is available.
    ModelNotFound(String),
}

/// An error as it appears in contracts: its kind and its text.
pub enum ErrorView {
    Backend(Seq<char>),
    ModelNotFound(Seq<char>),
}

impl View for LlmdError {
    type V = ErrorView;

    open spec fn view(&self) -> ErrorView {
        match self {
            LlmdError::Backend(m) => ErrorView::Backend(m@),
            LlmdError::ModelNotFound(m) => ErrorView::ModelNotFound(m@),
        }
    }
}

/// The message an error shows to users: the backend's own words, or
/// `model not found: ` followed by the model's id.
pub open spec fn error_text(e: ErrorView) -> Seq<char> {
    match e {
        ErrorView::Backend(m) => m,
        ErrorView::ModelNotFound(m) => "model not found: "@ + m,
    }
}

/// A backend error carrying the given text.
pub fn backend(message: &str) -> (e: LlmdError)
    ensures
        e@ == ErrorView::Backend(message@),
{
    LlmdError::Backend(owned(message))
}

impl LlmdError {
    /// The message shown to users for this error.
    pub fn message(&self) -> (m: String)
        ensures
            m@ == error_text(self@),
    {
        match self {
            LlmdError::Backend(m) => owned(m.as_str()),
            LlmdError::ModelNotFound(id) => {
                let mut m = owned("model not found: ");
                m.append(id.as_str());
                m
            },
        }
    }
}

/// A model the host can serve.
#[derive(Debug)]
pub struct ModelInfo {
    pub id: String,
    pub owned_by: String,
}

/// How the reply of a chat must be shaped.
#[derive(Debug)]
pub enum ResponseFormat {
    /// Any JSON object.
    JsonObject,
    /// JSON that follows the given schema, held as JSON text.
    JsonSchema { schema: String },
}

/// A chat as a provider receives it.
#[derive(Debug)]
pub struct ChatRequest {
    pub model: String,
    pub messages: Vec<ChatMessage>,
    pub stream: bool,
    pub max_tokens: Option<u32>,
    /// The sampling temperature as the bit pattern of an IEEE-754 single.
    pub temperature_bits: Option<u32>,
    pub response_format: Option<ResponseFormat>,
}

/// A finished chat reply.
#[derive(Debug)]
pub struct ChatResponse {
    pub model: String,
    pub content: String,
}

/// One message of a chat.
#[derive(Debug)]
pub struct ChatMessage {
    pub role: String,
    pub content: String,
}

/// The line a message contributes to a plain-text prompt: `role: content`.
pub open spec fn prompt_line(m: ChatMessage) -> Seq<char> {
    m.role@ + seq![':', ' '] + m.content@
}

/// The prompt lines of a list of messages, in order.
pub open spec fn prompt_lines(messages: Seq<ChatMessage>) -> Seq<Seq<char>> {
    messages.map_values(|m: ChatMessage| prompt_line(m))
}

/// Renders messages as a plain prompt: one `role: content` line per message,
/// the lines separated by a newline.
pub fn messages_to_prompt(messages: &[ChatMessage]) -> (prompt: String)
    ensures
        prompt@ == joined(prompt_lines(messages@), seq!['\n']),
{
    let mut prompt = String::new();
    let mut i: usize = 0;
    while i < messages.len()
        invariant
            i <= messages@.len(),
            prompt@ == joined(prompt_lines(messages@.take(i as int)), seq!['\n']),
        decreases messages.len() - i,
    {
        let ghost before = prompt_lines(messages@.take(i as int));
        if i > 0 {
            push_char(&mut prompt, '\n');
        }
        prompt.append(messages[i].role.as_str());
        push_char(&mut prompt, ':');
        push_char(&mut prompt, ' ');
        prompt.append(messages[i].content.as_str());
        assert(prompt_lines(messages@.take(i as int + 1)).drop_last() =~= before);
        assert(prompt_lines(messages@.take(i as int + 1)).last() == prompt_line(messages@[i as int]));
        proof {
            if i == 0 {
                assert(prompt_lines(messages@.take(1)).len() == 1);
            }
        }
        assert(prompt@ =~= joined(prompt_lines(messages@.take(i as int + 1)), seq!['\n']));
        i = i + 1;
    }
    assert(messages@.take(messages.len() as int) =~= messages@);
    prompt
}

} // verus!

verus! {

/// The prompt of two lists of messages is the first list's prompt, a newline,
/// then the second list's prompt; an empty list adds nothing.
pub proof fn lemma_prompt_of_concatenation(a: Seq<ChatMessage>, b: Seq<ChatMessage>)
    ensures
        a.len() == 0 ==> joined(prompt_lines(a + b), seq!['\n']) == joined(prompt_lines(b), seq!['\n']),
        b.len() == 0 ==> joined(prompt_lines(a + b), seq!['\n']) == joined(prompt_lines(a), seq!['\n']),
        a.len() > 0 && b.len() > 0 ==> joined(prompt_lines(a + b), seq!['\n']) == joined(
            prompt_lines(a),
            seq!['\n'],
        ) + seq!['\n'] + joined(prompt_lines(b), seq!['\n']),
    decreases b.len(),
{
    if a.len() == 0 {
        assert(a + b =~= b);
    } else if b.len() == 0 {
        assert(a + b =~= a);
    } else {
        let b0 = b.drop_last();
        lemma_prompt_of_concatenation(a, b0);
        assert((a + b).drop_last() =~= a + b0);
        assert(prompt_lines(a + b).drop_last() =~= prompt_lines(a + b0));
        assert(prompt_lines(b).drop_last() =~= prompt_lines(b0));
        assert(prompt_lines(a + b).last() == prompt_line(b.last()));
        if b0.len() == 0 {
            assert(a + b0 =~= a);
        } else {
            assert(joined(prompt_lines(a + b), seq!['\n']) =~= joined(prompt_lines(a), seq!['\n'])
                + seq!['\n'] + joined(prompt_lines(b), seq!['\n']));
        }
    }
}

} // verus!

verus! {

/// Each line of a prompt is its message's role exactly as given, whatever it
/// is, then `: `, then the message's content; a single message's prompt is
/// that line alone.
pub proof fn lemma_prompt_lines_keep_roles(messages: Seq<ChatMessage>, m: ChatMessage)
    ensures
        prompt_lines(messages).len() == messages.len(),
        forall|i: int|
            0 <= i < messages.len() ==> #[trigger] prompt_lines(messages)[i] == messages[i].role@ + seq![
                ':',
                ' ',
            ] + messages[i].content@,
        joined(prompt_lines(seq![m]), seq!['\n']) == m.role@ + seq![':', ' '] + m.content@,
{
    assert(prompt_lines(seq![m]).len() == 1);
    assert(prompt_lines(seq![m])[0] == m.role@ + seq![':', ' '] + m.content@);
}

} // verus!
