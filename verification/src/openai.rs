//! The OpenAI-compatible wire bodies: what a request holds once read, and
//! what each answer carries before it is written out.
use vstd::prelude::*;

use crate::api::{ChatMessage, ChatRequest, ChatResponse, ErrorView, LlmdError, ModelInfo, ResponseFormat, error_text};
use crate::text::{joined, owned, push_char, same_text};

verus! {

/// A chat message as an OpenAI client sends it.
#[derive(Debug)]
pub struct OpenAiMessage {
    pub role: String,
    pub content: String,
}

/// A chat request as an OpenAI client sends it.
pub struct OpenAiChatRequest {
    pub model: String,
    pub messages: Vec<OpenAiMessage>,
    pub stream: bool,
    pub max_tokens: Option<u32>,
    /// The sampling temperature as the bit pattern of an IEEE-754 single.
    pub temperature_bits: Option<u32>,
    pub response_format: Option<ResponseFormat>,
}

impl ChatRequest {
    /// The provider's view of an OpenAI chat request: the same model, the
    /// same messages in the same order, and the same options.
    pub fn from_openai(request: OpenAiChatRequest) -> (r: ChatRequest)
        ensures
            r.model == request.model,
            r.messages@.len() == request.messages@.len(),
            forall|i: int|
                0 <= i < r.messages@.len() ==> (#[trigger] r.messages@[i]).role
                    == request.messages@[i].role && r.messages@[i].content
                    == request.messages@[i].content,
            r.stream == request.stream,
            r.max_tokens == request.max_tokens,
            r.temperature_bits == request.temperature_bits,
            r.response_format == request.response_format,
    {
        let OpenAiChatRequest { model, messages, stream, max_tokens, temperature_bits, response_format } =
            request;
        let ghost original = messages@;
        let mut rest = messages;
        let mut converted: Vec<ChatMessage> = Vec::new();
        while rest.len() > 0
            invariant
                converted@.len() + rest@.len() == original.len(),
                rest@ == original.skip(converted@.len() as int),
                forall|i: int|
                    0 <= i < converted@.len() ==> (#[trigger] converted@[i]).role == original[i].role
                        && converted@[i].content == original[i].content,
            decreases rest.len(),
        {
            let ghost k = converted@.len();
            let m = rest.remove(0);
            assert(original.skip(k as int).drop_first() =~= original.skip(k as int + 1));
            converted.push(ChatMessage { role: m.role, content: m.content });
        }
        ChatRequest { model, messages: converted, stream, max_tokens, temperature_bits, response_format }
    }
}

/// The content of a message as a client sent it: text, a list of parts, or
/// anything else. Each part is given by its `text` field when that field is a
/// string.
pub enum MessageContent {
    Text(String),
    Parts(Vec<Option<String>>),
    Other,
}

/// The texts of the parts that have one, in order.
pub open spec fn part_texts(parts: Seq<Option<String>>) -> Seq<Seq<char>>
    decreases parts.len(),
{
    if parts.len() == 0 {
        Seq::empty()
    } else {
        match parts.last() {
            Some(t) => part_texts(parts.drop_last()).push(t@),
            None => part_texts(parts.drop_last()),
        }
    }
}

/// The text of a message: the text itself, or the texts of its parts joined
/// by newlines; any other content is refused.
pub fn content_text(content: MessageContent) -> (r: Result<String, String>)
    ensures
        content matches MessageContent::Text(t) ==> (r matches Ok(s) && s@ == t@),
        content matches MessageContent::Parts(p) ==> (r matches Ok(s) && s@ == joined(
            part_texts(p@),
            seq!['\n'],
        )),
        content is Other ==> (r matches Err(m) && m@ == "content must be a string or text parts"@),
{
    match content {
        MessageContent::Text(t) => Ok(t),
        MessageContent::Parts(parts) => {
            let mut text = String::new();
            let mut any = false;
            let mut i: usize = 0;
            while i < parts.len()
                invariant
                    i <= parts@.len(),
                    text@ == joined(part_texts(parts@.take(i as int)), seq!['\n']),
                    any == (part_texts(parts@.take(i as int)).len() > 0),
                decreases parts.len() - i,
            {
                let ghost before = part_texts(parts@.take(i as int));
                assert(parts@.take(i as int + 1).drop_last() =~= parts@.take(i as int));
                match &parts[i] {
                    Some(t) => {
                        if any {
                            push_char(&mut text, '\n');
                        }
                        text.append(t.as_str());
                        let ghost next = before.push(t@);
                        assert(next.drop_last() =~= before);
                        proof {
                            if before.len() == 0 {
                                assert(joined(next, seq!['\n']) == t@);
                            }
                        }
                        assert(text@ =~= joined(next, seq!['\n']));
                        any = true;
                    },
                    None => {},
                }
                i = i + 1;
            }
            assert(parts@.take(parts@.len() as int) =~= parts@);
            Ok(text)
        },
        MessageContent::Other => Err(owned("content must be a string or text parts")),
    }
}

/// Whether a chat is answered as a stream of pieces rather than in one body.
pub fn wants_stream(request: &ChatRequest) -> (r: bool)
    ensures
        r == request.stream,
{
    request.stream
}

/// A model entry of the OpenAI model list.
#[derive(Debug)]
pub struct OpenAiModel {
    pub id: String,
    pub object: &'static str,
    pub created: u64,
    pub owned_by: String,
}

/// The OpenAI model list.
pub struct OpenAiModelList {
    pub object: &'static str,
    pub data: Vec<OpenAiModel>,
}

/// The entry of one model: a `model` object created at time zero.
pub fn model_entry(model: ModelInfo) -> (r: OpenAiModel)
    ensures
        r.id == model.id,
        r.object@ == "model"@,
        r.created == 0,
        r.owned_by == model.owned_by,
{
    OpenAiModel { id: model.id, object: "model", created: 0, owned_by: model.owned_by }
}

/// The model list answer: a `list` object holding one entry per model, in
/// the provider's order.
pub fn model_list(models: Vec<ModelInfo>) -> (r: OpenAiModelList)
    ensures
        r.object@ == "list"@,
        r.data@.len() == models@.len(),
        forall|i: int|
            0 <= i < r.data@.len() ==> (#[trigger] r.data@[i]).id == models@[i].id
                && r.data@[i].owned_by == models@[i].owned_by && r.data@[i].object@ == "model"@
                && r.data@[i].created == 0,
{
    let ghost original = models@;
    let mut rest = models;
    let mut data: Vec<OpenAiModel> = Vec::new();
    while rest.len() > 0
        invariant
            data@.len() + rest@.len() == original.len(),
            rest@ == original.skip(data@.len() as int),
            forall|i: int|
                0 <= i < data@.len() ==> (#[trigger] data@[i]).id == original[i].id
                    && data@[i].owned_by == original[i].owned_by && data@[i].object@ == "model"@
                    && data@[i].created == 0,
        decreases rest.len(),
    {
        let ghost k = data@.len();
        let m = rest.remove(0);
        assert(original.skip(k as int).drop_first() =~= original.skip(k as int + 1));
        data.push(model_entry(m));
    }
    OpenAiModelList { object: "list", data }
}

/// The entry of the model `id`: that of the first model with this id, or
/// `model not found` when there is none.
pub fn find_model(models: Vec<ModelInfo>, id: &str) -> (r: Result<OpenAiModel, LlmdError>)
    ensures
        r is Ok <==> exists|i: int| 0 <= i < models@.len() && (#[trigger] models@[i]).id@ == id@,
        r matches Ok(m) ==> exists|i: int|
            0 <= i < models@.len() && (#[trigger] models@[i]).id@ == id@ && (forall|j: int|
                0 <= j < i ==> models@[j].id@ != id@) && m.id == models@[i].id && m.owned_by
                == models@[i].owned_by && m.object@ == "model"@ && m.created == 0,
        r matches Err(e) ==> e@ == ErrorView::ModelNotFound(id@),
{
    let ghost original = models@;
    let mut rest = models;
    let mut seen: usize = 0;
    let total = rest.len();
    while rest.len() > 0
        invariant
            original == models@,
            total == original.len(),
            seen + rest@.len() == original.len(),
            rest@ == original.skip(seen as int),
            forall|j: int| 0 <= j < seen ==> original[j].id@ != id@,
        decreases rest.len(),
    {
        let m = rest.remove(0);
        assert(original[seen as int] == m);
        if same_text(m.id.as_str(), id) {
            assert(models@[seen as int].id@ == id@);
            return Ok(model_entry(m));
        }
        assert(original.skip(seen as int).drop_first() =~= original.skip(seen as int + 1));
        seen = seen + 1;
    }
    Err(LlmdError::ModelNotFound(owned(id)))
}

} // verus!

verus! {

/// The token counts of an answer; the host does not count tokens.
pub struct OpenAiUsage {
    pub prompt_tokens: u32,
    pub completion_tokens: u32,
    pub total_tokens: u32,
}

/// One choice of a chat completion.
pub struct OpenAiChoice {
    pub index: u32,
    pub message: OpenAiMessage,
    pub finish_reason: &'static str,
}

/// A finished chat completion.
pub struct OpenAiChatResponse {
    pub id: String,
    pub object: &'static str,
    pub created: u64,
    pub model: String,
    pub choices: Vec<OpenAiChoice>,
    pub usage: OpenAiUsage,
}

/// The completion answer of a reply: a `chat.completion` object with one
/// choice, the reply as the assistant's message, finished with `stop`, and
/// zero token counts.
pub fn chat_completion(id: String, created: u64, response: ChatResponse) -> (r: OpenAiChatResponse)
    ensures
        r.id == id,
        r.object@ == "chat.completion"@,
        r.created == created,
        r.model == response.model,
        r.choices@.len() == 1,
        r.choices@[0].index == 0,
        r.choices@[0].message.role@ == "assistant"@,
        r.choices@[0].message.content == response.content,
        r.choices@[0].finish_reason@ == "stop"@,
        r.usage.prompt_tokens == 0,
        r.usage.completion_tokens == 0,
        r.usage.total_tokens == 0,
{
    let choice = OpenAiChoice {
        index: 0,
        message: OpenAiMessage { role: owned("assistant"), content: response.content },
        finish_reason: "stop",
    };
    let mut choices: Vec<OpenAiChoice> = Vec::new();
    choices.push(choice);
    OpenAiChatResponse {
        id,
        object: "chat.completion",
        created,
        model: response.model,
        choices,
        usage: OpenAiUsage { prompt_tokens: 0, completion_tokens: 0, total_tokens: 0 },
    }
}

/// A lowercase hexadecimal digit.
pub open spec fn is_lower_hex(c: char) -> bool {
    ('0' <= c && c <= '9') || ('a' <= c && c <= 'f')
}

/// The text of a random (version 4) UUID: 36 characters, lowercase hex digits
/// in groups of 8, 4, 4, 4 and 12 separated by hyphens, with the version digit
/// `4` and a variant digit among `8`, `9`, `a`, `b`.
pub open spec fn is_random_uuid_text(s: Seq<char>) -> bool {
    &&& s.len() == 36
    &&& forall|i: int|
        0 <= i < 36 ==> (if i == 8 || i == 13 || i == 18 || i == 23 {
            s[i] == '-'
        } else {
            is_lower_hex(#[trigger] s[i])
        })
    &&& s[14] == '4'
    &&& (s[19] == '8' || s[19] == '9' || s[19] == 'a' || s[19] == 'b')
}

/// A fresh random UUID as text.
///
/// Calls `uuid::Uuid::new_v4` and formats it with `Display`, which the uuid
/// crate writes as the lowercase hyphenated form; `new_v4` sets the version
/// and variant bits. Which UUID comes back is left to chance.
#[verifier::external_body]
fn random_uuid_text() -> (s: String)
    ensures
        is_random_uuid_text(s@),
{
    uuid::Uuid::new_v4().to_string()
}

/// The completion id made from a UUID's text: `chatcmpl-` followed by it.
pub fn completion_id_for(uuid: &str) -> (id: String)
    ensures
        id@ == "chatcmpl-"@ + uuid@,
{
    let mut id = owned("chatcmpl-");
    id.append(uuid);
    id
}

/// A fresh completion id: `chatcmpl-` followed by a random UUID.
pub fn completion_id() -> (id: String)
    ensures
        id@.len() == 45,
        id@.take(9) == "chatcmpl-"@,
        is_random_uuid_text(id@.skip(9)),
{
    proof {
        reveal_strlit("chatcmpl-");
    }
    let uuid = random_uuid_text();
    let id = completion_id_for(uuid.as_str());
    assert(id@.take(9) =~= "chatcmpl-"@);
    assert(id@.skip(9) =~= uuid@);
    id
}

/// A reading of the system clock.
#[verifier::external_type_specification]
#[verifier::external_body]
pub struct ExSystemTime(std::time::SystemTime);

/// The current reading of the system clock.
///
/// Calls `SystemTime::now`; what it reads depends on the clock.
#[verifier::external_body]
fn clock_now() -> std::time::SystemTime {
    std::time::SystemTime::now()
}

/// The time from the Unix epoch to a clock reading, if the reading is not
/// before the epoch.
///
/// Calls `SystemTime::duration_since(UNIX_EPOCH)`, which the standard library
/// documents as failing for a reading earlier than the epoch. How the duration
/// relates to the reading is not stated here.
#[verifier::external_body]
fn since_epoch(t: std::time::SystemTime) -> Option<std::time::Duration> {
    t.duration_since(std::time::UNIX_EPOCH).ok()
}

/// The whole seconds of a duration.
///
/// Calls `Duration::as_secs`; durations have no model here, so the result is
/// not stated.
#[verifier::external_body]
fn whole_seconds(d: std::time::Duration) -> u64 {
    d.as_secs()
}

/// Whole seconds from the Unix epoch to a clock reading, if the reading is
/// not before the epoch.
fn seconds_since_epoch(t: std::time::SystemTime) -> Option<u64> {
    match since_epoch(t) {
        Some(d) => Some(whole_seconds(d)),
        None => None,
    }
}

/// The creation time of an answer: the seconds since the epoch, or zero
/// when the clock reads earlier than the epoch.
pub fn created_at(since_epoch: Option<u64>) -> (t: u64)
    ensures
        since_epoch matches Some(s) ==> t == s,
        since_epoch is None ==> t == 0,
{
    match since_epoch {
        Some(s) => s,
        None => 0,
    }
}

/// The creation time of an answer made now.
pub fn now() -> u64 {
    created_at(seconds_since_epoch(clock_now()))
}

} // verus!

verus! {

/// What a streamed piece adds to the reply: the assistant's role on the
/// first piece only, and the piece's text.
pub struct OpenAiDelta {
    pub role: Option<&'static str>,
    pub content: Option<String>,
}

/// One choice of a streamed piece.
pub struct OpenAiChunkChoice {
    pub index: u32,
    pub delta: OpenAiDelta,
    pub finish_reason: Option<&'static str>,
}

/// One streamed piece of a chat completion.
pub struct OpenAiChunk {
    pub id: String,
    pub object: &'static str,
    pub created: u64,
    pub model: String,
    pub choices: Vec<OpenAiChunkChoice>,
}

/// What the stream sends for one token from the provider.
pub enum StreamEvent {
    /// A completion piece.
    Chunk(OpenAiChunk),
    /// An `error` event with this text.
    Error(String),
}

/// The state of a streamed completion: its id, creation time and model, and
/// whether no piece of text has gone out yet.
pub struct CompletionStream {
    pub id: String,
    pub created: u64,
    pub model: String,
    pub first: bool,
}

/// Whether a piece is a completion piece of the stream with one choice of
/// index 0 carrying the given role, text and finish reason.
pub open spec fn is_piece(
    c: OpenAiChunk,
    s: CompletionStream,
    role: Option<Seq<char>>,
    content: Option<Seq<char>>,
    finish: Option<Seq<char>>,
) -> bool {
    &&& c.id@ == s.id@
    &&& c.object@ == "chat.completion.chunk"@
    &&& c.created == s.created
    &&& c.model@ == s.model@
    &&& c.choices@.len() == 1
    &&& c.choices@[0].index == 0
    &&& (match c.choices@[0].delta.role {
        Some(r) => role == Some(r@),
        None => role is None,
    })
    &&& (match c.choices@[0].delta.content {
        Some(t) => content == Some(t@),
        None => content is None,
    })
    &&& (match c.choices@[0].finish_reason {
        Some(f) => finish == Some(f@),
        None => finish is None,
    })
}

impl CompletionStream {
    /// A stream that has sent nothing yet.
    pub fn new(id: String, created: u64, model: String) -> (s: CompletionStream)
        ensures
            s.id == id,
            s.created == created,
            s.model == model,
            s.first,
    {
        CompletionStream { id, created, model, first: true }
    }

    fn piece(&self, role: Option<&'static str>, content: Option<String>, finish: Option<&'static str>) -> (c: OpenAiChunk)
        ensures
            is_piece(
                c,
                *self,
                match role { Some(r) => Some(r@), None => None },
                match content { Some(t) => Some(t@), None => None },
                match finish { Some(f) => Some(f@), None => None },
            ),
    {
        let mut choices: Vec<OpenAiChunkChoice> = Vec::new();
        choices.push(OpenAiChunkChoice { index: 0, delta: OpenAiDelta { role, content }, finish_reason: finish });
        OpenAiChunk {
            id: self.id.clone(),
            object: "chat.completion.chunk",
            created: self.created,
            model: self.model.clone(),
            choices,
        }
    }

    /// The event for one token: a piece carrying its text, with the
    /// assistant's role on the first piece of text only; or, for a failed
    /// token, an `error` event with the error's message. A failure does not
    /// count as the first piece.
    pub fn next_event(&mut self, token: Result<String, LlmdError>) -> (e: StreamEvent)
        ensures
            final(self).id == old(self).id,
            final(self).created == old(self).created,
            final(self).model == old(self).model,
            token matches Ok(t) ==> (e matches StreamEvent::Chunk(c) && is_piece(
                c,
                *old(self),
                if old(self).first { Some("assistant"@) } else { None },
                Some(t@),
                None,
            )),
            token matches Ok(_) ==> !final(self).first,
            token matches Err(err) ==> (e matches StreamEvent::Error(m) && m@ == error_text(err@)),
            token is Err ==> final(self).first == old(self).first,
    {
        match token {
            Ok(content) => {
                let role = if self.first { Some("assistant") } else { None };
                let c = self.piece(role, Some(content), None);
                self.first = false;
                StreamEvent::Chunk(c)
            },
            Err(error) => StreamEvent::Error(error.message()),
        }
    }

    /// The closing piece: no role and no text, finished with `stop`. The
    /// caller sends it, then `[DONE]`.
    pub fn closing_chunk(&self) -> (c: OpenAiChunk)
        ensures
            is_piece(c, *self, None, None, Some("stop"@)),
    {
        self.piece(None, None, Some("stop"))
    }
}

/// The answer to a failed request: its HTTP status, and the body's message
/// and error type.
pub struct ProviderError {
    pub status: u16,
    pub message: String,
    pub error_type: &'static str,
}

/// Answers an error: `404 Not Found` for an unknown model, `500 Internal
/// Server Error` for a backend failure, with the error's message and the
/// type `llmd_error`.
pub fn provider_error(error: LlmdError) -> (r: ProviderError)
    ensures
        error@ is ModelNotFound ==> r.status == 404,
        error@ is Backend ==> r.status == 500,
        r.message@ == error_text(error@),
        r.error_type@ == "llmd_error"@,
{
    let status: u16 = match &error {
        LlmdError::ModelNotFound(_) => 404,
        LlmdError::Backend(_) => 500,
    };
    ProviderError { status, message: error.message(), error_type: "llmd_error" }
}

} // verus!

verus! {

/// Whether no text has gone out after tokens whose successes are `oks`,
/// starting from a fresh stream, as `next_event` keeps it.
pub open spec fn still_first(oks: Seq<bool>) -> bool
    decreases oks.len(),
{
    if oks.len() == 0 {
        true
    } else {
        still_first(oks.drop_last()) && !oks.last()
    }
}

/// Whether the piece for token `i` carries the assistant's role.
pub open spec fn gives_role(oks: Seq<bool>, i: int) -> bool {
    oks[i] && still_first(oks.take(i))
}

proof fn lemma_still_first_means_no_success(oks: Seq<bool>)
    ensures
        still_first(oks) <==> forall|j: int| 0 <= j < oks.len() ==> !oks[j],
    decreases oks.len(),
{
    if oks.len() > 0 {
        lemma_still_first_means_no_success(oks.drop_last());
        if still_first(oks) {
            assert forall|j: int| 0 <= j < oks.len() implies !oks[j] by {
                if j < oks.len() - 1 {
                    assert(oks.drop_last()[j] == oks[j]);
                }
            }
        }
        if forall|j: int| 0 <= j < oks.len() ==> !oks[j] {
            assert forall|j: int| 0 <= j < oks.drop_last().len() implies !oks.drop_last()[j] by {
                assert(oks.drop_last()[j] == oks[j]);
            }
        }
    }
}

/// In a streamed completion the assistant's role is announced once: on the
/// piece of the first token that succeeds, and on no other piece.
pub proof fn lemma_role_announced_once(oks: Seq<bool>, i: int, k: int)
    requires
        0 <= i < oks.len(),
        0 <= k < oks.len(),
    ensures
        gives_role(oks, i) <==> (oks[i] && forall|j: int| 0 <= j < i ==> !oks[j]),
        gives_role(oks, i) && gives_role(oks, k) ==> i == k,
{
    lemma_still_first_means_no_success(oks.take(i));
    lemma_still_first_means_no_success(oks.take(k));
    assert forall|j: int| 0 <= j < i implies oks.take(i)[j] == oks[j] by {}
    assert forall|j: int| 0 <= j < k implies oks.take(k)[j] == oks[j] by {}
    if gives_role(oks, i) && gives_role(oks, k) && i != k {
        if i < k {
            assert(oks.take(k)[i] == oks[i]);
        } else {
            assert(oks.take(i)[k] == oks[k]);
        }
    }
}

} // verus!
