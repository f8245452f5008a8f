//! How a chat request becomes a conversation with the native engine.
use vstd::prelude::*;

use crate::api::{backend, ChatMessage, ErrorView, LlmdError, ResponseFormat};
use crate::text::{joined, owned, same_text};

verus! {

/// The native engine's name for a role: it calls the assistant `model` and
/// keeps every other role as it is.
pub open spec fn native_role_of(role: Seq<char>) -> Seq<char> {
    if role == "assistant"@ {
        "model"@
    } else {
        role
    }
}

/// Translates an OpenAI role into the native engine's role.
pub fn native_role<'a>(role: &'a str) -> (r: &'a str)
    ensures
        r@ == native_role_of(role@),
{
    if same_text(role, "assistant") {
        "model"
    } else {
        role
    }
}

/// A message as contracts see it: its role and its content.
pub open spec fn message_view(m: ChatMessage) -> (Seq<char>, Seq<char>) {
    (m.role@, m.content@)
}

/// Whether a message is a system message.
pub open spec fn is_system(m: ChatMessage) -> bool {
    m.role@ == "system"@
}

/// The contents of the system messages, in order.
pub open spec fn system_parts(messages: Seq<ChatMessage>) -> Seq<Seq<char>>
    decreases messages.len(),
{
    if messages.len() == 0 {
        Seq::empty()
    } else {
        let rest = system_parts(messages.drop_last());
        if is_system(messages.last()) {
            rest.push(messages.last().content@)
        } else {
            rest
        }
    }
}

/// The other messages, in order, each with its native role.
pub open spec fn dialogue(messages: Seq<ChatMessage>) -> Seq<(Seq<char>, Seq<char>)>
    decreases messages.len(),
{
    if messages.len() == 0 {
        Seq::empty()
    } else {
        let rest = dialogue(messages.drop_last());
        if is_system(messages.last()) {
            rest
        } else {
            rest.push((native_role_of(messages.last().role@), messages.last().content@))
        }
    }
}

/// What the native engine is given: one system message, the earlier turns,
/// and the message to answer.
pub struct Conversation {
    pub system: String,
    pub history: Vec<ChatMessage>,
    pub last: ChatMessage,
}

/// The messages of a chat other than system messages, in order.
pub open spec fn turns_of(messages: Seq<ChatMessage>) -> Seq<ChatMessage> {
    messages.filter(is_turn())
}

/// Whether a message is a turn, that is, not a system message.
pub open spec fn is_turn() -> spec_fn(ChatMessage) -> bool {
    |m: ChatMessage| m.role@ != "system"@
}

/// Whether a message is a system message.
pub open spec fn is_system_message() -> spec_fn(ChatMessage) -> bool {
    |m: ChatMessage| m.role@ == "system"@
}

/// The system messages of a chat, in order.
pub open spec fn system_messages_of(messages: Seq<ChatMessage>) -> Seq<ChatMessage> {
    messages.filter(is_system_message())
}

/// The engine's conversation keeps every turn: one entry per non-system
/// message, in the chat's order, with the same content, and with the role
/// renamed only from `assistant` to `model`; the system text is made of the
/// system messages' contents, in order.
pub proof fn lemma_dialogue_is_every_turn(messages: Seq<ChatMessage>)
    ensures
        dialogue(messages).len() == turns_of(messages).len(),
        forall|k: int|
            0 <= k < turns_of(messages).len() ==> (#[trigger] dialogue(messages)[k]) == (
                if turns_of(messages)[k].role@ == "assistant"@ {
                    "model"@
                } else {
                    turns_of(messages)[k].role@
                },
                turns_of(messages)[k].content@,
            ),
        system_parts(messages) == system_messages_of(messages).map_values(
            |m: ChatMessage| m.content@,
        ),
    decreases messages.len(),
{
    if messages.len() > 0 {
        lemma_dialogue_is_every_turn(messages.drop_last());
        let init = messages.drop_last();
        let last = messages.last();
        assert(messages =~= init.push(last));
        init.lemma_filter_push(last, is_turn());
        init.lemma_filter_push(last, is_system_message());
        assert(turns_of(messages) == if last.role@ != "system"@ {
            turns_of(init).push(last)
        } else {
            turns_of(init)
        });
        assert(system_messages_of(messages) == if last.role@ == "system"@ {
            system_messages_of(init).push(last)
        } else {
            system_messages_of(init)
        });
        if last.role@ == "system"@ {
            assert(system_messages_of(messages).map_values(|m: ChatMessage| m.content@) =~= system_messages_of(
                init,
            ).map_values(|m: ChatMessage| m.content@).push(last.content@));
        } else {
            assert(system_messages_of(messages).map_values(|m: ChatMessage| m.content@) =~= system_messages_of(
                init,
            ).map_values(|m: ChatMessage| m.content@));
        }
        assert forall|k: int|
            0 <= k < turns_of(messages).len() implies (#[trigger] dialogue(messages)[k]) == (
                if turns_of(messages)[k].role@ == "assistant"@ {
                    "model"@
                } else {
                    turns_of(messages)[k].role@
                },
                turns_of(messages)[k].content@,
            ) by {
            if k < turns_of(init).len() {
                assert(dialogue(messages)[k] == dialogue(init)[k]);
                assert(turns_of(messages)[k] == turns_of(init)[k]);
            }
        }
    }
}

/// Splits a chat into the conversation the engine runs: the system messages'
/// contents joined by a blank line, then every other message with its native
/// role, the last of them being the one to answer. A chat with nothing but
/// system messages has nothing to send.
pub fn plan_conversation(messages: &Vec<ChatMessage>) -> (r: Result<Conversation, LlmdError>)
    ensures
        r is Ok <==> dialogue(messages@).len() > 0,
        r matches Ok(c) ==> {
            &&& c.system@ == joined(system_parts(messages@), seq!['\n', '\n'])
            &&& c.history@.map_values(|m: ChatMessage| message_view(m)) == dialogue(messages@).drop_last()
            &&& message_view(c.last) == dialogue(messages@).last()
            &&& c.history@.len() + 1 == turns_of(messages@).len()
            &&& forall|k: int|
                0 <= k < c.history@.len() ==> (#[trigger] c.history@[k]).content@ == turns_of(
                    messages@,
                )[k].content@ && c.history@[k].role@ == if turns_of(messages@)[k].role@
                    == "assistant"@ {
                    "model"@
                } else {
                    turns_of(messages@)[k].role@
                }
            &&& c.last.content@ == turns_of(messages@).last().content@
            &&& c.last.role@ == if turns_of(messages@).last().role@ == "assistant"@ {
                "model"@
            } else {
                turns_of(messages@).last().role@
            }
            &&& c.system@ == joined(
                system_messages_of(messages@).map_values(|m: ChatMessage| m.content@),
                seq!['\n', '\n'],
            )
        },
        r is Ok <==> turns_of(messages@).len() > 0,
        r matches Err(e) ==> e@ == ErrorView::Backend("No message to send"@),
{
    let mut system = String::new();
    let mut turns: Vec<ChatMessage> = Vec::new();
    let ghost mut parts: Seq<Seq<char>> = Seq::empty();
    let mut any_system = false;
    let mut i: usize = 0;
    while i < messages.len()
        invariant
            i <= messages@.len(),
            system_parts(messages@.take(i as int)) == parts,
            system@ == joined(parts, seq!['\n', '\n']),
            any_system == (parts.len() > 0),
            turns@.map_values(|m: ChatMessage| message_view(m)) == dialogue(messages@.take(i as int)),
        decreases messages.len() - i,
    {
        let m = &messages[i];
        assert(messages@.take(i as int + 1).drop_last() =~= messages@.take(i as int));
        if same_text(m.role.as_str(), "system") {
            if any_system {
                system.append("\n\n");
                proof {
                    reveal_strlit("\n\n");
                }
            }
            system.append(m.content.as_str());
            proof {
                let next = parts.push(m.content@);
                assert(next.drop_last() =~= parts);
                if parts.len() == 0 {
                    assert(joined(next, seq!['\n', '\n']) == m.content@);
                }
                assert(system@ =~= joined(next, seq!['\n', '\n']));
                parts = next;
            }
            any_system = true;
        } else {
            let role = owned(native_role(m.role.as_str()));
            let content = owned(m.content.as_str());
            let ghost before = turns@;
            turns.push(ChatMessage { role, content });
            assert(turns@.map_values(|m: ChatMessage| message_view(m)) =~= before.map_values(
                |m: ChatMessage| message_view(m),
            ).push((native_role_of(messages@[i as int].role@), messages@[i as int].content@)));
        }
        i = i + 1;
    }
    assert(messages@.take(messages.len() as int) =~= messages@);
    proof {
        lemma_dialogue_is_every_turn(messages@);
    }
    if turns.len() == 0 {
        return Err(backend("No message to send"));
    }
    let ghost all = turns@;
    proof {
        lemma_dialogue_is_every_turn(messages@);
    }
    let last = turns.pop().unwrap();
    assert(turns@ =~= all.drop_last());
    assert(turns@.map_values(|m: ChatMessage| message_view(m)) =~= all.map_values(
        |m: ChatMessage| message_view(m),
    ).drop_last());
    proof {
        let d = dialogue(messages@);
        let t = turns_of(messages@);
        assert forall|k: int| 0 <= k < turns@.len() implies (#[trigger] turns@[k]).content@ == t[k].content@
            && turns@[k].role@ == if t[k].role@ == "assistant"@ {
            "model"@
        } else {
            t[k].role@
        } by {
            assert(turns@.map_values(|m: ChatMessage| message_view(m))[k] == message_view(turns@[k]));
            assert(d[k] == d.drop_last()[k]);
        }
        assert(d.last() == d[d.len() - 1]);
    }
    Ok(Conversation { system, history: turns, last })
}

} // verus!

verus! {

/// The most tokens the engine may produce, as the engine takes it: a limit
/// above `i32::MAX` is refused.
pub fn output_token_limit(max_tokens: Option<u32>) -> (r: Result<Option<i32>, LlmdError>)
    ensures
        max_tokens is None ==> r == Ok::<Option<i32>, LlmdError>(None),
        max_tokens matches Some(m) ==> (m <= i32::MAX ==> r == Ok::<Option<i32>, LlmdError>(
            Some(m as i32),
        )),
        max_tokens matches Some(m) ==> (m > i32::MAX ==> (r matches Err(e) && e@ is Backend)),
{
    match max_tokens {
        None => Ok(None),
        Some(m) => match i32::try_from(m as u64) {
            Ok(v) => Ok(Some(v)),
            Err(e) => Err(LlmdError::Backend(e.to_string())),
        },
    }
}

/// The JSON schema that constrains the reply: an object schema for
/// `json_object`, the given schema for `json_schema`, none otherwise.
pub open spec fn constraint_of(format: Option<ResponseFormat>) -> Option<Seq<char>> {
    match format {
        Some(ResponseFormat::JsonObject) => Some("{\"type\":\"object\"}"@),
        Some(ResponseFormat::JsonSchema { schema }) => Some(schema@),
        None => None,
    }
}

/// The schema text handed to the engine's constrained decoder, if the chat
/// asks for shaped output. Thinking is turned off exactly when there is one.
pub fn constraint_schema(format: &Option<ResponseFormat>) -> (r: Option<String>)
    ensures
        r is Some <==> format is Some,
        r matches Some(s) ==> Some(s@) == constraint_of(*format),
{
    match format {
        Some(ResponseFormat::JsonObject) => Some(owned("{\"type\":\"object\"}")),
        Some(ResponseFormat::JsonSchema { schema }) => Some(owned(schema.as_str())),
        None => None,
    }
}

/// A streamed piece or reply as contracts see it.
pub open spec fn text_result(r: Result<String, LlmdError>) -> Result<Seq<char>, ErrorView> {
    match r {
        Ok(t) => Ok(t@),
        Err(e) => Err(e@),
    }
}

/// The reply after one more piece: the piece's text appended, or the piece's
/// error.
pub open spec fn reply_step(content: Seq<char>, chunk: Result<Seq<char>, ErrorView>) -> Result<
    Seq<char>,
    ErrorView,
> {
    match chunk {
        Ok(t) => Ok(content + t),
        Err(e) => Err(e),
    }
}

/// The reply to a whole stream of pieces, gathered one by one from an empty
/// text, stopping at the first error.
pub open spec fn gathered(chunks: Seq<Result<Seq<char>, ErrorView>>) -> Result<Seq<char>, ErrorView>
    decreases chunks.len(),
{
    if chunks.len() == 0 {
        Ok(Seq::empty())
    } else {
        match gathered(chunks.drop_last()) {
            Ok(c) => reply_step(c, chunks.last()),
            Err(e) => Err(e),
        }
    }
}

/// The texts of pieces, one after another.
pub open spec fn concatenated(texts: Seq<Seq<char>>) -> Seq<char>
    decreases texts.len(),
{
    if texts.len() == 0 {
        Seq::empty()
    } else {
        concatenated(texts.drop_last()) + texts.last()
    }
}

/// Adds one streamed piece to the reply gathered so far; a failed piece ends
/// the reply with its error.
pub fn absorb_chunk(content: String, chunk: Result<String, LlmdError>) -> (r: Result<String, LlmdError>)
    ensures
        text_result(r) == reply_step(content@, text_result(chunk)),
        chunk matches Ok(c) ==> (r matches Ok(s) && s@ == content@ + c@),
        chunk matches Err(e) ==> (r matches Err(f) && f@ == e@),
{
    match chunk {
        Ok(c) => {
            let mut content = content;
            content.append(c.as_str());
            Ok(content)
        },
        Err(e) => Err(e),
    }
}

/// A chat's reply is its stream gathered: when every piece succeeds, their
/// texts concatenated in order; otherwise the error of the first piece that
/// failed.
pub proof fn lemma_reply_gathers_stream(chunks: Seq<Result<Seq<char>, ErrorView>>)
    ensures
        (forall|i: int| 0 <= i < chunks.len() ==> (#[trigger] chunks[i]) is Ok) ==> gathered(chunks)
            == Ok::<Seq<char>, ErrorView>(
            concatenated(chunks.map_values(|c: Result<Seq<char>, ErrorView>| c->Ok_0)),
        ),
        forall|k: int|
            0 <= k < chunks.len() && (#[trigger] chunks[k]) is Err && (forall|j: int|
                0 <= j < k ==> chunks[j] is Ok) ==> gathered(chunks) == chunks[k],
    decreases chunks.len(),
{
    if chunks.len() > 0 {
        let init = chunks.drop_last();
        lemma_reply_gathers_stream(init);
        assert(chunks.map_values(|c: Result<Seq<char>, ErrorView>| c->Ok_0).drop_last() =~= init.map_values(
            |c: Result<Seq<char>, ErrorView>| c->Ok_0,
        ));
        if forall|i: int| 0 <= i < chunks.len() ==> (#[trigger] chunks[i]) is Ok {
            assert forall|i: int| 0 <= i < init.len() implies (#[trigger] init[i]) is Ok by {
                assert(init[i] == chunks[i]);
            }
            assert(chunks[chunks.len() - 1] is Ok);
        }
        assert forall|k: int|
            0 <= k < chunks.len() && (#[trigger] chunks[k]) is Err && (forall|j: int|
                0 <= j < k ==> chunks[j] is Ok) implies gathered(chunks) == chunks[k] by {
            if k < chunks.len() - 1 {
                assert(init[k] == chunks[k]);
                assert forall|j: int| 0 <= j < k implies init[j] is Ok by {
                    assert(init[j] == chunks[j]);
                }
            } else {
                assert forall|i: int| 0 <= i < init.len() implies (#[trigger] init[i]) is Ok by {
                    assert(init[i] == chunks[i]);
                }
            }
        }
    }
}

/// The engine the cache holds, as far as a new request needs to know it.
pub struct CachedEngine {
    /// Whether it was loaded from the requested model file.
    pub same_path: bool,
    /// Whether a running conversation still uses it.
    pub in_use: bool,
    /// Its model file, as shown to users.
    pub path_text: String,
}

/// What to do to serve a model from the engine cache.
pub enum EngineLoad {
    /// Use the cached engine.
    Reuse,
    /// Drop any cached engine and load the requested model.
    Load,
    /// Refuse: another model's engine is still running.
    Busy(LlmdError),
}

/// The refusal given while another model's engine runs.
pub open spec fn busy_message(requested: Seq<char>, active: Seq<char>) -> Seq<char> {
    "Cannot load model "@ + requested + " while model "@ + active + " is still active"@
}

/// Decides how to serve the model at `requested`: reuse the cached engine of
/// the same model, refuse while another model's engine is in use, and load
/// the model otherwise. One engine is held at a time.
pub fn plan_engine_load(cached: Option<CachedEngine>, requested: &str) -> (r: EngineLoad)
    ensures
        cached is None ==> r is Load,
        cached matches Some(c) ==> (c.same_path ==> r is Reuse),
        cached matches Some(c) ==> (!c.same_path && c.in_use ==> (r matches EngineLoad::Busy(e)
            && e@ == ErrorView::Backend(busy_message(requested@, c.path_text@)))),
        cached matches Some(c) ==> (!c.same_path && !c.in_use ==> r is Load),
{
    match cached {
        None => EngineLoad::Load,
        Some(c) => {
            if c.same_path {
                EngineLoad::Reuse
            } else if c.in_use {
                let mut m = owned("Cannot load model ");
                m.append(requested);
                m.append(" while model ");
                m.append(c.path_text.as_str());
                m.append(" is still active");
                EngineLoad::Busy(LlmdError::Backend(m))
            } else {
                EngineLoad::Load
            }
        },
    }
}

/// Whether dropping the model at a path drops the cached engine: only when
/// the cache holds that model's engine.
pub fn invalidates(cached_same_path: Option<bool>) -> (r: bool)
    ensures
        r == (cached_same_path == Some(true)),
{
    match cached_same_path {
        Some(same) => same,
        None => false,
    }
}

} // verus!

verus! {

/// The native engine cache: at most one engine at a time, kept with the key
/// of the model it was loaded from.
pub struct EngineSlot<K, E> {
    entry: Option<(K, E)>,
}

impl<K, E> EngineSlot<K, E> {
    /// The engine held, with its model's key, if any.
    pub closed spec fn held(&self) -> Option<(K, E)> {
        self.entry
    }

    /// A cache that holds no engine.
    pub fn new() -> (s: EngineSlot<K, E>)
        ensures
            s.held() is None,
    {
        EngineSlot { entry: None }
    }

    /// The engine held, with its model's key, if any.
    pub fn current(&self) -> (r: Option<&(K, E)>)
        ensures
            match r {
                Some(x) => self.held() == Some(*x),
                None => self.held() is None,
            },
    {
        match &self.entry {
            Some(x) => Some(x),
            None => None,
        }
    }

    /// Makes the cache hold the engine of the model `key`, given what the
    /// caller found of the engine it holds. The cached engine is kept when it
    /// serves that model; the request is refused while another model's engine
    /// is in use; otherwise the cached engine is dropped first, and then the
    /// engine `build` makes is kept, or nothing when it fails.
    pub fn obtain<F: FnOnce() -> Result<E, LlmdError>>(
        &mut self,
        cached: Option<CachedEngine>,
        key: K,
        requested: &str,
        build: F,
    ) -> (r: Result<(), LlmdError>)
        requires
            (cached is None) == (old(self).held() is None),
            call_requires(build, ()),
        ensures
            cached matches Some(c) ==> (c.same_path ==> (r is Ok && final(self).held() == old(
                self,
            ).held())),
            cached matches Some(c) ==> (!c.same_path && c.in_use ==> (final(self).held() == old(
                self,
            ).held() && (r matches Err(e) && e@ == ErrorView::Backend(
                busy_message(requested@, c.path_text@),
            )))),
            (cached is None || (cached matches Some(c) && !c.same_path && !c.in_use)) ==> exists|
                built: Result<E, LlmdError>,
            |
                call_ensures(build, (), built) && match built {
                    Ok(e) => r is Ok && final(self).held() == Some((key, e)),
                    Err(x) => r == Err::<(), LlmdError>(x) && final(self).held() is None,
                },
    {
        match plan_engine_load(cached, requested) {
            EngineLoad::Reuse => Ok(()),
            EngineLoad::Busy(e) => Err(e),
            EngineLoad::Load => {
                self.entry = None;
                let built = build();
                match built {
                    Ok(e) => {
                        self.entry = Some((key, e));
                        Ok(())
                    },
                    Err(x) => Err(x),
                }
            },
        }
    }

    /// Drops the cached engine when it serves the model being removed, given
    /// whether it does.
    pub fn invalidate(&mut self, same_path: Option<bool>)
        requires
            (same_path is None) == (old(self).held() is None),
        ensures
            same_path == Some(true) ==> final(self).held() is None,
            same_path != Some(true) ==> final(self).held() == old(self).held(),
    {
        if invalidates(same_path) {
            self.entry = None;
        }
    }
}

} // verus!

verus! {

/// What to do with one piece the engine streams.
pub struct ChunkRouting {
    /// Stop the engine: nobody reads the reply any more.
    pub cancel: bool,
    /// An error to pass on to the reader.
    pub error: Option<LlmdError>,
    /// Text to pass on to the reader.
    pub text: Option<String>,
}

/// Routes one streamed piece: when the reader has gone, the engine is stopped
/// and nothing is passed on; otherwise the piece's error is passed on as a
/// backend error, and its text when there is any. The engine is also stopped
/// when passing on the text fails.
pub fn route_chunk(reader_gone: bool, error: Option<String>, text: Option<String>) -> (r: ChunkRouting)
    ensures
        r.cancel == reader_gone,
        reader_gone ==> r.error is None && r.text is None,
        !reader_gone ==> match error {
            Some(m) => (r.error matches Some(e) && e@ == ErrorView::Backend(m@)),
            None => r.error is None,
        },
        !reader_gone ==> match text {
            Some(t) => if t@.len() > 0 {
                r.text matches Some(u) && u@ == t@
            } else {
                r.text is None
            },
            None => r.text is None,
        },
{
    if reader_gone {
        return ChunkRouting { cancel: true, error: None, text: None };
    }
    let error = match error {
        Some(m) => Some(LlmdError::Backend(m)),
        None => None,
    };
    let text = match text {
        Some(t) => if t.as_str().unicode_len() > 0 {
            Some(t)
        } else {
            None
        },
        None => None,
    };
    ChunkRouting { cancel: false, error, text }
}

} // verus!
