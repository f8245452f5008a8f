//! The Android provider's decisions, and the bookkeeping of chat completions
//! handed to the Android bridge and answered later by id.
use vstd::prelude::*;
use std::collections::HashMap;

use crate::api::{backend, ChatResponse, ErrorView, LlmdError, ModelInfo, DEFAULT_MODEL};
use crate::text::{owned, same_text};

verus! {

/// The name under which the Android provider reports its models.
pub const ANDROID_PROVIDER_NAME: &'static str = "litert-lm-android";

/// Where the Android provider expects its one model file.
pub const DEFAULT_MODEL_PATH: &'static str = "/data/local/tmp/llmd/gemma-4-E2B-it.litertlm";

/// The provider that serves the default model through the Android bridge.
pub struct AndroidLiteRtProvider;

impl AndroidLiteRtProvider {
    /// The models on offer: the default model when its file is usable, and
    /// none otherwise.
    pub fn models(&self, model_file_usable: bool) -> (r: Vec<ModelInfo>)
        ensures
            model_file_usable ==> r@.len() == 1 && r@[0].id@ == DEFAULT_MODEL@ && r@[0].owned_by@
                == ANDROID_PROVIDER_NAME@,
            !model_file_usable ==> r@.len() == 0,
    {
        let mut models: Vec<ModelInfo> = Vec::new();
        if model_file_usable {
            models.push(ModelInfo { id: owned(DEFAULT_MODEL), owned_by: owned(ANDROID_PROVIDER_NAME) });
        }
        models
    }

    /// Whether a chat can go to the bridge: only the default model is
    /// served, and only while its file is usable.
    pub fn check_chat(&self, model: &str, model_file_usable: bool) -> (r: Result<(), LlmdError>)
        ensures
            r is Ok <==> (model@ == DEFAULT_MODEL@ && model_file_usable),
            r matches Err(e) ==> e@ == ErrorView::ModelNotFound(model@),
    {
        if !same_text(model, DEFAULT_MODEL) {
            return Err(LlmdError::ModelNotFound(owned(model)));
        }
        if !model_file_usable {
            return Err(LlmdError::ModelNotFound(owned(model)));
        }
        Ok(())
    }

    /// The reply to a chat the bridge answered: the default model's reply
    /// with the bridge's text.
    pub fn reply(&self, content: String) -> (r: ChatResponse)
        ensures
            r.model@ == DEFAULT_MODEL@,
            r.content == content,
    {
        ChatResponse { model: owned(DEFAULT_MODEL), content }
    }
}

/// What the bridge's error field decides about a completion: a message is a
/// backend error, a failed read is that failure, and an empty field leaves
/// the answer to the response field.
pub fn completion_from_error_field(error_field: Result<Option<String>, LlmdError>) -> (r: Option<
    Result<String, LlmdError>,
>)
    ensures
        error_field matches Ok(Some(m)) ==> (r matches Some(Err(e)) && e@ == ErrorView::Backend(m@)),
        error_field matches Err(f) ==> (r matches Some(Err(e)) && e@ == f@),
        error_field matches Ok(None) ==> r is None,
{
    match error_field {
        Ok(Some(message)) => Some(Err(LlmdError::Backend(message))),
        Ok(None) => None,
        Err(e) => Some(Err(e)),
    }
}

/// What the bridge's response field decides about a completion once the
/// error field is empty: its text, a failed read, or no answer at all.
pub fn completion_from_response_field(response_field: Result<Option<String>, LlmdError>) -> (r: Result<
    String,
    LlmdError,
>)
    ensures
        response_field matches Ok(Some(t)) ==> (r matches Ok(s) && s@ == t@),
        response_field matches Err(f) ==> (r matches Err(e) && e@ == f@),
        response_field matches Ok(None) ==> (r matches Err(e) && e@ == ErrorView::Backend(
            "Android chat completion returned no response"@,
        )),
{
    match response_field {
        Ok(Some(text)) => Ok(text),
        Ok(None) => Err(backend("Android chat completion returned no response")),
        Err(e) => Err(e),
    }
}

/// The chat completions waiting for the bridge, each under its own id, and
/// the id the next one gets.
pub struct PendingCompletions<S> {
    next_id: i64,
    waiting: HashMap<i64, S>,
}

/// The id after `id`, wrapping from the largest to the smallest.
pub open spec fn following_id(id: i64) -> i64 {
    if id == i64::MAX {
        i64::MIN
    } else {
        (id + 1) as i64
    }
}

impl<S> PendingCompletions<S> {
    /// The id the next completion gets.
    pub closed spec fn next_id(&self) -> i64 {
        self.next_id
    }

    /// The waiting completions by id.
    pub closed spec fn waiting(&self) -> Map<i64, S> {
        self.waiting@
    }

    /// No completion waits, and the first id is 1.
    pub fn new() -> (p: PendingCompletions<S>)
        ensures
            p.next_id() == 1,
            p.waiting() == Map::<i64, S>::empty(),
    {
        PendingCompletions { next_id: 1, waiting: HashMap::new() }
    }

    /// Registers a completion under a fresh id and returns the id.
    pub fn begin(&mut self, sender: S) -> (id: i64)
        ensures
            id == old(self).next_id(),
            final(self).next_id() == following_id(id),
            final(self).waiting() == old(self).waiting().insert(id, sender),
    {
        broadcast use vstd::std_specs::hash::group_hash_axioms;

        let id = self.next_id;
        self.next_id = if id == i64::MAX { i64::MIN } else { id + 1 };
        self.waiting.insert(id, sender);
        id
    }

    /// Removes the completion waiting under `id` and returns it, if there is
    /// one.
    pub fn take(&mut self, id: i64) -> (r: Option<S>)
        ensures
            final(self).next_id() == old(self).next_id(),
            final(self).waiting() == old(self).waiting().remove(id),
            old(self).waiting().contains_key(id) ==> r == Some(old(self).waiting()[id]),
            !old(self).waiting().contains_key(id) ==> r is None,
    {
        broadcast use vstd::std_specs::hash::group_hash_axioms;

        self.waiting.remove(&id)
    }
}

/// A completion is answered to the request that began it: once registered
/// under an id, taking that id yields it, and leaves the other waiting
/// completions as they were.
pub proof fn lemma_completion_reaches_its_request<S>(waiting: Map<i64, S>, id: i64, sender: S)
    ensures
        waiting.insert(id, sender).contains_key(id),
        waiting.insert(id, sender)[id] == sender,
        waiting.insert(id, sender).remove(id) == waiting.remove(id),
{
    assert(waiting.insert(id, sender).remove(id) =~= waiting.remove(id));
}

/// Consecutive completions get different ids.
pub proof fn lemma_consecutive_ids_differ(id: i64)
    ensures
        following_id(id) != id,
{
}

} // verus!
