//! Importing a model into the store, as a machine that the caller drives:
//! each step takes what the last action found and says what to do next.
use vstd::prelude::*;

use crate::api::{backend, ErrorView, LlmdError, DEFAULT_MODEL};
use crate::store::{
    download_url, download_url_of, is_model_extension, model_file, model_file_name,
    valid_model_id, MODEL_EXTENSION,
};
use crate::text::{owned, same_text};

verus! {

/// Where an import stands.
pub enum ImportState {
    /// The source named by `model` is being inspected.
    Inspecting { model: String },
    /// The store is being searched for the model `id`.
    Locating { id: String, local: bool },
    /// The store directory and a temporary file are being prepared.
    Staging { id: String, local: bool },
    /// The model's bytes are being written to the temporary file.
    Transferring,
    /// The temporary file is being moved into place.
    Persisting,
    /// The import is over.
    Finished,
}

/// What the caller found while carrying out the last action.
pub enum ImportEvent {
    /// Whether the source is a local file, and its extension and stem when
    /// they are readable text.
    Inspected { is_local_file: bool, extension: Option<String>, stem: Option<String> },
    /// Whether the store already holds the model's file.
    Located { exists: bool },
    /// The store directory and the temporary file are ready.
    Staged,
    /// The temporary file now holds `len` bytes.
    Transferred { len: u64 },
    /// The temporary file was moved into place.
    Persisted,
}

/// What the caller must do next.
pub enum ImportAction {
    /// Find out whether the source is a local file, and its extension and stem.
    Inspect,
    /// Check whether the store holds a file of this name.
    Locate { file_name: String },
    /// Create the store directory and a temporary file in it.
    Stage,
    /// Copy the source file into the temporary file.
    CopyLocal,
    /// Download this address into the temporary file.
    Download { url: String },
    /// Move the temporary file to the model's file, never replacing one.
    Persist,
    /// Stop, with this outcome.
    Finish(Result<(), LlmdError>),
}

/// An import's state as contracts see it.
pub enum ImportStateView {
    Inspecting(Seq<char>),
    Locating(Seq<char>, bool),
    Staging(Seq<char>, bool),
    Transferring,
    Persisting,
    Finished,
}

/// An event as contracts see it.
pub enum ImportEventView {
    Inspected(bool, Option<Seq<char>>, Option<Seq<char>>),
    Located(bool),
    Staged,
    Transferred(u64),
    Persisted,
}

/// An action as contracts see it.
pub enum ImportActionView {
    Inspect,
    Locate(Seq<char>),
    Stage,
    CopyLocal,
    Download(Seq<char>),
    Persist,
    Finish(Result<(), ErrorView>),
}

/// The characters of an optional text.
pub open spec fn text_view(t: Option<String>) -> Option<Seq<char>> {
    match t {
        Some(s) => Some(s@),
        None => None,
    }
}

impl View for ImportState {
    type V = ImportStateView;

    open spec fn view(&self) -> ImportStateView {
        match self {
            ImportState::Inspecting { model } => ImportStateView::Inspecting(model@),
            ImportState::Locating { id, local } => ImportStateView::Locating(id@, *local),
            ImportState::Staging { id, local } => ImportStateView::Staging(id@, *local),
            ImportState::Transferring => ImportStateView::Transferring,
            ImportState::Persisting => ImportStateView::Persisting,
            ImportState::Finished => ImportStateView::Finished,
        }
    }
}

impl View for ImportEvent {
    type V = ImportEventView;

    open spec fn view(&self) -> ImportEventView {
        match self {
            ImportEvent::Inspected { is_local_file, extension, stem } => ImportEventView::Inspected(
                *is_local_file,
                text_view(*extension),
                text_view(*stem),
            ),
            ImportEvent::Located { exists } => ImportEventView::Located(*exists),
            ImportEvent::Staged => ImportEventView::Staged,
            ImportEvent::Transferred { len } => ImportEventView::Transferred(*len),
            ImportEvent::Persisted => ImportEventView::Persisted,
        }
    }
}

impl View for ImportAction {
    type V = ImportActionView;

    open spec fn view(&self) -> ImportActionView {
        match self {
            ImportAction::Inspect => ImportActionView::Inspect,
            ImportAction::Locate { file_name } => ImportActionView::Locate(file_name@),
            ImportAction::Stage => ImportActionView::Stage,
            ImportAction::CopyLocal => ImportActionView::CopyLocal,
            ImportAction::Download { url } => ImportActionView::Download(url@),
            ImportAction::Persist => ImportActionView::Persist,
            ImportAction::Finish(r) => ImportActionView::Finish(
                match r {
                    Ok(()) => Ok(()),
                    Err(e) => Err(e@),
                },
            ),
        }
    }
}

/// The end of an import that failed with a backend error.
pub open spec fn fail(message: Seq<char>) -> (ImportStateView, ImportActionView) {
    (ImportStateView::Finished, ImportActionView::Finish(Err(ErrorView::Backend(message))))
}

/// The id a source stands for: a local file's stem, or the name itself.
pub open spec fn source_id(
    model: Seq<char>,
    is_local_file: bool,
    extension: Option<Seq<char>>,
    stem: Option<Seq<char>>,
) -> Result<Seq<char>, Seq<char>> {
    if is_local_file {
        if extension != Some(MODEL_EXTENSION@) {
            Err("Expected a .litertlm file"@)
        } else {
            match stem {
                Some(s) => Ok(s),
                None => Err("Invalid filename"@),
            }
        }
    } else {
        Ok(model)
    }
}

/// Whether an event answers the action that the state is waiting on.
pub open spec fn answers(state: ImportStateView, event: ImportEventView) -> bool {
    match (state, event) {
        (ImportStateView::Inspecting(_), ImportEventView::Inspected(_, _, _)) => true,
        (ImportStateView::Locating(_, _), ImportEventView::Located(_)) => true,
        (ImportStateView::Staging(_, _), ImportEventView::Staged) => true,
        (ImportStateView::Transferring, ImportEventView::Transferred(_)) => true,
        (ImportStateView::Persisting, ImportEventView::Persisted) => true,
        _ => false,
    }
}

/// One step of an import: the state that follows and the action to take.
pub open spec fn import_transition(state: ImportStateView, event: ImportEventView) -> (
    ImportStateView,
    ImportActionView,
) {
    match (state, event) {
        (ImportStateView::Inspecting(model), ImportEventView::Inspected(local, extension, stem)) => {
            match source_id(model, local, extension, stem) {
                Err(message) => fail(message),
                Ok(id) => if valid_model_id(id) {
                    (ImportStateView::Locating(id, local), ImportActionView::Locate(model_file(id)))
                } else {
                    fail("Invalid model ID"@)
                },
            }
        },
        (ImportStateView::Locating(id, local), ImportEventView::Located(exists)) => {
            if exists {
                (ImportStateView::Finished, ImportActionView::Finish(Ok(())))
            } else {
                (ImportStateView::Staging(id, local), ImportActionView::Stage)
            }
        },
        (ImportStateView::Staging(id, local), ImportEventView::Staged) => {
            if local {
                (ImportStateView::Transferring, ImportActionView::CopyLocal)
            } else if id != DEFAULT_MODEL@ {
                fail("Unknown download alias; import a local .litertlm file instead"@)
            } else {
                (ImportStateView::Transferring, ImportActionView::Download(download_url_of(id)))
            }
        },
        (ImportStateView::Transferring, ImportEventView::Transferred(len)) => {
            if len == 0 {
                fail("Model file is empty"@)
            } else {
                (ImportStateView::Persisting, ImportActionView::Persist)
            }
        },
        (ImportStateView::Persisting, ImportEventView::Persisted) => {
            (ImportStateView::Finished, ImportActionView::Finish(Ok(())))
        },
        // never taken: a step is only made with an event that answers the state
        _ => (state, ImportActionView::Inspect),
    }
}

/// The first state of an import of `model`, a local `.litertlm` file path or
/// the name of the built-in default model, and its first action.
pub fn start_import(model: &str) -> (r: (ImportState, ImportAction))
    ensures
        r.0@ == ImportStateView::Inspecting(model@),
        r.1@ == ImportActionView::Inspect,
{
    (ImportState::Inspecting { model: owned(model) }, ImportAction::Inspect)
}

fn finish_with(message: &str) -> (r: (ImportState, ImportAction))
    ensures
        (r.0@, r.1@) == fail(message@),
{
    (ImportState::Finished, ImportAction::Finish(Err(backend(message))))
}

/// Takes one step of an import.
pub fn import_step(state: ImportState, event: ImportEvent) -> (r: (ImportState, ImportAction))
    requires
        answers(state@, event@),
    ensures
        (r.0@, r.1@) == import_transition(state@, event@),
{
    match (state, event) {
        (ImportState::Inspecting { model }, ImportEvent::Inspected { is_local_file, extension, stem }) => {
            let id = if is_local_file {
                let ext_ok = match &extension {
                    Some(e) => is_model_extension(Some(e.as_str())),
                    None => is_model_extension(None),
                };
                if !ext_ok {
                    return finish_with("Expected a .litertlm file");
                }
                match stem {
                    Some(s) => s,
                    None => {
                        return finish_with("Invalid filename");
                    },
                }
            } else {
                model
            };
            match model_file_name(id.as_str()) {
                Ok(file_name) => (
                    ImportState::Locating { id, local: is_local_file },
                    ImportAction::Locate { file_name },
                ),
                Err(_) => finish_with("Invalid model ID"),
            }
        },
        (ImportState::Locating { id, local }, ImportEvent::Located { exists }) => {
            if exists {
                (ImportState::Finished, ImportAction::Finish(Ok(())))
            } else {
                (ImportState::Staging { id, local }, ImportAction::Stage)
            }
        },
        (ImportState::Staging { id, local }, ImportEvent::Staged) => {
            if local {
                (ImportState::Transferring, ImportAction::CopyLocal)
            } else if !same_text(id.as_str(), DEFAULT_MODEL) {
                finish_with("Unknown download alias; import a local .litertlm file instead")
            } else {
                (ImportState::Transferring, ImportAction::Download { url: download_url(id.as_str()) })
            }
        },
        (ImportState::Transferring, ImportEvent::Transferred { len }) => {
            if len == 0 {
                finish_with("Model file is empty")
            } else {
                (ImportState::Persisting, ImportAction::Persist)
            }
        },
        (ImportState::Persisting, ImportEvent::Persisted) => (ImportState::Finished, ImportAction::Finish(Ok(()))),
        (state, _) => (state, ImportAction::Inspect),
    }
}

} // verus!

verus! {

/// An import never replaces a model that the store already holds: once the
/// model's file is found, the import finishes successfully without staging,
/// transferring or moving anything.
pub proof fn lemma_import_never_overwrites(id: Seq<char>, local: bool)
    ensures
        import_transition(ImportStateView::Locating(id, local), ImportEventView::Located(true)) == (
            ImportStateView::Finished,
            ImportActionView::Finish(Ok::<(), ErrorView>(())),
        ),
{
}

/// Every file an import looks for or creates in the store is named by an
/// accepted id followed by `.litertlm`.
pub proof fn lemma_import_names_stay_in_store(state: ImportStateView, event: ImportEventView)
    requires
        import_transition(state, event).1 is Locate,
    ensures
        exists|id: Seq<char>|
            valid_model_id(id) && import_transition(state, event).1 == ImportActionView::Locate(
                #[trigger] model_file(id),
            ),
{
    match (state, event) {
        (ImportStateView::Inspecting(model), ImportEventView::Inspected(local, extension, stem)) => {
            let id = source_id(model, local, extension, stem)->Ok_0;
            assert(valid_model_id(id));
        },
        _ => {},
    }
}

/// A local model file is imported under its file name without the
/// `.litertlm` extension.
pub proof fn lemma_local_import_uses_stem(model: Seq<char>, stem: Seq<char>)
    requires
        valid_model_id(stem),
    ensures
        import_transition(
            ImportStateView::Inspecting(model),
            ImportEventView::Inspected(true, Some(MODEL_EXTENSION@), Some(stem)),
        ) == (ImportStateView::Locating(stem, true), ImportActionView::Locate(model_file(stem))),
{
}

/// Only the built-in default model is ever downloaded, and always from its
/// own address.
pub proof fn lemma_only_default_model_downloads(state: ImportStateView, event: ImportEventView)
    requires
        import_transition(state, event).1 is Download,
    ensures
        import_transition(state, event).1 == ImportActionView::Download(download_url_of(DEFAULT_MODEL@)),
{
}

/// An import that wrote nothing fails and never moves the empty file into
/// the store.
pub proof fn lemma_empty_import_fails()
    ensures
        import_transition(ImportStateView::Transferring, ImportEventView::Transferred(0)) == fail(
            "Model file is empty"@,
        ),
{
}

} // verus!

verus! {

/// The store's model files as contracts see them: file names and lengths.
pub type StoreFiles = Map<Seq<char>, u64>;

/// The ids a listing of the store shows: accepted ids whose model file is in
/// the store and not empty.
pub open spec fn listed_ids(store: StoreFiles) -> Set<Seq<char>> {
    Set::new(
        |id: Seq<char>|
            valid_model_id(id) && store.contains_key(model_file(id)) && store[model_file(id)] > 0,
    )
}

/// The store after an import of `id` persists `len` bytes: the file is moved
/// into place only where no file of that name exists.
pub open spec fn after_import(store: StoreFiles, id: Seq<char>, len: u64) -> StoreFiles {
    if store.contains_key(model_file(id)) {
        store
    } else {
        store.insert(model_file(id), len)
    }
}

/// The store after the model `id` is deleted: its file is gone.
pub open spec fn after_delete(store: StoreFiles, id: Seq<char>) -> StoreFiles {
    store.remove(model_file(id))
}

/// An import of a local model file into a store without it runs to the end:
/// it looks for `<stem>.litertlm`, stages, copies, moves the file into place
/// and succeeds; afterwards a listing shows the model under its stem.
pub proof fn lemma_imported_model_is_listed(model: Seq<char>, stem: Seq<char>, len: u64, store: StoreFiles)
    requires
        valid_model_id(stem),
        len > 0,
        !store.contains_key(model_file(stem)),
    ensures
        ({
            let t1 = import_transition(
                ImportStateView::Inspecting(model),
                ImportEventView::Inspected(true, Some(MODEL_EXTENSION@), Some(stem)),
            );
            let t2 = import_transition(t1.0, ImportEventView::Located(false));
            let t3 = import_transition(t2.0, ImportEventView::Staged);
            let t4 = import_transition(t3.0, ImportEventView::Transferred(len));
            let t5 = import_transition(t4.0, ImportEventView::Persisted);
            &&& t1.1 == ImportActionView::Locate(model_file(stem))
            &&& t2.1 == ImportActionView::Stage
            &&& t3.1 == ImportActionView::CopyLocal
            &&& t4.1 == ImportActionView::Persist
            &&& t5 == (ImportStateView::Finished, ImportActionView::Finish(Ok::<(), ErrorView>(())))
        }),
        listed_ids(after_import(store, stem, len)).contains(stem),
{
}

/// Deleting a model just imported into a store that lacked it gives back the
/// store as it was, and the listing no longer shows the model.
pub proof fn lemma_delete_undoes_import(store: StoreFiles, id: Seq<char>, len: u64)
    requires
        valid_model_id(id),
        !store.contains_key(model_file(id)),
    ensures
        after_delete(after_import(store, id, len), id) == store,
        !listed_ids(after_delete(after_import(store, id, len), id)).contains(id),
        listed_ids(after_delete(after_import(store, id, len), id)) == listed_ids(store),
{
    assert(after_delete(after_import(store, id, len), id) =~= store);
}

} // verus!

verus! {

/// The file an import looks for is the model file of the id its source
/// stands for: `<name>.litertlm` for a name that is not a local file, and
/// `<stem>.litertlm` for a local `.litertlm` file, whatever the other parts of
/// the inspection say.
pub proof fn lemma_import_looks_for_its_own_file(
    model: Seq<char>,
    extension: Option<Seq<char>>,
    stem: Option<Seq<char>>,
)
    ensures
        valid_model_id(model) ==> import_transition(
            ImportStateView::Inspecting(model),
            ImportEventView::Inspected(false, extension, stem),
        ) == (
            ImportStateView::Locating(model, false),
            ImportActionView::Locate(model + seq!['.', 'l', 'i', 't', 'e', 'r', 't', 'l', 'm']),
        ),
        stem matches Some(s) ==> (valid_model_id(s) ==> import_transition(
            ImportStateView::Inspecting(model),
            ImportEventView::Inspected(true, Some(seq!['l', 'i', 't', 'e', 'r', 't', 'l', 'm']), stem),
        ) == (
            ImportStateView::Locating(s, true),
            ImportActionView::Locate(s + seq!['.', 'l', 'i', 't', 'e', 'r', 't', 'l', 'm']),
        )),
{
    reveal_strlit("litertlm");
    assert(MODEL_EXTENSION@ =~= seq!['l', 'i', 't', 'e', 'r', 't', 'l', 'm']);
}

} // verus!
