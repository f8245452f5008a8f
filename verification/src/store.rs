//! The model store: which ids name a model file, where the files live, which
//! files a listing shows, and how an import proceeds.
use vstd::prelude::*;

use crate::api::{backend, ErrorView, LlmdError, ModelInfo};
use crate::text::{
    chars_of, lemma_text_le_total, lemma_text_le_transitive, owned, push_chars, same_text, text_at_most,
    text_le,
};

verus! {

/// The extension of a model file, without its dot.
pub const MODEL_EXTENSION: &'static str = "litertlm";

/// The owner a listing reports for the models of the store.
pub const STORE_OWNER: &'static str = "litertlm-rs";

/// A character that may appear in a model id: an ASCII letter or digit,
/// `-`, `_` or `.`.
pub open spec fn id_char(c: char) -> bool {
    ||| ('a' <= c && c <= 'z')
    ||| ('A' <= c && c <= 'Z')
    ||| ('0' <= c && c <= '9')
    ||| c == '-'
    ||| c == '_'
    ||| c == '.'
}

/// A model id the store accepts: not empty, made of id characters only, not
/// `.` or `..`, and not ending in a dot.
pub open spec fn valid_model_id(id: Seq<char>) -> bool {
    &&& id.len() > 0
    &&& forall|i: int| 0 <= i < id.len() ==> id_char(#[trigger] id[i])
    &&& id != seq!['.']
    &&& id != seq!['.', '.']
    &&& id.last() != '.'
}

/// The file name under which the store keeps the model `id`.
pub open spec fn model_file(id: Seq<char>) -> Seq<char> {
    id + seq!['.', 'l', 'i', 't', 'e', 'r', 't', 'l', 'm']
}

fn is_id_char(c: char) -> (r: bool)
    ensures
        r == id_char(c),
{
    ('a' <= c && c <= 'z') || ('A' <= c && c <= 'Z') || ('0' <= c && c <= '9') || c == '-'
        || c == '_' || c == '.'
}

/// Accepts exactly the ids that name a file inside the store; any other id is
/// refused with `Invalid model ID`.
pub fn validate_model_id(model: &str) -> (r: Result<(), LlmdError>)
    ensures
        r is Ok <==> valid_model_id(model@),
        r matches Err(e) ==> e@ == ErrorView::Backend("Invalid model ID"@),
{
    let n = model.unicode_len();
    if n == 0 {
        return Err(backend("Invalid model ID"));
    }
    let mut i: usize = 0;
    while i < n
        invariant
            n == model@.len(),
            i <= n,
            forall|j: int| 0 <= j < i ==> id_char(#[trigger] model@[j]),
        decreases n - i,
    {
        if !is_id_char(model.get_char(i)) {
            return Err(backend("Invalid model ID"));
        }
        i = i + 1;
    }
    if model.get_char(n - 1) == '.' {
        return Err(backend("Invalid model ID"));
    }
    assert(model@ != seq!['.']);
    assert(model@ != seq!['.', '.']);
    Ok(())
}

/// The file name of the model `model` in the store, once its id is accepted.
pub fn model_file_name(model: &str) -> (r: Result<String, LlmdError>)
    ensures
        r is Ok <==> valid_model_id(model@),
        r matches Ok(name) ==> name@ == model_file(model@),
        r matches Err(e) ==> e@ == ErrorView::Backend("Invalid model ID"@),
{
    validate_model_id(model)?;
    let mut name = owned(model);
    let suffix = chars_of(".litertlm");
    proof {
        reveal_strlit(".litertlm");
    }
    push_chars(&mut name, &suffix);
    assert(name@ =~= model_file(model@));
    Ok(name)
}

/// Which ids the store accepts, character by character: exactly the
/// non-empty ids made of ASCII letters, ASCII digits, `-`, `_` and `.` that do
/// not end in a dot (so `.` and `..` are refused too).
pub proof fn lemma_accepted_ids(id: Seq<char>)
    ensures
        valid_model_id(id) <==> {
            &&& id.len() > 0
            &&& forall|i: int|
                0 <= i < id.len() ==> {
                    let c = #[trigger] id[i];
                    ||| ('a' <= c && c <= 'z')
                    ||| ('A' <= c && c <= 'Z')
                    ||| ('0' <= c && c <= '9')
                    ||| c == '-'
                    ||| c == '_'
                    ||| c == '.'
                }
            &&& id.last() != '.'
        },
{
    if id.len() > 0 && id.last() != '.' {
        assert(id != seq!['.']) by {
            if id == seq!['.'] {
                assert(id.last() == '.');
            }
        }
        assert(id != seq!['.', '.']) by {
            if id == seq!['.', '.'] {
                assert(id.last() == '.');
            }
        }
    }
}

/// An accepted id cannot leave the store: it holds no path separator, no
/// drive or stream colon, and is neither `.` nor `..`; the same holds of the
/// file name made from it.
pub proof fn lemma_accepted_ids_stay_in_store(id: Seq<char>)
    requires
        valid_model_id(id),
    ensures
        !id.contains('/'),
        !id.contains('\\'),
        !id.contains(':'),
        id != seq!['.'],
        id != seq!['.', '.'],
        !model_file(id).contains('/'),
        !model_file(id).contains('\\'),
        !model_file(id).contains(':'),
{
    assert forall|c: char| #[trigger] model_file(id).contains(c) implies id_char(c) by {
        let k = choose|k: int| 0 <= k < model_file(id).len() && model_file(id)[k] == c;
        if k < id.len() {
            assert(id_char(id[k]));
        }
    }
    assert forall|c: char| #[trigger] id.contains(c) implies id_char(c) by {
        let k = choose|k: int| 0 <= k < id.len() && id[k] == c;
        assert(id_char(id[k]));
    }
}

} // verus!

verus! {

/// Models in order of their ids.
pub open spec fn sorted_by_id(models: Seq<ModelInfo>) -> bool {
    forall|i: int, j: int|
        0 <= i < j < models.len() ==> text_le(#[trigger] models[i].id@, #[trigger] models[j].id@)
}

proof fn lemma_insert_keeps_multiset(s: Seq<ModelInfo>, k: int, x: ModelInfo)
    requires
        0 <= k <= s.len(),
    ensures
        s.insert(k, x).to_multiset() =~= s.to_multiset().insert(x),
{
    broadcast use vstd::seq_lib::group_to_multiset_ensures;

    let t = s.insert(k, x);
    assert(t.remove(k) =~= s);
    assert(t[k] == x);
    assert(t.to_multiset().count(x) > 0) by {
        assert(t.contains(x));
    }
}

/// Sorts models by id.
pub fn sort_models(models: Vec<ModelInfo>) -> (sorted: Vec<ModelInfo>)
    ensures
        sorted_by_id(sorted@),
        sorted@.to_multiset() == models@.to_multiset(),
{
    let mut rest = models;
    let mut sorted: Vec<ModelInfo> = Vec::new();
    proof {
        broadcast use vstd::seq_lib::group_to_multiset_ensures;
        assert(sorted@.to_multiset() =~= vstd::multiset::Multiset::<ModelInfo>::empty());
        assert(sorted@.to_multiset().add(rest@.to_multiset()) =~= models@.to_multiset());
    }
    while rest.len() > 0
        invariant
            sorted_by_id(sorted@),
            sorted@.to_multiset().add(rest@.to_multiset()) == models@.to_multiset(),
        decreases rest.len(),
    {
        let ghost rest0 = rest@;
        let m = rest.remove(0);
        proof {
            broadcast use vstd::seq_lib::group_to_multiset_ensures;
            assert(rest0.remove(0) =~= rest@);
            assert(rest0.to_multiset().count(m) > 0) by {
                assert(rest0[0] == m);
                assert(rest0.contains(m));
            }
        }
        let mut k: usize = 0;
        while k < sorted.len() && text_at_most(sorted[k].id.as_str(), m.id.as_str())
            invariant
                k <= sorted.len(),
                forall|j: int| 0 <= j < k ==> text_le(#[trigger] sorted@[j].id@, m.id@),
            decreases sorted.len() - k,
        {
            k = k + 1;
        }
        let ghost before = sorted@;
        proof {
            if k < before.len() {
                lemma_text_le_total(before[k as int].id@, m.id@);
            }
            lemma_insert_keeps_multiset(before, k as int, m);
        }
        sorted.insert(k, m);
        assert forall|i: int, j: int| 0 <= i < j < sorted@.len() implies text_le(
            #[trigger] sorted@[i].id@,
            #[trigger] sorted@[j].id@,
        ) by {
            if j < k {
                assert(sorted@[i] == before[i] && sorted@[j] == before[j]);
            } else if j == k {
                assert(sorted@[i] == before[i]);
            } else if i == k {
                assert(sorted@[j] == before[j - 1]);
                if j - 1 > k {
                    assert(text_le(before[k as int].id@, before[j - 1].id@));
                    lemma_text_le_transitive(m.id@, before[k as int].id@, before[j - 1].id@);
                }
            } else if i < k {
                assert(sorted@[i] == before[i]);
                assert(sorted@[j] == before[j - 1]);
                assert(text_le(before[i].id@, m.id@));
                if k < before.len() {
                    assert(text_le(before[i].id@, before[k as int].id@));
                    if j - 1 > k {
                        lemma_text_le_transitive(
                            before[i].id@,
                            before[k as int].id@,
                            before[j - 1].id@,
                        );
                    }
                }
            } else {
                assert(sorted@[i] == before[i - 1]);
                assert(sorted@[j] == before[j - 1]);
            }
        }
        proof {
            assert(sorted@.to_multiset().add(rest@.to_multiset()) =~= models@.to_multiset());
        }
    }
    proof {
        broadcast use vstd::seq_lib::group_to_multiset_ensures;
        assert(rest@ =~= Seq::<ModelInfo>::empty());
        assert(rest@.to_multiset() =~= vstd::multiset::Multiset::<ModelInfo>::empty());
        assert(sorted@.to_multiset().add(rest@.to_multiset()) =~= sorted@.to_multiset());
    }
    sorted
}

} // verus!

verus! {

/// Whether a file's extension marks a model file.
pub fn is_model_extension(extension: Option<&str>) -> (r: bool)
    ensures
        r == (extension matches Some(e) && e@ == MODEL_EXTENSION@),
{
    match extension {
        Some(e) => same_text(e, MODEL_EXTENSION),
        None => false,
    }
}

/// A model file can be served when it is a regular file with content.
pub fn is_usable_model_file(is_file: bool, len: u64) -> (r: bool)
    ensures
        r == (is_file && len > 0),
{
    is_file && len > 0
}

/// The listing entry of a model file with the given stem: present exactly
/// when the stem is readable text and an accepted id.
pub fn listed_model(stem: Option<&str>) -> (r: Option<ModelInfo>)
    ensures
        r is Some <==> (stem matches Some(s) && valid_model_id(s@)),
        r matches Some(m) ==> (stem matches Some(s) && m.id@ == s@ && m.owned_by@ == STORE_OWNER@),
{
    match stem {
        Some(s) => match validate_model_id(s) {
            Ok(()) => Some(ModelInfo { id: owned(s), owned_by: owned(STORE_OWNER) }),
            Err(_) => None,
        },
        None => None,
    }
}

/// The views of a list of path parts.
pub open spec fn parts_view(parts: Seq<&'static str>) -> Seq<Seq<char>> {
    parts.map_values(|p: &'static str| p@)
}

/// Where the store lives, as a base directory and the parts to join to it:
/// the configured directory itself, or the `llmd/models` directory under the
/// user's local data directory; with neither, the store cannot be found.
pub fn model_dir<P>(configured: Option<P>, data_local: Option<P>) -> (r: Result<
    (P, Vec<&'static str>),
    LlmdError,
>)
    ensures
        configured matches Some(p) ==> (r matches Ok((base, parts)) && base == p && parts@.len()
            == 0),
        configured is None ==> (data_local matches Some(l) ==> (r matches Ok((base, parts)) && base
            == l && parts_view(parts@) == seq!["llmd"@, "models"@])),
        configured is None && data_local is None ==> (r matches Err(e) && e@ == ErrorView::Backend(
            "Cannot determine model directory; set LLMD_MODEL_DIR"@,
        )),
{
    match configured {
        Some(p) => Ok((p, Vec::new())),
        None => match data_local {
            Some(l) => {
                let mut parts: Vec<&'static str> = Vec::new();
                parts.push("llmd");
                parts.push("models");
                assert(parts_view(parts@) =~= seq!["llmd"@, "models"@]);
                Ok((l, parts))
            },
            None => Err(backend("Cannot determine model directory; set LLMD_MODEL_DIR")),
        },
    }
}

/// The number of concurrent requests a provider allows, checked: it must be
/// positive and fit in a `u32`.
pub fn check_pool_size(pool_size: usize) -> (r: Result<u32, LlmdError>)
    ensures
        pool_size == 0 ==> (r matches Err(e) && e@ == ErrorView::Backend("pool_size must be positive"@)),
        0 < pool_size <= u32::MAX ==> r == Ok::<u32, LlmdError>(pool_size as u32),
        pool_size > u32::MAX ==> (r matches Err(e) && e@ is Backend),
{
    if pool_size == 0 {
        return Err(backend("pool_size must be positive"));
    }
    match u32::try_from(pool_size) {
        Ok(p) => Ok(p),
        Err(e) => Err(LlmdError::Backend(e.to_string())),
    }
}

/// The address the default model is downloaded from.
pub open spec fn download_url_of(id: Seq<char>) -> Seq<char> {
    "https://huggingface.co/litert-community/"@ + id + "-litert-lm/resolve/main/"@ + id + ".litertlm"@
}

/// The download address of the model `id`.
pub fn download_url(id: &str) -> (url: String)
    ensures
        url@ == download_url_of(id@),
{
    let mut url = owned("https://huggingface.co/litert-community/");
    url.append(id);
    url.append("-litert-lm/resolve/main/");
    url.append(id);
    url.append(".litertlm");
    url
}

/// A chat needs its model's file in the store.
pub fn require_model_file(model: &str, file_exists: bool) -> (r: Result<(), LlmdError>)
    ensures
        file_exists ==> r is Ok,
        !file_exists ==> (r matches Err(e) && e@ == ErrorView::ModelNotFound(model@)),
{
    if file_exists {
        Ok(())
    } else {
        Err(LlmdError::ModelNotFound(owned(model)))
    }
}

} // verus!

verus! {

/// Every model a listing shows can be asked for by its id: the id names a
/// file inside the store, the very file the listing found.
pub proof fn lemma_listed_models_can_be_served(stem: Seq<char>)
    requires
        valid_model_id(stem),
    ensures
        model_file(stem).subrange(0, stem.len() as int) == stem,
        model_file(stem).subrange(stem.len() as int, model_file(stem).len() as int) == seq![
            '.', 'l', 'i', 't', 'e', 'r', 't', 'l', 'm',
        ],
        !model_file(stem).contains('/'),
{
    assert(model_file(stem).subrange(0, stem.len() as int) =~= stem);
    assert(model_file(stem).subrange(stem.len() as int, model_file(stem).len() as int) =~= seq![
        '.', 'l', 'i', 't', 'e', 'r', 't', 'l', 'm',
    ]);
    lemma_accepted_ids_stay_in_store(stem);
}

} // verus!
