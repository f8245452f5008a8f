use llmd::api::{LlmdError, ModelInfo, DEFAULT_MODEL};
use llmd::import::{import_step, start_import, ImportAction, ImportEvent, ImportState};
use llmd::store::{
    check_pool_size, download_url, is_model_extension, is_usable_model_file, listed_model,
    model_dir, model_file_name, require_model_file, sort_models, validate_model_id,
};

fn backend_text(e: &LlmdError) -> String {
    match e {
        LlmdError::Backend(m) => m.clone(),
        LlmdError::ModelNotFound(m) => panic!("expected a backend error, got model not found: {m}"),
    }
}

#[test]
fn model_ids_cannot_escape_store() {
    for id in ["", ".", "..", "../model", "C:\\model", "a/b", "x:stream", "model."] {
        assert!(validate_model_id(id).is_err(), "{id}");
    }
    assert!(validate_model_id(DEFAULT_MODEL).is_ok());
}

#[test]
fn invalid_model_id_is_a_backend_error() {
    let e = validate_model_id("a b").unwrap_err();
    assert_eq!(backend_text(&e), "Invalid model ID");
    assert!(validate_model_id("mo.del_v-2").is_ok());
    assert!(validate_model_id("modèle").is_err());
}

#[test]
fn model_file_names_end_in_litertlm() {
    assert_eq!(model_file_name("gemma-4-E2B-it").unwrap(), "gemma-4-E2B-it.litertlm");
    assert!(model_file_name("../x").is_err());
}

#[test]
fn listing_keeps_valid_stems_only() {
    let m = listed_model(Some("alpha")).unwrap();
    assert_eq!(m.id, "alpha");
    assert_eq!(m.owned_by, "litertlm-rs");
    assert!(listed_model(Some("bad.")).is_none());
    assert!(listed_model(None).is_none());
    assert!(is_model_extension(Some("litertlm")));
    assert!(!is_model_extension(Some("bin")));
    assert!(!is_model_extension(None));
    assert!(is_usable_model_file(true, 1));
    assert!(!is_usable_model_file(true, 0));
    assert!(!is_usable_model_file(false, 10));
}

fn model(id: &str) -> ModelInfo {
    ModelInfo { id: id.to_string(), owned_by: "litertlm-rs".to_string() }
}

#[test]
fn listing_is_sorted_by_id() {
    let sorted = sort_models(vec![model("zeta"), model("Alpha"), model("beta"), model("alpha"), model("be")]);
    let ids: Vec<&str> = sorted.iter().map(|m| m.id.as_str()).collect();
    assert_eq!(ids, vec!["Alpha", "alpha", "be", "beta", "zeta"]);
    assert!(sort_models(vec![]).is_empty());
}

#[test]
fn model_dir_prefers_configuration() {
    let (base, parts) = model_dir(Some("/env"), Some("/data")).unwrap();
    assert_eq!(base, "/env");
    assert!(parts.is_empty());
    let (base, parts) = model_dir(None, Some("/data")).unwrap();
    assert_eq!(base, "/data");
    assert_eq!(parts, vec!["llmd", "models"]);
    let e = model_dir::<&str>(None, None).unwrap_err();
    assert_eq!(backend_text(&e), "Cannot determine model directory; set LLMD_MODEL_DIR");
}

#[test]
fn pool_size_must_be_positive() {
    assert_eq!(backend_text(&check_pool_size(0).unwrap_err()), "pool_size must be positive");
    assert_eq!(check_pool_size(2).unwrap(), 2);
    if usize::BITS > 32 {
        let big = (u32::MAX as usize) + 1;
        assert!(check_pool_size(big).is_err());
    }
}

#[test]
fn default_model_download_address() {
    assert_eq!(
        download_url(DEFAULT_MODEL),
        "https://huggingface.co/litert-community/gemma-4-E2B-it-litert-lm/resolve/main/gemma-4-E2B-it.litertlm"
    );
}

#[test]
fn chat_needs_the_model_file() {
    assert!(require_model_file("m", true).is_ok());
    match require_model_file("m", false).unwrap_err() {
        LlmdError::ModelNotFound(id) => assert_eq!(id, "m"),
        LlmdError::Backend(m) => panic!("unexpected backend error {m}"),
    }
}

fn finish_error(action: ImportAction) -> String {
    match action {
        ImportAction::Finish(Err(e)) => backend_text(&e),
        _ => panic!("expected a failed finish"),
    }
}

#[test]
fn local_import_runs_to_persist() {
    let (state, action) = start_import("/tmp/my-model.litertlm");
    assert!(matches!(action, ImportAction::Inspect));
    let (state, action) = import_step(
        state,
        ImportEvent::Inspected {
            is_local_file: true,
            extension: Some("litertlm".to_string()),
            stem: Some("my-model".to_string()),
        },
    );
    match action {
        ImportAction::Locate { file_name } => assert_eq!(file_name, "my-model.litertlm"),
        _ => panic!("expected locate"),
    }
    let (state, action) = import_step(state, ImportEvent::Located { exists: false });
    assert!(matches!(action, ImportAction::Stage));
    let (state, action) = import_step(state, ImportEvent::Staged);
    assert!(matches!(action, ImportAction::CopyLocal));
    let (state, action) = import_step(state, ImportEvent::Transferred { len: 42 });
    assert!(matches!(action, ImportAction::Persist));
    let (state, action) = import_step(state, ImportEvent::Persisted);
    assert!(matches!(action, ImportAction::Finish(Ok(()))));
    assert!(matches!(state, ImportState::Finished));
}

#[test]
fn import_never_overwrites_existing_model() {
    let (state, _) = start_import(DEFAULT_MODEL);
    let (state, _) = import_step(
        state,
        ImportEvent::Inspected { is_local_file: false, extension: None, stem: None },
    );
    let (state, action) = import_step(state, ImportEvent::Located { exists: true });
    assert!(matches!(action, ImportAction::Finish(Ok(()))));
    assert!(matches!(state, ImportState::Finished));
}

#[test]
fn import_downloads_default_model_only() {
    let (state, _) = start_import(DEFAULT_MODEL);
    let (state, _) = import_step(
        state,
        ImportEvent::Inspected { is_local_file: false, extension: None, stem: None },
    );
    let (state, _) = import_step(state, ImportEvent::Located { exists: false });
    let (state, action) = import_step(state, ImportEvent::Staged);
    match action {
        ImportAction::Download { url } => assert_eq!(url, download_url(DEFAULT_MODEL)),
        _ => panic!("expected download"),
    }
    let (_, action) = import_step(state, ImportEvent::Transferred { len: 0 });
    assert_eq!(finish_error(action), "Model file is empty");

    let (state, _) = start_import("other-model");
    let (state, _) = import_step(
        state,
        ImportEvent::Inspected { is_local_file: false, extension: None, stem: None },
    );
    let (state, _) = import_step(state, ImportEvent::Located { exists: false });
    let (_, action) = import_step(state, ImportEvent::Staged);
    assert_eq!(finish_error(action), "Unknown download alias; import a local .litertlm file instead");
}

#[test]
fn import_refuses_bad_sources() {
    let inspect = |local: bool, ext: Option<&str>, stem: Option<&str>, model: &str| {
        let (state, _) = start_import(model);
        let (_, action) = import_step(
            state,
            ImportEvent::Inspected {
                is_local_file: local,
                extension: ext.map(|s| s.to_string()),
                stem: stem.map(|s| s.to_string()),
            },
        );
        finish_error(action)
    };
    assert_eq!(inspect(true, Some("bin"), Some("x"), "x.bin"), "Expected a .litertlm file");
    assert_eq!(inspect(true, None, Some("x"), "x"), "Expected a .litertlm file");
    assert_eq!(inspect(true, Some("litertlm"), None, ".litertlm"), "Invalid filename");
    assert_eq!(inspect(true, Some("litertlm"), Some("a b"), "a b.litertlm"), "Invalid model ID");
    assert_eq!(inspect(false, None, None, "../escape"), "Invalid model ID");
}

#[test]
fn error_views_name_their_kind() {
    let e = LlmdError::ModelNotFound("x".to_string());
    assert_eq!(e.message(), "model not found: x");
    let b = LlmdError::Backend("boom".to_string());
    assert_eq!(b.message(), "boom");
}

#[test]
fn imported_model_then_listed_then_deleted() {
    let (state, _) = start_import("/tmp/x.litertlm");
    let (state, action) = import_step(
        state,
        ImportEvent::Inspected {
            is_local_file: true,
            extension: Some("litertlm".to_string()),
            stem: Some("x".to_string()),
        },
    );
    let file = match action {
        ImportAction::Locate { file_name } => file_name,
        _ => panic!("expected locate"),
    };
    assert_eq!(file, model_file_name("x").unwrap());
    let (state, _) = import_step(state, ImportEvent::Located { exists: false });
    let (state, _) = import_step(state, ImportEvent::Staged);
    let (state, action) = import_step(state, ImportEvent::Transferred { len: 3 });
    assert!(matches!(action, ImportAction::Persist));
    let (_, action) = import_step(state, ImportEvent::Persisted);
    assert!(matches!(action, ImportAction::Finish(Ok(()))));
    let listed = listed_model(Some("x")).unwrap();
    assert_eq!(listed.id, "x");
    assert_eq!(listed.owned_by, "litertlm-rs");
}
