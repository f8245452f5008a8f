use llmd::android::{
    completion_from_error_field, completion_from_response_field, AndroidLiteRtProvider, PendingCompletions,
};
use llmd::api::{LlmdError, DEFAULT_MODEL};

#[test]
fn android_lists_default_model_when_usable() {
    let p = AndroidLiteRtProvider;
    let models = p.models(true);
    assert_eq!(models.len(), 1);
    assert_eq!(models[0].id, DEFAULT_MODEL);
    assert_eq!(models[0].owned_by, "litert-lm-android");
    assert!(p.models(false).is_empty());
}

#[test]
fn android_serves_only_default_model() {
    let p = AndroidLiteRtProvider;
    assert!(p.check_chat(DEFAULT_MODEL, true).is_ok());
    match p.check_chat("other", true) {
        Err(LlmdError::ModelNotFound(m)) => assert_eq!(m, "other"),
        _ => panic!("expected model not found"),
    }
    match p.check_chat(DEFAULT_MODEL, false) {
        Err(LlmdError::ModelNotFound(m)) => assert_eq!(m, DEFAULT_MODEL),
        _ => panic!("expected model not found"),
    }
    let reply = p.reply("hi".to_string());
    assert_eq!(reply.model, DEFAULT_MODEL);
    assert_eq!(reply.content, "hi");
}

#[test]
fn bridge_fields_decide_the_completion() {
    match completion_from_error_field(Ok(Some("bad".to_string()))) {
        Some(Err(LlmdError::Backend(m))) => assert_eq!(m, "bad"),
        _ => panic!("expected a backend error"),
    }
    assert!(completion_from_error_field(Ok(None)).is_none());
    match completion_from_error_field(Err(LlmdError::Backend("read".to_string()))) {
        Some(Err(LlmdError::Backend(m))) => assert_eq!(m, "read"),
        _ => panic!("expected the read failure"),
    }
    assert_eq!(completion_from_response_field(Ok(Some("text".to_string()))).unwrap(), "text");
    match completion_from_response_field(Ok(None)) {
        Err(LlmdError::Backend(m)) => assert_eq!(m, "Android chat completion returned no response"),
        _ => panic!("expected a backend error"),
    }
}

#[test]
fn completions_reach_their_requests() {
    let mut pending: PendingCompletions<&str> = PendingCompletions::new();
    let a = pending.begin("first");
    let b = pending.begin("second");
    assert_eq!(a, 1);
    assert_eq!(b, 2);
    assert_eq!(pending.take(b), Some("second"));
    assert_eq!(pending.take(b), None);
    assert_eq!(pending.take(a), Some("first"));
    assert_eq!(pending.take(99), None);
}
