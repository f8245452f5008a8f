use llmd::api::{messages_to_prompt, ChatMessage, LlmdError, ResponseFormat};
use llmd::conversation::{
    absorb_chunk, constraint_schema, invalidates, native_role, output_token_limit, plan_conversation,
    plan_engine_load, CachedEngine, EngineLoad,
};

fn msg(role: &str, content: &str) -> ChatMessage {
    ChatMessage { role: role.to_string(), content: content.to_string() }
}

#[test]
fn translates_openai_assistant_role() {
    assert_eq!(native_role("assistant"), "model");
    assert_eq!(native_role("user"), "user");
}

#[test]
fn prompt_has_one_line_per_message() {
    assert_eq!(messages_to_prompt(&[]), "");
    assert_eq!(messages_to_prompt(&[msg("user", "hi")]), "user: hi");
    assert_eq!(
        messages_to_prompt(&[msg("system", "be brief"), msg("user", "hi")]),
        "system: be brief\nuser: hi"
    );
}

#[test]
fn conversation_splits_system_history_and_last() {
    let messages = vec![
        msg("system", "one"),
        msg("user", "hello"),
        msg("assistant", "hi there"),
        msg("system", "two"),
        msg("user", "bye"),
    ];
    let c = plan_conversation(&messages).unwrap();
    assert_eq!(c.system, "one\n\ntwo");
    assert_eq!(c.history.len(), 2);
    assert_eq!(c.history[0].role, "user");
    assert_eq!(c.history[0].content, "hello");
    assert_eq!(c.history[1].role, "model");
    assert_eq!(c.history[1].content, "hi there");
    assert_eq!(c.last.role, "user");
    assert_eq!(c.last.content, "bye");
}

#[test]
fn conversation_needs_a_message_to_send() {
    match plan_conversation(&vec![msg("system", "only")]) {
        Err(LlmdError::Backend(m)) => assert_eq!(m, "No message to send"),
        _ => panic!("expected a backend error"),
    }
    let c = plan_conversation(&vec![msg("user", "x")]).unwrap();
    assert_eq!(c.system, "");
    assert!(c.history.is_empty());
}

#[test]
fn token_limits_must_fit_the_engine() {
    assert_eq!(output_token_limit(None).unwrap(), None);
    assert_eq!(output_token_limit(Some(256)).unwrap(), Some(256));
    assert_eq!(output_token_limit(Some(i32::MAX as u32)).unwrap(), Some(i32::MAX));
    match output_token_limit(Some(u32::MAX)) {
        Err(LlmdError::Backend(m)) => assert!(!m.is_empty()),
        _ => panic!("expected a backend error"),
    }
}

#[test]
fn response_formats_choose_the_schema() {
    assert_eq!(constraint_schema(&None), None);
    assert_eq!(
        constraint_schema(&Some(ResponseFormat::JsonObject)).unwrap(),
        "{\"type\":\"object\"}"
    );
    let schema = "{\"type\":\"array\"}".to_string();
    assert_eq!(
        constraint_schema(&Some(ResponseFormat::JsonSchema { schema: schema.clone() })).unwrap(),
        schema
    );
}

#[test]
fn chunks_accumulate_until_an_error() {
    let s = absorb_chunk(String::new(), Ok("hel".to_string())).unwrap();
    let s = absorb_chunk(s, Ok("lo".to_string())).unwrap();
    assert_eq!(s, "hello");
    match absorb_chunk(s, Err(LlmdError::Backend("x".to_string()))) {
        Err(LlmdError::Backend(m)) => assert_eq!(m, "x"),
        _ => panic!("expected the error"),
    }
}

#[test]
fn engine_cache_holds_one_model() {
    assert!(matches!(plan_engine_load(None, "/m/a.litertlm"), EngineLoad::Load));
    let same = CachedEngine { same_path: true, in_use: true, path_text: "/m/a.litertlm".to_string() };
    assert!(matches!(plan_engine_load(Some(same), "/m/a.litertlm"), EngineLoad::Reuse));
    let idle = CachedEngine { same_path: false, in_use: false, path_text: "/m/a.litertlm".to_string() };
    assert!(matches!(plan_engine_load(Some(idle), "/m/b.litertlm"), EngineLoad::Load));
    let busy = CachedEngine { same_path: false, in_use: true, path_text: "/m/a.litertlm".to_string() };
    match plan_engine_load(Some(busy), "/m/b.litertlm") {
        EngineLoad::Busy(LlmdError::Backend(m)) => assert_eq!(
            m,
            "Cannot load model /m/b.litertlm while model /m/a.litertlm is still active"
        ),
        _ => panic!("expected busy"),
    }
    assert!(invalidates(Some(true)));
    assert!(!invalidates(Some(false)));
    assert!(!invalidates(None));
}

use llmd::conversation::{route_chunk, EngineSlot};

#[test]
fn chunks_are_routed_to_the_reader() {
    let r = route_chunk(true, Some("e".to_string()), Some("t".to_string()));
    assert!(r.cancel);
    assert!(r.error.is_none() && r.text.is_none());
    let r = route_chunk(false, Some("bad".to_string()), Some("hi".to_string()));
    assert!(!r.cancel);
    match r.error {
        Some(LlmdError::Backend(m)) => assert_eq!(m, "bad"),
        _ => panic!("expected a backend error"),
    }
    assert_eq!(r.text.as_deref(), Some("hi"));
    let r = route_chunk(false, None, Some(String::new()));
    assert!(r.error.is_none() && r.text.is_none() && !r.cancel);
}

#[test]
fn engine_slot_holds_one_engine() {
    let mut slot: EngineSlot<&str, u32> = EngineSlot::new();
    assert!(slot.current().is_none());
    slot.obtain(None, "/m/a", "/m/a", || Ok(1)).unwrap();
    assert_eq!(slot.current(), Some(&("/m/a", 1)));
    let reuse = CachedEngine { same_path: true, in_use: false, path_text: "/m/a".to_string() };
    slot.obtain(Some(reuse), "/m/a", "/m/a", || Ok(2)).unwrap();
    assert_eq!(slot.current(), Some(&("/m/a", 1)));
    let busy = CachedEngine { same_path: false, in_use: true, path_text: "/m/a".to_string() };
    match slot.obtain(Some(busy), "/m/b", "/m/b", || Ok(3)) {
        Err(LlmdError::Backend(m)) => {
            assert_eq!(m, "Cannot load model /m/b while model /m/a is still active")
        }
        _ => panic!("expected busy"),
    }
    assert_eq!(slot.current(), Some(&("/m/a", 1)));
    let idle = CachedEngine { same_path: false, in_use: false, path_text: "/m/a".to_string() };
    slot.obtain(Some(idle), "/m/b", "/m/b", || Ok(4)).unwrap();
    assert_eq!(slot.current(), Some(&("/m/b", 4)));
    let idle = CachedEngine { same_path: false, in_use: false, path_text: "/m/b".to_string() };
    match slot.obtain(Some(idle), "/m/c", "/m/c", || Err(LlmdError::Backend("load failed".to_string()))) {
        Err(LlmdError::Backend(m)) => assert_eq!(m, "load failed"),
        _ => panic!("expected the load failure"),
    }
    assert!(slot.current().is_none());
    slot.obtain(None, "/m/a", "/m/a", || Ok(5)).unwrap();
    slot.invalidate(Some(false));
    assert_eq!(slot.current(), Some(&("/m/a", 5)));
    slot.invalidate(Some(true));
    assert!(slot.current().is_none());
}

#[test]
fn reply_is_the_stream_gathered() {
    let mut content = String::new();
    for piece in ["a", "b", "c"] {
        content = absorb_chunk(content, Ok(piece.to_string())).unwrap();
    }
    assert_eq!(content, "abc");
}
