use apcore_mcp_server::cancel::{CancelTokens, CANCEL_TOKENS_MAX};

#[test]
fn a_cancellation_that_comes_first_is_remembered() {
    let mut tokens = CancelTokens::new();
    assert!(!tokens.cancel_call("a"));
    assert!(tokens.is_cancelled("a"));
    assert!(tokens.begin_call("a"));
    assert!(!tokens.begin_call("b"));
    assert_eq!(tokens.len(), 2);
}

#[test]
fn cancelling_marks_one_call() {
    let mut tokens = CancelTokens::new();
    tokens.begin_call("a");
    tokens.begin_call("b");
    assert!(tokens.cancel_call("a"));
    assert!(tokens.is_cancelled("a"));
    assert!(!tokens.is_cancelled("b"));
}

#[test]
fn a_call_that_ended_is_forgotten() {
    let mut tokens = CancelTokens::new();
    tokens.begin_call("a");
    tokens.cancel_call("a");
    tokens.end_call("a");
    assert!(!tokens.is_cancelled("a"));
    assert_eq!(tokens.len(), 0);
    assert!(!tokens.begin_call("a"));
}

#[test]
fn what_never_began_is_dropped_first() {
    let mut tokens = CancelTokens::new();
    tokens.begin_call("running");
    tokens.cancel_call("first-stray");
    let mut i = 0;
    while tokens.len() < CANCEL_TOKENS_MAX {
        tokens.cancel_call(&format!("stray-{i}"));
        i += 1;
    }
    tokens.cancel_call("one-more");
    assert_eq!(tokens.len(), CANCEL_TOKENS_MAX);
    assert!(!tokens.is_cancelled("first-stray"));
    assert!(tokens.is_cancelled("stray-0"));
    assert!(tokens.is_cancelled("one-more"));
    assert!(tokens.cancel_call("running"));
}

#[test]
fn only_an_active_call_is_told_to_be() {
    let mut tokens = CancelTokens::new();
    assert!(!tokens.cancel_call("a"));
    assert!(!tokens.cancel_call("a"));
    assert!(tokens.begin_call("a"));
    assert!(tokens.cancel_call("a"));
    tokens.end_call("a");
    assert!(!tokens.cancel_call("a"));
}
