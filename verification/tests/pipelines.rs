use plotforge_agent::pipelines::user_prompt_from_messages;
use plotforge_agent::prompts::{ChatMessage, MessageRole};
use plotforge_agent::pipelines::{repair_json_text, retry_step, RetryPolicy, RetryStep};
use plotforge_agent::providers_text::{TextModelProviderError, TextModelProviderErrorKind};
use std::time::Duration;

#[test]
fn retry_policy_delay_clamps_to_max_delay() {
    let policy = RetryPolicy { max_attempts: 3, base_delay_ms: 5_000, max_delay_ms: 8_000 };
    // attempt 0: base * 2^0 = 5000, no server hint.
    assert_eq!(Duration::from_millis(policy.delay_for(0, None)), Duration::from_millis(5_000));
    // attempt 5: 5000 * 2^5 = 160000 → clamped to 8000.
    assert_eq!(Duration::from_millis(policy.delay_for(5, None)), Duration::from_millis(8_000));
    // Server-advised retry-after is honoured and clamped.
    assert_eq!(
        Duration::from_millis(policy.delay_for(0, Some(20_000))),
        Duration::from_millis(8_000)
    );
    assert_eq!(
        Duration::from_millis(policy.delay_for(0, Some(3_000))),
        Duration::from_millis(3_000)
    );
}

#[test]
fn retry_policy_default_values() {
    let policy = RetryPolicy::default();
    assert_eq!(policy.max_attempts, 3);
    assert_eq!(policy.base_delay_ms, 500);
    assert_eq!(policy.max_delay_ms, 8_000);
}

#[test]
fn delay_doubles_per_attempt_below_the_cap() {
    let policy = RetryPolicy { max_attempts: 5, base_delay_ms: 100, max_delay_ms: 100_000 };
    // Even attempts wait base * 2^attempt; odd ones add a quarter of it.
    assert_eq!(policy.delay_for(0, None), 100);
    assert_eq!(policy.delay_for(1, None), 250);
    assert_eq!(policy.delay_for(2, None), 400);
    assert_eq!(policy.delay_for(3, None), 1_000);
    assert_eq!(policy.delay_for(255, None), 100_000);
}

#[test]
fn content_filtered_is_not_retried() {
    let policy = RetryPolicy::default();
    let step = retry_step(&policy, 0, TextModelProviderError::content_filtered("content_filter"));
    assert!(matches!(step, RetryStep::Fail(_)));
}

#[test]
fn rate_limit_is_retried_after_the_advised_delay() {
    let policy = RetryPolicy::default();
    let step = retry_step(&policy, 0, TextModelProviderError::rate_limit(Some(1_000), "busy"));
    assert_eq!(step, RetryStep::Wait { delay_ms: 1_000 });
    let error = TextModelProviderError::provider("text_provider_error", "boom");
    assert!(error.kind.is_retryable());
    assert!(!TextModelProviderErrorKind::ContentFiltered { reason: "x".into() }.is_retryable());
}

#[test]
fn repair_json_text_unwraps_a_fenced_block() {
    let repaired = repair_json_text("```json\n{\"a\":1}\n```").expect("repairable");
    assert_eq!(repaired, "{\"a\":1}");
    assert!(repair_json_text("no json here").is_err());
}

#[test]
fn structured_prompt_falls_back_to_user_messages() {
    let messages = vec![
        ChatMessage::new(MessageRole::System, "role text"),
        ChatMessage::new(MessageRole::User, "first"),
        ChatMessage::new(MessageRole::Assistant, "reply"),
        ChatMessage::new(MessageRole::User, "second"),
    ];
    assert_eq!(user_prompt_from_messages(&messages), "first\nsecond");
    assert_eq!(user_prompt_from_messages(&[ChatMessage::new(MessageRole::System, "only")]), "");
}

#[test]
fn content_filtered_step_surfaces_immediately_with_attempt_count() {
    let policy = RetryPolicy { max_attempts: 3, base_delay_ms: 10, max_delay_ms: 100 };
    let step = retry_step(&policy, 0, TextModelProviderError::content_filtered("content_filter"));
    match step {
        RetryStep::Fail(error) => {
            assert!(matches!(error.kind, TextModelProviderErrorKind::ContentFiltered { .. }));
            assert!(error.message.ends_with(" (after 1 attempt(s))"), "{}", error.message);
        }
        other => panic!("expected Fail, got {other:?}"),
    }
}

#[test]
fn output_truncated_step_surfaces_immediately() {
    let policy = RetryPolicy { max_attempts: 3, base_delay_ms: 10, max_delay_ms: 100 };
    let step = retry_step(&policy, 0, TextModelProviderError::output_truncated(Some(8192)));
    match step {
        RetryStep::Fail(error) => {
            assert_eq!(error.kind, TextModelProviderErrorKind::OutputTruncated { output_tokens: Some(8192) });
            assert_eq!(error.code, "text_provider_output_truncated");
        }
        other => panic!("expected Fail, got {other:?}"),
    }
}

#[test]
fn provider_error_steps_retry_then_exhaust_the_budget() {
    let policy = RetryPolicy { max_attempts: 3, base_delay_ms: 10, max_delay_ms: 100 };
    let error = || TextModelProviderError::provider("text_provider_http_status", "HTTP 503");
    assert_eq!(retry_step(&policy, 0, error()), RetryStep::Wait { delay_ms: 10 });
    assert_eq!(retry_step(&policy, 1, error()), RetryStep::Wait { delay_ms: 25 }, "20 plus a quarter on odd attempts");
    match retry_step(&policy, 2, error()) {
        RetryStep::Fail(e) => {
            assert_eq!(e.code, "text_provider_http_status");
            assert_eq!(e.message, "HTTP 503 (after 3 attempt(s))");
        }
        other => panic!("expected Fail on the last attempt, got {other:?}"),
    }
}
