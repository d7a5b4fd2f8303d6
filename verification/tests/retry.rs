use ironclaw_orchestrator::mcp::retry::{
    classify_lowered, classify_message, is_standard_error_code, should_retry_status, RetryConfig,
    RetryDecision, JITTER_SCALE,
};

#[test]
fn test_retry_config_default() {
    let config = RetryConfig::default();
    assert_eq!(config.max_attempts, 3);
    assert_eq!(config.base_delay_ms, 100);
    assert_eq!(config.max_delay_ms, 5_000);
    assert_eq!(config.jitter_ppm, 100_000);
}

#[test]
fn test_retry_config_builder() {
    let config = RetryConfig::new()
        .max_attempts(5)
        .base_delay(50)
        .max_delay(10_000)
        .jitter(200_000);

    assert_eq!(config.max_attempts, 5);
    assert_eq!(config.base_delay_ms, 50);
    assert_eq!(config.max_delay_ms, 10_000);
    assert_eq!(config.jitter_ppm, 200_000);
}

#[test]
fn test_calculate_delay_exponential() {
    let config = RetryConfig::new().base_delay(100).max_delay(10_000);

    let delay0 = config.calculate_delay(0);
    assert!(delay0 >= 90 && delay0 <= 110);

    let delay1 = config.calculate_delay(1);
    assert!(delay1 >= 180 && delay1 <= 220);

    let delay2 = config.calculate_delay(2);
    assert!(delay2 >= 360 && delay2 <= 440);

    // The jitter is symmetric, so a large attempt gives the cap or up to
    // one tenth less.
    let delay_large = config.calculate_delay(10);
    assert!(delay_large >= 9_000 && delay_large <= 10_000);
}

#[test]
fn test_calculate_delay_with_jitter() {
    let config = RetryConfig::new().base_delay(100).jitter(200_000);

    let delays: Vec<u64> = (0..10).map(|_| config.calculate_delay(1)).collect();

    let min_delay = *delays.iter().min().unwrap();
    let max_delay = *delays.iter().max().unwrap();

    assert!(max_delay - min_delay >= 10);
}

#[test]
fn test_should_retry_status() {
    assert!(should_retry_status(408));
    assert!(should_retry_status(429));
    assert!(should_retry_status(500));
    assert!(should_retry_status(503));

    assert!(!should_retry_status(400));
    assert!(!should_retry_status(404));
    assert!(!should_retry_status(501));
    assert!(!should_retry_status(505));
}

#[test]
fn test_should_retry_error() {
    let config = RetryConfig::default();

    assert!(config.should_retry_error("Connection refused"));
    assert!(config.should_retry_error("Request timed out"));
    assert!(!config.should_retry_error("Unauthorized"));
    assert!(!config.should_retry_error("Invalid JSON"));
}

#[test]
fn test_jitter_clamping() {
    let config = RetryConfig::new();
    assert_eq!(config.jitter_ppm, 100_000);

    let config_too_high = RetryConfig::new().jitter(1_500_000);
    assert_eq!(config_too_high.jitter_ppm, 1_000_000);

    let config_negative = RetryConfig::new().jitter(-500_000);
    assert_eq!(config_negative.jitter_ppm, 0);
}

#[test]
fn status_classes_are_exact() {
    for status in 0u16..=1000 {
        let expected = status == 408
            || status == 429
            || ((500..=599).contains(&status) && status != 501 && status != 505);
        assert_eq!(should_retry_status(status), expected, "status {}", status);
    }
    assert!(!should_retry_status(u16::MAX));
}

#[test]
fn classifier_reads_representative_messages() {
    let retryable = [
        "connection refused",
        "Connection reset by peer",
        "request TIMEOUT",
        "operation timed out",
        "network is unreachable",
        "DNS lookup failed",
        "temporary failure in name resolution",
        "invalid response after timeout",
    ];
    for message in retryable {
        assert!(classify_message(message), "{}", message);
    }
    let permanent = [
        "Unauthorized",
        "403 Forbidden",
        "connection refused: unauthorized",
        "forbidden network",
        "invalid params",
        "Invalid connection string",
        "something else",
        "",
    ];
    for message in permanent {
        assert!(!classify_message(message), "{}", message);
    }
}

#[test]
fn classifier_depends_on_the_lowercase_form_only() {
    let pairs = [
        ("CONNECTION REFUSED", "connection refused"),
        ("Unauthorized", "UNAUTHORIZED"),
        ("Timed Out", "timed out"),
        ("Invalid Timeout", "invalid timeout"),
        ("Nothing", "NOTHING"),
    ];
    for (a, b) in pairs {
        assert_eq!(a.to_lowercase(), b.to_lowercase());
        assert_eq!(classify_message(a), classify_message(b));
        assert_eq!(classify_message(a), classify_lowered(&a.to_lowercase()));
    }
}

#[test]
fn classifier_on_lowered_text_is_case_sensitive() {
    assert!(classify_lowered("connection"));
    assert!(!classify_lowered("CONNECTION"));
}

#[test]
fn standard_error_codes_are_the_326xx_range() {
    assert!(is_standard_error_code(-32600));
    assert!(is_standard_error_code(-32603));
    assert!(is_standard_error_code(-32699));
    assert!(!is_standard_error_code(-32700));
    assert!(!is_standard_error_code(-32599));
    assert!(!is_standard_error_code(-32000));
    assert!(!is_standard_error_code(0));
}

#[test]
fn backoff_doubles_and_is_capped() {
    let config = RetryConfig::new().base_delay(100).max_delay(1_000).jitter(0);
    assert_eq!(config.backoff_ms(0), 100);
    assert_eq!(config.backoff_ms(1), 200);
    assert_eq!(config.backoff_ms(2), 400);
    assert_eq!(config.backoff_ms(3), 800);
    assert_eq!(config.backoff_ms(4), 1_000);
    assert_eq!(config.backoff_ms(63), 1_000);
    assert_eq!(config.backoff_ms(64), 1_000);
    assert_eq!(config.backoff_ms(usize::MAX), 1_000);
}

#[test]
fn backoff_edge_cases() {
    let zero = RetryConfig::new().base_delay(0).max_delay(1_000);
    assert_eq!(zero.backoff_ms(0), 0);
    assert_eq!(zero.backoff_ms(usize::MAX), 0);
    let capped_at_zero = RetryConfig::new().base_delay(5).max_delay(0);
    assert_eq!(capped_at_zero.backoff_ms(3), 0);
    let above_cap = RetryConfig::new().base_delay(50).max_delay(20);
    assert_eq!(above_cap.backoff_ms(0), 20);
    let huge = RetryConfig::new().base_delay(u64::MAX).max_delay(u64::MAX);
    assert_eq!(huge.backoff_ms(0), u64::MAX);
    assert_eq!(huge.backoff_ms(1), u64::MAX);
    let wide = RetryConfig::new().base_delay(1).max_delay(u64::MAX);
    assert_eq!(wide.backoff_ms(63), 1u64 << 63);
    assert_eq!(wide.backoff_ms(64), u64::MAX);
}

#[test]
fn delay_for_a_sample_is_exact() {
    let config = RetryConfig::new().base_delay(100).max_delay(10_000).jitter(100_000);
    // backoff 200, spread 20, offsets from -20 to 20
    assert_eq!(config.delay_for_sample(1, 0), 180);
    assert_eq!(config.delay_for_sample(1, 20), 200);
    assert_eq!(config.delay_for_sample(1, 40), 220);
    assert_eq!(config.delay_for_sample(1, 41), 180);
    assert_eq!(config.delay_for_sample(1, 61), 200);
    // backoff at the cap: what goes above the cap is cut
    assert_eq!(config.delay_for_sample(10, 0), 9_000);
    assert_eq!(config.delay_for_sample(10, 1_000), 10_000);
    assert_eq!(config.delay_for_sample(10, 2_000), 10_000);
}

#[test]
fn delay_is_never_above_the_cap() {
    let configs = [
        RetryConfig::new(),
        RetryConfig::new().base_delay(10).jitter(100_000),
        RetryConfig::new().base_delay(7).max_delay(3).jitter(1_000_000),
        RetryConfig::new().base_delay(u64::MAX).max_delay(u64::MAX).jitter(1_000_000),
        RetryConfig { max_attempts: 3, base_delay_ms: 1_000, max_delay_ms: 2_000, jitter_ppm: u32::MAX },
    ];
    let samples = [0u64, 1, 2, 1_000, u64::MAX / 2, u64::MAX - 1, u64::MAX];
    for config in configs {
        for attempt in [0usize, 1, 2, 5, 62, 63, 64, 1_000] {
            for sample in samples {
                assert!(config.delay_for_sample(attempt, sample) <= config.max_delay_ms);
            }
            assert!(config.calculate_delay(attempt) <= config.max_delay_ms);
        }
    }
}

#[test]
fn delay_without_jitter_is_the_backoff() {
    let config = RetryConfig::new().base_delay(10).max_delay(1_000).jitter(0);
    for attempt in 0usize..10 {
        for sample in [0u64, 5, u64::MAX] {
            assert_eq!(config.delay_for_sample(attempt, sample), config.backoff_ms(attempt));
        }
    }
}

#[test]
fn decision_retries_while_attempts_are_left() {
    let config = RetryConfig::new().max_attempts(3).base_delay(10).jitter(0);
    assert_eq!(config.decide(0, true, 0), RetryDecision::RetryAfter(10));
    assert_eq!(config.decide(1, true, 0), RetryDecision::RetryAfter(20));
    assert_eq!(config.decide(2, true, 0), RetryDecision::GiveUp);
    assert_eq!(config.decide(0, false, 0), RetryDecision::GiveUp);
    assert_eq!(config.decide(usize::MAX, true, 0), RetryDecision::GiveUp);
}

#[test]
fn after_failure_classifies_and_bounds() {
    let config = RetryConfig::new().max_attempts(2).base_delay(10).max_delay(15);
    match config.after_failure(0, "Connection refused") {
        RetryDecision::RetryAfter(delay) => assert!(delay >= 9 && delay <= 11),
        RetryDecision::GiveUp => panic!("a transient failure with attempts left is retried"),
    }
    assert_eq!(config.after_failure(1, "Connection refused"), RetryDecision::GiveUp);
    assert_eq!(config.after_failure(0, "Unauthorized"), RetryDecision::GiveUp);
}

#[test]
fn at_least_one_attempt_is_made() {
    assert_eq!(RetryConfig::new().max_attempts(0).max_attempts, 1);
    assert_eq!(RetryConfig::new().max_attempts(1).max_attempts, 1);
    assert_eq!(JITTER_SCALE, 1_000_000);
}
