use relay_core::deliver::{
    augmented_failure_text, backoff_delay_ms, image_delivery_plan, image_retry_step, preview_text,
    text_retry_step, truncate_chars, AttemptOutcome, ImagePlan, ImageStep, TextStep, BASE_DELAY_MS,
    MAX_RETRIES,
};

#[test]
fn backoff_doubles_per_attempt() {
    assert_eq!(backoff_delay_ms(0), 500);
    assert_eq!(backoff_delay_ms(1), 1000);
    assert_eq!(backoff_delay_ms(2), 2000);
    assert_eq!(backoff_delay_ms(0), BASE_DELAY_MS);
}

#[test]
fn failing_text_delivery_runs_three_attempts_with_two_delays() {
    // Drive the engine as the delivery loop does, with every attempt failing.
    let mut attempt: u8 = 0;
    let mut delays: Vec<u64> = Vec::new();
    loop {
        match text_retry_step(attempt, AttemptOutcome::Failed) {
            TextStep::Done => panic!("a failed attempt cannot finish the delivery"),
            TextStep::RetryAfterMs(d) => {
                delays.push(d);
                attempt += 1;
            }
            TextStep::GiveUp => {
                attempt += 1;
                break;
            }
        }
    }
    assert_eq!(attempt, MAX_RETRIES);
    assert_eq!(delays, vec![500, 1000]);
}

#[test]
fn successful_attempt_stops_retrying() {
    assert_eq!(text_retry_step(0, AttemptOutcome::Delivered), TextStep::Done);
    assert_eq!(text_retry_step(2, AttemptOutcome::Delivered), TextStep::Done);
}

#[test]
fn last_failed_text_attempt_gives_up() {
    assert_eq!(text_retry_step(2, AttemptOutcome::Failed), TextStep::GiveUp);
}

#[test]
fn missing_image_degrades_before_any_attempt() {
    assert_eq!(image_delivery_plan(false), ImagePlan::DegradeToOriginalText);
    assert_eq!(image_delivery_plan(true), ImagePlan::AttemptImage);
}

#[test]
fn exhausted_image_attempts_degrade_to_augmented_text() {
    assert_eq!(
        image_retry_step(0, AttemptOutcome::Failed),
        ImageStep::RetryAfterMs(500)
    );
    assert_eq!(
        image_retry_step(1, AttemptOutcome::Failed),
        ImageStep::RetryAfterMs(1000)
    );
    assert_eq!(
        image_retry_step(2, AttemptOutcome::Failed),
        ImageStep::DegradeToAugmentedText
    );
    assert_eq!(image_retry_step(1, AttemptOutcome::Delivered), ImageStep::Done);
}

#[test]
fn augmented_text_names_the_failed_attachment() {
    assert_eq!(
        augmented_failure_text("alert", "/tmp/a.png"),
        "alert (Image attachment failed: /tmp/a.png)"
    );
}

#[test]
fn short_strings_are_not_truncated() {
    assert_eq!(truncate_chars("hello", 30), "hello");
    assert_eq!(truncate_chars("", 0), "");
    assert_eq!(truncate_chars("abc", 3), "abc");
}

#[test]
fn long_strings_are_cut_at_the_character_count() {
    let s = "abcdefghij";
    assert_eq!(truncate_chars(s, 4), "abcd");
    assert_eq!(truncate_chars(s, 0), "");
}

#[test]
fn truncation_counts_characters_not_bytes() {
    // Each of these characters is more than one byte in UTF-8.
    let s = "\u{e9}\u{e9}\u{e9}\u{e9}"; // four copies of e-acute
    assert_eq!(truncate_chars(s, 2), "\u{e9}\u{e9}");
    let mixed = "a\u{30c6}b\u{30c6}"; // interleaved ASCII and katakana
    assert_eq!(truncate_chars(mixed, 3), "a\u{30c6}b");
}

#[test]
fn truncation_is_idempotent_on_samples() {
    for limit in [0usize, 1, 3, 10, 50] {
        for s in ["", "short", "a longer string that exceeds some limits", "\u{e9}x\u{30c6}y\u{1f600}z"] {
            let once = truncate_chars(s, limit);
            let twice = truncate_chars(&once, limit);
            assert_eq!(once, twice);
        }
    }
}

#[test]
fn preview_caps_at_thirty_characters_with_ellipsis() {
    let short = "fits well within the cap";
    assert_eq!(preview_text(short), short);
    let long = "abcdefghijklmnopqrstuvwxyz0123456789";
    assert_eq!(preview_text(long), "abcdefghijklmnopqrstuvwxyz0123...");
    let exact: String = "x".repeat(30);
    assert_eq!(preview_text(&exact), exact);
}
