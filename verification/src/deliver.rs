//! The delivery engine's decisions: bounded retry with exponential backoff,
//! per-attempt timeouts, and graceful degradation of an image delivery to a
//! text-only one.
//!
//! The engine never escalates a failure: after the retry budget is spent the
//! failure is terminal for that one request. The blocking sends themselves
//! are outside work; this module decides, for every attempt index and every
//! outcome an attempt can report, what happens next, and the run models state
//! what a whole delivery does for any sequence of attempt outcomes.

use vstd::prelude::*;
use vstd::arithmetic::power2::{pow2, lemma2_to64};
use vstd::string::{StrSliceExecFns, StringExecFns};

verus! {

/// Attempts allowed per delivery request.
pub const MAX_RETRIES: u8 = 3;

/// Backoff unit between attempts, in milliseconds.
pub const BASE_DELAY_MS: u64 = 500;

/// Per-attempt timeout for a text send, in seconds.
pub const TEXT_SEND_TIMEOUT_SECS: u64 = 30;

/// Per-attempt timeout for an image send, in seconds.
pub const IMAGE_SEND_TIMEOUT_SECS: u64 = 60;

/// Character cap on the recorded preview of a delivered text.
pub const PREVIEW_MAX_CHARS: usize = 30;

/// What one send attempt reported: the platform acknowledged the send, or
/// the attempt failed (a platform-reported error or a timed-out attempt).
#[derive(Debug, Clone, Copy, PartialEq, Eq, Structural)]
pub enum AttemptOutcome {
    Delivered,
    Failed,
}

/// What the engine does after one text attempt.
#[derive(Debug, Clone, Copy, PartialEq, Eq, Structural)]
pub enum TextStep {
    /// The attempt succeeded; the request is done.
    Done,
    /// Sleep this many milliseconds, then run the next attempt.
    RetryAfterMs(u64),
    /// The budget is exhausted; the failure is terminal for this request.
    GiveUp,
}

/// What the engine does with an image request before any attempt is made.
#[derive(Debug, Clone, Copy, PartialEq, Eq, Structural)]
pub enum ImagePlan {
    /// The file exists: attempt to send the image with the text as caption.
    AttemptImage,
    /// The file is missing: degrade at once to the text-only path carrying
    /// the original text, consuming no image attempt.
    DegradeToOriginalText,
}

/// What the engine does after one image attempt.
#[derive(Debug, Clone, Copy, PartialEq, Eq, Structural)]
pub enum ImageStep {
    /// The attempt succeeded; the request is done.
    Done,
    /// Sleep this many milliseconds, then run the next attempt.
    RetryAfterMs(u64),
    /// The budget is exhausted: degrade to the text-only path carrying the
    /// augmented text, under a fresh text retry budget.
    DegradeToAugmentedText,
}

/// The delay slept after failed attempt number `attempt` (zero-indexed):
/// `BASE_DELAY_MS * 2^attempt`.
pub open spec fn spec_backoff_ms(attempt: nat) -> int {
    BASE_DELAY_MS * pow2(attempt)
}

/// Exponential backoff delay for one attempt index.
pub fn backoff_delay_ms(attempt: u8) -> (r: u64)
    requires
        attempt < MAX_RETRIES,
    ensures
        r == spec_backoff_ms(attempt as nat),
{
    proof {
        lemma2_to64();
    }
    match attempt {
        0 => 500,
        1 => 1000,
        _ => 2000,
    }
}

/// What a text delivery does after attempt number `attempt` reports
/// `outcome`: done on success; a backoff sleep and another attempt on a
/// failure that is not the last attempt; terminal failure otherwise.
pub open spec fn spec_text_step(attempt: nat, outcome: AttemptOutcome) -> TextStep {
    if outcome is Delivered {
        TextStep::Done
    } else if attempt + 1 < MAX_RETRIES {
        TextStep::RetryAfterMs(spec_backoff_ms(attempt) as u64)
    } else {
        TextStep::GiveUp
    }
}

/// Decide what a text delivery does after one attempt.
pub fn text_retry_step(attempt: u8, outcome: AttemptOutcome) -> (r: TextStep)
    requires
        attempt < MAX_RETRIES,
    ensures
        r == spec_text_step(attempt as nat, outcome),
{
    match outcome {
        AttemptOutcome::Delivered => TextStep::Done,
        AttemptOutcome::Failed => {
            if attempt + 1 < MAX_RETRIES {
                TextStep::RetryAfterMs(backoff_delay_ms(attempt))
            } else {
                TextStep::GiveUp
            }
        },
    }
}

/// What an image delivery does after attempt number `attempt` reports
/// `outcome`; exhaustion degrades to the text-only path instead of giving up.
pub open spec fn spec_image_step(attempt: nat, outcome: AttemptOutcome) -> ImageStep {
    if outcome is Delivered {
        ImageStep::Done
    } else if attempt + 1 < MAX_RETRIES {
        ImageStep::RetryAfterMs(spec_backoff_ms(attempt) as u64)
    } else {
        ImageStep::DegradeToAugmentedText
    }
}

/// Decide what an image delivery does after one attempt.
pub fn image_retry_step(attempt: u8, outcome: AttemptOutcome) -> (r: ImageStep)
    requires
        attempt < MAX_RETRIES,
    ensures
        r == spec_image_step(attempt as nat, outcome),
{
    match outcome {
        AttemptOutcome::Delivered => ImageStep::Done,
        AttemptOutcome::Failed => {
            if attempt + 1 < MAX_RETRIES {
                ImageStep::RetryAfterMs(backoff_delay_ms(attempt))
            } else {
                ImageStep::DegradeToAugmentedText
            }
        },
    }
}

/// Decide what an image delivery does before any attempt: a missing file
/// degrades at once to the text-only path with the original text.
pub fn image_delivery_plan(image_file_exists: bool) -> (r: ImagePlan)
    ensures
        r == (if image_file_exists {
            ImagePlan::AttemptImage
        } else {
            ImagePlan::DegradeToOriginalText
        }),
{
    if image_file_exists {
        ImagePlan::AttemptImage
    } else {
        ImagePlan::DegradeToOriginalText
    }
}

/// The text of the fallback notification sent when the image attempts are
/// exhausted: the original text, annotated with the failed attachment's path.
pub open spec fn spec_augmented_text(text: Seq<char>, image_path: Seq<char>) -> Seq<char> {
    text + " (Image attachment failed: "@ + image_path + ")"@
}

/// Build the fallback text for an image delivery whose attempts were
/// exhausted.
pub fn augmented_failure_text(text: &str, image_path: &str) -> (r: String)
    ensures
        r@ == spec_augmented_text(text@, image_path@),
{
    let mut s = text.to_owned();
    s.append(" (Image attachment failed: ");
    s.append(image_path);
    s.append(")");
    s
}

/// Largest prefix of `s` whose character count does not exceed `limit`.
pub open spec fn spec_truncate(s: Seq<char>, limit: nat) -> Seq<char> {
    if s.len() <= limit {
        s
    } else {
        s.subrange(0, limit as int)
    }
}

/// Cut `s` after at most `limit` characters, never splitting a code point:
/// the result is the longest prefix of `s` of at most `limit` characters, and
/// a string within the limit comes back unchanged.
pub fn truncate_chars(s: &str, limit: usize) -> (r: String)
    ensures
        r@ == spec_truncate(s@, limit as nat),
{
    let n = s.unicode_len();
    if n <= limit {
        s.to_owned()
    } else {
        let head = s.substring_char(0, limit);
        head.to_owned()
    }
}

/// The recorded preview of a delivered text: the text itself when it fits,
/// else its truncation to the cap with a trailing ellipsis.
pub open spec fn spec_preview(s: Seq<char>) -> Seq<char> {
    if s.len() <= PREVIEW_MAX_CHARS {
        s
    } else {
        spec_truncate(s, PREVIEW_MAX_CHARS as nat) + "..."@
    }
}

/// Length-capped preview of a delivered text, for the log record.
pub fn preview_text(s: &str) -> (r: String)
    ensures
        r@ == spec_preview(s@),
{
    let n = s.unicode_len();
    if n <= PREVIEW_MAX_CHARS {
        s.to_owned()
    } else {
        let mut head = s.substring_char(0, PREVIEW_MAX_CHARS).to_owned();
        head.append("...");
        head
    }
}

/// Truncation is idempotent: re-truncating a truncation at the same limit
/// changes nothing.
pub proof fn lemma_truncate_idempotent(s: Seq<char>, limit: nat)
    ensures
        spec_truncate(spec_truncate(s, limit), limit) == spec_truncate(s, limit),
{
    if s.len() > limit {
        assert(spec_truncate(s, limit).len() == limit);
    }
}

/// The whole course of one text delivery: how many attempts run, the delays
/// slept between them, and whether the text was delivered.
pub struct TextRun {
    pub attempts: nat,
    pub delays_ms: Seq<int>,
    pub delivered: bool,
}

/// The course of the text delivery from attempt number `attempt` on, given
/// what each attempt would report.
pub open spec fn spec_text_run_from(outcomes: Seq<AttemptOutcome>, attempt: nat) -> TextRun
    decreases MAX_RETRIES - attempt,
{
    if attempt >= MAX_RETRIES || attempt >= outcomes.len() {
        TextRun { attempts: 0, delays_ms: Seq::empty(), delivered: false }
    } else {
        match spec_text_step(attempt, outcomes[attempt as int]) {
            TextStep::Done => TextRun { attempts: 1, delays_ms: Seq::empty(), delivered: true },
            TextStep::GiveUp => TextRun {
                attempts: 1,
                delays_ms: Seq::empty(),
                delivered: false,
            },
            TextStep::RetryAfterMs(d) => {
                let rest = spec_text_run_from(outcomes, attempt + 1);
                TextRun {
                    attempts: 1 + rest.attempts,
                    delays_ms: seq![d as int] + rest.delays_ms,
                    delivered: rest.delivered,
                }
            },
        }
    }
}

/// The course of one whole text delivery, given what each attempt would
/// report.
pub open spec fn spec_text_run(outcomes: Seq<AttemptOutcome>) -> TextRun {
    spec_text_run_from(outcomes, 0)
}

/// Retry backoff schedule: a text delivery whose every attempt fails runs
/// exactly `MAX_RETRIES` attempts and is never delivered; the inter-attempt
/// delays are `BASE_DELAY_MS` then twice that, with no delay after the final
/// attempt.
pub proof fn lemma_text_retry_schedule(outcomes: Seq<AttemptOutcome>)
    requires
        outcomes.len() >= MAX_RETRIES,
        forall|i: int| 0 <= i < outcomes.len() ==> outcomes[i] is Failed,
    ensures
        spec_text_run(outcomes).attempts == MAX_RETRIES,
        spec_text_run(outcomes).delays_ms =~= seq![
            BASE_DELAY_MS as int,
            2 * BASE_DELAY_MS as int,
        ],
        !spec_text_run(outcomes).delivered,
{
    lemma2_to64();
    let r2 = spec_text_run_from(outcomes, 2);
    assert(r2.attempts == 1 && !r2.delivered && r2.delays_ms =~= Seq::<int>::empty());
    let r1 = spec_text_run_from(outcomes, 1);
    assert(r1.attempts == 2 && !r1.delivered);
    let r0 = spec_text_run_from(outcomes, 0);
    assert(r0.attempts == 3 && !r0.delivered);
}

/// The whole course of one image delivery: how many image attempts run, the
/// delays slept between them, whether the image was delivered, and the text
/// that the degraded text-only delivery carries when the engine degrades.
pub struct ImageRun {
    pub image_attempts: nat,
    pub delays_ms: Seq<int>,
    pub delivered_with_image: bool,
    pub fallback_text: Option<Seq<char>>,
}

/// The course of the image delivery from attempt number `attempt` on.
pub open spec fn spec_image_run_from(
    text: Seq<char>,
    image_path: Seq<char>,
    outcomes: Seq<AttemptOutcome>,
    attempt: nat,
) -> ImageRun
    decreases MAX_RETRIES - attempt,
{
    if attempt >= MAX_RETRIES || attempt >= outcomes.len() {
        ImageRun {
            image_attempts: 0,
            delays_ms: Seq::empty(),
            delivered_with_image: false,
            fallback_text: None,
        }
    } else {
        match spec_image_step(attempt, outcomes[attempt as int]) {
            ImageStep::Done => ImageRun {
                image_attempts: 1,
                delays_ms: Seq::empty(),
                delivered_with_image: true,
                fallback_text: None,
            },
            ImageStep::DegradeToAugmentedText => ImageRun {
                image_attempts: 1,
                delays_ms: Seq::empty(),
                delivered_with_image: false,
                fallback_text: Some(spec_augmented_text(text, image_path)),
            },
            ImageStep::RetryAfterMs(d) => {
                let rest = spec_image_run_from(text, image_path, outcomes, attempt + 1);
                ImageRun {
                    image_attempts: 1 + rest.image_attempts,
                    delays_ms: seq![d as int] + rest.delays_ms,
                    delivered_with_image: rest.delivered_with_image,
                    fallback_text: rest.fallback_text,
                }
            },
        }
    }
}

/// The whole course of one image delivery whose file exists, given what each
/// attempt would report. A missing file never reaches this run: the plan
/// degrades it to the text-only path first, consuming no image attempt.
pub open spec fn spec_image_run(
    text: Seq<char>,
    image_path: Seq<char>,
    outcomes: Seq<AttemptOutcome>,
) -> ImageRun {
    spec_image_run_from(text, image_path, outcomes, 0)
}

/// The whole course of one image delivery request, plan included: a missing
/// file degrades at once to a text-only delivery of the original text; an
/// existing file is attempted under the image retry budget.
pub open spec fn spec_image_delivery(
    text: Seq<char>,
    image_path: Seq<char>,
    image_file_exists: bool,
    outcomes: Seq<AttemptOutcome>,
) -> ImageRun {
    if !image_file_exists {
        ImageRun {
            image_attempts: 0,
            delays_ms: Seq::empty(),
            delivered_with_image: false,
            fallback_text: Some(text),
        }
    } else {
        spec_image_run(text, image_path, outcomes)
    }
}

/// A missing image file degrades the delivery to the text-only path without
/// consuming any image attempt; the degraded delivery carries the original
/// text.
pub proof fn lemma_missing_image_degrades(
    text: Seq<char>,
    image_path: Seq<char>,
    outcomes: Seq<AttemptOutcome>,
)
    ensures
        spec_image_delivery(text, image_path, false, outcomes).image_attempts == 0,
        spec_image_delivery(text, image_path, false, outcomes).fallback_text == Some(text),
        !spec_image_delivery(text, image_path, false, outcomes).delivered_with_image,
{
}

/// Image exhaustion degrades to text: an image delivery whose every attempt
/// fails runs exactly `MAX_RETRIES` image attempts, then degrades to a
/// text-only delivery of the augmented message carrying the original text
/// and the image path.
pub proof fn lemma_image_exhaustion_degrades(
    text: Seq<char>,
    image_path: Seq<char>,
    outcomes: Seq<AttemptOutcome>,
)
    requires
        outcomes.len() >= MAX_RETRIES,
        forall|i: int| 0 <= i < outcomes.len() ==> outcomes[i] is Failed,
    ensures
        spec_image_run(text, image_path, outcomes).image_attempts == MAX_RETRIES,
        !spec_image_run(text, image_path, outcomes).delivered_with_image,
        spec_image_run(text, image_path, outcomes).fallback_text == Some(
            spec_augmented_text(text, image_path),
        ),
{
    lemma2_to64();
    let r2 = spec_image_run_from(text, image_path, outcomes, 2);
    assert(r2.image_attempts == 1 && !r2.delivered_with_image);
    let r1 = spec_image_run_from(text, image_path, outcomes, 1);
    assert(r1.image_attempts == 2 && !r1.delivered_with_image);
    let r0 = spec_image_run_from(text, image_path, outcomes, 0);
    assert(r0.image_attempts == 3 && !r0.delivered_with_image);
}

} // verus!
