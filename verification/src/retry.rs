//! Retry policy: exponential backoff and the classification of sink failures.

use vstd::prelude::*;
use vstd::arithmetic::power2::{pow2, lemma_pow2_unfold, lemma_pow2_strictly_increases, lemma2_to64};
use crate::failure::{joined_causes, Failure};
use crate::text::{chars_of, contains_text, find_text};

verus! {

/// How often one chunk is retried on the same connection.
pub const MAX_RETRIES: u32 = 5;

/// How often the connection is replaced for one chunk.
pub const MAX_CONNECTION_RESETS: u32 = 3;

/// The first backoff delay, in milliseconds.
pub const INITIAL_RETRY_DELAY_MS: u64 = 1000;

/// The longest backoff delay, in milliseconds.
pub const MAX_RETRY_DELAY_MS: u64 = 32000;

/// The pause between two successive batches, in milliseconds.
pub const BATCH_DELAY_MS: u64 = 200;

/// A chunk of at most this many records is never split further.
pub const MIN_BATCH_SIZE: usize = 10;

/// The delay before retry number `n` (counted from 1): the initial delay doubled
/// `n - 1` times, capped at `max`.
pub open spec fn backoff_delay(initial: u64, max: u64, n: nat) -> int
    recommends
        n >= 1,
{
    let grown = initial * pow2((n - 1) as nat);
    if grown <= max {
        grown
    } else {
        max as int
    }
}

proof fn lemma_growth_monotonic(initial: u64, a: nat, b: nat)
    requires
        a <= b,
    ensures
        initial * pow2(a) <= initial * pow2(b),
{
    if a < b {
        lemma_pow2_strictly_increases(a, b);
    }
    assert(initial * pow2(a) <= initial * pow2(b)) by (nonlinear_arith)
        requires
            pow2(a) <= pow2(b),
            initial >= 0,
    ;
}

/// Exponential backoff with arbitrary bounds.
pub fn retry_delay(initial: u64, max: u64, retry_count: u32) -> (delay: u64)
    requires
        retry_count >= 1,
    ensures
        delay == backoff_delay(initial, max, retry_count as nat),
{
    let ghost n = retry_count as nat;
    proof {
        lemma2_to64();
        lemma_growth_monotonic(initial, 0, (n - 1) as nat);
        assert(initial * pow2(0) == initial) by (nonlinear_arith)
            requires
                pow2(0) == 1,
        ;
    }
    if initial == 0 {
        assert(initial * pow2((n - 1) as nat) == 0) by (nonlinear_arith)
            requires
                initial == 0,
        ;
        return 0;
    }
    if initial >= max {
        return max;
    }
    let mut delay: u64 = initial;
    let mut i: u32 = 1;
    while i < retry_count
        invariant
            1 <= i <= retry_count,
            n == retry_count as nat,
            delay == initial * pow2((i - 1) as nat),
            delay < max,
        decreases retry_count - i,
    {
        proof {
            lemma_pow2_unfold(i as nat);
            assert(initial * pow2(i as nat) == 2 * delay) by (nonlinear_arith)
                requires
                    pow2(i as nat) == 2 * pow2((i - 1) as nat),
                    delay == initial * pow2((i - 1) as nat),
            ;
            lemma_growth_monotonic(initial, i as nat, (n - 1) as nat);
        }
        if delay >= max - delay {
            return max;
        }
        delay = delay + delay;
        i = i + 1;
    }
    delay
}

/// The backoff delay under the default bounds: 1000, 2000, 4000, ... capped at 32000.
pub fn calculate_retry_delay(retry_count: u32) -> (delay: u64)
    requires
        retry_count >= 1,
    ensures
        delay == backoff_delay(INITIAL_RETRY_DELAY_MS, MAX_RETRY_DELAY_MS, retry_count as nat),
        retry_count <= 6 ==> delay == 1000 * pow2((retry_count - 1) as nat),
        retry_count >= 6 ==> delay == 32000,
{
    proof {
        lemma2_to64();
        if retry_count >= 6 {
            lemma_growth_monotonic(INITIAL_RETRY_DELAY_MS, 5, (retry_count - 1) as nat);
        }
    }
    retry_delay(INITIAL_RETRY_DELAY_MS, MAX_RETRY_DELAY_MS, retry_count)
}

/// Flattens the cause chain of a failure, outermost cause first, into one
/// text, so that the classifier sees every cause.
pub fn error_chain_to_string(e: &Failure) -> (flat: String)
    ensures
        flat@ == joined_causes(e@),
{
    e.to_string()
}

/// The text names a transport that can no longer be used.
pub open spec fn connection_text(msg: Seq<char>) -> bool {
    ||| contains_text(msg, "Broken pipe"@)
    ||| contains_text(msg, "broken pipe"@)
    ||| contains_text(msg, "Connection reset"@)
    ||| contains_text(msg, "connection reset"@)
    ||| contains_text(msg, "Connection refused"@)
    ||| contains_text(msg, "connection refused"@)
    ||| contains_text(msg, "connection error"@)
    ||| contains_text(msg, "EOF"@)
    ||| contains_text(msg, "unexpected end of file"@)
}

/// The text names a condition that is expected to clear on the same connection.
pub open spec fn transient_text(msg: Seq<char>) -> bool {
    ||| contains_text(msg, "not found"@)
    ||| contains_text(msg, "deleted"@)
    ||| contains_text(msg, "503"@)
    ||| contains_text(msg, "500"@)
    ||| contains_text(msg, "403"@)
    ||| contains_text(msg, "429"@)
    ||| contains_text(msg, "rate"@)
    ||| contains_text(msg, "quota"@)
    ||| contains_text(msg, "Quota"@)
    ||| contains_text(msg, "timeout"@)
    ||| contains_text(msg, "Timeout"@)
}

/// The text says that the request exceeded the sink's size limit.
pub open spec fn too_large_text(msg: Seq<char>) -> bool {
    contains_text(msg, "413"@) || contains_text(msg, "Request Entity Too Large"@)
}

/// What a failure calls for.
#[derive(Clone, Copy, Debug, PartialEq, Eq, Structural)]
pub enum ErrorKind {
    /// The payload is over the sink's size limit: halve the chunk.
    OversizedRequest,
    /// The transport is unusable: replace the connection.
    ConnectionLevel,
    /// A temporary condition: retry on the same connection.
    Transient,
    /// Anything else: never retried.
    Fatal,
}

/// The kind of a failure with the flattened cause chain `msg`. Where several
/// keyword sets match, size comes first, then the connection, then transience.
pub open spec fn error_kind(msg: Seq<char>) -> ErrorKind {
    if too_large_text(msg) {
        ErrorKind::OversizedRequest
    } else if connection_text(msg) {
        ErrorKind::ConnectionLevel
    } else if transient_text(msg) {
        ErrorKind::Transient
    } else {
        ErrorKind::Fatal
    }
}

fn holds(hay: &Vec<char>, needle: &str) -> (found: bool)
    ensures
        found == contains_text(hay@, needle@),
{
    let n = chars_of(needle);
    find_text(hay, &n)
}

fn connection_chars(hay: &Vec<char>) -> (hit: bool)
    ensures
        hit == connection_text(hay@),
{
    holds(hay, "Broken pipe") || holds(hay, "broken pipe") || holds(hay, "Connection reset")
        || holds(hay, "connection reset") || holds(hay, "Connection refused") || holds(
        hay,
        "connection refused",
    ) || holds(hay, "connection error") || holds(hay, "EOF") || holds(
        hay,
        "unexpected end of file",
    )
}

fn transient_chars(hay: &Vec<char>) -> (hit: bool)
    ensures
        hit == transient_text(hay@),
{
    holds(hay, "not found") || holds(hay, "deleted") || holds(hay, "503") || holds(hay, "500")
        || holds(hay, "403") || holds(hay, "429") || holds(hay, "rate") || holds(hay, "quota")
        || holds(hay, "Quota") || holds(hay, "timeout") || holds(hay, "Timeout")
}

fn too_large_chars(hay: &Vec<char>) -> (hit: bool)
    ensures
        hit == too_large_text(hay@),
{
    holds(hay, "413") || holds(hay, "Request Entity Too Large")
}

/// Whether the failure calls for a new connection.
pub fn is_connection_error(error_msg: &str) -> (hit: bool)
    ensures
        hit == connection_text(error_msg@),
{
    let hay = chars_of(error_msg);
    connection_chars(&hay)
}

/// Whether the failure is expected to clear when the same connection is tried again.
pub fn is_transient_error(error_msg: &str) -> (hit: bool)
    ensures
        hit == transient_text(error_msg@),
{
    let hay = chars_of(error_msg);
    transient_chars(&hay)
}

/// Whether the failure may be retried at all, on the same connection or a new one.
pub fn is_retryable_error(error_msg: &str) -> (hit: bool)
    ensures
        hit == (connection_text(error_msg@) || transient_text(error_msg@)),
{
    let hay = chars_of(error_msg);
    connection_chars(&hay) || transient_chars(&hay)
}

/// Whether the failure says that the request was too large.
pub fn is_request_too_large_error(error_msg: &str) -> (hit: bool)
    ensures
        hit == too_large_text(error_msg@),
{
    let hay = chars_of(error_msg);
    too_large_chars(&hay)
}

/// Sorts a failure into exactly one of the four kinds.
pub fn classify_error(error_msg: &str) -> (kind: ErrorKind)
    ensures
        kind == error_kind(error_msg@),
{
    let hay = chars_of(error_msg);
    if too_large_chars(&hay) {
        ErrorKind::OversizedRequest
    } else if connection_chars(&hay) {
        ErrorKind::ConnectionLevel
    } else if transient_chars(&hay) {
        ErrorKind::Transient
    } else {
        ErrorKind::Fatal
    }
}

} // verus!
