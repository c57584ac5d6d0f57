//! HTTP download planning: byte ranges for parallel downloads, response
//! classification and retries, progress throttling, header parsing and the
//! names of temporary files.
use vstd::prelude::*;

use crate::presets::models::DownloadMsg;
use crate::text::{contains, decimal, parse_u64, spec_contains, spec_decimal, spec_parse_u64};

verus! {

/// Most parallel connections used for one download.
pub const NUM_THREADS: u64 = 6;

/// Attempts made for one request before giving up.
pub const MAX_ATTEMPTS: u64 = 3;

/// Delay before the first retry, in nanoseconds (400 ms); it doubles per attempt.
pub const RETRY_BASE_DELAY_NANOS: u128 = 400_000_000;

/// Files larger than this (100 MiB) are downloaded over several connections when
/// the server accepts byte ranges.
pub const SINGLE_THREAD_THRESHOLD: u64 = 104_857_600;

/// Progress is reported at most once per this many bytes (1 MiB).
pub const PROGRESS_STEP: u64 = 1_048_576;

/// One mebibyte.
pub const MIB: u64 = 1_048_576;

/// An inclusive byte range `start..=end` of the remote file.
#[derive(Clone, Copy, Debug)]
pub struct ByteRange {
    pub start: u64,
    pub end: u64,
}

/// Whether a file of `total` bytes is fetched over several connections.
pub open spec fn spec_use_parallel(total: nat, accepts_ranges: bool) -> bool {
    accepts_ranges && total > SINGLE_THREAD_THRESHOLD
}

/// Whether a file of `total` bytes is fetched over several connections: only when
/// the server accepts byte ranges and the file exceeds [`SINGLE_THREAD_THRESHOLD`].
pub fn use_parallel_download(total: u64, accepts_ranges: bool) -> (r: bool)
    ensures
        r == spec_use_parallel(total as nat, accepts_ranges),
{
    accepts_ranges && total > SINGLE_THREAD_THRESHOLD
}

/// Number of parts a parallel download of `total` bytes is split into: one per
/// started mebibyte, at most [`NUM_THREADS`] and at least two.
pub open spec fn spec_part_count(total: nat) -> nat {
    let by_size = total / MIB as nat + 1;
    let capped = if by_size < NUM_THREADS { by_size } else { NUM_THREADS as nat };
    if capped < 2 {
        2
    } else {
        capped
    }
}

/// Size of every part but the last, which also takes the remainder.
pub open spec fn spec_chunk_size(total: nat) -> nat {
    total / spec_part_count(total)
}

/// The byte range of part `i` of a parallel download of `total` bytes.
pub open spec fn spec_part_range(total: nat, i: nat) -> (nat, nat) {
    let n = spec_part_count(total);
    let chunk = spec_chunk_size(total);
    if i == n - 1 {
        (i * chunk, (total - 1) as nat)
    } else {
        (i * chunk, ((i + 1) * chunk - 1) as nat)
    }
}

proof fn lemma_chunk_bounds(total: nat)
    requires
        total >= 2,
    ensures
        2 <= spec_part_count(total) <= NUM_THREADS,
        spec_chunk_size(total) >= 1,
        spec_part_count(total) * spec_chunk_size(total) <= total,
{
    let n = spec_part_count(total);
    let c = spec_chunk_size(total);
    assert(n <= total) by {
        if total < MIB {
            assert(total / MIB as nat == 0) by (nonlinear_arith)
                requires
                    total < MIB,
            ;
        } else {
            assert(total / MIB as nat >= 1) by (nonlinear_arith)
                requires
                    total >= MIB,
            ;
        }
    }
    assert(c >= 1) by (nonlinear_arith)
        requires
            c == total / n,
            n <= total,
            n >= 2,
    ;
    assert(n * c <= total) by (nonlinear_arith)
        requires
            c == total / n,
            n >= 2,
    ;
}

/// Splits a download of `total` bytes into the parts fetched in parallel (see
/// [`spec_part_range`]).
pub fn download_ranges(total: u64) -> (r: Vec<ByteRange>)
    requires
        total >= 2,
    ensures
        r@.len() == spec_part_count(total as nat),
        forall|i: int| 0 <= i < r@.len() ==> (#[trigger] r@[i].start as nat, r@[i].end as nat)
            == spec_part_range(total as nat, i as nat),
{
    proof {
        lemma_chunk_bounds(total as nat);
    }
    let by_size: u64 = total / MIB + 1;
    let capped: u64 = if by_size < NUM_THREADS { by_size } else { NUM_THREADS };
    let n: u64 = if capped < 2 { 2 } else { capped };
    let chunk: u64 = total / n;
    let ghost sn = spec_part_count(total as nat);
    let ghost sc = spec_chunk_size(total as nat);
    assert(n == sn);
    assert(chunk == sc);
    let mut r: Vec<ByteRange> = Vec::new();
    let mut i: u64 = 0;
    while i < n
        invariant
            i <= n,
            total >= 2,
            sn == spec_part_count(total as nat),
            sc == spec_chunk_size(total as nat),
            n == sn,
            chunk == sc,
            2 <= n <= NUM_THREADS,
            chunk >= 1,
            n * chunk <= total,
            r@.len() == i,
            forall|k: int| 0 <= k < i ==> (#[trigger] r@[k].start as nat, r@[k].end as nat)
                == spec_part_range(total as nat, k as nat),
        decreases n - i,
    {
        assert((i + 1) * chunk <= n * chunk) by (nonlinear_arith)
            requires
                i + 1 <= n,
        ;
        assert(i * chunk <= (i + 1) * chunk) by (nonlinear_arith);
        let start = i * chunk;
        let end = if i == n - 1 {
            total - 1
        } else {
            assert((i + 1) * chunk >= 1) by (nonlinear_arith)
                requires
                    chunk >= 1,
            ;
            (i + 1) * chunk - 1
        };
        r.push(ByteRange { start, end });
        proof {
            assert((start as nat, end as nat) == spec_part_range(total as nat, i as nat));
            assert(r@[i as int].start == start && r@[i as int].end == end);
        }
        i = i + 1;
    }
    r
}

/// The parts of a parallel download cover the file exactly once, in order: the
/// first starts at byte 0, each starts right after the previous one ends, none
/// is empty, and the last ends at the last byte.
pub proof fn lemma_ranges_tile_file(total: nat)
    requires
        total >= 2,
    ensures
        spec_part_range(total, 0).0 == 0,
        spec_part_range(total, (spec_part_count(total) - 1) as nat).1 == total - 1,
        forall|i: nat| #![trigger spec_part_range(total, i)]
            i < spec_part_count(total) ==> spec_part_range(total, i).0 <= spec_part_range(total, i).1,
        forall|i: nat| #![trigger spec_part_range(total, i + 1)]
            i + 1 < spec_part_count(total) ==> spec_part_range(total, i + 1).0 == spec_part_range(total, i).1 + 1,
{
    lemma_chunk_bounds(total);
    let n = spec_part_count(total);
    let c = spec_chunk_size(total);
    assert forall|i: nat| i < n implies #[trigger] spec_part_range(total, i).0 <= spec_part_range(total, i).1 by {
        if i == n - 1 {
            assert(i * c <= total - 1) by (nonlinear_arith)
                requires
                    i + 1 == n,
                    n * c <= total,
                    c >= 1,
            ;
        } else {
            assert(i * c <= (i + 1) * c - 1) by (nonlinear_arith)
                requires
                    c >= 1,
            ;
        }
    }
    assert forall|i: nat| i + 1 < n implies #[trigger] spec_part_range(total, i + 1).0 == spec_part_range(total, i).1 + 1 by {
        assert((i + 1) * c >= 1) by (nonlinear_arith)
            requires
                c >= 1,
        ;
    }
}

/// Whether an HTTP status is a success (2xx).
pub open spec fn spec_is_success(status: u16) -> bool {
    200 <= status <= 299
}

/// Whether a failed request with this HTTP status is worth retrying: request
/// timeout (408), too many requests (429) or a server error (5xx).
pub open spec fn spec_is_retryable(status: u16) -> bool {
    status == 408 || status == 429 || (500 <= status <= 599)
}

/// Whether a failed request with this HTTP status is worth retrying (see
/// [`spec_is_retryable`]).
pub fn is_retryable_status(status: u16) -> (r: bool)
    ensures
        r == spec_is_retryable(status),
        500 <= status <= 599 ==> r,
        status == 408 || status == 429 ==> r,
        status < 500 && status != 408 && status != 429 ==> !r,
        status > 599 ==> !r,
{
    status == 408 || status == 429 || (500 <= status && status <= 599)
}

/// Delay before retrying after failed attempt number `attempt` (counted from
/// 1), in nanoseconds: the base delay doubled for each earlier attempt.
pub open spec fn spec_retry_delay(attempt: nat) -> nat {
    (RETRY_BASE_DELAY_NANOS * vstd::arithmetic::power2::pow2(
        (if attempt >= 1 { attempt - 1 } else { 0 }) as nat,
    )) as nat
}

/// Delay before retrying after failed attempt number `attempt` (see [`spec_retry_delay`]).
pub fn retry_delay(attempt: u64) -> (r: u128)
    requires
        attempt <= 32,
    ensures
        r == spec_retry_delay(attempt as nat),
{
    let shift: u64 = if attempt >= 1 { attempt - 1 } else { 0 };
    let mut factor: u128 = 1;
    let mut k: u64 = 0;
    proof {
        vstd::arithmetic::power2::lemma2_to64();
    }
    while k < shift
        invariant
            k <= shift <= 31,
            factor == vstd::arithmetic::power2::pow2(k as nat),
            vstd::arithmetic::power2::pow2(32) == 0x1_0000_0000,
        decreases shift - k,
    {
        proof {
            vstd::arithmetic::power2::lemma_pow2_unfold((k + 1) as nat);
            if k + 1 < 32 {
                vstd::arithmetic::power2::lemma_pow2_strictly_increases((k + 1) as nat, 32);
            }
        }
        factor = factor * 2;
        k = k + 1;
    }
    proof {
        if shift < 32 {
            vstd::arithmetic::power2::lemma_pow2_strictly_increases(shift as nat, 32);
        }
        assert(RETRY_BASE_DELAY_NANOS * factor <= RETRY_BASE_DELAY_NANOS * 0x1_0000_0000) by (nonlinear_arith)
            requires
                factor <= 0x1_0000_0000,
        ;
    }
    RETRY_BASE_DELAY_NANOS * factor
}

/// The outcome of one request attempt.
#[derive(Debug)]
pub enum RequestOutcome {
    /// The server answered with `code`; `text` is how the status reads in messages.
    Status { code: u16, text: String },
    /// The request failed before a response arrived.
    NetworkError(String),
}

/// What to do after an attempt.
#[derive(Debug)]
pub enum RetryAction {
    /// The response is good: use it.
    Accept,
    /// Wait this many nanoseconds, then try again.
    RetryAfter(u128),
    /// Give up with this message.
    Fail(String),
}

/// Retry bookkeeping for one request: attempts made so far and the last error.
pub struct RetryState {
    attempt: u64,
    last_error: String,
}

/// Abstract state of a [`RetryState`].
pub struct RetryView {
    pub attempt: nat,
    pub last_error: Seq<char>,
}

impl View for RetryState {
    type V = RetryView;

    closed spec fn view(&self) -> RetryView {
        RetryView { attempt: self.attempt as nat, last_error: self.last_error@ }
    }
}

/// The message for a response with status text `text`.
pub open spec fn status_message(text: Seq<char>) -> Seq<char> {
    "服务器返回 "@ + text
}

/// The message for a network failure `error`.
pub open spec fn network_message(error: Seq<char>) -> Seq<char> {
    "网络请求失败: "@ + error
}

impl RetryState {
    /// No attempt made yet.
    pub fn new() -> (r: RetryState)
        ensures
            r@.attempt == 0,
            r@.last_error == Seq::<char>::empty(),
    {
        RetryState { attempt: 0, last_error: String::new() }
    }

    /// Records a failed attempt with message `error`: retry after the backoff
    /// delay while attempts remain, otherwise fail with `error`.
    pub fn on_failure(&mut self, error: String) -> (r: RetryAction)
        requires
            old(self)@.attempt < MAX_ATTEMPTS,
        ensures
            final(self)@.attempt == old(self)@.attempt + 1,
            final(self)@.last_error == error@,
            final(self)@.attempt < MAX_ATTEMPTS ==> r == RetryAction::RetryAfter(
                spec_retry_delay(final(self)@.attempt) as u128,
            ),
            final(self)@.attempt == MAX_ATTEMPTS ==> (r matches RetryAction::Fail(m) && m@ == error@),
    {
        self.attempt = self.attempt + 1;
        let copy = error.clone();
        self.last_error = error;
        if self.attempt < MAX_ATTEMPTS {
            RetryAction::RetryAfter(retry_delay(self.attempt))
        } else {
            RetryAction::Fail(copy)
        }
    }

    /// Decides after one request attempt: a success is accepted; a retryable
    /// status or a network failure is retried while attempts remain (the last
    /// error is reported when they run out); any other status fails at once.
    pub fn on_outcome(&mut self, outcome: RequestOutcome) -> (r: RetryAction)
        requires
            old(self)@.attempt < MAX_ATTEMPTS,
        ensures
            (outcome matches RequestOutcome::Status { code, .. } && 500 <= code <= 599
                && old(self)@.attempt == 0) ==> r == RetryAction::RetryAfter(RETRY_BASE_DELAY_NANOS),
            match outcome {
                RequestOutcome::Status { code, text } => if spec_is_success(code) {
                    r == RetryAction::Accept && final(self)@ == old(self)@
                } else if spec_is_retryable(code) {
                    &&& final(self)@.attempt == old(self)@.attempt + 1
                    &&& final(self)@.last_error == status_message(text@)
                    &&& final(self)@.attempt < MAX_ATTEMPTS ==> r == RetryAction::RetryAfter(
                        spec_retry_delay(final(self)@.attempt) as u128,
                    )
                    &&& final(self)@.attempt == MAX_ATTEMPTS ==> (r matches RetryAction::Fail(m) && m@
                        == status_message(text@))
                } else {
                    &&& final(self)@ == old(self)@
                    &&& r matches RetryAction::Fail(m)
                    &&& m@ == status_message(text@)
                },
                RequestOutcome::NetworkError(e) => {
                    &&& final(self)@.attempt == old(self)@.attempt + 1
                    &&& final(self)@.last_error == network_message(e@)
                    &&& final(self)@.attempt < MAX_ATTEMPTS ==> r == RetryAction::RetryAfter(
                        spec_retry_delay(final(self)@.attempt) as u128,
                    )
                    &&& final(self)@.attempt == MAX_ATTEMPTS ==> (r matches RetryAction::Fail(m) && m@
                        == network_message(e@))
                },
            },
    {
        proof {
            vstd::arithmetic::power2::lemma2_to64();
        }
        match outcome {
            RequestOutcome::Status { code, text } => {
                if 200 <= code && code <= 299 {
                    RetryAction::Accept
                } else {
                    let mut msg = String::from_str("服务器返回 ");
                    msg.append(text.as_str());
                    if is_retryable_status(code) {
                        self.on_failure(msg)
                    } else {
                        RetryAction::Fail(msg)
                    }
                }
            },
            RequestOutcome::NetworkError(e) => {
                let mut msg = String::from_str("网络请求失败: ");
                msg.append(e.as_str());
                self.on_failure(msg)
            },
        }
    }
}

/// Throttles progress messages: reports when `finished` or when at least
/// [`PROGRESS_STEP`] bytes arrived since the last report, and then remembers
/// `downloaded` as the last reported amount.
pub fn report_progress(downloaded: u64, total: u64, last_report: &mut u64, finished: bool) -> (r: Option<
    DownloadMsg,
>)
    ensures
        ({
            let due = finished || (downloaded >= *old(last_report) && downloaded - *old(last_report)
                >= PROGRESS_STEP);
            &&& due ==> (r matches Some(DownloadMsg::Progress { downloaded: d, total: t }) && d == downloaded
                && t == total && *final(last_report) == downloaded)
            &&& !due ==> (r.is_none() && *final(last_report) == *old(last_report))
        }),
{
    let since: u64 = if downloaded >= *last_report { downloaded - *last_report } else { 0 };
    if finished || since >= PROGRESS_STEP {
        *last_report = downloaded;
        Some(DownloadMsg::Progress { downloaded, total })
    } else {
        None
    }
}

/// Name of the temporary file a download into `file_name` is written to.
pub fn partial_file_name(file_name: &str) -> (r: String)
    ensures
        r@ == "."@ + file_name@ + ".part"@,
{
    let mut r = String::from_str(".");
    r.append(file_name);
    r.append(".part");
    r
}

/// Path of part `index` of a parallel download into `dest`.
pub fn part_path(dest: &str, index: u64) -> (r: String)
    ensures
        r@ == dest@ + ".part_"@ + spec_decimal(index as nat),
{
    let mut r = dest.to_owned();
    r.append(".part_");
    let digits = decimal(index);
    r.append(digits.as_str());
    r
}

/// The message when `actual` bytes arrived but `expected` were announced.
pub open spec fn size_mismatch_message(prefix: Seq<char>, expected: nat, actual: nat) -> Seq<char> {
    prefix + "：期望 "@ + spec_decimal(expected) + " 字节，实际 "@ + spec_decimal(actual) + " 字节"@
}

/// Builds a size-mismatch message.
fn mismatch_message(prefix: &str, expected: u64, actual: u64) -> (r: String)
    ensures
        r@ == size_mismatch_message(prefix@, expected as nat, actual as nat),
{
    let mut r = prefix.to_owned();
    r.append("：期望 ");
    let e = decimal(expected);
    r.append(e.as_str());
    r.append(" 字节，实际 ");
    let a = decimal(actual);
    r.append(a.as_str());
    r.append(" 字节");
    r
}

/// Checks a single-connection download: when the size was announced
/// (`total > 0`) exactly that many bytes must have arrived.
pub fn check_download_size(total: u64, downloaded: u64) -> (r: Result<(), String>)
    ensures
        (total == 0 || downloaded == total) ==> r.is_ok(),
        (total > 0 && downloaded != total) ==> (r matches Err(m) && m@ == size_mismatch_message(
            "下载大小不匹配"@,
            total as nat,
            downloaded as nat,
        )),
{
    if total > 0 && downloaded != total {
        Err(mismatch_message("下载大小不匹配", total, downloaded))
    } else {
        Ok(())
    }
}

/// Checks one part of a parallel download: it must hold exactly the bytes of its range.
pub fn check_part_size(range: ByteRange, written: u64) -> (r: Result<(), String>)
    requires
        range.start <= range.end,
        range.end - range.start < u64::MAX,
    ensures
        written == range.end - range.start + 1 ==> r.is_ok(),
        written != range.end - range.start + 1 ==> (r matches Err(m) && m@ == size_mismatch_message(
            "分片大小不匹配"@,
            (range.end - range.start + 1) as nat,
            written as nat,
        )),
{
    let expected = range.end - range.start + 1;
    if written != expected {
        Err(mismatch_message("分片大小不匹配", expected, written))
    } else {
        Ok(())
    }
}

/// Checks the file merged from the parts of a parallel download.
pub fn check_merged_size(total: u64, actual: u64) -> (r: Result<(), String>)
    ensures
        actual == total ==> r.is_ok(),
        actual != total ==> (r matches Err(m) && m@ == size_mismatch_message(
            "分块合并大小不匹配"@,
            total as nat,
            actual as nat,
        )),
{
    if actual != total {
        Err(mismatch_message("分块合并大小不匹配", total, actual))
    } else {
        Ok(())
    }
}

/// The size announced by a `Content-Length` header value.
pub fn content_length(value: Option<&str>) -> (r: Option<u64>)
    ensures
        r == match value {
            Some(v) => spec_parse_u64(v@),
            None => None,
        },
{
    match value {
        Some(v) => parse_u64(v),
        None => None,
    }
}

/// Whether an `Accept-Ranges` header value offers byte ranges.
pub fn accepts_byte_ranges(value: Option<&str>) -> (r: bool)
    ensures
        r == match value {
            Some(v) => spec_contains(v@, "bytes"@),
            None => false,
        },
{
    match value {
        Some(v) => contains(v, "bytes"),
        None => false,
    }
}

/// The file size in a `Content-Range` header value such as `bytes 0-0/1234`: the
/// number after its last `/`.
pub fn content_range_total(value: Option<&str>) -> (r: Option<u64>)
    ensures
        r == match value {
            Some(v) => match super::after_last_slash(v@) {
                Some(tail) => spec_parse_u64(tail),
                None => None,
            },
            None => None,
        },
{
    match value {
        Some(v) => match super::split_after_last_slash(v) {
            Some(tail) => parse_u64(tail.as_str()),
            None => None,
        },
        None => None,
    }
}

/// Every server error (500 to 599), request timeout (408) and "too many
/// requests" (429) is retried; no success and no other client error is.
pub proof fn lemma_server_errors_are_retried(status: u16)
    ensures
        500 <= status <= 599 ==> spec_is_retryable(status) && !spec_is_success(status),
        status == 408 || status == 429 ==> spec_is_retryable(status),
        status < 500 && status != 408 && status != 429 ==> !spec_is_retryable(status),
{
}

/// The first retry waits the base delay (400 ms); each further retry waits twice
/// as long as the one before.
pub proof fn lemma_retry_delay_doubles(attempt: nat)
    requires
        attempt >= 1,
    ensures
        spec_retry_delay(1) == RETRY_BASE_DELAY_NANOS,
        spec_retry_delay(attempt + 1) == 2 * spec_retry_delay(attempt),
{
    vstd::arithmetic::power2::lemma2_to64();
    vstd::arithmetic::power2::lemma_pow2_unfold(attempt as nat);
    let p = vstd::arithmetic::power2::pow2((attempt - 1) as nat);
    assert(RETRY_BASE_DELAY_NANOS * (2 * p) == 2 * (RETRY_BASE_DELAY_NANOS * p)) by (nonlinear_arith);
}

} // verus!
