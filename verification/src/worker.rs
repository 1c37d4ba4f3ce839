//! The delivery worker's decision core: the backoff schedule, the recorded
//! outcome of an HTTP call, the lifecycle of a request attempt, and the
//! claim rules that keep concurrent workers from treading on each other.
//!
//! The store itself is an external collaborator; what stands here is the
//! state a worker reads and writes of it, and every transition the worker is
//! allowed to make. The surrounding loop performs the store round-trips and
//! the HTTP call, and hands their results to these functions.

use vstd::prelude::*;

use crate::json::JsonValue;

verus! {

/// Seconds to wait when there is no unprocessed attempt to pick.
pub const POLLING_SLEEP_SECONDS: u64 = 1;

/// Seconds to wait before the first retry.
pub const MINIMUM_RETRY_DELAY_SECONDS: u64 = 5;

/// Seconds to wait between retries at most.
pub const MAXIMUM_RETRY_DELAY_SECONDS: u64 = 300;

/// Bytes of a response body kept in the store; the rest is cut off.
pub const RESPONSE_BODY_MAX_BYTES: usize = 65536;

/// The backoff schedule: linear in the retry count, at least the minimum
/// delay, capped at the maximum. A retry count under one — zero on a first
/// attempt, negative never in a healthy store — is clamped to one.
pub open spec fn spec_backoff(retry_count: int) -> int {
    let n = if retry_count < 1 {
        1
    } else {
        retry_count
    };
    if 5 * n > 300 {
        300
    } else {
        5 * n
    }
}

/// Seconds until a failed attempt with the given retry count may be retried.
pub fn backoff_seconds(retry_count: i16) -> (r: u64)
    ensures
        r == spec_backoff(retry_count as int),
{
    let n: u64 = if retry_count < 1 {
        1
    } else {
        retry_count as u64
    };
    let delay = MINIMUM_RETRY_DELAY_SECONDS * n;
    if delay > MAXIMUM_RETRY_DELAY_SECONDS {
        MAXIMUM_RETRY_DELAY_SECONDS
    } else {
        delay
    }
}

/// Law: the backoff lies in [5, 300] seconds for every retry count, never
/// decreases as the count grows, and sits at the 300-second ceiling from
/// count 60 on.
pub proof fn lemma_backoff_bounds(n: int, m: int)
    requires
        n <= m,
    ensures
        5 <= spec_backoff(n) <= 300,
        spec_backoff(n) <= spec_backoff(m),
        n >= 60 ==> spec_backoff(n) == 300,
{
}

/// How a failed HTTP call is categorized; a call that yielded a status code
/// has no kind at all.
#[derive(Clone, Copy, Debug, PartialEq, Eq, Structural)]
pub enum ResponseErrorKind {
    Timeout,
    ConnectionError,
    InvalidHeaders,
    InvalidUrl,
    TooManyRedirects,
    OtherTransport,
}

/// The stored label of each error kind.
pub open spec fn error_kind_label(kind: ResponseErrorKind) -> Seq<char> {
    match kind {
        ResponseErrorKind::Timeout => "E_TIMEOUT"@,
        ResponseErrorKind::ConnectionError => "E_CONNECTION"@,
        ResponseErrorKind::InvalidHeaders => "E_INVALID_HEADERS"@,
        ResponseErrorKind::InvalidUrl => "E_INVALID_URL"@,
        ResponseErrorKind::TooManyRedirects => "E_TOO_MANY_REDIRECTS"@,
        ResponseErrorKind::OtherTransport => "E_OTHER_TRANSPORT"@,
    }
}

impl ResponseErrorKind {
    /// The stored label of the kind.
    pub fn name(&self) -> (r: String)
        ensures
            r@ == error_kind_label(*self),
    {
        match self {
            ResponseErrorKind::Timeout => "E_TIMEOUT".to_owned(),
            ResponseErrorKind::ConnectionError => "E_CONNECTION".to_owned(),
            ResponseErrorKind::InvalidHeaders => "E_INVALID_HEADERS".to_owned(),
            ResponseErrorKind::InvalidUrl => "E_INVALID_URL".to_owned(),
            ResponseErrorKind::TooManyRedirects => "E_TOO_MANY_REDIRECTS".to_owned(),
            ResponseErrorKind::OtherTransport => "E_OTHER_TRANSPORT".to_owned(),
        }
    }
}

/// The recorded outcome of one HTTP call: an upstream status plus body, or a
/// categorized transport error. Never both absent.
#[derive(Debug)]
pub struct Response {
    pub response_error_kind: Option<ResponseErrorKind>,
    pub http_code: Option<u16>,
    pub headers: Option<JsonValue>,
    pub body: Option<Vec<u8>>,
    pub elapsed_time_ms: u64,
}

impl Response {
    /// A call succeeded iff it yielded a status code in [200, 300) and no
    /// transport error was recorded.
    pub open spec fn is_success_spec(&self) -> bool {
        &&& self.response_error_kind is None
        &&& match self.http_code {
            Some(code) => 200 <= code < 300,
            None => false,
        }
    }

    /// Whether the recorded call succeeded.
    pub fn is_success(&self) -> (r: bool)
        ensures
            r == self.is_success_spec(),
    {
        match (&self.response_error_kind, &self.http_code) {
            (Option::None, Option::Some(code)) => 200 <= *code && *code < 300,
            _ => false,
        }
    }

    /// The stored label of the error kind, if any.
    pub fn response_error__name(&self) -> (r: Option<String>)
        ensures
            r is Some <==> self.response_error_kind is Some,
            r is Some ==> r.unwrap()@ == error_kind_label(self.response_error_kind.unwrap()),
    {
        match &self.response_error_kind {
            Option::Some(kind) => Option::Some(kind.name()),
            Option::None => Option::None,
        }
    }

    /// The status code the call yielded, if any.
    pub fn http_code(&self) -> (r: Option<u16>)
        ensures
            r == self.http_code,
    {
        self.http_code
    }

    /// Milliseconds from dispatch to response or error.
    pub fn elapsed_time_ms(&self) -> (r: u64)
        ensures
            r == self.elapsed_time_ms,
    {
        self.elapsed_time_ms
    }
}

/// Cut a response body down to the stored cap.
pub fn truncate_response_body(body: &mut Vec<u8>)
    ensures
        final(body)@ == if old(body)@.len() <= RESPONSE_BODY_MAX_BYTES {
            old(body)@
        } else {
            old(body)@.take(RESPONSE_BODY_MAX_BYTES as int)
        },
{
    body.truncate(RESPONSE_BODY_MAX_BYTES);
    proof {
        if old(body)@.len() <= RESPONSE_BODY_MAX_BYTES {
            assert(body@ =~= old(body)@);
        }
    }
}

/// One attempt row as the store holds it: the unit of delivery work.
#[allow(non_snake_case)]
#[derive(Debug)]
pub struct AttemptRow {
    pub request_attempt__id: u128,
    pub event__id: u128,
    pub subscription__id: u128,
    pub created_at: i64,
    pub retry_count: i16,
    pub delay_until: Option<i64>,
    pub picked_at: Option<i64>,
    pub worker_id: Option<String>,
    pub worker_version: Option<String>,
    pub succeeded_at: Option<i64>,
    pub failed_at: Option<i64>,
    pub response_id: Option<u128>,
}

impl AttemptRow {
    /// The invariant the worker maintains of every row: at most one terminal
    /// timestamp, and a terminal row was picked first.
    pub open spec fn wf(&self) -> bool {
        &&& !(self.succeeded_at is Some && self.failed_at is Some)
        &&& (self.succeeded_at is Some || self.failed_at is Some) ==> self.picked_at is Some
    }

    /// A row the selector may return: not terminal, and due.
    pub open spec fn eligible_spec(&self, now: i64) -> bool {
        &&& self.succeeded_at is None
        &&& self.failed_at is None
        &&& match self.delay_until {
            Some(t) => t <= now,
            None => true,
        }
    }

    /// A row a worker may claim: eligible and not already claimed. The row
    /// lock held from claim to commit makes the claim exclusive; skipping
    /// locked rows means a peer's claim is never observed half-done.
    pub open spec fn can_claim_spec(&self, now: i64) -> bool {
        &&& self.eligible_spec(now)
        &&& self.picked_at is None
    }

    /// Pending: neither picked nor terminal.
    pub open spec fn is_pending(&self) -> bool {
        self.picked_at is None && self.succeeded_at is None && self.failed_at is None
    }

    /// In flight: picked, not yet terminal.
    pub open spec fn is_in_flight(&self) -> bool {
        self.picked_at is Some && self.succeeded_at is None && self.failed_at is None
    }

    /// Terminal: succeeded or failed, never reactivated.
    pub open spec fn is_terminal(&self) -> bool {
        self.succeeded_at is Some || self.failed_at is Some
    }
}

/// The row as it stands after a worker claimed it at `now`.
pub open spec fn claimed_row(
    row: AttemptRow,
    now: i64,
    worker_id: String,
    worker_version: String,
) -> AttemptRow {
    AttemptRow {
        picked_at: Some(now),
        worker_id: Some(worker_id),
        worker_version: Some(worker_version),
        ..row
    }
}

/// The fresh pending attempt scheduled after a failure at `now`.
pub open spec fn retry_successor(pred: AttemptRow, successor_id: u128, now: i64) -> AttemptRow {
    AttemptRow {
        request_attempt__id: successor_id,
        event__id: pred.event__id,
        subscription__id: pred.subscription__id,
        created_at: now,
        retry_count: (pred.retry_count + 1) as i16,
        delay_until: Some((now + spec_backoff(pred.retry_count as int)) as i64),
        picked_at: None,
        worker_id: None,
        worker_version: None,
        succeeded_at: None,
        failed_at: None,
        response_id: None,
    }
}

/// Claim the row for this worker if no peer holds it and it is due: stamp
/// `picked_at` and the worker identity. Returns whether the claim succeeded;
/// a row that cannot be claimed is left exactly as it was.
pub fn try_claim(
    row: &mut AttemptRow,
    now: i64,
    worker_id: &String,
    worker_version: &String,
) -> (r: bool)
    ensures
        r == old(row).can_claim_spec(now),
        r ==> *final(row) == claimed_row(*old(row), now, *worker_id, *worker_version),
        !r ==> *final(row) == *old(row),
        old(row).wf() ==> final(row).wf(),
{
    let claimable = match (&row.succeeded_at, &row.failed_at, &row.picked_at) {
        (Option::None, Option::None, Option::None) => match &row.delay_until {
            Option::Some(t) => *t <= now,
            Option::None => true,
        },
        _ => false,
    };
    if claimable {
        row.picked_at = Some(now);
        row.worker_id = Some(worker_id.clone());
        row.worker_version = Some(worker_version.clone());
        true
    } else {
        false
    }
}

/// Record the outcome of the HTTP call on a claimed row: tie the response to
/// it, stamp exactly one terminal timestamp, and on failure hand back the
/// single successor attempt that the worker must insert, scheduled by the
/// backoff of the failed row's retry count.
pub fn settle(
    row: &mut AttemptRow,
    success: bool,
    response_id: u128,
    successor_id: u128,
    now: i64,
) -> (retry: Option<AttemptRow>)
    requires
        old(row).wf(),
        old(row).picked_at is Some,
        old(row).succeeded_at is None,
        old(row).failed_at is None,
        old(row).retry_count < i16::MAX,
        now <= i64::MAX - 300,
    ensures
        final(row).wf(),
        success ==> *final(row) == (AttemptRow {
            succeeded_at: Some(now),
            response_id: Some(response_id),
            ..*old(row)
        }) && retry is None,
        !success ==> *final(row) == (AttemptRow {
            failed_at: Some(now),
            response_id: Some(response_id),
            ..*old(row)
        }) && retry == Some(retry_successor(*old(row), successor_id, now)),
{
    row.response_id = Some(response_id);
    if success {
        row.succeeded_at = Some(now);
        None
    } else {
        row.failed_at = Some(now);
        let delay = backoff_seconds(row.retry_count);
        proof {
            lemma_backoff_bounds(row.retry_count as int, row.retry_count as int);
        }
        let successor = AttemptRow {
            request_attempt__id: successor_id,
            event__id: row.event__id,
            subscription__id: row.subscription__id,
            created_at: now,
            retry_count: row.retry_count + 1,
            delay_until: Some(now + delay as i64),
            picked_at: None,
            worker_id: None,
            worker_version: None,
            succeeded_at: None,
            failed_at: None,
            response_id: None,
        };
        Some(successor)
    }
}

/// Law: no row ever carries both terminal timestamps.
pub proof fn lemma_at_most_one_terminal(row: AttemptRow)
    requires
        row.wf(),
    ensures
        !(row.succeeded_at is Some && row.failed_at is Some),
{
}

/// Law: a claim is observable at most once. Once a worker has claimed a row,
/// no later claim can succeed on it, whatever the time and whoever asks.
pub proof fn lemma_no_double_claim(
    row: AttemptRow,
    now1: i64,
    now2: i64,
    worker_id: String,
    worker_version: String,
)
    requires
        row.can_claim_spec(now1),
    ensures
        !claimed_row(row, now1, worker_id, worker_version).can_claim_spec(now2),
{
}

/// Law: every failed attempt has exactly the one successor that `settle`
/// hands back; it carries the same event and subscription, a retry count one
/// higher, and becomes due between 5 and 300 seconds after the failure.
pub proof fn lemma_retry_chain_integrity(pred: AttemptRow, successor_id: u128, now: i64)
    requires
        pred.retry_count < i16::MAX,
        now <= i64::MAX - 300,
    ensures
        retry_successor(pred, successor_id, now).event__id == pred.event__id,
        retry_successor(pred, successor_id, now).subscription__id == pred.subscription__id,
        retry_successor(pred, successor_id, now).retry_count == pred.retry_count + 1,
        (retry_successor(pred, successor_id, now).delay_until matches Some(due) && 5 <= due - now
            <= 300),
        retry_successor(pred, successor_id, now).wf(),
        retry_successor(pred, successor_id, now).can_claim_spec(
            (now + spec_backoff(pred.retry_count as int)) as i64,
        ),
{
    lemma_backoff_bounds(pred.retry_count as int, pred.retry_count as int);
}

/// Which row the selector must return: an eligible one no younger than any
/// other eligible one.
pub open spec fn is_oldest_eligible(rows: Seq<AttemptRow>, now: i64, k: int) -> bool {
    &&& 0 <= k < rows.len()
    &&& rows[k].eligible_spec(now)
    &&& forall|j: int|
        0 <= j < rows.len() && (#[trigger] rows[j]).eligible_spec(now) ==> rows[k].created_at
            <= rows[j].created_at
}

/// Select the single oldest eligible attempt of the backlog, as the locking
/// selector does; `None` iff nothing is eligible.
pub fn select_next(rows: &Vec<AttemptRow>, now: i64) -> (r: Option<usize>)
    ensures
        r matches Some(k) ==> is_oldest_eligible(rows@, now, k as int),
        r is None ==> forall|j: int|
            0 <= j < rows@.len() ==> !(#[trigger] rows@[j]).eligible_spec(now),
{
    let mut best: Option<usize> = None;
    let mut i: usize = 0;
    while i < rows.len()
        invariant
            0 <= i <= rows@.len(),
            best matches Some(b) ==> 0 <= b < i && rows@[b as int].eligible_spec(now),
            best matches Some(b) ==> forall|j: int|
                0 <= j < i && (#[trigger] rows@[j]).eligible_spec(now) ==> rows@[b as int].created_at
                    <= rows@[j].created_at,
            best is None ==> forall|j: int|
                0 <= j < i ==> !(#[trigger] rows@[j]).eligible_spec(now),
        decreases rows@.len() - i,
    {
        let row = &rows[i];
        let eligible = match (&row.succeeded_at, &row.failed_at) {
            (Option::None, Option::None) => match &row.delay_until {
                Option::Some(t) => *t <= now,
                Option::None => true,
            },
            _ => false,
        };
        if eligible {
            match best {
                Option::Some(b) => {
                    if row.created_at < rows[b].created_at {
                        best = Some(i);
                    }
                },
                Option::None => {
                    best = Some(i);
                },
            }
        }
        i = i + 1;
    }
    best
}

/// Law: an attempt walks the lifecycle in one direction. A claim takes a
/// pending row in flight; recording an outcome takes a row in flight to a
/// terminal state; and the successor of a failure starts out pending.
pub proof fn lemma_attempt_lifecycle(
    row: AttemptRow,
    now: i64,
    worker_id: String,
    worker_version: String,
    success: bool,
    response_id: u128,
    successor_id: u128,
    later: i64,
)
    requires
        row.can_claim_spec(now),
    ensures
        row.is_pending(),
        claimed_row(row, now, worker_id, worker_version).is_in_flight(),
        settled_row(
            claimed_row(row, now, worker_id, worker_version),
            success,
            response_id,
            later,
        ).is_terminal(),
        retry_successor(row, successor_id, later).is_pending(),
{
}

/// The backlog as the locking selector sees it: every row keeps the worker's
/// invariant, and a visible non-terminal row is unclaimed — a peer's claim
/// is hidden by the row lock until it commits, and a crashed claim rolls
/// back.
pub open spec fn backlog_wf(rows: Seq<AttemptRow>) -> bool {
    forall|i: int|
        0 <= i < rows.len() ==> (#[trigger] rows[i]).wf() && (rows[i].picked_at is Some
            ==> rows[i].succeeded_at is Some || rows[i].failed_at is Some)
}

/// The claimed row as it stands once the outcome of its HTTP call is
/// recorded at `now`.
pub open spec fn settled_row(
    claimed: AttemptRow,
    success: bool,
    response_id: u128,
    now: i64,
) -> AttemptRow {
    if success {
        AttemptRow { succeeded_at: Some(now), response_id: Some(response_id), ..claimed }
    } else {
        AttemptRow { failed_at: Some(now), response_id: Some(response_id), ..claimed }
    }
}

/// One iteration of the worker's main loop, given what the HTTP call it
/// performs will report: claim the oldest eligible attempt of the backlog,
/// record the response on it, and on failure append the scheduled successor.
/// Returns the index of the attempt worked on, or `None` where nothing was
/// eligible and the backlog stands untouched (the caller then sleeps one
/// polling interval).
#[verifier::loop_isolation(false)]
pub fn worker_iteration(
    rows: &mut Vec<AttemptRow>,
    now_pick: i64,
    worker_id: &String,
    worker_version: &String,
    success: bool,
    response_id: u128,
    successor_id: u128,
    now_settle: i64,
) -> (r: Option<usize>)
    requires
        backlog_wf(old(rows)@),
        forall|i: int| 0 <= i < old(rows)@.len() ==> (#[trigger] old(rows)@[i]).retry_count
            < i16::MAX,
        now_settle <= i64::MAX - 300,
    ensures
        backlog_wf(final(rows)@),
        r is None ==> final(rows)@ == old(rows)@ && (forall|j: int|
            0 <= j < old(rows)@.len() ==> !(#[trigger] old(rows)@[j]).eligible_spec(now_pick)),
        r matches Some(k) ==> is_oldest_eligible(old(rows)@, now_pick, k as int) && {
            let claimed = claimed_row(
                old(rows)@[k as int],
                now_pick,
                *worker_id,
                *worker_version,
            );
            let settled = settled_row(claimed, success, response_id, now_settle);
            if success {
                final(rows)@ == old(rows)@.update(k as int, settled)
            } else {
                final(rows)@ == old(rows)@.update(k as int, settled).push(
                    retry_successor(claimed, successor_id, now_settle),
                )
            }
        },
{
    let picked = select_next(rows, now_pick);
    let k = match picked {
        Option::Some(k) => k,
        Option::None => {
            return Option::None;
        },
    };
    let mut row = rows.remove(k);
    let claimed = try_claim(&mut row, now_pick, worker_id, worker_version);
    proof {
        assert(old(rows)@[k as int].picked_at is None);
        assert(claimed);
    }
    let successor = settle(&mut row, success, response_id, successor_id, now_settle);
    rows.insert(k, row);
    match successor {
        Option::Some(next) => {
            rows.push(next);
        },
        Option::None => {},
    }
    proof {
        let claimed_spec = claimed_row(old(rows)@[k as int], now_pick, *worker_id, *worker_version);
        let settled = settled_row(claimed_spec, success, response_id, now_settle);
        if success {
            assert(rows@ =~= old(rows)@.update(k as int, settled));
        } else {
            assert(rows@ =~= old(rows)@.update(k as int, settled).push(
                retry_successor(claimed_spec, successor_id, now_settle),
            ));
        }
    }
    Option::Some(k)
}

/// The lower-case form of an ASCII byte; others stand as they are.
pub open spec fn lower_byte(b: u8) -> u8 {
    if 65 <= b <= 90 {
        (b + 32) as u8
    } else {
        b
    }
}

/// The lower-case form of an ASCII byte; others stand as they are.
pub fn lower_byte_exec(b: u8) -> (r: u8)
    ensures
        r == lower_byte(b),
{
    if 65 <= b && b <= 90 {
        b + 32
    } else {
        b
    }
}

/// The bytes of the `content-type` header name.
pub open spec fn content_type_label() -> Seq<u8> {
    seq![99u8, 111u8, 110u8, 116u8, 101u8, 110u8, 116u8, 45u8, 116u8, 121u8, 112u8, 101u8]
}

/// Whether a header name is `Content-Type`, compared without regard to ASCII
/// case, as HTTP header maps do.
pub open spec fn name_is_content_type(name: Seq<char>) -> bool {
    vstd::utf8::encode_utf8(name).map_values(|b: u8| lower_byte(b)) == content_type_label()
}

/// Whether the header name is `Content-Type` in any ASCII case.
pub fn is_content_type_name(name: &String) -> (r: bool)
    ensures
        r == name_is_content_type(name@),
{
    let bytes = name.as_str().as_bytes();
    let label: [u8; 12] = [99, 111, 110, 116, 101, 110, 116, 45, 116, 121, 112, 101];
    proof {
        assert(label@ =~= content_type_label());
    }
    if bytes.len() != 12 {
        proof {
            assert(vstd::utf8::encode_utf8(name@).map_values(|b: u8| lower_byte(b)).len()
                == vstd::utf8::encode_utf8(name@).len());
        }
        return false;
    }
    let ghost lowered = vstd::utf8::encode_utf8(name@).map_values(|b: u8| lower_byte(b));
    let mut i: usize = 0;
    while i < 12
        invariant
            0 <= i <= 12,
            bytes@.len() == 12,
            bytes@ == vstd::utf8::encode_utf8(name@),
            lowered == vstd::utf8::encode_utf8(name@).map_values(|b: u8| lower_byte(b)),
            label@ == content_type_label(),
            forall|j: int| 0 <= j < i ==> lowered[j] == content_type_label()[j],
        decreases 12 - i,
    {
        if lower_byte_exec(bytes[i]) != label[i] {
            proof {
                assert(lowered[i as int] != content_type_label()[i as int]);
            }
            return false;
        }
        i = i + 1;
    }
    proof {
        assert(lowered =~= content_type_label());
    }
    true
}

/// Whether the header list already carries a `Content-Type` entry.
pub open spec fn headers_have_content_type(headers: Seq<(Seq<char>, Seq<char>)>) -> bool {
    exists|i: int| 0 <= i < headers.len() && name_is_content_type((#[trigger] headers[i]).0)
}

/// Scan a header list for a `Content-Type` entry, in any ASCII case.
pub fn find_content_type(headers: &Vec<(String, String)>) -> (r: bool)
    ensures
        r == headers_have_content_type(crate::json::pair_views(headers@)),
{
    let ghost views = crate::json::pair_views(headers@);
    let mut i: usize = 0;
    while i < headers.len()
        invariant
            0 <= i <= headers@.len(),
            views == crate::json::pair_views(headers@),
            views.len() == headers@.len(),
            forall|j: int| 0 <= j < i ==> !name_is_content_type((#[trigger] views[j]).0),
        decreases headers@.len() - i,
    {
        if is_content_type_name(&headers[i].0) {
            proof {
                assert(views[i as int].0 == headers@[i as int].0@);
            }
            return true;
        }
        proof {
            assert(views[i as int].0 == headers@[i as int].0@);
        }
        i = i + 1;
    }
    false
}

/// The headers an outbound request carries: the target's own, with the
/// payload's content type appended unless the target already names one —
/// the target's headers take precedence.
pub open spec fn with_content_type(
    headers: Seq<(Seq<char>, Seq<char>)>,
    content_type: Seq<char>,
) -> Seq<(Seq<char>, Seq<char>)> {
    if headers_have_content_type(headers) {
        headers
    } else {
        headers.push(("content-type"@, content_type))
    }
}

/// One unit of delivery work as the locking selector returns it: the attempt
/// joined with its subscription's HTTP target and its event's payload.
#[allow(non_snake_case)]
#[derive(Debug)]
pub struct RequestAttempt {
    pub request_attempt__id: u128,
    pub event__id: u128,
    pub subscription__id: u128,
    pub created_at: i64,
    pub retry_count: i16,
    pub http_method: String,
    pub http_url: String,
    pub http_headers: JsonValue,
    pub payload: Vec<u8>,
    pub payload_content_type: String,
}

impl RequestAttempt {
    /// Parse the headers of the HTTP target from their stored JSON form:
    /// `None` iff they are not an object with only string members.
    pub fn headers(&self) -> (r: Option<Vec<(String, String)>>)
        ensures
            r is Some <==> self.http_headers.headers_spec() is Some,
            r is Some ==> crate::json::pair_views(r.unwrap()@)
                == self.http_headers.headers_spec().unwrap(),
    {
        self.http_headers.headers()
    }

    /// The headers of the outbound request: the target's, with the payload's
    /// content type appended unless the target already names one. `None` iff
    /// the stored headers do not parse, which the worker records as an
    /// attempt failed with invalid headers.
    pub fn request_headers(&self) -> (r: Option<Vec<(String, String)>>)
        ensures
            r is Some <==> self.http_headers.headers_spec() is Some,
            r is Some ==> crate::json::pair_views(r.unwrap()@) == with_content_type(
                self.http_headers.headers_spec().unwrap(),
                self.payload_content_type@,
            ),
    {
        match self.headers() {
            Option::Some(mut headers) => {
                if !find_content_type(&headers) {
                    let name = "content-type".to_owned();
                    let value = crate::json::clone_string(&self.payload_content_type);
                    headers.push((name, value));
                    proof {
                        assert(crate::json::pair_views(headers@) =~= with_content_type(
                            self.http_headers.headers_spec().unwrap(),
                            self.payload_content_type@,
                        ));
                    }
                }
                Option::Some(headers)
            },
            Option::None => Option::None,
        }
    }
}

/// The outbound HTTP request one attempt stands for, ready to dispatch.
pub struct OutboundRequest {
    pub method: String,
    pub url: String,
    pub headers: Vec<(String, String)>,
    pub body: Vec<u8>,
}

impl RequestAttempt {
    /// Assemble the outbound request of the attempt: the target's method and
    /// URL, its headers with the payload's content type defaulted, and the
    /// payload bytes as the body. Fails, as the attempt must, where the
    /// stored headers are no object of strings.
    pub fn build_request(&self) -> (r: Result<OutboundRequest, ResponseErrorKind>)
        ensures
            r is Err <==> self.http_headers.headers_spec() is None,
            r is Err ==> r == Err::<OutboundRequest, ResponseErrorKind>(
                ResponseErrorKind::InvalidHeaders,
            ),
            r matches Ok(req) ==> {
                &&& req.method == self.http_method
                &&& req.url == self.http_url
                &&& crate::json::pair_views(req.headers@) == with_content_type(
                    self.http_headers.headers_spec().unwrap(),
                    self.payload_content_type@,
                )
                &&& req.body@ == self.payload@
            },
    {
        match self.request_headers() {
            Option::Some(headers) => Ok(
                OutboundRequest {
                    method: crate::json::clone_string(&self.http_method),
                    url: crate::json::clone_string(&self.http_url),
                    headers,
                    body: crate::codec::clone_bytes(&self.payload),
                },
            ),
            Option::None => Err(ResponseErrorKind::InvalidHeaders),
        }
    }
}

/// Law: a single worker picks attempts of one backlog in ascending creation
/// order; whenever two attempts are both eligible, the selector's choice is
/// never the younger one, so the older is claimed first.
pub proof fn lemma_monotone_picking(rows: Seq<AttemptRow>, now: i64, k: int, a: int, b: int)
    requires
        is_oldest_eligible(rows, now, k),
        0 <= a < rows.len(),
        0 <= b < rows.len(),
        rows[a].eligible_spec(now),
        rows[b].eligible_spec(now),
        rows[a].created_at < rows[b].created_at,
    ensures
        rows[k].created_at < rows[b].created_at,
{
    assert(rows[k].created_at <= rows[a].created_at);
}

} // verus!
