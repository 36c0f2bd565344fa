//! Fault behaviours: each kind maps to a plain decision the host applies.
//!
//! The executor never sleeps. Where the original behaviour suspends the
//! request (latency, timeout), the returned plan carries the number of
//! milliseconds the host must wait before acting on the result.

use vstd::prelude::*;

use crate::config::Fault;
use crate::random::RandomSource;
use crate::text::push_char;

verus! {

/// A response that blocks the request.
pub struct BlockResponse {
    /// HTTP status code of the synthetic response.
    pub status: u16,
    /// Response headers, marker headers first.
    pub headers: Vec<(String, String)>,
    /// Response body.
    pub body: String,
}

/// Result of applying a fault.
pub enum FaultResult {
    /// The request proceeds, with an optional delay hint for telemetry.
    Allow { delay: Option<u64> },
    /// The request is blocked with a synthetic response.
    Block(BlockResponse),
}

/// A fault decision plus the suspension the host must perform before
/// delivering it.
pub struct FaultPlan {
    /// Milliseconds the host must suspend this request before acting on
    /// `result`. Only this request waits; others proceed.
    pub wait_ms: u64,
    /// The decision to apply after the wait.
    pub result: FaultResult,
}

/// The marker headers every synthetic response carries: its content type,
/// the injection marker, and the originating experiment's id.
pub open spec fn marker_headers_spec(content_type: Seq<char>, experiment_id: Seq<char>) -> Seq<
    (Seq<char>, Seq<char>),
> {
    seq![
        ("content-type"@, content_type),
        ("x-chaos-injected"@, "true"@),
        ("x-chaos-experiment"@, experiment_id),
    ]
}

/// A plan that passes the request through untouched.
pub open spec fn pass_through(p: FaultPlan) -> bool {
    p.wait_ms == 0 && p.result == (FaultResult::Allow { delay: None })
}

/// The delay a latency fault computes: the fixed delay when one is set,
/// otherwise a draw from the configured range when it is non-trivial,
/// otherwise the range minimum.
pub open spec fn latency_delay_ok(fixed_ms: u64, min_ms: u64, max_ms: u64, d: u64) -> bool {
    if fixed_ms > 0 {
        d == fixed_ms
    } else if max_ms > min_ms {
        min_ms <= d <= max_ms
    } else {
        d == min_ms
    }
}

/// The telemetry delay hint a throttle fault computes, assuming a 10 KiB
/// response delivered at the configured byte rate.
pub open spec fn throttle_delay_spec(bytes_per_second: u64) -> int {
    (10_240 * 1000) as int / (bytes_per_second as int)
}

/// A corrupt fault body: random printable ASCII of bounded length.
pub open spec fn garbage_body_ok(body: Seq<char>) -> bool {
    50 <= body.len() < 500 && forall|i: int|
        0 <= i < body.len() ==> 0x20 <= (#[trigger] body[i]) as int <= 0x7d
}

/// The block headers of a synthetic response: the marker headers followed
/// by any configured extra headers.
pub open spec fn injected_headers_ok(
    b: BlockResponse,
    content_type: Seq<char>,
    experiment_id: Seq<char>,
    extra: Seq<(Seq<char>, Seq<char>)>,
) -> bool {
    b.headers.deep_view() == marker_headers_spec(content_type, experiment_id) + extra
}

/// What `apply_fault` promises, fault kind by fault kind.
pub open spec fn fault_plan_spec(
    fault: Fault,
    experiment_id: Seq<char>,
    dry_run: bool,
    p: FaultPlan,
) -> bool {
    match fault {
        Fault::Latency { fixed_ms, min_ms, max_ms } => {
            &&& p.result matches FaultResult::Allow { delay: Some(d) } && latency_delay_ok(
                fixed_ms,
                min_ms,
                max_ms,
                d,
            ) && p.wait_ms == (if dry_run {
                0u64
            } else {
                d
            })
        },
        Fault::Error { status, message, headers } => {
            if dry_run {
                pass_through(p)
            } else {
                &&& p.wait_ms == 0
                &&& p.result matches FaultResult::Block(b) && b.status == status && b.body@ == (
                match message {
                    Some(m) => m@,
                    None => "Chaos fault injected"@,
                }) && injected_headers_ok(
                    b,
                    "text/plain; charset=utf-8"@,
                    experiment_id,
                    headers.deep_view(),
                )
            }
        },
        Fault::Timeout { duration_ms } => {
            if dry_run {
                pass_through(p)
            } else {
                &&& p.wait_ms == duration_ms
                &&& p.result matches FaultResult::Block(b) && b.status == 504 && b.body@
                    == "Gateway Timeout (chaos fault)"@ && injected_headers_ok(
                    b,
                    "text/plain; charset=utf-8"@,
                    experiment_id,
                    Seq::empty(),
                )
            }
        },
        Fault::Throttle { bytes_per_second } => {
            if dry_run {
                pass_through(p)
            } else {
                &&& p.wait_ms == 0
                &&& p.result matches FaultResult::Allow { delay: Some(d) } && d
                    == throttle_delay_spec(bytes_per_second)
            }
        },
        Fault::Corrupt { probability_ppm } => {
            &&& p.wait_ms == 0
            &&& p.result matches FaultResult::Block(b) ==> !dry_run && b.status == 200
                && garbage_body_ok(b.body@) && injected_headers_ok(
                b,
                "application/octet-stream"@,
                experiment_id,
                Seq::empty(),
            )
            &&& p.result matches FaultResult::Allow { delay } ==> delay is None
            &&& probability_ppm == 0 ==> p.result is Allow
            &&& probability_ppm >= 1_000_000 && !dry_run ==> p.result is Block
        },
        Fault::Reset => {
            if dry_run {
                pass_through(p)
            } else {
                &&& p.wait_ms == 0
                &&& p.result matches FaultResult::Block(b) && b.status == 502 && b.body@
                    == "Connection reset (chaos fault)"@ && injected_headers_ok(
                    b,
                    "text/plain; charset=utf-8"@,
                    experiment_id,
                    Seq::empty(),
                )
            }
        },
    }
}

/// Decide how a fault applies to a request.
///
/// Total over every fault kind; a throttle fault needs a positive byte rate
/// (validation guarantees one) so the delay hint is well defined.
pub fn apply_fault<R: RandomSource>(
    fault: &Fault,
    experiment_id: &str,
    dry_run: bool,
    rng: &mut R,
) -> (p: FaultPlan)
    requires
        fault matches Fault::Throttle { bytes_per_second } ==> bytes_per_second > 0,
    ensures
        fault_plan_spec(*fault, experiment_id@, dry_run, p),
{
    match fault {
        Fault::Latency { fixed_ms, min_ms, max_ms } => {
            apply_latency(*fixed_ms, *min_ms, *max_ms, experiment_id, dry_run, rng)
        },
        Fault::Error { status, message, headers } => {
            apply_error(*status, message, headers, experiment_id, dry_run)
        },
        Fault::Timeout { duration_ms } => apply_timeout(*duration_ms, experiment_id, dry_run),
        Fault::Throttle { bytes_per_second } => {
            apply_throttle(*bytes_per_second, experiment_id, dry_run)
        },
        Fault::Corrupt { probability_ppm } => {
            apply_corrupt(*probability_ppm, experiment_id, dry_run, rng)
        },
        Fault::Reset => apply_reset(experiment_id, dry_run),
    }
}

/// A plan that passes the request through untouched.
fn pass_plan() -> (p: FaultPlan)
    ensures
        pass_through(p),
{
    FaultPlan { wait_ms: 0, result: FaultResult::Allow { delay: None } }
}

/// Build the marker headers for a synthetic response.
fn marker_headers(content_type: &str, experiment_id: &str) -> (r: Vec<(String, String)>)
    ensures
        r.deep_view() == marker_headers_spec(content_type@, experiment_id@),
{
    let mut v: Vec<(String, String)> = Vec::new();
    v.push(("content-type".to_owned(), content_type.to_owned()));
    v.push(("x-chaos-injected".to_owned(), "true".to_owned()));
    v.push(("x-chaos-experiment".to_owned(), experiment_id.to_owned()));
    proof {
        assert(v.deep_view() =~= marker_headers_spec(content_type@, experiment_id@));
    }
    v
}

/// Latency: compute the delay; the host performs the wait unless this is a
/// dry run, and the request then proceeds.
fn apply_latency<R: RandomSource>(
    fixed_ms: u64,
    min_ms: u64,
    max_ms: u64,
    _experiment_id: &str,
    dry_run: bool,
    rng: &mut R,
) -> (p: FaultPlan)
    ensures
        fault_plan_spec(
            Fault::Latency { fixed_ms, min_ms, max_ms },
            _experiment_id@,
            dry_run,
            p,
        ),
{
    let delay_ms = if fixed_ms > 0 {
        fixed_ms
    } else if max_ms > min_ms {
        rng.pick(min_ms, max_ms)
    } else {
        min_ms
    };
    let wait_ms = if dry_run {
        0
    } else {
        delay_ms
    };
    FaultPlan { wait_ms, result: FaultResult::Allow { delay: Some(delay_ms) } }
}

/// Error: block with the configured status, the marker headers, the
/// configured extra headers (after the markers, so they can override), and
/// the configured or default body.
fn apply_error(
    status: u16,
    message: &Option<String>,
    headers: &Vec<(String, String)>,
    experiment_id: &str,
    dry_run: bool,
) -> (p: FaultPlan)
    ensures
        fault_plan_spec(
            Fault::Error { status, message: *message, headers: *headers },
            experiment_id@,
            dry_run,
            p,
        ),
{
    if dry_run {
        return pass_plan();
    }

    let body: String = match message {
        Some(m) => m.clone(),
        None => "Chaos fault injected".to_owned(),
    };

    let mut hs = marker_headers("text/plain; charset=utf-8", experiment_id);
    let ghost markers = hs.deep_view();
    proof {
        assert(hs.deep_view() =~= markers + headers.deep_view().subrange(0, 0));
    }
    let mut k: usize = 0;
    while k < headers.len()
        invariant
            k <= headers@.len(),
            headers.deep_view().len() == headers@.len(),
            hs.deep_view() == markers + headers.deep_view().subrange(0, k as int),
        decreases headers@.len() - k,
    {
        let name = headers[k].0.clone();
        let value = headers[k].1.clone();
        let ghost old_dv = hs.deep_view();
        hs.push((name, value));
        proof {
            assert(hs.deep_view() =~= old_dv.push((headers@[k as int].0@, headers@[k as int].1@)));
            assert(headers.deep_view()[k as int] == (headers@[k as int].0@, headers@[k as int].1@));
            assert(hs.deep_view() =~= markers + headers.deep_view().subrange(0, k as int + 1));
        }
        k += 1;
    }
    proof {
        assert(headers.deep_view().subrange(0, headers@.len() as int) =~= headers.deep_view());
    }

    FaultPlan {
        wait_ms: 0,
        result: FaultResult::Block(BlockResponse { status, headers: hs, body }),
    }
}

/// Timeout: the host waits the configured duration, then blocks with 504.
fn apply_timeout(duration_ms: u64, experiment_id: &str, dry_run: bool) -> (p: FaultPlan)
    ensures
        fault_plan_spec(Fault::Timeout { duration_ms }, experiment_id@, dry_run, p),
{
    if dry_run {
        return pass_plan();
    }
    let hs = marker_headers("text/plain; charset=utf-8", experiment_id);
    proof {
        assert(hs.deep_view() =~= marker_headers_spec("text/plain; charset=utf-8"@, experiment_id@)
            + Seq::<(Seq<char>, Seq<char>)>::empty());
    }
    FaultPlan {
        wait_ms: duration_ms,
        result: FaultResult::Block(
            BlockResponse {
                status: 504,
                headers: hs,
                body: "Gateway Timeout (chaos fault)".to_owned(),
            },
        ),
    }
}

/// Throttle: never waits and never blocks; reports the approximate delay a
/// 10 KiB response would take at the configured rate, for telemetry.
fn apply_throttle(bytes_per_second: u64, _experiment_id: &str, dry_run: bool) -> (p: FaultPlan)
    requires
        bytes_per_second > 0,
    ensures
        fault_plan_spec(Fault::Throttle { bytes_per_second }, _experiment_id@, dry_run, p),
{
    if dry_run {
        return pass_plan();
    }
    let estimated_bytes: u64 = 10_240;
    let delay_ms = (estimated_bytes * 1000) / bytes_per_second;
    FaultPlan { wait_ms: 0, result: FaultResult::Allow { delay: Some(delay_ms) } }
}

/// Corrupt: draw against the configured probability; when triggered outside
/// a dry run, block with a garbage body.
fn apply_corrupt<R: RandomSource>(
    probability_ppm: u32,
    experiment_id: &str,
    dry_run: bool,
    rng: &mut R,
) -> (p: FaultPlan)
    ensures
        fault_plan_spec(Fault::Corrupt { probability_ppm }, experiment_id@, dry_run, p),
{
    let draw = rng.pick(0, 999_999);
    let triggered = draw < probability_ppm as u64;
    if !triggered {
        return pass_plan();
    }
    if dry_run {
        return pass_plan();
    }
    let body = generate_garbage(rng);
    let hs = marker_headers("application/octet-stream", experiment_id);
    proof {
        assert(hs.deep_view() =~= marker_headers_spec("application/octet-stream"@, experiment_id@)
            + Seq::<(Seq<char>, Seq<char>)>::empty());
    }
    FaultPlan {
        wait_ms: 0,
        result: FaultResult::Block(BlockResponse { status: 200, headers: hs, body }),
    }
}

/// Reset: block with 502, approximating an upstream connection failure.
fn apply_reset(experiment_id: &str, dry_run: bool) -> (p: FaultPlan)
    ensures
        fault_plan_spec(Fault::Reset, experiment_id@, dry_run, p),
{
    if dry_run {
        return pass_plan();
    }
    let hs = marker_headers("text/plain; charset=utf-8", experiment_id);
    proof {
        assert(hs.deep_view() =~= marker_headers_spec("text/plain; charset=utf-8"@, experiment_id@)
            + Seq::<(Seq<char>, Seq<char>)>::empty());
    }
    FaultPlan {
        wait_ms: 0,
        result: FaultResult::Block(
            BlockResponse {
                status: 502,
                headers: hs,
                body: "Connection reset (chaos fault)".to_owned(),
            },
        ),
    }
}

/// Generate random printable-ASCII garbage of length uniform in [50, 500).
pub fn generate_garbage<R: RandomSource>(rng: &mut R) -> (r: String)
    ensures
        garbage_body_ok(r@),
{
    let len = rng.pick(50, 499);
    let mut s = String::new();
    let mut i: u64 = 0;
    while i < len
        invariant
            i <= len,
            50 <= len <= 499,
            s@.len() == i,
            forall|k: int| 0 <= k < s@.len() ==> 0x20 <= (#[trigger] s@[k]) as int <= 0x7d,
        decreases len - i,
    {
        let c = rng.pick(0x20, 0x7d);
        push_char(&mut s, (c as u8) as char);
        i += 1;
    }
    s
}

} // verus!
