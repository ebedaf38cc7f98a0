use vstd::prelude::*;

use crate::propulsion::applied_on_time;
use crate::timing::SimulationTiming;

verus! {

/// Modelled delay from opening an RCS valve to the start of thrust build-up.
pub const RCS_IGNITION_DELAY_NS: u64 = 7_000_000;

/// Modelled time, from opening, at which a continuously open jet reaches steady thrust.
pub const RCS_MODELED_FULL_THRUST_TIME_NS: u64 = 20_000_000;

/// Modelled time for thrust to decay linearly from full to zero after closing.
pub const RCS_MODELED_FALLOFF_NS: u64 = 8_000_000;

/// Gate-open and gate-closed parts of a substep `[start, start + duration)` of a control
/// period whose gate closes at `gate_close_ns` (all measured from the start of the period;
/// the substep end saturates at `u64::MAX`).
pub open spec fn scheduled_split(interval_start_ns: u64, interval_duration_ns: u64, gate_close_ns: u64) -> (u64, u64) {
    let end = if interval_start_ns + interval_duration_ns > u64::MAX {
        u64::MAX as int
    } else {
        interval_start_ns + interval_duration_ns
    };
    let open_end = if end < gate_close_ns { end } else { gate_close_ns as int };
    let open = if open_end > interval_start_ns { open_end - interval_start_ns } else { 0 };
    (open as u64, (interval_duration_ns - open) as u64)
}

/// Open and closed nanoseconds of one physics substep; together they make up the substep.
pub fn split_scheduled_interval(interval_start_ns: u64, interval_duration_ns: u64, gate_close_ns: u64) -> (r: (u64, u64))
    ensures
        r == scheduled_split(interval_start_ns, interval_duration_ns, gate_close_ns),
        r.0 + r.1 == interval_duration_ns,
{
    let interval_end_ns = interval_start_ns.saturating_add(interval_duration_ns);
    let open_end_ns = if interval_end_ns < gate_close_ns { interval_end_ns } else { gate_close_ns };
    let open_duration_ns = open_end_ns.saturating_sub(interval_start_ns);
    let closed_duration_ns = interval_duration_ns - open_duration_ns;
    (open_duration_ns, closed_duration_ns)
}

/// Gate-open nanoseconds of the first `k` substeps of `step_ns` of a period whose gate
/// closes at `gate_close_ns`.
pub open spec fn scheduled_open_total(step_ns: u64, gate_close_ns: u64, k: int) -> int
    decreases k,
{
    if k <= 0 {
        0
    } else {
        scheduled_open_total(step_ns, gate_close_ns, k - 1) + scheduled_split(
            ((k - 1) * step_ns) as u64,
            step_ns,
            gate_close_ns,
        ).0
    }
}

/// Law: over the substeps of a period the valve stays open for exactly the requested time
/// (capped at the period); the requested time is never rounded to whole substeps.
pub proof fn lemma_scheduled_open_total(step_ns: u64, gate_close_ns: u64, k: int)
    requires
        0 <= k,
        k * step_ns <= u64::MAX,
    ensures
        scheduled_open_total(step_ns, gate_close_ns, k) == if gate_close_ns < k * step_ns {
            gate_close_ns as int
        } else {
            k * step_ns
        },
    decreases k,
{
    if k > 0 {
        let a = (k - 1) * step_ns;
        vstd::arithmetic::mul::lemma_mul_is_distributive_sub_other_way(step_ns as int, k, 1);
        vstd::arithmetic::mul::lemma_mul_nonnegative(k - 1, step_ns as int);
        assert(a + step_ns == k * step_ns);
        assert(0 <= a <= u64::MAX);
        lemma_scheduled_open_total(step_ns, gate_close_ns, k - 1);
        assert(scheduled_open_total(step_ns, gate_close_ns, k) == scheduled_open_total(step_ns, gate_close_ns, k - 1)
            + scheduled_split(a as u64, step_ns, gate_close_ns).0);
    } else {
        assert(k * step_ns == 0) by (nonlinear_arith)
            requires
                k == 0,
        ;
    }
}

/// Open and shut nanoseconds of every physics substep of one control period, for a valve
/// that shuts `gate_close_ns` after the start of the period.
pub fn gate_schedule(timing: SimulationTiming, gate_close_ns: u64) -> (schedule: Vec<(u64, u64)>)
    requires
        timing.control_period_ns() <= u64::MAX,
    ensures
        schedule@.len() == timing.substeps(),
        forall|i: int|
            0 <= i < schedule@.len() ==> #[trigger] schedule@[i] == scheduled_split(
                (i * timing.step_ns()) as u64,
                timing.step_ns(),
                gate_close_ns,
            ),
{
    let step_ns = timing.physics_step_ns();
    let substeps = timing.substeps_per_control();
    let mut schedule: Vec<(u64, u64)> = Vec::new();
    let mut substep: u32 = 0;
    while substep < substeps
        invariant
            substep <= substeps,
            step_ns == timing.step_ns(),
            substeps == timing.substeps(),
            step_ns * substeps <= u64::MAX,
            schedule@.len() == substep,
            forall|i: int|
                0 <= i < schedule@.len() ==> #[trigger] schedule@[i] == scheduled_split(
                    (i * step_ns) as u64,
                    step_ns,
                    gate_close_ns,
                ),
        decreases substeps - substep,
    {
        proof {
            vstd::arithmetic::mul::lemma_mul_inequality(substep as int, substeps as int, step_ns as int);
            vstd::arithmetic::mul::lemma_mul_is_commutative(substeps as int, step_ns as int);
        }
        let interval_start_ns = substep as u64 * step_ns;
        schedule.push(split_scheduled_interval(interval_start_ns, step_ns, gate_close_ns));
        substep = substep + 1;
    }
    schedule
}

/// Whether the valve is open at the end of a substep of `open_ns` open nanoseconds and then
/// `closed_ns` shut ones: a shut part leaves the valve shut, else an open part leaves it
/// open, and an empty substep changes nothing.
pub open spec fn spec_gate_open_after(was_open: bool, open_ns: u64, closed_ns: u64) -> bool {
    if closed_ns > 0 {
        false
    } else if open_ns > 0 {
        true
    } else {
        was_open
    }
}

/// Valve state at the end of a substep scheduled by `split_scheduled_interval`.
pub fn gate_open_after(was_open: bool, open_ns: u64, closed_ns: u64) -> (open: bool)
    ensures
        open == spec_gate_open_after(was_open, open_ns, closed_ns),
{
    if closed_ns > 0 {
        false
    } else if open_ns > 0 {
        true
    } else {
        was_open
    }
}

/// Law: a valve is still open at the end of a control period of `substeps` substeps of
/// `step_ns` exactly when its gate time reaches the end of the period; only then does the
/// next period continue the same firing instead of starting a new pulse.
pub proof fn lemma_gate_open_at_period_end(step_ns: u64, substeps: u64, gate_close_ns: u64, was_open: bool)
    requires
        step_ns > 0,
        substeps > 0,
        step_ns * substeps <= u64::MAX,
        gate_close_ns <= step_ns * substeps,
    ensures
        ({
            let last_start = ((substeps - 1) * step_ns) as u64;
            let (open_ns, closed_ns) = scheduled_split(last_start, step_ns, gate_close_ns);
            spec_gate_open_after(was_open, open_ns, closed_ns) <==> gate_close_ns == step_ns * substeps
        }),
{
    vstd::arithmetic::mul::lemma_mul_is_distributive_sub_other_way(step_ns as int, substeps as int, 1);
    vstd::arithmetic::mul::lemma_mul_is_commutative(step_ns as int, (substeps - 1) as int);
    vstd::arithmetic::mul::lemma_mul_nonnegative(step_ns as int, (substeps - 1) as int);
}

/// Law: a firing that fills a whole control period continues into the next one, so a short
/// request right after it is applied exactly; a firing that ended inside the period leaves
/// the valve shut, so a short request after it is a new pulse raised to the minimum pulse.
/// (Periods of `substeps` substeps of `step_ns`; the first period starts with the valve shut.)
pub proof fn lemma_firing_continues_across_period_boundary(
    step_ns: u64,
    substeps: u64,
    minimum_pulse_ns: u64,
    first_request_ns: u64,
    second_request_ns: u64,
    was_open: bool,
)
    requires
        step_ns > 0,
        substeps > 0,
        step_ns * substeps <= u64::MAX,
        minimum_pulse_ns <= step_ns * substeps,
        first_request_ns <= step_ns * substeps,
        0 < second_request_ns,
    ensures
        ({
            let first = applied_on_time(first_request_ns, false, minimum_pulse_ns);
            let last_start = ((substeps - 1) * step_ns) as u64;
            let (open_ns, closed_ns) = scheduled_split(last_start, step_ns, first);
            let open_at_end = spec_gate_open_after(was_open, open_ns, closed_ns);
            &&& open_at_end <==> first == step_ns * substeps
            &&& applied_on_time(second_request_ns, open_at_end, minimum_pulse_ns) == if first == step_ns
                * substeps {
                second_request_ns
            } else if second_request_ns >= minimum_pulse_ns {
                second_request_ns
            } else {
                minimum_pulse_ns
            }
        }),
{
    let first = applied_on_time(first_request_ns, false, minimum_pulse_ns);
    assert(first <= step_ns * substeps);
    lemma_gate_open_at_period_end(step_ns, substeps, first, was_open);
}

/// First breakpoint, in list order, after `cursor`.
pub open spec fn first_breakpoint_after(breakpoints: Seq<u64>, cursor: u64, from: int) -> Option<u64>
    decreases breakpoints.len() - from,
{
    if from < 0 || from >= breakpoints.len() {
        None
    } else if breakpoints[from] > cursor {
        Some(breakpoints[from])
    } else {
        first_breakpoint_after(breakpoints, cursor, from + 1)
    }
}

/// End of the integration segment that starts at `cursor`: the first listed breakpoint after
/// it, or `end`, whichever comes first.
pub open spec fn segment_end(breakpoints: Seq<u64>, cursor: u64, end: u64) -> u64 {
    match first_breakpoint_after(breakpoints, cursor, 0) {
        Some(b) => if b < end { b } else { end },
        None => end,
    }
}

proof fn lemma_first_breakpoint_skips(breakpoints: Seq<u64>, cursor: u64, from: int, to: int)
    requires
        0 <= from <= to,
        forall|j: int| from <= j < to && j < breakpoints.len() ==> #[trigger] breakpoints[j] <= cursor,
    ensures
        first_breakpoint_after(breakpoints, cursor, from) == first_breakpoint_after(breakpoints, cursor, to),
    decreases to - from,
{
    if from < to && from < breakpoints.len() {
        lemma_first_breakpoint_skips(breakpoints, cursor, from + 1, to);
    }
}

/// Law: with breakpoints listed in increasing order, no breakpoint lies strictly inside the
/// segment that starts at `cursor`.
pub proof fn lemma_sorted_breakpoints_bound_segment(breakpoints: Seq<u64>, cursor: u64, end: u64, j: int)
    requires
        forall|a: int, b: int| 0 <= a <= b < breakpoints.len() ==> breakpoints[a] <= breakpoints[b],
        0 <= j < breakpoints.len(),
    ensures
        !(cursor < breakpoints[j] < segment_end(breakpoints, cursor, end)),
{
    lemma_first_breakpoint_after(breakpoints, cursor, 0);
}

proof fn lemma_first_breakpoint_after(breakpoints: Seq<u64>, cursor: u64, from: int)
    requires
        0 <= from,
    ensures
        first_breakpoint_after(breakpoints, cursor, from) matches Some(b) ==> exists|i: int|
            from <= i < breakpoints.len() && b == #[trigger] breakpoints[i] && b > cursor
                && forall|k: int| from <= k < i ==> #[trigger] breakpoints[k] <= cursor,
        first_breakpoint_after(breakpoints, cursor, from) is None ==> forall|k: int|
            from <= k < breakpoints.len() ==> #[trigger] breakpoints[k] <= cursor,
    decreases breakpoints.len() - from,
{
    if from < breakpoints.len() {
        lemma_first_breakpoint_after(breakpoints, cursor, from + 1);
    }
}

fn find_breakpoint_after(breakpoints_ns: &[u64], cursor_ns: u64) -> (b: Option<u64>)
    ensures
        b == first_breakpoint_after(breakpoints_ns@, cursor_ns, 0),
        b matches Some(x) ==> x > cursor_ns,
{
    let mut k: usize = 0;
    while k < breakpoints_ns.len()
        invariant
            k <= breakpoints_ns@.len(),
            forall|j: int| 0 <= j < k ==> #[trigger] breakpoints_ns@[j] <= cursor_ns,
        decreases breakpoints_ns@.len() - k,
    {
        if breakpoints_ns[k] > cursor_ns {
            proof {
                lemma_first_breakpoint_skips(breakpoints_ns@, cursor_ns, 0, k as int);
            }
            return Some(breakpoints_ns[k]);
        }
        k = k + 1;
    }
    proof {
        lemma_first_breakpoint_skips(breakpoints_ns@, cursor_ns, 0, k as int);
    }
    None
}

/// Cuts `[start, end)` into the consecutive segments over which a piecewise-linear curve
/// with the listed breakpoints is linear: each segment runs from its start to the first
/// listed breakpoint after it, or to `end`. Empty when `end <= start`.
pub fn piecewise_segments(start_ns: u64, end_ns: u64, breakpoints_ns: &[u64]) -> (segments: Vec<(u64, u64)>)
    ensures
        end_ns <= start_ns ==> segments@.len() == 0,
        start_ns < end_ns ==> segments@.len() > 0 && segments@[0].0 == start_ns && segments@.last().1 == end_ns,
        forall|i: int|
            0 <= i < segments@.len() ==> (#[trigger] segments@[i]).0 < segments@[i].1
                && segments@[i].1 == segment_end(breakpoints_ns@, segments@[i].0, end_ns),
        forall|i: int| 0 < i < segments@.len() ==> (#[trigger] segments@[i]).0 == segments@[i - 1].1,
{
    let mut segments: Vec<(u64, u64)> = Vec::new();
    if end_ns <= start_ns {
        return segments;
    }
    let mut cursor_ns = start_ns;
    while cursor_ns < end_ns
        invariant
            start_ns <= cursor_ns <= end_ns,
            start_ns < end_ns,
            segments@.len() == 0 ==> cursor_ns == start_ns,
            segments@.len() > 0 ==> segments@[0].0 == start_ns && segments@.last().1 == cursor_ns,
            forall|i: int|
                0 <= i < segments@.len() ==> (#[trigger] segments@[i]).0 < segments@[i].1
                    && segments@[i].1 == segment_end(breakpoints_ns@, segments@[i].0, end_ns),
            forall|i: int| 0 < i < segments@.len() ==> (#[trigger] segments@[i]).0 == segments@[i - 1].1,
        decreases end_ns - cursor_ns,
    {
        let segment_end_ns = match find_breakpoint_after(breakpoints_ns, cursor_ns) {
            Some(b) => if b < end_ns { b } else { end_ns },
            None => end_ns,
        };
        segments.push((cursor_ns, segment_end_ns));
        cursor_ns = segment_end_ns;
    }
    segments
}

} // verus!
