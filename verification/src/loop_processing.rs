//! Loop-point selection for sustained samples.
//!
//! Samples are handed to this module as levels: `Some(l)` stands for an
//! ordinary sample, `l` being a signed integer that is ordered as the sample
//! is, negated with it, and zero exactly for a zero sample; `None` stands for
//! a sample that compares with nothing (not a number). `MAX_FINITE_LEVEL` is
//! the magnitude of the largest finite sample; larger magnitudes stand for
//! infinite samples.

use vstd::prelude::*;

verus! {

/// Magnitude of the level of the largest finite sample.
pub const MAX_FINITE_LEVEL: u64 = 0x7FEF_FFFF_FFFF_FFFFu64;

/// Result of loop point calculation.
#[derive(Debug, Clone, PartialEq, Eq, Structural)]
pub struct LoopPoints {
    /// Start sample of the loop region.
    pub start: usize,
    /// End sample of the loop region.
    pub end: usize,
    /// Whether zero crossing snapping was applied.
    pub snapped_to_zero_crossing: bool,
}

/// The parts of a loop configuration that loop-point selection reads.
#[derive(Debug, Clone, PartialEq, Eq, Structural)]
pub struct LoopSettings {
    /// Explicit loop start, if any.
    pub start_sample: Option<u32>,
    /// Explicit loop end, if any.
    pub end_sample: Option<u32>,
    /// Whether the loop points are moved to nearby zero crossings.
    pub snap_to_zero_crossing: bool,
    /// How far (in samples, each way) a zero crossing is searched for.
    pub zero_crossing_tolerance: u32,
}

/// Magnitude of a level.
pub open spec fn level_magnitude(level: i64) -> int {
    if level >= 0 {
        level as int
    } else {
        -(level as int)
    }
}

/// Distance between two sample indices.
pub open spec fn index_distance(a: int, b: int) -> int {
    if a >= b {
        a - b
    } else {
        b - a
    }
}

/// The signal changes sign between samples `i` and `i + 1` (a sample of
/// level zero counts as non-negative).
pub open spec fn is_crossing(samples: Seq<Option<i64>>, i: int) -> bool {
    &&& samples[i] is Some
    &&& samples[i + 1] is Some
    &&& (samples[i]->0 >= 0) != (samples[i + 1]->0 >= 0)
}

/// Of the two samples around a crossing, the one closer to zero (the later
/// one when both are equally close).
pub open spec fn crossing_point(samples: Seq<Option<i64>>, i: int) -> int {
    if level_magnitude(samples[i]->0) < level_magnitude(samples[i + 1]->0) {
        i
    } else {
        i + 1
    }
}

/// First index of the search window around `target`.
pub open spec fn window_start(target: int, tolerance: int) -> int {
    if target >= tolerance {
        target - tolerance
    } else {
        0
    }
}

/// Last index of the search window around `target`.
pub open spec fn window_end(len: int, target: int, tolerance: int) -> int {
    if target + tolerance <= len - 1 {
        target + tolerance
    } else {
        len - 1
    }
}

/// Crossing index `a` is preferred to `b` (or is `b`): it is closer to the
/// target, or as close and quieter, or as close, as quiet and earlier.
pub open spec fn crossing_preferred(samples: Seq<Option<i64>>, target: int, a: int, b: int) -> bool {
    let da = index_distance(a, target);
    let db = index_distance(b, target);
    let ma = level_magnitude(samples[a]->0);
    let mb = level_magnitude(samples[b]->0);
    ||| da < db
    ||| da == db && ma < mb
    ||| da == db && ma == mb && a <= b
}

/// Index `j` may be chosen as the quietest sample: it is an ordinary, finite
/// sample.
pub open spec fn is_quiet_candidate(samples: Seq<Option<i64>>, j: int) -> bool {
    samples[j] is Some && level_magnitude(samples[j]->0) <= MAX_FINITE_LEVEL
}

/// Index `a` is preferred to `b` (or is `b`) as the quietest sample: it is
/// quieter, or as quiet and closer to the target, or as quiet, as close and
/// earlier.
pub open spec fn quieter_preferred(samples: Seq<Option<i64>>, target: int, a: int, b: int) -> bool {
    let da = index_distance(a, target);
    let db = index_distance(b, target);
    let ma = level_magnitude(samples[a]->0);
    let mb = level_magnitude(samples[b]->0);
    ||| ma < mb
    ||| ma == mb && da < db
    ||| ma == mb && da == db && a <= b
}

/// A crossing lies in the search window `[lo, hi)` of pair starts.
pub open spec fn crossing_in_window(samples: Seq<Option<i64>>, lo: int, hi: int) -> bool {
    exists|i: int| lo <= i < hi && #[trigger] is_crossing(samples, i)
}

/// A quiet candidate lies in the window `[lo, hi]`.
pub open spec fn quiet_in_window(samples: Seq<Option<i64>>, lo: int, hi: int) -> bool {
    exists|j: int| lo <= j <= hi && #[trigger] is_quiet_candidate(samples, j)
}

/// What `find_nearest_zero_crossing` returns for `samples`, `target` and
/// `tolerance`, given the index `r` it returned.
pub open spec fn is_nearest_zero_crossing(
    samples: Seq<Option<i64>>,
    target: int,
    tolerance: int,
    r: int,
) -> bool {
    let len = samples.len() as int;
    let lo = window_start(target, tolerance);
    let hi = window_end(len, target, tolerance);
    if len == 0 || target >= len {
        r == target
    } else if crossing_in_window(samples, lo, hi) {
        &&& exists|i: int|
            lo <= i < hi && #[trigger] is_crossing(samples, i) && r == crossing_point(samples, i)
        &&& forall|i: int|
            lo <= i < hi && #[trigger] is_crossing(samples, i) ==> crossing_preferred(
                samples,
                target,
                r,
                crossing_point(samples, i),
            )
    } else if quiet_in_window(samples, lo, hi) {
        &&& lo <= r <= hi
        &&& is_quiet_candidate(samples, r)
        &&& forall|j: int|
            lo <= j <= hi && #[trigger] is_quiet_candidate(samples, j) ==> quieter_preferred(
                samples,
                target,
                r,
                j,
            )
    } else {
        r == target
    }
}

/// The index `find_nearest_zero_crossing` returns (see
/// `nearest_zero_crossing_is_unique`: exactly one index meets
/// `is_nearest_zero_crossing`).
pub open spec fn nearest_zero_crossing(samples: Seq<Option<i64>>, target: int, tolerance: int) -> int {
    choose|r: int| is_nearest_zero_crossing(samples, target, tolerance, r)
}

/// At most one index meets `is_nearest_zero_crossing`.
pub proof fn nearest_zero_crossing_is_unique(
    samples: Seq<Option<i64>>,
    target: int,
    tolerance: int,
    r1: int,
    r2: int,
)
    requires
        is_nearest_zero_crossing(samples, target, tolerance, r1),
        is_nearest_zero_crossing(samples, target, tolerance, r2),
    ensures
        r1 == r2,
{
    let len = samples.len() as int;
    let lo = window_start(target, tolerance);
    let hi = window_end(len, target, tolerance);
    if len == 0 || target >= len {
    } else if crossing_in_window(samples, lo, hi) {
        let i1 = choose|i: int|
            lo <= i < hi && #[trigger] is_crossing(samples, i) && r1 == crossing_point(samples, i);
        let i2 = choose|i: int|
            lo <= i < hi && #[trigger] is_crossing(samples, i) && r2 == crossing_point(samples, i);
        assert(crossing_preferred(samples, target, r1, r2));
        assert(crossing_preferred(samples, target, r2, r1));
    } else if quiet_in_window(samples, lo, hi) {
        assert(quieter_preferred(samples, target, r1, r2));
        assert(quieter_preferred(samples, target, r2, r1));
    }
}

/// Magnitude of a level, exactly.
fn magnitude(level: i64) -> (m: u64)
    ensures
        m as int == level_magnitude(level),
{
    if level >= 0 {
        level as u64
    } else {
        (-(level + 1)) as u64 + 1
    }
}

/// Distance between two indices.
fn distance(a: usize, b: usize) -> (d: usize)
    ensures
        d as int == index_distance(a as int, b as int),
{
    if a >= b {
        a - b
    } else {
        b - a
    }
}

/// Finds the nearest zero crossing to `target`, searching `tolerance`
/// samples each way.
///
/// Among the crossings in the window the one closest to the target is
/// chosen, ties going to the quieter sample, then to the earlier one. With
/// no crossing in the window the quietest finite sample of the window is
/// chosen, ties going to the closer sample, then to the earlier one. The
/// target itself is returned when the buffer is empty, the target lies past
/// its end, or the window holds no finite sample.
pub fn find_nearest_zero_crossing(samples: &[Option<i64>], target: usize, tolerance: usize) -> (r: usize)
    ensures
        is_nearest_zero_crossing(samples@, target as int, tolerance as int, r as int),
        r as int == nearest_zero_crossing(samples@, target as int, tolerance as int),
        samples@.len() > 0 && (target as int) < samples@.len() ==> (r as int) < samples@.len(),
{
    let len = samples.len();
    if len == 0 || target >= len {
        proof {
            let c = nearest_zero_crossing(samples@, target as int, tolerance as int);
            assert(is_nearest_zero_crossing(samples@, target as int, tolerance as int, target as int));
            nearest_zero_crossing_is_unique(samples@, target as int, tolerance as int, target as int, c);
        }
        return target;
    }
    let ghost s = samples@;
    let ghost t = target as int;
    let search_start = if target >= tolerance {
        target - tolerance
    } else {
        0
    };
    let search_end = if tolerance <= len - 1 - target {
        target + tolerance
    } else {
        len - 1
    };
    let ghost lo = search_start as int;
    let ghost hi = search_end as int;
    assert(lo == window_start(t, tolerance as int));
    assert(hi == window_end(len as int, t, tolerance as int));

    let mut best_idx = target;
    let mut best_distance = usize::MAX;
    let mut best_magnitude = MAX_FINITE_LEVEL;
    let ghost mut witness: int = 0;

    let mut i = search_start;
    while i < search_end
        invariant
            s == samples@,
            len == s.len(),
            t == target,
            target < len,
            0 <= lo <= t <= hi < len,
            lo == search_start,
            hi == search_end,
            lo <= i <= hi,
            best_distance == usize::MAX <==> !crossing_in_window(s, lo, i as int),
            best_distance == usize::MAX ==> best_idx == target && best_magnitude
                == MAX_FINITE_LEVEL,
            best_distance < usize::MAX ==> {
                &&& lo <= witness < i
                &&& is_crossing(s, witness)
                &&& best_idx == crossing_point(s, witness)
                &&& best_distance == index_distance(best_idx as int, t)
                &&& best_magnitude == level_magnitude(s[best_idx as int]->0)
                &&& forall|k: int|
                    lo <= k < i && #[trigger] is_crossing(s, k) ==> crossing_preferred(
                        s,
                        t,
                        best_idx as int,
                        crossing_point(s, k),
                    )
            },
        decreases hi - i,
    {
        let crossing = match (samples[i], samples[i + 1]) {
            (Some(current), Some(next)) => (current >= 0 && next < 0) || (current < 0 && next >= 0),
            _ => false,
        };
        if crossing {
            let current_mag = magnitude(samples[i].unwrap());
            let next_mag = magnitude(samples[i + 1].unwrap());
            let crossing_idx = if current_mag < next_mag {
                i
            } else {
                i + 1
            };
            let crossing_mag = if current_mag < next_mag {
                current_mag
            } else {
                next_mag
            };
            let d = distance(crossing_idx, target);
            assert(is_crossing(s, i as int));
            assert(crossing_idx == crossing_point(s, i as int));
            if d < best_distance || (d == best_distance && crossing_mag < best_magnitude) {
                best_idx = crossing_idx;
                best_distance = d;
                best_magnitude = crossing_mag;
                proof {
                    witness = i as int;
                }
            }
        }
        proof {
            let ni = i as int + 1;
            if crossing {
                assert(crossing_in_window(s, lo, ni));
            } else {
                assert(!is_crossing(s, i as int));
                if crossing_in_window(s, lo, ni) {
                    let k = choose|k: int| lo <= k < ni && #[trigger] is_crossing(s, k);
                    assert(k != i as int);
                    assert(crossing_in_window(s, lo, i as int));
                }
            }
        }
        i = i + 1;
    }

    if best_distance == usize::MAX {
        let ghost mut found: bool = false;
        let mut j = search_start;
        while j <= search_end
            invariant
                s == samples@,
                len == s.len(),
                t == target,
                target < len,
                0 <= lo <= t <= hi < len,
                lo == search_start,
                hi == search_end,
                lo <= j <= hi + 1,
                !crossing_in_window(s, lo, hi),
                found == quiet_in_window(s, lo, j as int - 1),
                best_magnitude <= MAX_FINITE_LEVEL,
                !found ==> best_idx == target && best_distance == usize::MAX && best_magnitude
                    == MAX_FINITE_LEVEL,
                found ==> {
                    &&& lo <= best_idx < j
                    &&& is_quiet_candidate(s, best_idx as int)
                    &&& best_distance == index_distance(best_idx as int, t)
                    &&& best_magnitude == level_magnitude(s[best_idx as int]->0)
                    &&& forall|k: int|
                        lo <= k < j && #[trigger] is_quiet_candidate(s, k) ==> quieter_preferred(
                            s,
                            t,
                            best_idx as int,
                            k,
                        )
                },
            decreases hi + 1 - j,
        {
            if let Some(level) = samples[j] {
                let m = magnitude(level);
                let d = distance(j, target);
                if m < best_magnitude || (m == best_magnitude && d < best_distance) {
                    best_idx = j;
                    best_magnitude = m;
                    best_distance = d;
                    proof {
                        found = true;
                    }
                }
            }
            proof {
                let nj = j as int;
                if quiet_in_window(s, lo, nj) && !quiet_in_window(s, lo, nj - 1) {
                    let k = choose|k: int| lo <= k <= nj && #[trigger] is_quiet_candidate(s, k);
                    assert(k == nj);
                }
                if found {
                    assert(is_quiet_candidate(s, best_idx as int));
                    assert(quiet_in_window(s, lo, nj));
                }
            }
            j = j + 1;
        }
    }
    proof {
        let r = best_idx as int;
        assert(is_nearest_zero_crossing(s, t, tolerance as int, r));
        let c = nearest_zero_crossing(s, t, tolerance as int);
        nearest_zero_crossing_is_unique(s, t, tolerance as int, r, c);
    }
    best_idx
}

/// Index of the last sample of a buffer of `n` samples (zero when empty).
pub open spec fn last_index(n: int) -> int {
    if n > 0 {
        n - 1
    } else {
        0
    }
}

/// The smaller of two integers.
pub open spec fn min_of(a: int, b: int) -> int {
    if a <= b {
        a
    } else {
        b
    }
}

/// Loop bounds before snapping: the configured start and end (by default
/// the end of the attack and decay phases, and the last sample), clamped to
/// the buffer, and the whole buffer when the start would not lie before the
/// end.
pub open spec fn unsnapped_bounds(attack_decay_samples: int, config: LoopSettings, n: int) -> (
    int,
    int,
) {
    let last = last_index(n);
    let start = match config.start_sample {
        Some(s) => s as int,
        None => min_of(attack_decay_samples, last),
    };
    let end = match config.end_sample {
        Some(e) => e as int,
        None => last,
    };
    let start = min_of(start, last);
    let end = min_of(end, last);
    if start >= end {
        (0, last)
    } else {
        (start, end)
    }
}

/// The loop points `calculate_loop_points` returns.
pub open spec fn loop_points_of(
    attack_decay_samples: int,
    config: LoopSettings,
    samples: Seq<Option<i64>>,
) -> LoopPoints {
    let n = samples.len() as int;
    let (start, end) = unsnapped_bounds(attack_decay_samples, config, n);
    let tolerance = config.zero_crossing_tolerance as int;
    if config.snap_to_zero_crossing && n > 0 {
        let new_start = nearest_zero_crossing(samples, start, tolerance);
        let new_end = nearest_zero_crossing(samples, end, tolerance);
        if new_start != start || new_end != end {
            LoopPoints {
                start: (if new_start >= new_end && new_start > 0 {
                    new_start - 1
                } else {
                    new_start
                }) as usize,
                end: new_end as usize,
                snapped_to_zero_crossing: true,
            }
        } else {
            LoopPoints { start: start as usize, end: end as usize, snapped_to_zero_crossing: false }
        }
    } else {
        LoopPoints { start: start as usize, end: end as usize, snapped_to_zero_crossing: false }
    }
}

/// Calculates loop points from the length of the attack and decay phases
/// (in samples), the loop settings and the samples.
///
/// The loop starts by default after the attack and decay phases and ends at
/// the last sample; explicit points are clamped to the buffer, and the whole
/// buffer is looped when the start would not lie before the end. With
/// snapping on, both points move to their nearest zero crossings, and the
/// start moves back one sample when it would not lie before the end.
pub fn calculate_loop_points(
    attack_decay_samples: usize,
    loop_config: &LoopSettings,
    samples: &[Option<i64>],
) -> (points: LoopPoints)
    ensures
        points == loop_points_of(attack_decay_samples as int, *loop_config, samples@),
        samples@.len() > 0 ==> points.start < samples@.len() && points.end < samples@.len(),
{
    let num_samples = samples.len();
    let last = if num_samples > 0 {
        num_samples - 1
    } else {
        0
    };
    let default_start = if attack_decay_samples <= last {
        attack_decay_samples
    } else {
        last
    };
    let mut start: usize = match loop_config.start_sample {
        Some(s) => s as usize,
        None => default_start,
    };
    let mut end: usize = match loop_config.end_sample {
        Some(e) => e as usize,
        None => last,
    };
    if start > last {
        start = last;
    }
    if end > last {
        end = last;
    }
    if start >= end {
        start = 0;
        end = last;
    }
    assert((start as int, end as int) == unsnapped_bounds(
        attack_decay_samples as int,
        *loop_config,
        num_samples as int,
    ));
    let mut snapped = false;
    if loop_config.snap_to_zero_crossing && num_samples > 0 {
        let tolerance = loop_config.zero_crossing_tolerance as usize;
        let new_start = find_nearest_zero_crossing(samples, start, tolerance);
        let new_end = find_nearest_zero_crossing(samples, end, tolerance);
        if new_start != start || new_end != end {
            snapped = true;
            start = new_start;
            end = new_end;
            if start >= end && start > 0 {
                start = start - 1;
            }
        }
    }
    LoopPoints { start, end, snapped_to_zero_crossing: snapped }
}

/// Without snapping the loop start lies before the loop end whenever the
/// buffer holds at least two samples.
pub proof fn unsnapped_loop_is_ordered(
    attack_decay_samples: int,
    config: LoopSettings,
    samples: Seq<Option<i64>>,
)
    requires
        0 <= attack_decay_samples <= usize::MAX,
        2 <= samples.len() <= usize::MAX,
        !config.snap_to_zero_crossing,
    ensures
        loop_points_of(attack_decay_samples, config, samples).start < loop_points_of(
            attack_decay_samples,
            config,
            samples,
        ).end,
        !loop_points_of(attack_decay_samples, config, samples).snapped_to_zero_crossing,
{
}

/// Number of samples a loop crossfade blends: none for an empty buffer, an
/// empty loop or a zero-length fade, otherwise the requested length limited
/// to half the loop.
pub open spec fn crossfade_length(num_samples: int, points: LoopPoints, crossfade_samples: int) -> int {
    if num_samples == 0 || points.start >= points.end || crossfade_samples == 0 {
        0
    } else {
        min_of(crossfade_samples, (points.end - points.start) / 2)
    }
}

/// Number of samples the crossfade at the loop boundary blends, for a
/// buffer of `num_samples` samples and a requested fade of
/// `crossfade_samples` samples. Sample `loop_points.end - n + i` is blended
/// with sample `loop_points.start + i` for `i < n`; the two regions never
/// overlap.
pub fn loop_crossfade_length(num_samples: usize, loop_points: &LoopPoints, crossfade_samples: usize) -> (n: usize)
    ensures
        n == crossfade_length(num_samples as int, *loop_points, crossfade_samples as int),
        n > 0 ==> loop_points.start + n <= loop_points.end - n,
{
    if num_samples == 0 || loop_points.start >= loop_points.end {
        return 0;
    }
    if crossfade_samples == 0 {
        return 0;
    }
    let loop_length = loop_points.end - loop_points.start;
    let half = loop_length / 2;
    if crossfade_samples <= half {
        crossfade_samples
    } else {
        half
    }
}

/// Without snapping, the loop runs from the requested start (by default the
/// end of the attack and decay phases) to the requested end (by default the
/// last sample), each clamped to the last sample; when the clamped start
/// does not lie before the clamped end the whole buffer is looped instead.
pub proof fn unsnapped_points_follow_settings(
    attack_decay_samples: int,
    config: LoopSettings,
    samples: Seq<Option<i64>>,
)
    requires
        0 <= attack_decay_samples <= usize::MAX,
        samples.len() <= usize::MAX,
        !config.snap_to_zero_crossing,
    ensures
        ({
            let n = samples.len() as int;
            let last = if n > 0 {
                n - 1
            } else {
                0
            };
            let wanted_start = match config.start_sample {
                Some(s) => s as int,
                None => attack_decay_samples,
            };
            let wanted_end = match config.end_sample {
                Some(e) => e as int,
                None => last,
            };
            let start = if wanted_start <= last {
                wanted_start
            } else {
                last
            };
            let end = if wanted_end <= last {
                wanted_end
            } else {
                last
            };
            let r = loop_points_of(attack_decay_samples, config, samples);
            &&& !r.snapped_to_zero_crossing
            &&& start < end ==> r.start as int == start && r.end as int == end
            &&& start >= end ==> r.start == 0 && r.end as int == last
        }),
{
}

/// Snapping relates to the same settings without snapping: when the nearest
/// zero crossing of the unsnapped start, or of the unsnapped end, differs
/// from that point, the result is marked snapped, ends at the end's nearest
/// crossing and starts at the start's nearest crossing (one sample earlier
/// when that would not lie before the end); when neither point moves the
/// result is the unsnapped loop.
pub proof fn snapping_moves_points_to_nearest_crossings(
    attack_decay_samples: int,
    config: LoopSettings,
    samples: Seq<Option<i64>>,
)
    requires
        0 <= attack_decay_samples <= usize::MAX,
        1 <= samples.len() <= usize::MAX,
        config.snap_to_zero_crossing,
    ensures
        ({
            let unsnapped_config = (LoopSettings {
                start_sample: config.start_sample,
                end_sample: config.end_sample,
                snap_to_zero_crossing: false,
                zero_crossing_tolerance: config.zero_crossing_tolerance,
            });
            let base = loop_points_of(attack_decay_samples, unsnapped_config, samples);
            let tolerance = config.zero_crossing_tolerance as int;
            let ns = nearest_zero_crossing(samples, base.start as int, tolerance);
            let ne = nearest_zero_crossing(samples, base.end as int, tolerance);
            let r = loop_points_of(attack_decay_samples, config, samples);
            &&& (ns != base.start as int || ne != base.end as int) ==> {
                &&& r.snapped_to_zero_crossing
                &&& r.end == ne as usize
                &&& r.start == (if ns >= ne && ns > 0 {
                    ns - 1
                } else {
                    ns
                }) as usize
            }
            &&& (ns == base.start as int && ne == base.end as int) ==> r == base
        }),
{
    let n = samples.len() as int;
    let unsnapped_config = (LoopSettings {
        start_sample: config.start_sample,
        end_sample: config.end_sample,
        snap_to_zero_crossing: false,
        zero_crossing_tolerance: config.zero_crossing_tolerance,
    });
    let (start, end) = unsnapped_bounds(attack_decay_samples, config, n);
    assert(unsnapped_bounds(attack_decay_samples, unsnapped_config, n) == (start, end));
    assert(0 <= start < n && 0 <= end < n);
}

/// For a non-empty buffer, a loop whose start lies before its end and a
/// nonzero requested length, the crossfade is the requested length limited
/// to half the loop, wherever the loop lies in the buffer; it never exceeds
/// half the loop.
pub proof fn crossfade_is_requested_length_up_to_half_loop(
    num_samples: int,
    points: LoopPoints,
    crossfade_samples: int,
)
    requires
        num_samples > 0,
        points.start < points.end,
        crossfade_samples > 0,
    ensures
        crossfade_length(num_samples, points, crossfade_samples) == if crossfade_samples <= (
        points.end - points.start) / 2 {
            crossfade_samples
        } else {
            (points.end - points.start) / 2
        },
        2 * crossfade_length(num_samples, points, crossfade_samples) <= points.end - points.start,
{
}

/// No crossfade is made for an empty buffer, a loop whose start does not
/// lie before its end, or a zero requested length.
pub proof fn crossfade_is_empty_without_loop(num_samples: int, points: LoopPoints, crossfade_samples: int)
    requires
        num_samples == 0 || points.start >= points.end || crossfade_samples == 0,
    ensures
        crossfade_length(num_samples, points, crossfade_samples) == 0,
{
}

/// Snapping an empty buffer changes nothing: the result is the loop of the
/// same settings without snapping.
pub proof fn snapping_empty_buffer_changes_nothing(attack_decay_samples: int, config: LoopSettings)
    ensures
        loop_points_of(attack_decay_samples, config, Seq::<Option<i64>>::empty()) == loop_points_of(
            attack_decay_samples,
            (LoopSettings {
                start_sample: config.start_sample,
                end_sample: config.end_sample,
                snap_to_zero_crossing: false,
                zero_crossing_tolerance: config.zero_crossing_tolerance,
            }),
            Seq::<Option<i64>>::empty(),
        ),
{
}

/// Neighbouring samples `i` and `i + 1` are both ordinary and one is
/// negative while the other is not.
pub open spec fn signs_differ(samples: Seq<Option<i64>>, i: int) -> bool {
    samples[i] is Some && samples[i + 1] is Some && ((samples[i]->0 < 0) != (samples[i + 1]->0 < 0))
}

/// What the nearest zero crossing of a target inside the buffer is, in
/// terms of the samples: when two neighbouring ordinary samples of the
/// search window differ in sign, it is the quieter sample of such a pair
/// (the later one on a tie) and no sample of such a pair in the window is
/// nearer the target; otherwise it is an ordinary finite sample of the
/// window, no finite sample of the window is quieter, or it is the target
/// when the window holds no finite sample.
pub proof fn nearest_zero_crossing_in_terms_of_samples(
    samples: Seq<Option<i64>>,
    target: int,
    tolerance: int,
    r: int,
)
    requires
        0 <= target < samples.len(),
        tolerance >= 0,
        is_nearest_zero_crossing(samples, target, tolerance, r),
    ensures
        ({
            let lo = if target >= tolerance {
                target - tolerance
            } else {
                0
            };
            let hi = if target + tolerance <= samples.len() - 1 {
                target + tolerance
            } else {
                samples.len() - 1
            };
            if exists|i: int| lo <= i < hi && #[trigger] signs_differ(samples, i) {
                &&& exists|i: int|
                    lo <= i < hi && #[trigger] signs_differ(samples, i) && r == (if level_magnitude(
                        samples[i]->0,
                    ) < level_magnitude(samples[i + 1]->0) {
                        i
                    } else {
                        i + 1
                    })
                &&& forall|i: int|
                    lo <= i < hi && #[trigger] signs_differ(samples, i) ==> index_distance(r, target)
                        <= index_distance(i, target) || index_distance(r, target) <= index_distance(
                        i + 1,
                        target,
                    )
            } else if exists|j: int|
                lo <= j <= hi && samples[j] is Some && #[trigger] level_magnitude(samples[j]->0)
                    <= MAX_FINITE_LEVEL {
                &&& lo <= r <= hi
                &&& samples[r] is Some
                &&& level_magnitude(samples[r]->0) <= MAX_FINITE_LEVEL
                &&& forall|j: int|
                    lo <= j <= hi && samples[j] is Some ==> level_magnitude(samples[r]->0)
                        <= #[trigger] level_magnitude(samples[j]->0)
            } else {
                r == target
            }
        }),
{
    let len = samples.len() as int;
    let lo = window_start(target, tolerance);
    let hi = window_end(len, target, tolerance);
    if crossing_in_window(samples, lo, hi) {
        let w = choose|i: int| lo <= i < hi && #[trigger] is_crossing(samples, i);
        assert(is_crossing(samples, w));
        let k = choose|i: int|
            lo <= i < hi && #[trigger] is_crossing(samples, i) && r == crossing_point(samples, i);
        assert(is_crossing(samples, k));
        assert(signs_differ(samples, w));
        assert(signs_differ(samples, k));
        assert forall|i: int|
            lo <= i < hi && #[trigger] signs_differ(samples, i) implies index_distance(r, target) <= index_distance(
            i,
            target,
        ) || index_distance(r, target) <= index_distance(i + 1, target) by {
            assert(is_crossing(samples, i));
            assert(crossing_preferred(samples, target, r, crossing_point(samples, i)));
        }
    } else {
        assert forall|i: int| lo <= i < hi implies !#[trigger] signs_differ(samples, i) by {
            assert(!is_crossing(samples, i));
        }
        if quiet_in_window(samples, lo, hi) {
            assert forall|j: int|
                lo <= j <= hi && samples[j] is Some implies level_magnitude(samples[r]->0)
                <= level_magnitude(samples[j]->0) by {
                if level_magnitude(samples[j]->0) <= MAX_FINITE_LEVEL {
                    assert(is_quiet_candidate(samples, j));
                    assert(quieter_preferred(samples, target, r, j));
                }
            }
        } else {
            assert forall|j: int|
                lo <= j <= hi implies !(samples[j] is Some && #[trigger] level_magnitude(samples[j]->0)
                <= MAX_FINITE_LEVEL) by {
                assert(!is_quiet_candidate(samples, j));
            }
        }
    }
}

} // verus!
