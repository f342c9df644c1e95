//! Properties of whole runs of the controller's parts, over the models that
//! the executable functions' contracts use.
use vstd::prelude::*;

use crate::button::release_edge;
use crate::control::selector_step;
use crate::flash::{elapsed, tick_spec, Flasher};
use crate::led::write_for;
use vstd::arithmetic::div_mod::lemma_add_mod_noop_right;

verus! {

/// A selector polled once per reading in `samples` (`true`: held down).
/// Returns the final latch and position.
pub open spec fn run_selector(pressed: bool, index: nat, samples: Seq<bool>, range: nat) -> (
    bool,
    nat,
)
    decreases samples.len(),
{
    if samples.len() == 0 {
        (pressed, index)
    } else {
        let (p, i) = selector_step(pressed, index, samples[0], range);
        run_selector(p, i, samples.drop_first(), range)
    }
}

/// Number of completed press-and-release cycles in `samples`: readings that
/// are inactive right after an active one (or, for the first, after a latch
/// that held `pressed`).
pub open spec fn press_releases(pressed: bool, samples: Seq<bool>) -> nat
    decreases samples.len(),
{
    if samples.len() == 0 {
        0
    } else {
        (if release_edge(pressed, !samples[0]) { 1nat } else { 0nat }) + press_releases(
            samples[0],
            samples.drop_first(),
        )
    }
}

/// The latch after a run: the last reading, or the starting latch if none.
pub open spec fn last_reading(pressed: bool, samples: Seq<bool>) -> bool {
    if samples.len() == 0 {
        pressed
    } else {
        samples.last()
    }
}

/// Over any sequence of readings, a selector advances by exactly one
/// position, modulo its range, per completed press-and-release cycle.
pub proof fn lemma_selector_counts_releases(
    pressed: bool,
    index: nat,
    samples: Seq<bool>,
    range: nat,
)
    requires
        index < range,
    ensures
        run_selector(pressed, index, samples, range) == (
            last_reading(pressed, samples),
            (index + press_releases(pressed, samples)) % range,
        ),
    decreases samples.len(),
{
    if samples.len() == 0 {
        assert(index % range == index) by (nonlinear_arith)
            requires
                index < range,
        ;
    } else {
        let rest = samples.drop_first();
        let (p, i) = selector_step(pressed, index, samples[0], range);
        assert(i < range) by (nonlinear_arith)
            requires
                range > 0,
                i == index || i == (index + 1) % range,
                index < range,
        ;
        lemma_selector_counts_releases(p, i, rest, range);
        if rest.len() > 0 {
            assert(rest.last() == samples.last());
        }
        let k = press_releases(samples[0], rest);
        if release_edge(pressed, !samples[0]) {
            let (ki, ii, ri) = (k as int, index as int, range as int);
            lemma_add_mod_noop_right(ki, ii + 1, ri);
            assert((ki + (ii + 1) % ri) % ri == (ki + ii + 1) % ri);
        }
    }
}

/// A press that is never released never advances the selector, however
/// long the run.
pub proof fn lemma_held_press_never_advances(
    pressed: bool,
    index: nat,
    samples: Seq<bool>,
    range: nat,
)
    requires
        index < range,
        forall|i: int| 0 <= i < samples.len() ==> samples[i],
    ensures
        run_selector(pressed, index, samples, range).1 == index,
    decreases samples.len(),
{
    if samples.len() > 0 {
        let rest = samples.drop_first();
        assert forall|i: int| 0 <= i < rest.len() implies rest[i] by {
            assert(rest[i] == samples[i + 1]);
        }
        lemma_held_press_never_advances(samples[0], index, rest, range);
    }
}

/// What an output line writes, request by request, starting from level
/// `is_on`.
pub open spec fn run_writes(is_on: bool, requests: Seq<bool>) -> Seq<Option<bool>>
    decreases requests.len(),
{
    if requests.len() == 0 {
        Seq::empty()
    } else {
        seq![write_for(is_on, requests[0])].add(
            run_writes(requests[0], requests.drop_first()),
        )
    }
}

/// The level asked just before request `i`: the starting level for the
/// first.
pub open spec fn previous_request(is_on: bool, requests: Seq<bool>, i: int) -> bool {
    if i == 0 {
        is_on
    } else {
        requests[i - 1]
    }
}

/// Asking an output line twice for the same level writes it at most once.
pub proof fn lemma_repeated_set_is_idempotent(is_on: bool, value: bool)
    ensures
        write_for(value, value) is None,
        write_for(is_on, value) is Some <==> is_on != value,
{
}

/// Over any sequence of requests, an output line is written exactly at the
/// requests that differ from the level it was last driven at, and then with
/// the requested level.
pub proof fn lemma_writes_only_on_change(is_on: bool, requests: Seq<bool>)
    ensures
        run_writes(is_on, requests).len() == requests.len(),
        forall|i: int|
            #![trigger run_writes(is_on, requests)[i]]
            0 <= i < requests.len() ==> run_writes(is_on, requests)[i] == if requests[i]
                != previous_request(is_on, requests, i) {
                Some(requests[i])
            } else {
                None
            },
    decreases requests.len(),
{
    if requests.len() > 0 {
        let rest = requests.drop_first();
        lemma_writes_only_on_change(requests[0], rest);
        let w = run_writes(is_on, requests);
        assert forall|i: int| 0 < i < requests.len() implies w[i] == run_writes(
            requests[0],
            rest,
        )[i - 1] && previous_request(requests[0], rest, i - 1) == previous_request(
            is_on,
            requests,
            i,
        ) by {}
    }
}

/// The flasher ticked at each time of `times` with one threshold.
pub open spec fn run_flasher(f: Flasher, times: Seq<u64>, threshold: nat) -> Flasher
    decreases times.len(),
{
    if times.len() == 0 {
        f
    } else {
        run_flasher(tick_spec(f, times[0], threshold), times.drop_first(), threshold)
    }
}

/// The flash phase flips only once the threshold has elapsed since the last
/// flip, and a flip starts the next window at the time of the tick.
pub proof fn lemma_flip_needs_threshold(f: Flasher, now: u64, threshold: nat)
    ensures
        tick_spec(f, now, threshold).phase != f.phase ==> elapsed(f.last_flip_ms, now)
            >= threshold && tick_spec(f, now, threshold).last_flip_ms == now,
        tick_spec(f, now, threshold).phase == f.phase ==> tick_spec(f, now, threshold) == f,
{
}

/// After a flip at `now`, no tick earlier than a full threshold later flips
/// the phase again: at most one flip per threshold window.
pub proof fn lemma_one_flip_per_window(f: Flasher, now: u64, times: Seq<u64>, threshold: nat)
    requires
        tick_spec(f, now, threshold).phase != f.phase,
        forall|i: int| 0 <= i < times.len() ==> now <= #[trigger] times[i] < now + threshold,
    ensures
        run_flasher(tick_spec(f, now, threshold), times, threshold) == tick_spec(
            f,
            now,
            threshold,
        ),
{
    lemma_window_holds(tick_spec(f, now, threshold), times, threshold);
}

/// Ticks that all fall inside the current window leave the flasher as it is.
proof fn lemma_window_holds(g: Flasher, times: Seq<u64>, threshold: nat)
    requires
        forall|i: int|
            0 <= i < times.len() ==> g.last_flip_ms <= #[trigger] times[i] < g.last_flip_ms + threshold,
    ensures
        run_flasher(g, times, threshold) == g,
    decreases times.len(),
{
    if times.len() > 0 {
        let rest = times.drop_first();
        assert(tick_spec(g, times[0], threshold) == g);
        assert forall|i: int|
            0 <= i < rest.len() implies g.last_flip_ms <= #[trigger] rest[i] < g.last_flip_ms
            + threshold by {
            assert(rest[i] == times[i + 1]);
        }
        lemma_window_holds(g, rest, threshold);
    }
}

} // verus!
