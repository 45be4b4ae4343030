//! Uninterrupted runs of the scheduler, and how long a key lasts in them.

use crate::config::Config;
use crate::oprf::{active_tags, public_key_bytes};
use crate::schedule::{
    epoch_nanos, first_rotation, lemma_first_rotation_follows_start,
    lemma_starting_epoch_in_range, schedule_fault, starting_epoch,
};
use crate::state::{has_successor, stepped, OPRFServer, Phase, Step};
use crate::timestamp::{Timestamp, NANOS_PER_SECOND};
use vstd::prelude::*;

verus! {

/// The phase in which step `i` of a run is taken: the first at the start,
/// each later one where the step before it led.
pub open spec fn phase_at(steps: Seq<Step>, i: int) -> Phase {
    if i == 0 {
        Phase::Start
    } else {
        steps[i - 1].phase
    }
}

/// Step `i` of a run went through: taken at `clock[i]`, it made state
/// `i + 1` of state `i`.
pub open spec fn took_step(
    config: Config,
    states: Seq<OPRFServer>,
    steps: Seq<Step>,
    clock: Seq<Timestamp>,
    i: int,
) -> bool {
    stepped(states[i], config, phase_at(steps, i), clock[i], states[i + 1], Ok(steps[i]))
}

/// An uninterrupted run of the scheduler from its start: the states it went
/// through, the steps that led from each to the next, and the clock
/// readings that the steps were taken at.
pub open spec fn is_run(
    config: Config,
    states: Seq<OPRFServer>,
    steps: Seq<Step>,
    clock: Seq<Timestamp>,
) -> bool {
    &&& states.len() == steps.len() + 1
    &&& clock.len() == steps.len()
    &&& forall|i: int|
        0 <= i < steps.len() ==> #[trigger] took_step(config, states, steps, clock, i)
}

/// The phase of the `k`-th rotation of a run, counted from one: after the
/// start, the steps announce and rotate in turn.
pub open spec fn rotation_phase(steps: Seq<Step>, k: int) -> Phase {
    phase_at(steps, 2 * k)
}

/// The state that the `k`-th rotation of a run, counted from one, finds.
pub open spec fn state_before_rotation(states: Seq<OPRFServer>, k: int) -> OPRFServer {
    states[2 * k]
}

/// Rotations that the key of a scheduler started at `start` lasts for: one
/// for each epoch from the one that is current at the start to the last of
/// the range.
pub open spec fn rotations_of_first_key(config: Config, start: Timestamp) -> int {
    config.last_epoch - starting_epoch(config, start) + 1
}

/// Where a run stands after its start and `k` rounds of announcing and
/// rotating, as long as the range is not used up.
proof fn lemma_run_prefix(
    config: Config,
    states: Seq<OPRFServer>,
    steps: Seq<Step>,
    clock: Seq<Timestamp>,
    k: int,
)
    requires
        config.valid(),
        is_run(config, states, steps, clock),
        states[0].fresh(config),
        0 <= k < rotations_of_first_key(config, clock[0]),
        2 * k + 1 <= steps.len(),
    ensures
        schedule_fault(config, clock[0]) is None,
        first_rotation(config, clock[0]).seconds() + k * config.epoch_seconds <= i64::MAX,
        phase_at(steps, 2 * k + 1) == (Phase::Publish {
            next_rotation: first_rotation(config, clock[0]).plus_seconds(k * config.epoch_seconds),
        }),
        states[2 * k + 1].epoch == starting_epoch(config, clock[0]) + k,
        states[2 * k + 1].wf(config),
        public_key_bytes(states[2 * k + 1].server) == public_key_bytes(states[0].server),
        k > 0 ==> states[2 * k].epoch == starting_epoch(config, clock[0]) + k - 1
            && states[2 * k].wf(config) && public_key_bytes(states[2 * k].server)
            == public_key_bytes(states[0].server) && phase_at(steps, 2 * k) == (Phase::Rotate {
            next_rotation: first_rotation(config, clock[0]).plus_seconds(
                (k - 1) * config.epoch_seconds,
            ),
        }),
    decreases k,
{
    let start = clock[0];
    let length = config.epoch_seconds as int;
    let first_due = first_rotation(config, start);
    let current = starting_epoch(config, start);
    lemma_starting_epoch_in_range(config, start);
    assert(k * length >= 0) by (nonlinear_arith)
        requires
            k >= 0,
            length >= 0,
    ;
    if k == 0 {
        assert(took_step(config, states, steps, clock, 0));
        assert(schedule_fault(config, start) is None);
        lemma_first_rotation_seconds(config, start);
        first_due.lemma_plus_no_seconds();
        assert(k * length == 0);
        let after = states[1];
        assert(active_tags(after.server) =~= Set::new(
            |tag: u8| after.epoch <= tag <= config.last_epoch,
        ));
    } else {
        lemma_run_prefix(config, states, steps, clock, k - 1);
        let due = first_due.plus_seconds((k - 1) * length);
        assert((k - 1) * length >= 0) by (nonlinear_arith)
            requires
                k >= 1,
                length >= 0,
        ;
        assert(took_step(config, states, steps, clock, 2 * k - 1));
        assert(took_step(config, states, steps, clock, 2 * k));
        assert(phase_at(steps, 2 * k - 1) == (Phase::Publish { next_rotation: due }));
        assert(phase_at(steps, 2 * k) == (Phase::Rotate { next_rotation: due }));
        first_due.lemma_plus_seconds((k - 1) * length);
        assert(k * length == (k - 1) * length + length) by (nonlinear_arith);
        first_due.lemma_plus_seconds_twice((k - 1) * length, length);
        let before = states[2 * k];
        let after = states[2 * k + 1];
        assert(has_successor(config, before.epoch));
        assert(active_tags(after.server) =~= Set::new(
            |tag: u8| after.epoch <= tag <= config.last_epoch,
        ));
    }
}

/// The seconds of a first rotation that there is.
proof fn lemma_first_rotation_seconds(config: Config, start: Timestamp)
    requires
        config.valid(),
        schedule_fault(config, start) is None,
    ensures
        i64::MIN <= first_rotation(config, start).seconds() <= i64::MAX,
        first_rotation(config, start).seconds() >= config.base_time(start).seconds(),
{
    let base = config.base_time(start);
    let elapsed = crate::schedule::elapsed_epochs(base, start, config.epoch_seconds);
    let ahead = crate::schedule::seconds_to_rotation(config.epoch_seconds, elapsed);
    vstd::arithmetic::div_mod::lemma_div_pos_is_pos(
        start.as_nanos() - base.as_nanos(),
        epoch_nanos(config.epoch_seconds),
    );
    assert(ahead >= 0) by (nonlinear_arith)
        requires
            ahead == config.epoch_seconds * (elapsed + 1),
            elapsed >= 0,
    ;
    base.lemma_plus_seconds(ahead);
}

/// The rotation that ends the last epoch of the range, and what it leaves.
proof fn lemma_last_rotation(
    config: Config,
    states: Seq<OPRFServer>,
    steps: Seq<Step>,
    clock: Seq<Timestamp>,
)
    requires
        config.valid(),
        is_run(config, states, steps, clock),
        states[0].fresh(config),
        steps.len() == 2 * rotations_of_first_key(config, clock[0]) + 1,
    ensures
        schedule_fault(config, clock[0]) is None,
        phase_at(steps, 2 * rotations_of_first_key(config, clock[0])) == (Phase::Rotate {
            next_rotation: first_rotation(config, clock[0]).plus_seconds(
                (rotations_of_first_key(config, clock[0]) - 1) * config.epoch_seconds,
            ),
        }),
        first_rotation(config, clock[0]).seconds() + (rotations_of_first_key(config, clock[0])
            - 1) * config.epoch_seconds <= i64::MAX,
        states[2 * rotations_of_first_key(config, clock[0])].wf(config),
        states[2 * rotations_of_first_key(config, clock[0])].epoch == config.last_epoch,
        public_key_bytes(states[2 * rotations_of_first_key(config, clock[0])].server)
            == public_key_bytes(states[0].server),
        states[2 * rotations_of_first_key(config, clock[0]) + 1].fresh(config),
{
    let rounds = rotations_of_first_key(config, clock[0]);
    lemma_starting_epoch_in_range(config, clock[0]);
    lemma_run_prefix(config, states, steps, clock, rounds - 1);
    assert(took_step(config, states, steps, clock, 2 * rounds - 1));
    assert(took_step(config, states, steps, clock, 2 * rounds));
    assert(!has_successor(config, states[2 * rounds].epoch));
}

/// A key lasts from the epoch it starts in to the last epoch of the range.
///
/// Take a run that starts on a new state and goes on up to the rotation
/// that ends the last epoch of the range. Its `k`-th rotation is due `k - 1`
/// epoch lengths after the first. Every rotation finds a sound state with
/// the public key of the first state, in the `k - 1`-th epoch after the one
/// the run started in. The last rotation puts a newly made instance, with a
/// new key for the whole range, in the state.
pub proof fn lemma_key_generation_length(
    config: Config,
    states: Seq<OPRFServer>,
    steps: Seq<Step>,
    clock: Seq<Timestamp>,
)
    requires
        config.valid(),
        is_run(config, states, steps, clock),
        states[0].fresh(config),
        steps.len() == 2 * rotations_of_first_key(config, clock[0]) + 1,
    ensures
        forall|k: int|
            1 <= k <= rotations_of_first_key(config, clock[0]) ==> #[trigger] rotation_phase(
                steps,
                k,
            ) == (Phase::Rotate {
                next_rotation: first_rotation(config, clock[0]).plus_seconds(
                    (k - 1) * config.epoch_seconds,
                ),
            }),
        forall|k: int|
            1 <= k <= rotations_of_first_key(config, clock[0]) ==> {
                let state = #[trigger] state_before_rotation(states, k);
                &&& state.wf(config)
                &&& state.epoch == starting_epoch(config, clock[0]) + k - 1
                &&& public_key_bytes(state.server) == public_key_bytes(states[0].server)
            },
        states[steps.len() as int].fresh(config),
{
    let rounds = rotations_of_first_key(config, clock[0]);
    let length = config.epoch_seconds as int;
    let first_due = first_rotation(config, clock[0]);
    lemma_starting_epoch_in_range(config, clock[0]);
    assert forall|k: int| 1 <= k <= rounds implies #[trigger] rotation_phase(steps, k)
        == (Phase::Rotate { next_rotation: first_due.plus_seconds((k - 1) * length) }) by {
        if k < rounds {
            lemma_run_prefix(config, states, steps, clock, k);
        } else {
            lemma_last_rotation(config, states, steps, clock);
        }
    }
    assert forall|k: int| 1 <= k <= rounds implies ({
        let state = #[trigger] state_before_rotation(states, k);
        &&& state.wf(config)
        &&& state.epoch == starting_epoch(config, clock[0]) + k - 1
        &&& public_key_bytes(state.server) == public_key_bytes(states[0].server)
    }) by {
        if k < rounds {
            lemma_run_prefix(config, states, steps, clock, k);
        } else {
            lemma_last_rotation(config, states, steps, clock);
        }
    }
    lemma_last_rotation(config, states, steps, clock);
}

/// The first key is replaced no later than one round of the range after
/// the start, and exactly then where no base time is set: that is, after as
/// many epoch lengths as the range has epochs.
pub proof fn lemma_key_is_replaced_in_time(
    config: Config,
    states: Seq<OPRFServer>,
    steps: Seq<Step>,
    clock: Seq<Timestamp>,
)
    requires
        config.valid(),
        is_run(config, states, steps, clock),
        states[0].fresh(config),
        steps.len() == 2 * rotations_of_first_key(config, clock[0]) + 1,
    ensures
        rotation_phase(steps, rotations_of_first_key(config, clock[0])) matches Phase::Rotate {
            next_rotation,
        } && {
            &&& next_rotation.as_nanos() <= clock[0].as_nanos() + config.epoch_count()
                * epoch_nanos(config.epoch_seconds)
            &&& config.epoch_base_time is None ==> next_rotation.as_nanos() == clock[0].as_nanos()
                + config.epoch_count() * epoch_nanos(config.epoch_seconds)
        },
        states[steps.len() as int].fresh(config),
{
    let start = clock[0];
    let rounds = rotations_of_first_key(config, start);
    let length = config.epoch_seconds as int;
    let first_due = first_rotation(config, start);
    let count = config.epoch_count();
    lemma_starting_epoch_in_range(config, start);
    lemma_last_rotation(config, states, steps, clock);
    lemma_first_rotation_follows_start(config, start);
    lemma_first_rotation_seconds(config, start);
    assert((rounds - 1) * length >= 0) by (nonlinear_arith)
        requires
            rounds >= 1,
            length >= 0,
    ;
    first_due.lemma_plus_seconds((rounds - 1) * length);
    let last_due = first_due.plus_seconds((rounds - 1) * length);
    assert(last_due.as_nanos() == first_due.as_nanos() + (rounds - 1) * length
        * NANOS_PER_SECOND);
    assert((rounds - 1) * length * NANOS_PER_SECOND + length * NANOS_PER_SECOND <= count * (
        length * NANOS_PER_SECOND)) by (nonlinear_arith)
        requires
            1 <= rounds <= count,
            length >= 0,
    ;
    if config.epoch_base_time is None {
        vstd::arithmetic::div_mod::lemma_div_basics(epoch_nanos(config.epoch_seconds));
        vstd::arithmetic::div_mod::lemma_small_mod(0, count as nat);
        assert(crate::schedule::elapsed_epochs(start, start, config.epoch_seconds) == 0);
        assert(rounds == count);
        assert(crate::schedule::seconds_to_rotation(config.epoch_seconds, 0) == length)
            by (nonlinear_arith)
            requires
                crate::schedule::seconds_to_rotation(config.epoch_seconds, 0) == length * (0 + 1),
        ;
        start.lemma_plus_seconds(length);
        assert((count - 1) * length * NANOS_PER_SECOND + length * NANOS_PER_SECOND == count * (
            length * NANOS_PER_SECOND)) by (nonlinear_arith);
    }
}

} // verus!
