//! The order in which a generator issues its identifiers: later ones never
//! carry an earlier timestamp, and none is issued twice.

use crate::clock::guarded_duration_ms;
use crate::codec::{lemma_unpack_packed, timestamp_of, unpacked, MAX_SEQUENCES, MAX_TIMESTAMPS};
use crate::generator::{
    next_logical_volume_id, sequences_exhausted, snowprint_at, step, Error, Settings,
    SnowprintState,
};
use vstd::arithmetic::div_mod::{lemma_mod_self_0, lemma_small_mod};
use vstd::prelude::*;

verus! {

/// How many logical volumes the state has moved on from the one on which its
/// millisecond began, going round the rotation.
pub open spec fn volumes_passed(state: SnowprintState, logical_volume_modulo: u64) -> int {
    if state.logical_volume_id >= state.prev_logical_volume_id {
        state.logical_volume_id - state.prev_logical_volume_id
    } else {
        state.logical_volume_id - state.prev_logical_volume_id + logical_volume_modulo
    }
}

/// The place of the state within its millisecond: the logical volumes
/// passed, each worth all its sequences, and the sequence reached.
pub open spec fn rotation_index(state: SnowprintState, logical_volume_modulo: u64) -> int {
    volumes_passed(state, logical_volume_modulo) * MAX_SEQUENCES + state.sequence_id
}

/// The state of a generator that began in `start` and has since been asked
/// `count` times, the clock reading `readings[0]`, `readings[1]` and so on
/// at each request (`None` for a clock that gave no reading).
pub open spec fn state_after(
    settings: Settings,
    start: SnowprintState,
    readings: Seq<Option<u64>>,
    count: nat,
) -> SnowprintState
    decreases count,
{
    if count == 0 {
        start
    } else {
        let before = state_after(settings, start, readings, (count - 1) as nat);
        step(
            settings,
            before,
            guarded_duration_ms(readings[count - 1], before.prev_duration_ms),
        ).1
    }
}

/// What that generator returned at request number `index`, counted from
/// zero.
pub open spec fn returned_at(
    settings: Settings,
    start: SnowprintState,
    readings: Seq<Option<u64>>,
    index: nat,
) -> Result<u64, Error> {
    let before = state_after(settings, start, readings, index);
    step(
        settings,
        before,
        guarded_duration_ms(readings[index as int], before.prev_duration_ms),
    ).0
}

/// Every reading of the clock fits the 41 bits of a timestamp.
pub open spec fn readings_fit(readings: Seq<Option<u64>>) -> bool {
    forall|i: int|
        0 <= i < readings.len() ==> (#[trigger] readings[i] matches Some(ms) ==> ms
            < MAX_TIMESTAMPS)
}

/// Within the rotation, the logical volume after one below the modulo is
/// the next number, and the one after the last is zero.
pub proof fn lemma_next_logical_volume_id(logical_volume_id: u64, logical_volume_modulo: u64)
    requires
        logical_volume_id < logical_volume_modulo,
    ensures
        next_logical_volume_id(logical_volume_id, logical_volume_modulo) == if logical_volume_id
            + 1 < logical_volume_modulo {
            logical_volume_id + 1
        } else {
            0
        },
{
    if logical_volume_id + 1 < logical_volume_modulo {
        lemma_small_mod((logical_volume_id + 1) as nat, logical_volume_modulo as nat);
    } else {
        lemma_mod_self_0(logical_volume_modulo as int);
    }
}

/// Capacity: a well-formed state has a place among the
/// `logical_volume_modulo * 1024` of its millisecond, and the sequences are
/// exhausted exactly at the last place.
pub proof fn lemma_rotation_index_bounds(state: SnowprintState, logical_volume_modulo: u64)
    requires
        state.well_formed(logical_volume_modulo),
    ensures
        0 <= rotation_index(state, logical_volume_modulo) < logical_volume_modulo * MAX_SEQUENCES,
        sequences_exhausted(state, logical_volume_modulo) <==> rotation_index(
            state,
            logical_volume_modulo,
        ) == logical_volume_modulo * MAX_SEQUENCES - 1,
{
    lemma_next_logical_volume_id(state.logical_volume_id, logical_volume_modulo);
}

/// One step forward: a generator that mints at a duration not below its
/// last one is left at that duration. Where the duration is later, it is
/// left past the first logical volume of the new millisecond, at sequence
/// zero. Where the duration is the same, the millisecond still counts from
/// the same logical volume, and the state has moved on by one place.
pub proof fn lemma_step_moves_forward(settings: Settings, state: SnowprintState, duration_ms: u64)
    requires
        settings.valid(),
        state.well_formed(settings.logical_volume_modulo),
        state.prev_duration_ms <= duration_ms,
        step(settings, state, duration_ms).0 is Ok,
    ensures
        ({
            let next = step(settings, state, duration_ms).1;
            let modulo = settings.logical_volume_modulo;
            &&& next.well_formed(modulo)
            &&& next.prev_duration_ms == duration_ms
            &&& state.prev_duration_ms < duration_ms ==> rotation_index(next, modulo)
                == MAX_SEQUENCES
            &&& state.prev_duration_ms == duration_ms ==> {
                &&& next.prev_logical_volume_id == state.prev_logical_volume_id
                &&& rotation_index(next, modulo) == rotation_index(state, modulo) + 1
            }
        }),
{
    lemma_next_logical_volume_id(state.logical_volume_id, settings.logical_volume_modulo);
}

/// Along a run, every state is well formed and its duration fits a
/// timestamp.
proof fn lemma_run_well_formed(
    settings: Settings,
    start: SnowprintState,
    readings: Seq<Option<u64>>,
    count: nat,
)
    requires
        settings.valid(),
        start.well_formed(settings.logical_volume_modulo),
        start.prev_duration_ms < MAX_TIMESTAMPS,
        readings_fit(readings),
        count <= readings.len(),
    ensures
        state_after(settings, start, readings, count).well_formed(settings.logical_volume_modulo),
        state_after(settings, start, readings, count).prev_duration_ms < MAX_TIMESTAMPS,
    decreases count,
{
    if count > 0 {
        lemma_run_well_formed(settings, start, readings, (count - 1) as nat);
        let before = state_after(settings, start, readings, (count - 1) as nat);
        let duration_ms = guarded_duration_ms(readings[count - 1], before.prev_duration_ms);
        if step(settings, before, duration_ms).0 is Ok {
            lemma_step_moves_forward(settings, before, duration_ms);
        }
    }
}

/// Along a run, the duration never decreases; and while it stays the same,
/// the millisecond counts from the same logical volume and the place in it
/// never decreases.
proof fn lemma_run_ordered(
    settings: Settings,
    start: SnowprintState,
    readings: Seq<Option<u64>>,
    earlier: nat,
    later: nat,
)
    requires
        settings.valid(),
        start.well_formed(settings.logical_volume_modulo),
        start.prev_duration_ms < MAX_TIMESTAMPS,
        readings_fit(readings),
        earlier <= later <= readings.len(),
    ensures
        ({
            let a = state_after(settings, start, readings, earlier);
            let b = state_after(settings, start, readings, later);
            let modulo = settings.logical_volume_modulo;
            &&& a.prev_duration_ms <= b.prev_duration_ms
            &&& a.prev_duration_ms == b.prev_duration_ms ==> {
                &&& a.prev_logical_volume_id == b.prev_logical_volume_id
                &&& rotation_index(a, modulo) <= rotation_index(b, modulo)
            }
        }),
    decreases later,
{
    if earlier < later {
        lemma_run_ordered(settings, start, readings, earlier, (later - 1) as nat);
        lemma_run_well_formed(settings, start, readings, (later - 1) as nat);
        let before = state_after(settings, start, readings, (later - 1) as nat);
        let duration_ms = guarded_duration_ms(readings[later - 1], before.prev_duration_ms);
        if step(settings, before, duration_ms).0 is Ok {
            lemma_step_moves_forward(settings, before, duration_ms);
        }
    }
}

/// What a request of a run returned, where it minted: the identifier of the
/// state that the request left, at the duration that this state holds.
proof fn lemma_returned_is_of_state(
    settings: Settings,
    start: SnowprintState,
    readings: Seq<Option<u64>>,
    index: nat,
)
    requires
        settings.valid(),
        start.well_formed(settings.logical_volume_modulo),
        start.prev_duration_ms < MAX_TIMESTAMPS,
        readings_fit(readings),
        index < readings.len(),
        returned_at(settings, start, readings, index) is Ok,
    ensures
        ({
            let before = state_after(settings, start, readings, index);
            let after = state_after(settings, start, readings, index + 1);
            let modulo = settings.logical_volume_modulo;
            &&& returned_at(settings, start, readings, index) == Ok::<u64, Error>(
                snowprint_at(settings, after, after.prev_duration_ms),
            )
            &&& unpacked(snowprint_at(settings, after, after.prev_duration_ms)) == (
                after.prev_duration_ms,
                (settings.logical_volume_base + after.logical_volume_id) as u64,
                after.sequence_id,
            )
            &&& before.prev_duration_ms <= after.prev_duration_ms
            &&& before.prev_duration_ms == after.prev_duration_ms ==> {
                &&& before.prev_logical_volume_id == after.prev_logical_volume_id
                &&& rotation_index(before, modulo) < rotation_index(after, modulo)
            }
        }),
{
    lemma_run_well_formed(settings, start, readings, index);
    lemma_run_well_formed(settings, start, readings, index + 1);
    let before = state_after(settings, start, readings, index);
    let after = state_after(settings, start, readings, index + 1);
    let duration_ms = guarded_duration_ms(readings[index as int], before.prev_duration_ms);
    assert(after == step(settings, before, duration_ms).1);
    lemma_step_moves_forward(settings, before, duration_ms);
    lemma_unpack_packed(
        after.prev_duration_ms,
        (settings.logical_volume_base + after.logical_volume_id) as u64,
        after.sequence_id,
    );
}

/// Sorted by time: of two identifiers that one generator minted, the later
/// one does not carry the earlier timestamp, whatever the clock read in
/// between, as long as its readings fit a timestamp.
pub proof fn lemma_timestamps_never_decrease(
    settings: Settings,
    start: SnowprintState,
    readings: Seq<Option<u64>>,
    earlier: nat,
    later: nat,
)
    requires
        settings.valid(),
        start.well_formed(settings.logical_volume_modulo),
        start.prev_duration_ms < MAX_TIMESTAMPS,
        readings_fit(readings),
        earlier < later < readings.len(),
        returned_at(settings, start, readings, earlier) is Ok,
        returned_at(settings, start, readings, later) is Ok,
    ensures
        timestamp_of(returned_at(settings, start, readings, earlier)->Ok_0) <= timestamp_of(
            returned_at(settings, start, readings, later)->Ok_0,
        ),
{
    lemma_returned_is_of_state(settings, start, readings, earlier);
    lemma_returned_is_of_state(settings, start, readings, later);
    lemma_run_ordered(settings, start, readings, earlier + 1, later);
}

/// Never twice: two identifiers that one generator minted at different
/// requests differ, whatever the clock read in between, as long as its
/// readings fit a timestamp.
pub proof fn lemma_never_minted_twice(
    settings: Settings,
    start: SnowprintState,
    readings: Seq<Option<u64>>,
    earlier: nat,
    later: nat,
)
    requires
        settings.valid(),
        start.well_formed(settings.logical_volume_modulo),
        start.prev_duration_ms < MAX_TIMESTAMPS,
        readings_fit(readings),
        earlier < later < readings.len(),
        returned_at(settings, start, readings, earlier) is Ok,
        returned_at(settings, start, readings, later) is Ok,
    ensures
        returned_at(settings, start, readings, earlier) != returned_at(
            settings,
            start,
            readings,
            later,
        ),
{
    lemma_returned_is_of_state(settings, start, readings, earlier);
    lemma_returned_is_of_state(settings, start, readings, later);
    lemma_run_ordered(settings, start, readings, earlier + 1, later);
    lemma_run_well_formed(settings, start, readings, earlier + 1);
    lemma_run_well_formed(settings, start, readings, later + 1);
    let first = state_after(settings, start, readings, earlier + 1);
    let second = state_after(settings, start, readings, later + 1);
    let modulo = settings.logical_volume_modulo;
    if first.prev_duration_ms == second.prev_duration_ms {
        assert(rotation_index(first, modulo) < rotation_index(second, modulo));
        assert(first.logical_volume_id != second.logical_volume_id || first.sequence_id
            != second.sequence_id);
    }
    assert(unpacked(snowprint_at(settings, first, first.prev_duration_ms)) != unpacked(
        snowprint_at(settings, second, second.prev_duration_ms),
    ));
}

} // verus!
