//! The generator: its settings, its state, and the step that advances the
//! state and mints one identifier.

use crate::clock::{elapsed_ms_since, guarded_duration_ms, most_recent_duration_ms};
use crate::codec::{
    compose_snowprint, packed, unpacked, MAX_LOGICAL_VOLUMES, MAX_SEQUENCES, MAX_TIMESTAMPS,
};
use std::time::SystemTime;
use vstd::prelude::*;

verus! {

/// Why a generator could not be made, or could not mint.
#[derive(Debug, PartialEq, Eq)]
pub enum Error {
    /// The settings name fewer than two logical volumes to rotate through.
    LogicalVolumeModuloIsZero,
    /// The settings' base and modulo together reach beyond the 8192 logical
    /// volumes that an identifier can name.
    ExceededAvailableLogicalVolumes,
    /// Every sequence of every logical volume has been used in the current
    /// millisecond.
    ExceededAvailableSequences,
}

/// What a generator is made with.
#[derive(Debug, PartialEq, Eq)]
pub struct Settings {
    /// The instant from which the identifiers' timestamps count.
    pub origin_system_time: SystemTime,
    /// How many logical volumes the generator rotates through.
    pub logical_volume_modulo: u64,
    /// The first of the generator's logical volumes.
    pub logical_volume_base: u64,
}

/// What a generator remembers from one identifier to the next.
#[derive(Debug, PartialEq, Eq)]
pub struct SnowprintState {
    /// The duration, in milliseconds since the origin, last minted with.
    pub prev_duration_ms: u64,
    /// The sequence last used in the current millisecond.
    pub sequence_id: u64,
    /// The logical volume in use, counted from the settings' base.
    pub logical_volume_id: u64,
    /// The logical volume that was in use when the current millisecond began.
    pub prev_logical_volume_id: u64,
}

/// One generator of identifiers: its settings, which never change, and its
/// state.
#[derive(Debug, PartialEq, Eq)]
pub struct Snowprint {
    settings: Settings,
    state: SnowprintState,
}

impl Clone for Error {
    fn clone(&self) -> (copy: Self)
        ensures
            copy == *self,
    {
        match self {
            Error::LogicalVolumeModuloIsZero => Error::LogicalVolumeModuloIsZero,
            Error::ExceededAvailableLogicalVolumes => Error::ExceededAvailableLogicalVolumes,
            Error::ExceededAvailableSequences => Error::ExceededAvailableSequences,
        }
    }
}

impl Clone for Settings {
    fn clone(&self) -> (copy: Self)
        ensures
            copy == *self,
    {
        Settings {
            origin_system_time: self.origin_system_time,
            logical_volume_modulo: self.logical_volume_modulo,
            logical_volume_base: self.logical_volume_base,
        }
    }
}

impl Clone for SnowprintState {
    fn clone(&self) -> (copy: Self)
        ensures
            copy == *self,
    {
        SnowprintState {
            prev_duration_ms: self.prev_duration_ms,
            sequence_id: self.sequence_id,
            logical_volume_id: self.logical_volume_id,
            prev_logical_volume_id: self.prev_logical_volume_id,
        }
    }
}

impl Clone for Snowprint {
    fn clone(&self) -> (copy: Self)
        ensures
            copy == *self,
    {
        proof {
            use_type_invariant(self);
        }
        Snowprint { settings: self.settings.clone(), state: self.state.clone() }
    }
}

impl Settings {
    /// The settings name at least two logical volumes, and all of them lie
    /// within the 8192 that an identifier can name.
    pub open spec fn valid(&self) -> bool {
        &&& self.logical_volume_modulo >= 2
        &&& self.logical_volume_base + self.logical_volume_modulo <= MAX_LOGICAL_VOLUMES
    }

    /// What is wrong with the settings, if anything: too few logical volumes
    /// first, then too many.
    pub open spec fn fault(&self) -> Option<Error> {
        if self.logical_volume_modulo < 2 {
            Some(Error::LogicalVolumeModuloIsZero)
        } else if self.logical_volume_base + self.logical_volume_modulo > MAX_LOGICAL_VOLUMES {
            Some(Error::ExceededAvailableLogicalVolumes)
        } else {
            None
        }
    }
}

impl SnowprintState {
    /// The sequence fits its 10 bits and the logical volume is one of the
    /// `logical_volume_modulo` that the generator rotates through.
    pub open spec fn fits(&self, logical_volume_modulo: u64) -> bool {
        &&& self.sequence_id < MAX_SEQUENCES
        &&& self.logical_volume_id < logical_volume_modulo
    }

    /// The state fits, and the logical volume on which the current
    /// millisecond began is one of the generator's too. Every state of a
    /// generator is so; the rotation then comes back to that logical volume,
    /// which is how the generator knows that it has used them all.
    pub open spec fn well_formed(&self, logical_volume_modulo: u64) -> bool {
        &&& self.fits(logical_volume_modulo)
        &&& self.prev_logical_volume_id < logical_volume_modulo
    }
}

/// The logical volume after `logical_volume_id` in the rotation.
pub open spec fn next_logical_volume_id(logical_volume_id: u64, logical_volume_modulo: u64) -> u64 {
    ((logical_volume_id + 1) % (logical_volume_modulo as int)) as u64
}

/// The state once time has advanced to `duration_ms`: the generator moves to
/// the next logical volume, remembers the one it left, and starts the
/// sequence anew.
pub open spec fn state_time_changed(
    state: SnowprintState,
    logical_volume_modulo: u64,
    duration_ms: u64,
) -> SnowprintState {
    SnowprintState {
        prev_duration_ms: duration_ms,
        sequence_id: 0,
        logical_volume_id: next_logical_volume_id(state.logical_volume_id, logical_volume_modulo),
        prev_logical_volume_id: state.logical_volume_id,
    }
}

/// Nothing is left to mint in the current millisecond: the sequence is at
/// its last value and the next logical volume is the one on which the
/// millisecond began.
pub open spec fn sequences_exhausted(state: SnowprintState, logical_volume_modulo: u64) -> bool {
    &&& state.sequence_id + 1 > MAX_SEQUENCES - 1
    &&& next_logical_volume_id(state.logical_volume_id, logical_volume_modulo)
        == state.prev_logical_volume_id
}

/// The state after one more identifier in the same millisecond, where the
/// sequences are not exhausted: the next sequence, or, past the last one,
/// the first sequence of the next logical volume.
pub open spec fn state_time_did_not_change(
    state: SnowprintState,
    logical_volume_modulo: u64,
) -> SnowprintState {
    if state.sequence_id + 1 > MAX_SEQUENCES - 1 {
        SnowprintState {
            sequence_id: 0,
            logical_volume_id: next_logical_volume_id(
                state.logical_volume_id,
                logical_volume_modulo,
            ),
            ..state
        }
    } else {
        SnowprintState { sequence_id: (state.sequence_id + 1) as u64, ..state }
    }
}

/// The identifier that `state` stands for at `duration_ms`: the duration,
/// the logical volume counted from the settings' base, and the sequence.
pub open spec fn snowprint_at(settings: Settings, state: SnowprintState, duration_ms: u64) -> u64 {
    packed(
        duration_ms,
        (settings.logical_volume_base + state.logical_volume_id) as u64,
        state.sequence_id,
    )
}

/// One step of a generator at `duration_ms`: what it returns, and the state
/// it is left in. A duration later than the last one begins a new
/// millisecond; any other continues the current one, and fails without a
/// change of state once the sequences are exhausted.
pub open spec fn step(settings: Settings, state: SnowprintState, duration_ms: u64) -> (
    Result<u64, Error>,
    SnowprintState,
) {
    if state.prev_duration_ms < duration_ms {
        let next = state_time_changed(state, settings.logical_volume_modulo, duration_ms);
        (Ok(snowprint_at(settings, next, duration_ms)), next)
    } else if sequences_exhausted(state, settings.logical_volume_modulo) {
        (Err(Error::ExceededAvailableSequences), state)
    } else {
        let next = state_time_did_not_change(state, settings.logical_volume_modulo);
        (Ok(snowprint_at(settings, next, duration_ms)), next)
    }
}

/// Validates the settings: they name at least two logical volumes, and base
/// and modulo together stay within the 8192 logical volumes of an
/// identifier.
pub fn check_settings(settings: &Settings) -> (r: Result<(), Error>)
    ensures
        r is Ok <==> settings.valid(),
        r matches Err(e) ==> settings.fault() == Some(e),
{
    if settings.logical_volume_modulo < 2 {
        return Err(Error::LogicalVolumeModuloIsZero);
    }
    if settings.logical_volume_base > MAX_LOGICAL_VOLUMES || settings.logical_volume_modulo
        > MAX_LOGICAL_VOLUMES - settings.logical_volume_base {
        return Err(Error::ExceededAvailableLogicalVolumes);
    }
    Ok(())
}

/// Advances the state to a new millisecond, `duration_ms`.
pub fn modify_state_time_changed(
    state: &mut SnowprintState,
    logical_volume_modulo: u64,
    duration_ms: u64,
)
    requires
        logical_volume_modulo > 0,
        old(state).logical_volume_id < u64::MAX,
    ensures
        *final(state) == state_time_changed(*old(state), logical_volume_modulo, duration_ms),
        final(state).fits(logical_volume_modulo),
        old(state).fits(logical_volume_modulo) ==> final(state).well_formed(logical_volume_modulo),
    no_unwind
{
    state.prev_duration_ms = duration_ms;
    state.sequence_id = 0;
    state.prev_logical_volume_id = state.logical_volume_id;
    state.logical_volume_id = (state.logical_volume_id + 1) % logical_volume_modulo;
}

/// Advances the state by one identifier within the current millisecond, or
/// fails, leaving the state as it was, where the sequences are exhausted.
pub fn modify_state_time_did_not_change(
    state: &mut SnowprintState,
    logical_volume_modulo: u64,
) -> (r: Result<(), Error>)
    requires
        logical_volume_modulo > 0,
        old(state).logical_volume_id < u64::MAX,
    ensures
        sequences_exhausted(*old(state), logical_volume_modulo) ==> r == Err::<(), Error>(
            Error::ExceededAvailableSequences,
        ) && *final(state) == *old(state),
        !sequences_exhausted(*old(state), logical_volume_modulo) ==> r == Ok::<(), Error>(())
            && *final(state) == state_time_did_not_change(*old(state), logical_volume_modulo),
        old(state).fits(logical_volume_modulo) ==> final(state).fits(logical_volume_modulo),
        old(state).well_formed(logical_volume_modulo) ==> final(state).well_formed(
            logical_volume_modulo,
        ),
    no_unwind
{
    if state.sequence_id >= MAX_SEQUENCES - 1 {
        let next_logical_volume_id = (state.logical_volume_id + 1) % logical_volume_modulo;
        if next_logical_volume_id == state.prev_logical_volume_id {
            return Err(Error::ExceededAvailableSequences);
        }
        state.sequence_id = 0;
        state.logical_volume_id = next_logical_volume_id;
    } else {
        state.sequence_id += 1;
    }
    Ok(())
}

/// Advances the state to `duration_ms` and mints the identifier of the new
/// state, or fails, leaving the state as it was, where the sequences of the
/// current millisecond are exhausted.
///
/// While `duration_ms` fits the 41 bits of a timestamp, the identifier
/// unpacks to the duration, the logical volume counted from the settings'
/// base, and the sequence of the new state.
pub fn compose_snowprint_from_settings_and_state(
    settings: &Settings,
    state: &mut SnowprintState,
    duration_ms: u64,
) -> (r: Result<u64, Error>)
    requires
        settings.valid(),
        old(state).fits(settings.logical_volume_modulo),
    ensures
        (r, *final(state)) == step(*settings, *old(state), duration_ms),
        final(state).fits(settings.logical_volume_modulo),
        old(state).well_formed(settings.logical_volume_modulo) ==> final(state).well_formed(
            settings.logical_volume_modulo,
        ),
        duration_ms < MAX_TIMESTAMPS ==> (r matches Ok(snowprint) ==> unpacked(snowprint) == (
            duration_ms,
            (settings.logical_volume_base + final(state).logical_volume_id) as u64,
            final(state).sequence_id,
        )),
    no_unwind
{
    if state.prev_duration_ms < duration_ms {
        modify_state_time_changed(state, settings.logical_volume_modulo, duration_ms);
    } else {
        if let Err(err) = modify_state_time_did_not_change(state, settings.logical_volume_modulo) {
            return Err(err);
        }
    }
    Ok(
        compose_snowprint(
            duration_ms,
            settings.logical_volume_base + state.logical_volume_id,
            state.sequence_id,
        ),
    )
}

impl Snowprint {
    /// The settings that the generator was made with.
    pub closed spec fn settings(&self) -> Settings {
        self.settings
    }

    /// The state that the generator is in.
    pub closed spec fn state(&self) -> SnowprintState {
        self.state
    }

    /// What holds of every generator: its settings are valid and its state
    /// is well formed for them.
    #[verifier::type_invariant]
    pub open spec fn well_formed(&self) -> bool {
        &&& self.settings().valid()
        &&& self.state().well_formed(self.settings().logical_volume_modulo)
    }

    /// Makes a generator with the given settings, or says what is wrong with
    /// them. The generator starts on the first sequence of the first logical
    /// volume, at the time that the system clock reads, counted in
    /// milliseconds since the settings' origin; where the clock reads a time
    /// before the origin, at zero.
    pub fn new(settings: Settings) -> (r: Result<Snowprint, Error>)
        ensures
            r is Ok <==> settings.valid(),
            r matches Err(e) ==> settings.fault() == Some(e),
            r matches Ok(snowprint) ==> {
                &&& snowprint.well_formed()
                &&& snowprint.settings() == settings
                &&& snowprint.state().sequence_id == 0
                &&& snowprint.state().logical_volume_id == 0
                &&& snowprint.state().prev_logical_volume_id == 0
            },
    {
        if let Err(err) = check_settings(&settings) {
            return Err(err);
        }
        let elapsed_ms = elapsed_ms_since(settings.origin_system_time);
        Ok(Snowprint::started(settings, elapsed_ms))
    }

    /// Makes a generator as [`Snowprint::new`] does, with `elapsed_ms` in
    /// place of a reading of the system clock: the milliseconds since the
    /// settings' origin, or `None` for a clock that gave no reading.
    pub fn new_at(settings: Settings, elapsed_ms: Option<u64>) -> (r: Result<Snowprint, Error>)
        ensures
            r is Ok <==> settings.valid(),
            r matches Err(e) ==> settings.fault() == Some(e),
            r matches Ok(snowprint) ==> {
                &&& snowprint.well_formed()
                &&& snowprint.settings() == settings
                &&& snowprint.state() == (SnowprintState {
                    prev_duration_ms: guarded_duration_ms(elapsed_ms, 0),
                    sequence_id: 0,
                    logical_volume_id: 0,
                    prev_logical_volume_id: 0,
                })
            },
    {
        if let Err(err) = check_settings(&settings) {
            return Err(err);
        }
        Ok(Snowprint::started(settings, elapsed_ms))
    }

    /// The generator of valid settings before its first identifier.
    fn started(settings: Settings, elapsed_ms: Option<u64>) -> (snowprint: Snowprint)
        requires
            settings.valid(),
        ensures
            snowprint.settings() == settings,
            snowprint.state() == (SnowprintState {
                prev_duration_ms: guarded_duration_ms(elapsed_ms, 0),
                sequence_id: 0,
                logical_volume_id: 0,
                prev_logical_volume_id: 0,
            }),
    {
        Snowprint {
            settings,
            state: SnowprintState {
                prev_duration_ms: most_recent_duration_ms(elapsed_ms, 0),
                sequence_id: 0,
                logical_volume_id: 0,
                prev_logical_volume_id: 0,
            },
        }
    }

    /// Mints the next identifier at the time that the system clock reads,
    /// or fails, leaving the generator as it was, where the sequences of the
    /// current millisecond are exhausted.
    ///
    /// The duration minted with is the one that the state holds afterwards.
    /// It is never below the one before: a clock that stood still, failed or
    /// ran backwards continues the current millisecond.
    pub fn get_snowprint(&mut self) -> (r: Result<u64, Error>)
        ensures
            final(self).well_formed(),
            final(self).settings() == old(self).settings(),
            final(self).state().prev_duration_ms >= old(self).state().prev_duration_ms,
            (r, final(self).state()) == step(
                old(self).settings(),
                old(self).state(),
                final(self).state().prev_duration_ms,
            ),
    {
        let elapsed_ms = elapsed_ms_since(self.settings.origin_system_time);
        self.get_snowprint_at(elapsed_ms)
    }

    /// Mints the next identifier as [`Snowprint::get_snowprint`] does, with
    /// `elapsed_ms` in place of a reading of the system clock: the
    /// milliseconds since the settings' origin, or `None` for a clock that
    /// gave no reading.
    pub fn get_snowprint_at(&mut self, elapsed_ms: Option<u64>) -> (r: Result<u64, Error>)
        ensures
            final(self).well_formed(),
            final(self).settings() == old(self).settings(),
            (r, final(self).state()) == step(
                old(self).settings(),
                old(self).state(),
                guarded_duration_ms(elapsed_ms, old(self).state().prev_duration_ms),
            ),
            final(self).state().prev_duration_ms == guarded_duration_ms(
                elapsed_ms,
                old(self).state().prev_duration_ms,
            ),
    {
        proof {
            use_type_invariant(&*self);
        }
        let duration_ms = most_recent_duration_ms(elapsed_ms, self.state.prev_duration_ms);
        compose_snowprint_from_settings_and_state(&self.settings, &mut self.state, duration_ms)
    }

    /// The settings that the generator was made with.
    pub fn get_settings(&self) -> (settings: &Settings)
        ensures
            *settings == self.settings(),
            settings.valid(),
    {
        proof {
            use_type_invariant(self);
        }
        &self.settings
    }

    /// The state that the generator is in.
    pub fn get_state(&self) -> (state: &SnowprintState)
        ensures
            *state == self.state(),
            state.well_formed(self.settings().logical_volume_modulo),
    {
        proof {
            use_type_invariant(self);
        }
        &self.state
    }
}

} // verus!
