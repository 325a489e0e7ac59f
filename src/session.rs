use vstd::prelude::*;
use crate::error::StartError;

verus! {

/// Settling time after the field is switched on, before any transmission, in ms.
pub const GUARD_TIME_MS: u32 = 5;

/// Spacing waited before every exchange, in ms.
pub const FRAME_SPACING_MS: u32 = 1;

/// Failure of switching the RF field on.
#[derive(Debug, Clone, Copy, PartialEq, Eq, Structural)]
pub enum FieldOnError {
    /// Another field is already present.
    FieldCollision,
}

/// A chip held in ISO14443A mode with its field on.
///
/// The holder of the chip owns this record for as long as the field is on; its
/// release tells the holder, exactly once, to switch the field and mode off.
#[derive(Debug)]
pub struct Iso14443a {
    active: bool,
}

/// What `start` decided after the field-on attempt.
#[derive(Debug)]
pub struct StartPlan {
    /// The session, or why there is none.
    pub result: Result<Iso14443a, StartError>,
    /// The mode switch must be reverted.
    pub mode_off: bool,
    /// Delay to hold before the session is handed out, in ms.
    pub guard_ms: u32,
}

impl Iso14443a {
    /// The field and mode are still on and owed a switch-off.
    pub closed spec fn is_active(&self) -> bool {
        self.active
    }

    /// Decides the start of a session, once the chip was switched to ISO14443A
    /// mode and the field-on attempt reported `field_on`. A field collision
    /// reverts the mode and fails; otherwise the guard time is held and an
    /// active session is handed out.
    pub fn start_iso14443a(field_on: Result<(), FieldOnError>) -> (r: StartPlan)
        ensures
            field_on is Err <==> r.result is Err,
            field_on is Err ==> r.result == Err::<Iso14443a, StartError>(StartError::FieldCollision)
                && r.mode_off && r.guard_ms == 0,
            field_on is Ok ==> r.result is Ok && r.result->Ok_0.is_active() && !r.mode_off
                && r.guard_ms == GUARD_TIME_MS,
    {
        match field_on {
            Ok(()) => StartPlan {
                result: Ok(Iso14443a { active: true }),
                mode_off: false,
                guard_ms: GUARD_TIME_MS,
            },
            Err(FieldOnError::FieldCollision) => StartPlan {
                result: Err(StartError::FieldCollision),
                mode_off: true,
                guard_ms: 0,
            },
        }
    }

    /// The session once released.
    pub closed spec fn released(&self) -> Iso14443a {
        Iso14443a { active: false }
    }

    /// Whether the session is still active.
    pub fn active(&self) -> (r: bool)
        ensures
            r == self.is_active(),
    {
        self.active
    }

    /// Releases the session. Returns whether the field and mode must now be
    /// switched off: true on the first release only.
    pub fn release(&mut self) -> (turn_off: bool)
        ensures
            turn_off == old(self).is_active(),
            *final(self) == old(self).released(),
            !final(self).is_active(),
    {
        let turn_off = self.active;
        self.active = false;
        turn_off
    }
}

/// Releasing an active session asks for the field to be switched off on the
/// first release and never again, however often it is released.
pub proof fn release_switches_off_once(s: Iso14443a)
    requires
        s.is_active(),
    ensures
        s.is_active(),
        !s.released().is_active(),
        s.released().released() == s.released(),
{
}

} // verus!
