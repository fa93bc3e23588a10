//! The state that the commands and the render loop share: the host
//! rectangle, the session flag and the camera that is installed, each behind
//! a guard that lets in one party at a time.

use vstd::prelude::*;
use crate::geometry::Rect;

verus! {

/// A guard: free, held by some party, or left poisoned by a holder that
/// failed while it held it.
#[derive(Clone, Copy, Debug, PartialEq, Eq, Structural)]
pub enum LockState {
    Free,
    Held,
    Poisoned,
}

/// Why a guarded value could not be reached.
#[derive(Clone, Copy, Debug, PartialEq, Eq, Structural)]
pub enum LockError {
    /// Another party holds the guard; only an attempt that does not wait
    /// reports this.
    Busy,
    /// An earlier holder failed while it held the guard.
    Poisoned,
}

impl LockState {
    /// What an attempt that does not wait meets.
    pub open spec fn probe(self) -> Result<(), LockError> {
        match self {
            LockState::Free => Ok(()),
            LockState::Held => Err(LockError::Busy),
            LockState::Poisoned => Err(LockError::Poisoned),
        }
    }

    /// The guard after an attempt to take it: held where it was free.
    pub open spec fn taken(self) -> LockState {
        match self {
            LockState::Free => LockState::Held,
            other => other,
        }
    }

    /// The guard after its holder let go: free where it was held.
    pub open spec fn given_back(self) -> LockState {
        match self {
            LockState::Held => LockState::Free,
            other => other,
        }
    }

    /// Looks at the guard without waiting and without taking it.
    pub fn check(&self) -> (r: Result<(), LockError>)
        ensures
            r == self.probe(),
    {
        match self {
            LockState::Free => Ok(()),
            LockState::Held => Err(LockError::Busy),
            LockState::Poisoned => Err(LockError::Poisoned),
        }
    }

    /// Takes the guard without waiting: it is held afterwards exactly
    /// where it was free, and stays as it was otherwise.
    pub fn try_acquire(&mut self) -> (r: Result<(), LockError>)
        ensures
            r == old(self).probe(),
            *final(self) == old(self).taken(),
    {
        match *self {
            LockState::Free => {
                *self = LockState::Held;
                Ok(())
            },
            LockState::Held => Err(LockError::Busy),
            LockState::Poisoned => Err(LockError::Poisoned),
        }
    }

    /// Lets go of the guard.
    pub fn release(&mut self)
        ensures
            *final(self) == old(self).given_back(),
    {
        match *self {
            LockState::Held => {
                *self = LockState::Free;
            },
            _ => {},
        }
    }

    /// Records that the holder failed: the guard stays poisoned for good.
    pub fn poison(&mut self)
        ensures
            *final(self) == LockState::Poisoned,
    {
        *self = LockState::Poisoned;
    }
}

/// The host rectangle behind its guard.
#[derive(Clone, Copy, Debug, PartialEq, Eq, Structural)]
pub struct PositionState {
    pub rect: Rect,
    pub lock: LockState,
}

impl PositionState {
    /// The state before any update: the zero rectangle, free.
    pub fn new() -> (s: PositionState)
        ensures
            s.lock == LockState::Free,
            s.rect == (Rect { x: 0, y: 0, width: 0, height: 0 }),
    {
        PositionState { rect: Rect::zero(), lock: LockState::Free }
    }

    /// What a reader that does not wait gets: the rectangle where the
    /// guard is free, the reason where it is not.
    pub open spec fn read(self) -> Result<(isize, isize, usize, usize), LockError> {
        match self.lock.probe() {
            Ok(()) => Ok((self.rect.x, self.rect.y, self.rect.width, self.rect.height)),
            Err(e) => Err(e),
        }
    }

    /// The state after a writer that waited its turn: the new rectangle,
    /// unless the guard is poisoned.
    pub open spec fn written(self, rect: Rect) -> PositionState {
        if self.lock == LockState::Poisoned {
            self
        } else {
            PositionState { rect, lock: self.lock }
        }
    }
}

/// Overwrites the host rectangle. The writer waits for the guard, so it is
/// called when no other party holds it; it fails only on a poisoned guard,
/// and then changes nothing.
pub fn set_camera_window_rect(
    state: &mut PositionState,
    x: isize,
    y: isize,
    width: usize,
    height: usize,
) -> (r: Result<(), LockError>)
    requires
        old(state).lock != LockState::Held,
    ensures
        *final(state) == old(state).written(Rect { x, y, width, height }),
        old(state).lock == LockState::Poisoned <==> r == Err::<(), LockError>(LockError::Poisoned),
        old(state).lock == LockState::Free <==> r is Ok,
{
    match state.lock {
        LockState::Poisoned => Err(LockError::Poisoned),
        _ => {
            state.rect = Rect { x, y, width, height };
            Ok(())
        },
    }
}

/// Reads the host rectangle without waiting: busy where another party
/// holds the guard.
pub fn get_camera_window_rect(state: &PositionState) -> (r: Result<
    (isize, isize, usize, usize),
    LockError,
>)
    ensures
        r == state.read(),
{
    match state.lock.check() {
        Ok(()) => Ok((state.rect.x, state.rect.y, state.rect.width, state.rect.height)),
        Err(e) => Err(e),
    }
}

/// The session flag and the installed camera, each behind its own guard.
/// The camera is known by its index.
#[derive(Clone, Copy, Debug, PartialEq, Eq, Structural)]
pub struct SessionState {
    pub active: bool,
    pub active_lock: LockState,
    pub device: Option<u32>,
    pub device_lock: LockState,
}

/// Why the camera could not be used.
#[derive(Clone, Copy, Debug, PartialEq, Eq, Structural)]
pub enum SessionError {
    /// The guard could not be passed.
    Lock(LockError),
    /// No camera is installed.
    NotOpen,
}

impl SessionState {
    /// The state before any session: inactive, no camera, both guards free.
    pub open spec fn initial() -> SessionState {
        SessionState {
            active: false,
            active_lock: LockState::Free,
            device: None,
            device_lock: LockState::Free,
        }
    }

    /// The state with the flag set to `flag`, unless its guard is poisoned.
    pub open spec fn flagged(self, flag: bool) -> SessionState {
        if self.active_lock == LockState::Poisoned {
            self
        } else {
            SessionState { active: flag, ..self }
        }
    }

    /// The state with the camera slot set to `device`, unless its guard is
    /// poisoned.
    pub open spec fn equipped(self, device: Option<u32>) -> SessionState {
        if self.device_lock == LockState::Poisoned {
            self
        } else {
            SessionState { device, ..self }
        }
    }

    /// What a reader of the flag that does not wait gets.
    pub open spec fn flag_read(self) -> Result<bool, LockError> {
        match self.active_lock.probe() {
            Ok(()) => Ok(self.active),
            Err(e) => Err(e),
        }
    }

    /// What a party that asks for the camera gets once it is past the
    /// guard: the camera's index, or that none is installed.
    pub open spec fn camera(self) -> Result<u32, SessionError> {
        match self.device_lock.probe() {
            Err(e) => Err(SessionError::Lock(e)),
            Ok(()) => match self.device {
                Some(d) => Ok(d),
                None => Err(SessionError::NotOpen),
            },
        }
    }

    /// The state with the camera's guard taken, where a camera was handed
    /// out.
    pub open spec fn lent(self) -> SessionState {
        if self.camera() is Ok {
            SessionState { device_lock: LockState::Held, ..self }
        } else {
            self
        }
    }

    /// The state after the loop has ended: inactive, and no camera.
    pub open spec fn ended(self) -> SessionState {
        self.flagged(false).equipped(None)
    }

    /// The state before any session.
    pub fn new() -> (s: SessionState)
        ensures
            s == SessionState::initial(),
    {
        SessionState {
            active: false,
            active_lock: LockState::Free,
            device: None,
            device_lock: LockState::Free,
        }
    }

    /// Marks the session active. Fails only on a poisoned guard.
    pub fn open(&mut self) -> (r: Result<(), LockError>)
        requires
            old(self).active_lock != LockState::Held,
        ensures
            *final(self) == old(self).flagged(true),
            old(self).active_lock == LockState::Poisoned <==> r == Err::<(), LockError>(
                LockError::Poisoned,
            ),
            old(self).active_lock == LockState::Free <==> r is Ok,
    {
        self.set_active(true)
    }

    /// Asks the loop to end. Fails only on a poisoned guard.
    pub fn close(&mut self) -> (r: Result<(), LockError>)
        requires
            old(self).active_lock != LockState::Held,
        ensures
            *final(self) == old(self).flagged(false),
            old(self).active_lock == LockState::Poisoned <==> r == Err::<(), LockError>(
                LockError::Poisoned,
            ),
            old(self).active_lock == LockState::Free <==> r is Ok,
    {
        self.set_active(false)
    }

    fn set_active(&mut self, flag: bool) -> (r: Result<(), LockError>)
        requires
            old(self).active_lock != LockState::Held,
        ensures
            *final(self) == old(self).flagged(flag),
            old(self).active_lock == LockState::Poisoned <==> r == Err::<(), LockError>(
                LockError::Poisoned,
            ),
            old(self).active_lock == LockState::Free <==> r is Ok,
    {
        match self.active_lock {
            LockState::Poisoned => Err(LockError::Poisoned),
            _ => {
                self.active = flag;
                Ok(())
            },
        }
    }

    /// Reads the flag without waiting. A guard that is busy or poisoned
    /// gives an error, which is no sign that the session was closed.
    pub fn try_is_active(&self) -> (r: Result<bool, LockError>)
        ensures
            r == self.flag_read(),
    {
        match self.active_lock.check() {
            Ok(()) => Ok(self.active),
            Err(e) => Err(e),
        }
    }

    /// Installs a camera in place of any earlier one.
    pub fn install(&mut self, device: u32) -> (r: Result<(), LockError>)
        requires
            old(self).device_lock != LockState::Held,
        ensures
            *final(self) == old(self).equipped(Some(device)),
            old(self).device_lock == LockState::Poisoned <==> r == Err::<(), LockError>(
                LockError::Poisoned,
            ),
            old(self).device_lock == LockState::Free <==> r is Ok,
    {
        match self.device_lock {
            LockState::Poisoned => Err(LockError::Poisoned),
            _ => {
                self.device = Some(device);
                Ok(())
            },
        }
    }

    /// Removes the camera.
    pub fn clear(&mut self) -> (r: Result<(), LockError>)
        requires
            old(self).device_lock != LockState::Held,
        ensures
            *final(self) == old(self).equipped(None),
            old(self).device_lock == LockState::Poisoned <==> r == Err::<(), LockError>(
                LockError::Poisoned,
            ),
            old(self).device_lock == LockState::Free <==> r is Ok,
    {
        match self.device_lock {
            LockState::Poisoned => Err(LockError::Poisoned),
            _ => {
                self.device = None;
                Ok(())
            },
        }
    }

    /// Hands out the camera for one frame to a party that waited for the
    /// guard, and keeps the guard held until `release_device`. Without a
    /// camera it fails, and the guard stays free.
    pub fn take_frame(&mut self) -> (r: Result<u32, SessionError>)
        requires
            old(self).device_lock != LockState::Held,
        ensures
            r == old(self).camera(),
            *final(self) == old(self).lent(),
    {
        self.try_take_frame()
    }

    /// Hands out the camera for one frame without waiting for the guard.
    pub fn try_take_frame(&mut self) -> (r: Result<u32, SessionError>)
        ensures
            r == old(self).camera(),
            *final(self) == old(self).lent(),
    {
        match self.device_lock.check() {
            Err(e) => Err(SessionError::Lock(e)),
            Ok(()) => match self.device {
                Some(d) => {
                    self.device_lock = LockState::Held;
                    Ok(d)
                },
                None => Err(SessionError::NotOpen),
            },
        }
    }

    /// Gives the camera's guard back after a frame.
    pub fn release_device(&mut self)
        ensures
            *final(self) == (SessionState {
                device_lock: old(self).device_lock.given_back(),
                ..*old(self)
            }),
    {
        self.device_lock.release();
    }

    /// Ends the session, however the loop ended: the flag is cleared and
    /// the camera removed. Doing so twice changes nothing more.
    pub fn finish(&mut self)
        requires
            old(self).active_lock != LockState::Held,
            old(self).device_lock != LockState::Held,
        ensures
            *final(self) == old(self).ended(),
    {
        let _ = self.set_active(false);
        let _ = self.clear();
    }
}

} // verus!
