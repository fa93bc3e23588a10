//! The render loop's own state and its decisions: when the overlay follows
//! the host rectangle, when the loop ends, and what a frame leaves in the
//! frame buffer.

use vstd::prelude::*;
use crate::geometry::{Geometry, Rect};
use crate::pixel::{packed, repack, repacked_at};
use crate::resample::{resample, resizable, ResizeError};
use crate::shared::{
    get_camera_window_rect,
    LockError,
    LockState,
    PositionState,
    SessionError,
    SessionState,
};

verus! {

/// Why the overlay could not be set up or drawn.
#[derive(Clone, Copy, Debug, PartialEq, Eq, Structural)]
pub enum OverlayError {
    /// The geometry has a zero side: the host rectangle is not known yet.
    Empty,
    /// The geometry has more pixels than a buffer can hold.
    TooLarge,
    /// The frame could not be resampled.
    Resize(ResizeError),
}

/// Why the loop could not start.
#[derive(Clone, Copy, Debug, PartialEq, Eq, Structural)]
pub enum StartError {
    /// A guard could not be passed: the camera's, or the position's.
    Lock(LockError),
    /// The first geometry gives no window.
    Overlay(OverlayError),
}

/// Why the loop ends.
#[derive(Clone, Copy, Debug, PartialEq, Eq, Structural)]
pub enum StopReason {
    WindowClosed,
    EscapePressed,
    SessionClosed,
    DeviceGone,
    TooLarge,
}

/// What the loop does next in a tick.
#[derive(Clone, Copy, Debug, PartialEq, Eq, Structural)]
pub enum Step {
    /// Leave the loop.
    Stop(StopReason),
    /// Show the buffer as it is: the camera could not be reached.
    Blit,
    /// Pull a frame from this camera, render it, then show the buffer.
    Pull(u32),
}

/// The outcome of a tick: where to move the window, if anywhere, and what
/// to do next.
#[derive(Clone, Copy, Debug, PartialEq, Eq, Structural)]
pub struct Tick {
    pub moved: Option<Geometry>,
    pub step: Step,
}

/// The state of the render loop: the host rectangle last seen, the
/// geometry in force and the frame buffer.
#[derive(Debug)]
pub struct Overlay {
    pub seen: Rect,
    pub geometry: Geometry,
    pub buffer: Vec<u32>,
}

/// A buffer of `n` black pixels.
pub open spec fn blank(n: int) -> Seq<u32> {
    Seq::new(n as nat, |i: int| 0u32)
}

/// What the session tells the loop: to stop where the flag could be read
/// and is off; else to pull from the camera where it could be reached, to
/// stop where none is installed, and to show the old frame where the
/// camera's guard could not be passed.
pub open spec fn session_step(session: SessionState) -> Step {
    if session.flag_read() == Ok::<bool, LockError>(false) {
        Step::Stop(StopReason::SessionClosed)
    } else {
        match session.camera() {
            Ok(d) => Step::Pull(d),
            Err(SessionError::NotOpen) => Step::Stop(StopReason::DeviceGone),
            Err(SessionError::Lock(_)) => Step::Blit,
        }
    }
}

/// The session after the loop has asked it: the camera is lent where the
/// loop pulls a frame.
pub open spec fn session_after(session: SessionState) -> SessionState {
    if session.flag_read() == Ok::<bool, LockError>(false) {
        session
    } else {
        session.lent()
    }
}

/// Asks the session what to do next, without waiting for either guard.
pub fn next_step(session: &mut SessionState) -> (step: Step)
    ensures
        step == session_step(*old(session)),
        *final(session) == session_after(*old(session)),
{
    match session.try_is_active() {
        Ok(false) => {
            return Step::Stop(StopReason::SessionClosed);
        },
        _ => {},
    }
    match session.try_take_frame() {
        Ok(d) => Step::Pull(d),
        Err(SessionError::NotOpen) => Step::Stop(StopReason::DeviceGone),
        Err(SessionError::Lock(_)) => Step::Blit,
    }
}

/// What the start of the loop comes to: the first geometry, or the reason
/// why there is none. The camera's guard is passed first, then the position
/// is read without waiting, then the geometry derived for it is looked at.
pub open spec fn start_outcome(
    session: SessionState,
    position: PositionState,
    derived: Geometry,
) -> Result<Geometry, StartError> {
    if session.device_lock == LockState::Poisoned {
        Err(StartError::Lock(LockError::Poisoned))
    } else {
        match position.lock.probe() {
            Err(e) => Err(StartError::Lock(e)),
            Ok(()) => {
                if !derived.visible() {
                    Err(StartError::Overlay(OverlayError::Empty))
                } else if derived.area() > usize::MAX {
                    Err(StartError::Overlay(OverlayError::TooLarge))
                } else {
                    Ok(derived)
                }
            },
        }
    }
}

/// Starts the loop for a camera that was opened: installs the camera in the
/// session, reads the host rectangle and sets up the overlay for it.
/// `derived` is the geometry derived for the rectangle in `position`. The
/// camera stays installed where the rest fails.
pub fn start_camera(
    session: &mut SessionState,
    position: &PositionState,
    camera_index: u32,
    derived: Geometry,
) -> (r: Result<Overlay, StartError>)
    requires
        old(session).device_lock != LockState::Held,
    ensures
        *final(session) == old(session).equipped(Some(camera_index)),
        match r {
            Ok(o) => {
                &&& start_outcome(*old(session), *position, derived) == Ok::<
                    Geometry,
                    StartError,
                >(o.geometry)
                &&& o.wf()
                &&& o.seen == position.rect
                &&& o.buffer@ == blank(o.geometry.area())
            },
            Err(e) => start_outcome(*old(session), *position, derived) == Err::<
                Geometry,
                StartError,
            >(e),
        },
{
    match session.install(camera_index) {
        Err(e) => {
            return Err(StartError::Lock(e));
        },
        Ok(()) => {},
    }
    let rect = match get_camera_window_rect(position) {
        Ok((x, y, width, height)) => Rect { x, y, width, height },
        Err(e) => {
            return Err(StartError::Lock(e));
        },
    };
    match Overlay::create(rect, derived) {
        Ok(o) => Ok(o),
        Err(e) => Err(StartError::Overlay(e)),
    }
}

/// What follows a start that failed, given what a look at the session's
/// flag gave.
#[derive(Clone, Copy, Debug, PartialEq, Eq, Structural)]
pub enum Restart {
    /// Wait a tick and start again.
    Retry,
    /// Leave: the session was closed before there was a window.
    Stop,
    /// Give up with this error.
    Fail(StartError),
}

/// The way on after a failed start: a rectangle that gives no window yet
/// and a busy position are waited out, unless the flag could be read and is
/// off; any other failure ends the session.
pub open spec fn restart_of(error: StartError, flag: Result<bool, LockError>) -> Restart {
    if error == StartError::Overlay(OverlayError::Empty) || error == StartError::Lock(
        LockError::Busy,
    ) {
        if flag == Ok::<bool, LockError>(false) {
            Restart::Stop
        } else {
            Restart::Retry
        }
    } else {
        Restart::Fail(error)
    }
}

/// Decides what follows a failed start.
pub fn after_failed_start(error: StartError, flag: Result<bool, LockError>) -> (next: Restart)
    ensures
        next == restart_of(error, flag),
{
    match error {
        StartError::Overlay(OverlayError::Empty) | StartError::Lock(LockError::Busy) => {
            match flag {
                Ok(false) => Restart::Stop,
                _ => Restart::Retry,
            }
        },
        _ => Restart::Fail(error),
    }
}

/// A zeroed buffer for `width` by `height` pixels, where so many fit.
fn blank_buffer(width: usize, height: usize) -> (b: Option<Vec<u32>>)
    ensures
        b is Some <==> width * height <= usize::MAX,
        b matches Some(v) ==> v@ == blank(width * height),
{
    match width.checked_mul(height) {
        None => None,
        Some(n) => {
            let v: Vec<u32> = vec![0u32; n];
            assert(v@ =~= blank(width * height));
            Some(v)
        },
    }
}

impl Overlay {
    /// The overlay has a window that can exist, and one buffer place for
    /// each of its pixels.
    pub open spec fn wf(self) -> bool {
        &&& self.geometry.visible()
        &&& self.buffer@.len() == self.geometry.area()
    }

    /// The rectangle that the loop newly sees: the one read, where the
    /// read did not fail and it differs from the one last seen.
    pub open spec fn change(self, position: PositionState) -> Option<Rect> {
        if position.read() is Ok && position.rect != self.seen {
            Some(position.rect)
        } else {
            None
        }
    }

    /// The geometry that a newly seen rectangle asks for: the one derived
    /// for it, where neither of its sides is zero.
    pub open spec fn candidate(self, position: PositionState, derived: Geometry) -> Option<
        Geometry,
    > {
        if self.change(position) is Some && derived.visible() {
            Some(derived)
        } else {
            None
        }
    }

    /// Whether the loop takes on a new geometry.
    pub open spec fn commits(self, position: PositionState, derived: Geometry) -> bool {
        self.candidate(position, derived) is Some && derived.area() <= usize::MAX
    }

    /// Whether the geometry asked for is beyond what a buffer can hold.
    pub open spec fn overflows(self, position: PositionState, derived: Geometry) -> bool {
        self.candidate(position, derived) is Some && derived.area() > usize::MAX
    }

    /// What the window is told after the loop has looked at the position.
    pub open spec fn observation(self, position: PositionState, derived: Geometry) -> Result<
        Option<Geometry>,
        OverlayError,
    > {
        if self.overflows(position, derived) {
            Err(OverlayError::TooLarge)
        } else if self.commits(position, derived) {
            Ok(Some(derived))
        } else {
            Ok(None)
        }
    }

    /// Whether `self` is the state that follows `before` once the loop has
    /// looked at the position: the rectangle seen is the new one; geometry
    /// and buffer are replaced where the loop commits, the buffer by a
    /// blank one, and are untouched where it does not.
    pub open spec fn follows(self, before: Overlay, position: PositionState, derived: Geometry) -> bool {
        &&& self.seen == match before.change(position) {
            Some(rect) => rect,
            None => before.seen,
        }
        &&& self.geometry == if before.commits(position, derived) {
            derived
        } else {
            before.geometry
        }
        &&& self.buffer@ == if before.commits(position, derived) {
            blank(derived.area())
        } else {
            before.buffer@
        }
    }

    /// Whether nothing differs between `self` and `before`.
    pub open spec fn same_as(self, before: Overlay) -> bool {
        &&& self.seen == before.seen
        &&& self.geometry == before.geometry
        &&& self.buffer@ == before.buffer@
    }

    /// Whether the overlay is well formed.
    pub fn is_sound(&self) -> (ok: bool)
        ensures
            ok == self.wf(),
    {
        if self.geometry.width == 0 || self.geometry.height == 0 {
            return false;
        }
        let len: usize = self.buffer.len();
        match self.geometry.width.checked_mul(self.geometry.height) {
            Some(n) => n == len,
            None => false,
        }
    }

    /// Sets up the loop's state for the first host rectangle and the
    /// geometry derived for it. A window is never made with a zero side:
    /// such a geometry is refused as empty, and the caller waits for
    /// another rectangle.
    pub fn create(rect: Rect, derived: Geometry) -> (r: Result<Overlay, OverlayError>)
        ensures
            !derived.visible() <==> r matches Err(OverlayError::Empty),
            derived.visible() && derived.area() > usize::MAX <==> r matches Err(
                OverlayError::TooLarge,
            ),
            r is Ok <==> derived.visible() && derived.area() <= usize::MAX,
            r matches Ok(o) ==> o.wf() && o.seen == rect && o.geometry == derived && o.buffer@
                == blank(derived.area()),
    {
        if derived.width == 0 || derived.height == 0 {
            return Err(OverlayError::Empty);
        }
        match blank_buffer(derived.width, derived.height) {
            None => Err(OverlayError::TooLarge),
            Some(buffer) => Ok(Overlay { seen: rect, geometry: derived, buffer }),
        }
    }

    /// Looks at the host rectangle without waiting. `derived` is the
    /// geometry derived for the rectangle in `position`. Where the
    /// rectangle could be read and differs from the one last seen, the
    /// derived geometry is taken on, with a blank buffer, where neither of
    /// its sides is zero. The result is the geometry to move the window to,
    /// if any.
    pub fn observe(&mut self, position: &PositionState, derived: Geometry) -> (r: Result<
        Option<Geometry>,
        OverlayError,
    >)
        requires
            old(self).wf(),
        ensures
            final(self).wf(),
            final(self).follows(*old(self), *position, derived),
            r == old(self).observation(*position, derived),
    {
        let rect = match get_camera_window_rect(position) {
            Ok((x, y, width, height)) => Rect { x, y, width, height },
            Err(_) => {
                return Ok(None);
            },
        };
        if rect.x == self.seen.x && rect.y == self.seen.y && rect.width == self.seen.width
            && rect.height == self.seen.height {
            return Ok(None);
        }
        self.seen = rect;
        if derived.width == 0 || derived.height == 0 {
            return Ok(None);
        }
        match blank_buffer(derived.width, derived.height) {
            None => Err(OverlayError::TooLarge),
            Some(buffer) => {
                self.geometry = derived;
                self.buffer = buffer;
                Ok(Some(derived))
            },
        }
    }

    /// One tick of the loop, up to the frame: the loop ends where the
    /// window was closed or escape is down; else it looks at the position,
    /// with the geometry derived for the rectangle in it,
    /// then asks the session what to do next.
    pub fn tick(
        &mut self,
        window_open: bool,
        escape_down: bool,
        position: &PositionState,
        derived: Geometry,
        session: &mut SessionState,
    ) -> (t: Tick)
        requires
            old(self).wf(),
        ensures
            final(self).wf(),
            !window_open ==> t == (Tick {
                moved: None,
                step: Step::Stop(StopReason::WindowClosed),
            }),
            window_open && escape_down ==> t == (Tick {
                moved: None,
                step: Step::Stop(StopReason::EscapePressed),
            }),
            !window_open || escape_down ==> final(self).same_as(*old(self)) && *final(session)
                == *old(session),
            window_open && !escape_down ==> {
                &&& final(self).follows(*old(self), *position, derived)
                &&& t.moved == if old(self).commits(*position, derived) {
                    Some(derived)
                } else {
                    None
                }
                &&& t.step == if old(self).overflows(*position, derived) {
                    Step::Stop(StopReason::TooLarge)
                } else {
                    session_step(*old(session))
                }
                &&& *final(session) == if old(self).overflows(*position, derived) {
                    *old(session)
                } else {
                    session_after(*old(session))
                }
            },
    {
        if !window_open {
            return Tick { moved: None, step: Step::Stop(StopReason::WindowClosed) };
        }
        if escape_down {
            return Tick { moved: None, step: Step::Stop(StopReason::EscapePressed) };
        }
        match self.observe(position, derived) {
            Err(_) => Tick { moved: None, step: Step::Stop(StopReason::TooLarge) },
            Ok(moved) => {
                let step = next_step(session);
                Tick { moved, step }
            },
        }
    }

    /// Writes resampled pixels into the frame buffer, in place.
    pub fn fill(&mut self, pixels: &[u8])
        requires
            old(self).wf(),
            pixels@.len() % 3 == 0 || old(self).buffer@.len() <= pixels@.len() / 3,
        ensures
            final(self).wf(),
            final(self).seen == old(self).seen,
            final(self).geometry == old(self).geometry,
            forall|i: int|
                0 <= i < old(self).buffer@.len() ==> #[trigger] final(self).buffer@[i]
                    == repacked_at(pixels@, old(self).buffer@, i),
    {
        repack(pixels, &mut self.buffer);
    }

    /// Whether a frame of `width` by `height` pixels can be resampled to
    /// the overlay.
    pub open spec fn renderable(self, width: u32, height: u32) -> bool {
        &&& self.geometry.width <= u32::MAX
        &&& self.geometry.height <= u32::MAX
        &&& resizable(width, height, self.geometry.width as u32, self.geometry.height as u32)
    }

    /// Resamples a decoded frame of `width` by `height` pixels to the
    /// overlay and packs it into the frame buffer. On an error the buffer
    /// is as before; else every place holds a packed pixel, and the frame's
    /// own pixel where the frame has the size of the overlay.
    pub fn render(&mut self, frame: Vec<u8>, width: u32, height: u32) -> (r: Result<
        (),
        OverlayError,
    >)
        requires
            old(self).wf(),
        ensures
            final(self).wf(),
            final(self).seen == old(self).seen,
            final(self).geometry == old(self).geometry,
            r is Ok <==> old(self).renderable(width, height) && frame@.len() >= 3 * (width
                * height),
            !old(self).renderable(width, height) <==> r == Err::<(), OverlayError>(
                OverlayError::Resize(ResizeError::Dimensions),
            ),
            old(self).renderable(width, height) && frame@.len() < 3 * (width * height) <==> r
                == Err::<(), OverlayError>(OverlayError::Resize(ResizeError::Buffer)),
            r is Err ==> final(self).buffer@ == old(self).buffer@,
            r is Ok ==> forall|i: int|
                0 <= i < final(self).buffer@.len() ==> #[trigger] final(self).buffer@[i]
                    <= 0xff_ffff,
            r is Ok && width == old(self).geometry.width && height == old(self).geometry.height
                ==> forall|i: int|
                0 <= i < final(self).buffer@.len() ==> #[trigger] final(self).buffer@[i] == packed(
                    frame@[3 * i],
                    frame@[3 * i + 1],
                    frame@[3 * i + 2],
                ),
    {
        if self.geometry.width > u32::MAX as usize || self.geometry.height > u32::MAX as usize {
            return Err(OverlayError::Resize(ResizeError::Dimensions));
        }
        let w: u32 = self.geometry.width as u32;
        let h: u32 = self.geometry.height as u32;
        let ghost given = frame@;
        match resample(frame, width, height, w, h) {
            Err(e) => Err(OverlayError::Resize(e)),
            Ok(pixels) => {
                assert(pixels@.len() == 3 * self.buffer@.len());
                self.fill(pixels.as_slice());
                assert forall|i: int| 0 <= i < self.buffer@.len() implies #[trigger] self.buffer@[i]
                    <= 0xff_ffff by {
                    assert(3 * i + 2 < pixels@.len());
                    assert(self.buffer@[i] == packed(
                        pixels@[3 * i],
                        pixels@[3 * i + 1],
                        pixels@[3 * i + 2],
                    ));
                }
                assert(width == w && height == h ==> forall|i: int|
                    0 <= i < self.buffer@.len() ==> #[trigger] self.buffer@[i] == packed(
                        given[3 * i],
                        given[3 * i + 1],
                        given[3 * i + 2],
                    )) by {
                    if width == w && height == h {
                        assert forall|i: int| 0 <= i < self.buffer@.len() implies #[trigger] self.buffer@[i]
                            == packed(given[3 * i], given[3 * i + 1], given[3 * i + 2]) by {
                            assert(3 * i + 2 < pixels@.len());
                            assert(self.buffer@[i] == repacked_at(pixels@, old(self).buffer@, i));
                        }
                    }
                }
                Ok(())
            },
        }
    }
}

/// The commit rule: with a position that can be read, and a derived
/// geometry that a buffer can hold, the loop takes on a new geometry if and
/// only if the rectangle differs from the one last seen and neither derived
/// side is zero. It then has that geometry and a blank buffer of its size;
/// with a zero side it keeps the geometry and the buffer that it had.
pub proof fn lemma_commit_rule(
    before: Overlay,
    after: Overlay,
    position: PositionState,
    derived: Geometry,
)
    requires
        before.wf(),
        position.read() is Ok,
        derived.area() <= usize::MAX,
        after.follows(before, position, derived),
    ensures
        before.commits(position, derived) <==> position.rect != before.seen && derived.visible(),
        before.commits(position, derived) ==> after.geometry == derived && after.buffer@ == blank(
            derived.area(),
        ),
        !before.commits(position, derived) ==> after.geometry == before.geometry && after.buffer@
            == before.buffer@,
        !derived.visible() ==> after.geometry == before.geometry && after.buffer@
            == before.buffer@,
        after.seen == position.rect,
{
}

/// Once a session with free guards has been told to close, the loop's next
/// look at it ends the loop; and when the loop has ended the session, the
/// flag is off however the loop ended, and no camera can be had.
pub proof fn lemma_close_ends_session(session: SessionState)
    requires
        session.active_lock.probe() is Ok,
        session.device_lock.probe() is Ok,
    ensures
        session_step(session.flagged(false)) == Step::Stop(StopReason::SessionClosed),
        session_after(session.flagged(false)) == session.flagged(false),
        !session.ended().active,
        session.flagged(false).ended() == session.ended(),
        session.ended().flag_read() == Ok::<bool, LockError>(false),
        session.ended().camera() == Err::<u32, SessionError>(SessionError::NotOpen),
        session.ended().ended() == session.ended(),
{
}

} // verus!
