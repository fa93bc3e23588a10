use camera_overlay::geometry::Rect;
use camera_overlay::shared::{
    get_camera_window_rect, set_camera_window_rect, LockError, LockState, PositionState,
    SessionError, SessionState,
};

#[test]
fn guard_is_taken_and_given_back() {
    let mut lock = LockState::Free;
    assert_eq!(lock.check(), Ok(()));
    assert_eq!(lock.try_acquire(), Ok(()));
    assert_eq!(lock, LockState::Held);
    assert_eq!(lock.check(), Err(LockError::Busy));
    assert_eq!(lock.try_acquire(), Err(LockError::Busy));
    assert_eq!(lock, LockState::Held);
    lock.release();
    assert_eq!(lock, LockState::Free);
    lock.release();
    assert_eq!(lock, LockState::Free);
}

#[test]
fn poisoned_guard_stays_poisoned() {
    let mut lock = LockState::Held;
    lock.poison();
    assert_eq!(lock, LockState::Poisoned);
    assert_eq!(lock.try_acquire(), Err(LockError::Poisoned));
    lock.release();
    assert_eq!(lock, LockState::Poisoned);
}

#[test]
fn position_starts_at_zero() {
    let state = PositionState::new();
    assert_eq!(get_camera_window_rect(&state), Ok((0, 0, 0, 0)));
}

#[test]
fn position_is_overwritten() {
    let mut state = PositionState::new();
    assert_eq!(set_camera_window_rect(&mut state, 100, 100, 800, 600), Ok(()));
    assert_eq!(get_camera_window_rect(&state), Ok((100, 100, 800, 600)));
    assert_eq!(set_camera_window_rect(&mut state, -7, 3, 0, 5), Ok(()));
    assert_eq!(get_camera_window_rect(&state), Ok((-7, 3, 0, 5)));
    assert_eq!(state.rect, Rect { x: -7, y: 3, width: 0, height: 5 });
}

#[test]
fn busy_position_is_not_read() {
    let mut state = PositionState::new();
    assert_eq!(state.lock.try_acquire(), Ok(()));
    assert_eq!(get_camera_window_rect(&state), Err(LockError::Busy));
    state.lock.release();
    assert_eq!(get_camera_window_rect(&state), Ok((0, 0, 0, 0)));
}

#[test]
fn poisoned_position_fails_and_keeps_its_value() {
    let mut state = PositionState::new();
    assert_eq!(set_camera_window_rect(&mut state, 1, 2, 3, 4), Ok(()));
    state.lock.poison();
    assert_eq!(set_camera_window_rect(&mut state, 5, 6, 7, 8), Err(LockError::Poisoned));
    assert_eq!(state.rect, Rect { x: 1, y: 2, width: 3, height: 4 });
    assert_eq!(get_camera_window_rect(&state), Err(LockError::Poisoned));
}

#[test]
fn session_flag_opens_and_closes() {
    let mut s = SessionState::new();
    assert_eq!(s.try_is_active(), Ok(false));
    assert_eq!(s.open(), Ok(()));
    assert_eq!(s.try_is_active(), Ok(true));
    assert_eq!(s.close(), Ok(()));
    assert_eq!(s.try_is_active(), Ok(false));
}

#[test]
fn busy_flag_is_not_a_close() {
    let mut s = SessionState::new();
    assert_eq!(s.open(), Ok(()));
    assert_eq!(s.active_lock.try_acquire(), Ok(()));
    assert_eq!(s.try_is_active(), Err(LockError::Busy));
    s.active_lock.release();
    assert_eq!(s.try_is_active(), Ok(true));
}

#[test]
fn poisoned_flag_cannot_be_set() {
    let mut s = SessionState::new();
    s.active_lock.poison();
    assert_eq!(s.open(), Err(LockError::Poisoned));
    assert!(!s.active);
    assert_eq!(s.close(), Err(LockError::Poisoned));
    assert_eq!(s.try_is_active(), Err(LockError::Poisoned));
}

#[test]
fn camera_is_installed_replaced_and_cleared() {
    let mut s = SessionState::new();
    assert_eq!(s.take_frame(), Err(SessionError::NotOpen));
    assert_eq!(s, SessionState::new());
    assert_eq!(s.install(0), Ok(()));
    assert_eq!(s.install(2), Ok(()));
    assert_eq!(s.device, Some(2));
    assert_eq!(s.take_frame(), Ok(2));
    assert_eq!(s.device_lock, LockState::Held);
    assert_eq!(s.try_take_frame(), Err(SessionError::Lock(LockError::Busy)));
    s.release_device();
    assert_eq!(s.device_lock, LockState::Free);
    assert_eq!(s.clear(), Ok(()));
    assert_eq!(s.device, None);
    assert_eq!(s.take_frame(), Err(SessionError::NotOpen));
}

#[test]
fn poisoned_camera_guard() {
    let mut s = SessionState::new();
    assert_eq!(s.install(1), Ok(()));
    s.device_lock.poison();
    assert_eq!(s.install(3), Err(LockError::Poisoned));
    assert_eq!(s.clear(), Err(LockError::Poisoned));
    assert_eq!(s.device, Some(1));
    assert_eq!(s.take_frame(), Err(SessionError::Lock(LockError::Poisoned)));
}

#[test]
fn finish_ends_the_session_and_may_repeat() {
    let mut s = SessionState::new();
    assert_eq!(s.open(), Ok(()));
    assert_eq!(s.install(4), Ok(()));
    s.finish();
    assert_eq!(s, SessionState::new());
    s.finish();
    assert_eq!(s, SessionState::new());
}
