//! Taking one picture: whether a camera can be had, what the picture's file
//! is called, and which error the caller gets for what went wrong outside.

use vstd::prelude::*;
use time::{OffsetDateTime, UtcOffset};
use crate::shared::{LockError, LockState, SessionError, SessionState};

verus! {

/// The step outside the library at which a picture failed.
#[derive(Clone, Copy, Debug, PartialEq, Eq, Structural)]
pub enum CaptureFault {
    /// The camera gave no frame.
    Frame,
    /// The frame could not be decoded.
    Decode,
    /// The local time could not be had.
    Clock,
    /// The time could not be written out.
    Format,
    /// The file could not be written.
    Write,
    /// The file's full path could not be found.
    Resolve,
}

/// Why no picture was taken.
#[derive(Clone, Copy, Debug, PartialEq, Eq, Structural)]
pub enum CaptureError {
    /// The camera's guard could not be passed.
    Lock(LockError),
    /// No session holds a camera.
    NotOpen,
    Device,
    Decode,
    Clock,
    Format,
    Io,
}

/// The text that the `time` crate writes for a moment under a pattern of
/// its first format version, or nothing where it writes none. The moment
/// is given by its seconds since the start of 1970 and by the seconds that
/// local time is ahead of universal time.
pub uninterp spec fn moment_text(unix_seconds: int, offset_seconds: int, pattern: Seq<char>) -> Option<Seq<char>>;

/// The pattern of a picture's time stamp: the moment to the second.
pub open spec fn stamp_pattern() -> Seq<char> {
    "[year][month][day][hour][minute][second]"@
}

/// The error that the caller gets for a failure at a step outside.
pub open spec fn fault_error(fault: CaptureFault) -> CaptureError {
    match fault {
        CaptureFault::Frame => CaptureError::Device,
        CaptureFault::Decode => CaptureError::Decode,
        CaptureFault::Clock => CaptureError::Clock,
        CaptureFault::Format => CaptureError::Format,
        CaptureFault::Write => CaptureError::Io,
        CaptureFault::Resolve => CaptureError::Io,
    }
}

/// The error that the caller gets where no camera could be had.
pub open spec fn session_error(e: SessionError) -> CaptureError {
    match e {
        SessionError::Lock(l) => CaptureError::Lock(l),
        SessionError::NotOpen => CaptureError::NotOpen,
    }
}

/// The outcome of asking the session for the camera, as the caller of a
/// capture sees it.
pub open spec fn capture_start(session: SessionState) -> Result<u32, CaptureError> {
    match session.camera() {
        Ok(d) => Ok(d),
        Err(e) => Err(session_error(e)),
    }
}

/// The name of a picture's file: the time stamp, then `.jpg`.
pub open spec fn picture_name_of(stamp: Seq<char>) -> Seq<char> {
    stamp + ".jpg"@
}

/// Calls `String::push_str`: the text is appended.
#[verifier::external_body]
fn push_text(s: &mut String, text: &str)
    ensures
        final(s)@ == old(s)@ + text@,
{
    s.push_str(text);
}

/// Calls `time`: `OffsetDateTime::from_unix_timestamp`,
/// `UtcOffset::from_whole_seconds` and `OffsetDateTime::checked_to_offset`
/// make the moment; `format_description::parse_borrowed`, in its first
/// version, reads the pattern; `OffsetDateTime::format` writes the text.
/// Claimed of it: the text depends on the three arguments alone, and any
/// step that fails is reported as a failure to format.
#[verifier::external_body]
fn format_moment(unix_seconds: i64, offset_seconds: i32, pattern: &str) -> (r: Result<
    String,
    CaptureFault,
>)
    ensures
        r matches Ok(s) ==> moment_text(unix_seconds as int, offset_seconds as int, pattern@)
            == Some(s@),
        r is Err <==> moment_text(unix_seconds as int, offset_seconds as int, pattern@) is None,
        r matches Err(e) ==> e == CaptureFault::Format,
{
    let utc = OffsetDateTime::from_unix_timestamp(unix_seconds).map_err(|_| CaptureFault::Format)?;
    let offset = UtcOffset::from_whole_seconds(offset_seconds).map_err(|_| CaptureFault::Format)?;
    let local = utc.checked_to_offset(offset).ok_or(CaptureFault::Format)?;
    let items = time::format_description::parse_borrowed::<1>(pattern)
        .map_err(|_| CaptureFault::Format)?;
    local.format(&items).map_err(|_| CaptureFault::Format)
}

/// Begins a capture: the caller waits for the camera's guard and gets the
/// camera, which stays lent until `finish_picture`. Without a camera
/// nothing is lent and nothing changes.
pub fn take_picture(session: &mut SessionState) -> (r: Result<u32, CaptureError>)
    requires
        old(session).device_lock != LockState::Held,
    ensures
        r == capture_start(*old(session)),
        *final(session) == old(session).lent(),
{
    match session.take_frame() {
        Ok(d) => Ok(d),
        Err(SessionError::Lock(l)) => Err(CaptureError::Lock(l)),
        Err(SessionError::NotOpen) => Err(CaptureError::NotOpen),
    }
}

/// The error for a failure outside.
pub fn capture_error(fault: CaptureFault) -> (e: CaptureError)
    ensures
        e == fault_error(fault),
{
    match fault {
        CaptureFault::Frame => CaptureError::Device,
        CaptureFault::Decode => CaptureError::Decode,
        CaptureFault::Clock => CaptureError::Clock,
        CaptureFault::Format => CaptureError::Format,
        CaptureFault::Write => CaptureError::Io,
        CaptureFault::Resolve => CaptureError::Io,
    }
}

/// Ends a capture: the camera is given back, and the caller gets the path
/// of the picture, or the error for what failed.
pub fn finish_picture(session: &mut SessionState, outcome: Result<String, CaptureFault>) -> (r:
    Result<String, CaptureError>)
    ensures
        *final(session) == (SessionState {
            device_lock: old(session).device_lock.given_back(),
            ..*old(session)
        }),
        r == match outcome {
            Ok(path) => Ok::<String, CaptureError>(path),
            Err(fault) => Err::<String, CaptureError>(fault_error(fault)),
        },
{
    session.release_device();
    match outcome {
        Ok(path) => Ok(path),
        Err(fault) => Err(capture_error(fault)),
    }
}

/// The file name for a time stamp.
pub fn picture_name(stamp: &str) -> (name: String)
    ensures
        name@ == picture_name_of(stamp@),
{
    let mut name = String::new();
    push_text(&mut name, stamp);
    push_text(&mut name, ".jpg");
    assert(name@ =~= picture_name_of(stamp@));
    name
}

/// The file name for a picture taken at a moment, given by its seconds
/// since the start of 1970 and the seconds that local time is ahead of
/// universal time: the local time to the second, as year, month, day, hour,
/// minute and second, then `.jpg`. Where the moment cannot be written out,
/// the capture fails at formatting.
pub fn picture_name_at(unix_seconds: i64, offset_seconds: i32) -> (r: Result<String, CaptureError>)
    ensures
        match moment_text(unix_seconds as int, offset_seconds as int, stamp_pattern()) {
            Some(stamp) => r matches Ok(name) && name@ == picture_name_of(stamp),
            None => r == Err::<String, CaptureError>(CaptureError::Format),
        },
{
    match format_moment(unix_seconds, offset_seconds, "[year][month][day][hour][minute][second]") {
        Ok(stamp) => Ok(picture_name(stamp.as_str())),
        Err(_) => Err(CaptureError::Format),
    }
}

/// Before any session there is no camera: a capture fails as not open, and
/// leaves the session as it was.
pub proof fn lemma_capture_needs_session()
    ensures
        capture_start(SessionState::initial()) == Err::<u32, CaptureError>(CaptureError::NotOpen),
        SessionState::initial().lent() == SessionState::initial(),
{
}

/// A capture gets the camera exactly where one is installed and its guard
/// is free; a session that has ended gives none.
pub proof fn lemma_capture_after_end(session: SessionState)
    requires
        session.device_lock.probe() is Ok,
    ensures
        capture_start(session) is Ok <==> session.device is Some,
        session.device is None ==> capture_start(session) == Err::<u32, CaptureError>(
            CaptureError::NotOpen,
        ),
        capture_start(session.ended()) == Err::<u32, CaptureError>(CaptureError::NotOpen),
{
}

/// Two captures in a row: when the first has given the camera back, the
/// second gets it again.
pub proof fn lemma_capture_again(session: SessionState)
    requires
        capture_start(session) is Ok,
    ensures
        (SessionState {
            device_lock: session.lent().device_lock.given_back(),
            ..session.lent()
        }) == session,
{
}

} // verus!
