//! The advisory-hint dispatch layer.
//!
//! One request is a pair of unsigned 64-bit values, an offset and a
//! length. The platform's native advisory-read call takes a record of
//! narrower, signed fields: a 64-bit offset and a 32-bit count, the
//! layout of the `radvisory` structure of the host's `fcntl` interface.
//! A value that does not fit is not an error: a hint about a range no
//! file can have is meaningless, so the request succeeds with no native
//! call at all. When both values fit, the native call is made exactly
//! once, and its status is classified: the zero sentinel is success, any
//! other status is a failure carrying the last-error code verbatim.

use vstd::prelude::*;

verus! {

/// The fixed-layout record handed to the native advisory-read call:
/// a signed offset and a signed count, in the platform's native widths.
#[derive(Clone, Copy, Debug, PartialEq, Eq, Structural)]
pub struct Radvisory {
    /// Offset into the file at which the read of interest begins.
    pub ra_offset: i64,
    /// Number of bytes of interest.
    pub ra_count: i32,
}

/// The operating-system error code carried by a failed native call,
/// surfaced verbatim: this layer does not interpret it.
#[derive(Clone, Copy, Debug, PartialEq, Eq, Structural)]
pub struct Errno {
    /// The raw error code of the platform's last-error mechanism.
    pub code: i32,
}

/// What the dispatcher decides for one request.
#[derive(Clone, Copy, Debug, PartialEq, Eq, Structural)]
pub enum Action {
    /// The requested range cannot be represented in the native record;
    /// the hint is silently dropped, the request counts as a success,
    /// and no native call is made.
    Skip,
    /// Issue the native call exactly once, on this raw descriptor, with
    /// this record.
    Call { fd: i32, record: Radvisory },
}

/// Whether an offset fits the native record's signed offset field.
pub open spec fn offset_fits(offset: u64) -> bool {
    offset as int <= i64::MAX as int
}

/// Whether a length fits the native record's signed count field.
pub open spec fn count_fits(len: u64) -> bool {
    len as int <= i32::MAX as int
}

/// The action taken for one request: drop the hint when either value
/// cannot be narrowed, otherwise call once, on the given descriptor,
/// with the narrowed record.
pub open spec fn spec_dispatch(fd: i32, offset: u64, len: u64) -> Action {
    if offset_fits(offset) && count_fits(len) {
        Action::Call { fd: fd, record: Radvisory { ra_offset: offset as i64, ra_count: len as i32 } }
    } else {
        Action::Skip
    }
}

/// How a native return status is classified: the zero sentinel is
/// success, any other status is a failure carrying the last-error code.
pub open spec fn spec_classify(status: i32, errno: i32) -> Result<(), Errno> {
    if status == 0 {
        Ok(())
    } else {
        Err(Errno { code: errno })
    }
}

/// The result of one whole request, given the status and last-error code
/// the native call reports when it is made: a request out of native range
/// succeeds without the call; any other is classified from the status.
pub open spec fn spec_advise(fd: i32, offset: u64, len: u64, status: i32, errno: i32) -> Result<
    (),
    Errno,
> {
    match spec_dispatch(fd, offset, len) {
        Action::Skip => Ok(()),
        Action::Call { .. } => spec_classify(status, errno),
    }
}

/// Narrows an unsigned 64-bit offset to the native signed offset width.
/// `None` means the value lies outside any representable file extent.
pub fn narrow_offset(offset: u64) -> (r: Option<i64>)
    ensures
        offset_fits(offset) ==> r == Some(offset as i64),
        !offset_fits(offset) ==> r is None,
{
    if offset <= i64::MAX as u64 {
        Some(offset as i64)
    } else {
        None
    }
}

/// Narrows an unsigned 64-bit length to the native signed count width.
/// `None` means the hint is too large to be expressed natively.
pub fn narrow_count(len: u64) -> (r: Option<i32>)
    ensures
        count_fits(len) ==> r == Some(len as i32),
        !count_fits(len) ==> r is None,
{
    if len <= i32::MAX as u64 {
        Some(len as i32)
    } else {
        None
    }
}

/// Decides one advisory request on the raw descriptor `fd`: a range that
/// does not fit the native record is skipped (a success, no native
/// call); a range that fits is turned into exactly one call, on `fd`,
/// with the narrowed record.
pub fn dispatch(fd: i32, offset: u64, len: u64) -> (a: Action)
    ensures
        a == spec_dispatch(fd, offset, len),
        !offset_fits(offset) ==> a is Skip,
        !count_fits(len) ==> a is Skip,
        offset_fits(offset) && count_fits(len) ==> a == (Action::Call {
            fd: fd,
            record: Radvisory { ra_offset: offset as i64, ra_count: len as i32 },
        }),
{
    match (narrow_offset(offset), narrow_count(len)) {
        (Some(ra_offset), Some(ra_count)) => Action::Call {
            fd,
            record: Radvisory { ra_offset, ra_count },
        },
        _ => Action::Skip,
    }
}

/// Classifies the native call's return status: zero is success; any
/// other status is a failure carrying `errno`, the code read from the
/// platform's last-error mechanism, unchanged.
pub fn classify_status(status: i32, errno: i32) -> (r: Result<(), Errno>)
    ensures
        r == spec_classify(status, errno),
        status == 0 ==> r is Ok,
        status != 0 ==> r == Err::<(), Errno>(Errno { code: errno }),
{
    if status == 0 {
        Ok(())
    } else {
        Err(Errno { code: errno })
    }
}

/// A request whose offset or length does not fit the native record is a
/// success with no native call, whatever the native layer would have
/// returned.
pub proof fn lemma_out_of_range_is_success(fd: i32, offset: u64, len: u64, status: i32, errno: i32)
    requires
        !offset_fits(offset) || !count_fits(len),
    ensures
        spec_dispatch(fd, offset, len) is Skip,
        spec_advise(fd, offset, len, status, errno) == Ok::<(), Errno>(()),
{
}

/// A request whose native call reports the success sentinel succeeds,
/// whatever range was asked for.
pub proof fn lemma_native_success_is_success(fd: i32, offset: u64, len: u64, errno: i32)
    ensures
        spec_advise(fd, offset, len, 0, errno) == Ok::<(), Errno>(()),
{
}

/// When the range fits and the native call reports a failure sentinel,
/// the request fails with that call's error code, unmodified.
pub proof fn lemma_native_failure_surfaced(fd: i32, offset: u64, len: u64, status: i32, errno: i32)
    requires
        offset_fits(offset),
        count_fits(len),
        status != 0,
    ensures
        spec_advise(fd, offset, len, status, errno) == Err::<(), Errno>(Errno { code: errno }),
{
}

/// Issuing the same request twice resolves it the same way both times:
/// the dispatcher holds no state across calls, so any two results drawn
/// from the same request and the same native outcome are equal.
pub proof fn lemma_advise_idempotent(
    fd: i32,
    offset: u64,
    len: u64,
    status: i32,
    errno: i32,
    first: Result<(), Errno>,
    second: Result<(), Errno>,
)
    requires
        first == spec_advise(fd, offset, len, status, errno),
        second == spec_advise(fd, offset, len, status, errno),
    ensures
        first == second,
{
}

} // verus!
