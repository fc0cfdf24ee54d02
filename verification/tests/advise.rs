use rdadvise::advise::{classify_status, dispatch, narrow_count, narrow_offset, Action, Errno, Radvisory};

#[test]
fn offset_too_wide_is_skipped() {
    // One past the largest native signed offset, and the largest request.
    assert_eq!(narrow_offset(0x8000_0000_0000_0000), None);
    assert_eq!(narrow_offset(u64::MAX), None);
    assert_eq!(dispatch(3, 0x8000_0000_0000_0000, 10), Action::Skip);
    assert_eq!(dispatch(3, u64::MAX, 10), Action::Skip);
}

#[test]
fn length_too_wide_is_skipped() {
    // One past the largest native signed count, and the largest request.
    assert_eq!(narrow_count(0x8000_0000), None);
    assert_eq!(narrow_count(u64::MAX), None);
    assert_eq!(dispatch(3, 0, 0x8000_0000), Action::Skip);
    assert_eq!(dispatch(3, 0, u64::MAX), Action::Skip);
}

#[test]
fn fitting_pair_is_called_once_with_narrowed_values() {
    assert_eq!(narrow_offset(7), Some(7));
    assert_eq!(narrow_count(9), Some(9));
    assert_eq!(
        dispatch(5, 7, 9),
        Action::Call { fd: 5, record: Radvisory { ra_offset: 7, ra_count: 9 } }
    );
}

#[test]
fn largest_fitting_pair_is_still_called() {
    // Both values at the top of their native signed widths.
    assert_eq!(
        dispatch(5, 0x7fff_ffff_ffff_ffff, 0x7fff_ffff),
        Action::Call {
            fd: 5,
            record: Radvisory { ra_offset: i64::MAX, ra_count: i32::MAX },
        }
    );
}

#[test]
fn native_failure_code_is_surfaced_verbatim() {
    // 9 is EBADF on the target platform; the code is not interpreted.
    assert_eq!(classify_status(-1, 9), Err(Errno { code: 9 }));
    assert_eq!(classify_status(-1, 22), Err(Errno { code: 22 }));
    // Any non-zero status is a failure, not only the negative sentinel.
    assert_eq!(classify_status(1, 9), Err(Errno { code: 9 }));
}

#[test]
fn native_success_is_success() {
    assert_eq!(classify_status(0, 0), Ok(()));
    // A stale last-error code is ignored on the success sentinel.
    assert_eq!(classify_status(0, 9), Ok(()));
}

#[test]
fn identical_requests_resolve_identically() {
    let first = dispatch(4, 123, 456);
    let second = dispatch(4, 123, 456);
    assert_eq!(first, second);
    let first_err = classify_status(-1, 9);
    let second_err = classify_status(-1, 9);
    assert_eq!(first_err, second_err);
}

#[test]
fn first_page_hint_is_dispatched() {
    let action = dispatch(3, 0, 4096);
    assert_eq!(
        action,
        Action::Call { fd: 3, record: Radvisory { ra_offset: 0, ra_count: 4096 } }
    );
    // With the native layer reporting the success sentinel, the request
    // succeeds.
    assert_eq!(classify_status(0, 0), Ok(()));
}

#[test]
fn huge_offset_is_dropped_without_a_call() {
    assert_eq!(dispatch(3, u64::MAX, 10), Action::Skip);
}

#[test]
fn boundary_offset_fits_exactly() {
    assert_eq!(narrow_offset(0x7fff_ffff_ffff_ffff), Some(i64::MAX));
    assert_eq!(narrow_count(0x7fff_ffff), Some(i32::MAX));
}
