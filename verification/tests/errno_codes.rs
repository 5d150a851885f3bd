use virtual_disk::errno::{os_error_code, EINVAL, ENOENT, EPERM};

#[test]
fn error_without_number_counts_as_eperm() {
    assert_eq!(os_error_code(None), EPERM);
    assert_eq!(os_error_code(None), 1);
}

#[test]
fn listed_numbers_come_back_unchanged() {
    assert_eq!(os_error_code(Some(1)), EPERM);
    assert_eq!(os_error_code(Some(2)), ENOENT);
    assert_eq!(os_error_code(Some(22)), EINVAL);
    assert_eq!(os_error_code(Some(13)), 13);
    assert_eq!(os_error_code(Some(28)), 28);
}

#[test]
fn unlisted_numbers_become_zero() {
    assert_eq!(os_error_code(Some(-5)), 0);
    assert_eq!(os_error_code(Some(100_000)), 0);
    assert_eq!(os_error_code(Some(i32::MAX)), 0);
    assert_eq!(os_error_code(Some(i32::MIN)), 0);
    assert_eq!(os_error_code(Some(0)), 0);
}

#[test]
fn codes_agree_with_nix() {
    let mut raw: i32 = -10;
    while raw < 200 {
        assert_eq!(os_error_code(Some(raw)), nix::errno::Errno::from_raw(raw) as i32);
        raw += 1;
    }
}

#[test]
fn constants_agree_with_libc() {
    assert_eq!(EPERM, libc::EPERM);
    assert_eq!(ENOENT, libc::ENOENT);
    assert_eq!(EINVAL, libc::EINVAL);
}
