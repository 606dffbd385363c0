use nix_ptsname_r_shim::{fresh_buffer, name_length, OsError, SLAVE_NAME_MAX};

#[test]
fn buffer_size_is_128() {
    assert_eq!(SLAVE_NAME_MAX, 128);
    assert_eq!(fresh_buffer().len(), 128);
}

#[test]
fn fresh_buffer_is_all_zero() {
    let buf = fresh_buffer();
    assert!(buf.iter().all(|b| *b == 0));
    assert_eq!(name_length(&buf), 0);
}

#[test]
fn name_length_is_the_place_of_the_first_zero() {
    assert_eq!(name_length(b"/dev/ttys003\0"), 12);
    assert_eq!(name_length(b"/dev\0ttys003\0"), 4);
    assert_eq!(name_length(b"\0"), 0);
    assert_eq!(name_length(b"\0\0abc"), 0);
    assert_eq!(name_length(b"a\0"), 1);
}

#[test]
fn name_length_without_zero_is_the_buffer_length() {
    assert_eq!(name_length(b""), 0);
    assert_eq!(name_length(b"a"), 1);
    assert_eq!(name_length(b"/dev/ttys003"), 12);
    assert_eq!(name_length(&[0xFFu8; SLAVE_NAME_MAX]), SLAVE_NAME_MAX);
}

#[test]
fn name_length_zero_in_the_last_place() {
    let mut buf = [b'q'; SLAVE_NAME_MAX];
    buf[SLAVE_NAME_MAX - 1] = 0;
    assert_eq!(name_length(&buf), SLAVE_NAME_MAX - 1);
}

#[test]
fn os_error_carries_the_raw_number() {
    let e = OsError::from_raw(25);
    assert_eq!(e.code, 25);
    assert_eq!(e.raw(), 25);
    assert_eq!(e, OsError { code: 25 });
    assert_ne!(e, OsError::from_raw(9));
    assert_eq!(OsError::from_raw(i32::MIN).raw(), i32::MIN);
}
