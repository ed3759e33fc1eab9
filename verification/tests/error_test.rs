use spdk_io::cstr::{c_string, c_string_opt, to_c_string};
use spdk_io::error::{neg_errno_result, status_result, Error};

#[test]
fn from_errno_is_os_error() {
    assert!(matches!(Error::from_errno(5), Error::Os(5)));
}

#[test]
fn from_rc_takes_magnitude() {
    assert!(matches!(Error::from_rc(-22), Error::Os(22)));
    assert!(matches!(Error::from_rc(22), Error::Os(22)));
    assert!(matches!(Error::from_rc(0), Error::Os(0)));
}

#[test]
fn status_results() {
    assert!(status_result(0).is_ok());
    assert!(matches!(status_result(-5), Err(Error::Os(5))));
    assert!(neg_errno_result(0).is_ok());
    assert!(matches!(neg_errno_result(-12), Err(Error::Os(12))));
}

#[test]
fn c_string_without_nul_gives_bytes() {
    assert_eq!(to_c_string("abc").unwrap(), b"abc".to_vec());
    assert_eq!(c_string("").unwrap(), Vec::<u8>::new());
    assert_eq!(c_string("é").unwrap(), "é".as_bytes().to_vec());
}

#[test]
fn c_string_with_nul_reports_first_position() {
    let e = to_c_string("ab\0c\0").unwrap_err();
    assert_eq!(e.nul_position(), 2);
    assert_eq!(e.into_vec(), b"ab\0c\0".to_vec());
    match c_string("\0") {
        Err(Error::NulError(e)) => assert_eq!(e.nul_position(), 0),
        other => panic!("unexpected: {:?}", other),
    }
}

#[test]
fn optional_c_string() {
    assert!(c_string_opt(None).unwrap().is_none());
    assert_eq!(c_string_opt(Some("x")).unwrap(), Some(b"x".to_vec()));
    assert!(matches!(c_string_opt(Some("a\0")), Err(Error::NulError(_))));
}
