use j2534::{Error, ErrorKind};

#[test]
fn from_code_keeps_the_raw_status() {
    let e = Error::from_code(-7);
    assert_eq!(e.kind(), ErrorKind::Code(-7));
    assert_eq!(e.as_str(), "unknown error");
}

#[test]
fn every_kind_has_its_description() {
    assert_eq!(Error::not_found().description(), "not found");
    assert_eq!(Error::utf8().to_string(), "utf8 error");
    assert_eq!(Error::from_code(0x10).to_string(), "unknown error");
}

#[test]
fn check_maps_zero_to_ok_and_the_rest_to_code() {
    assert!(Error::check(0).is_ok());
    assert_eq!(Error::check(8).unwrap_err().kind(), ErrorKind::Code(8));
}

#[test]
fn utf8_error_converts_to_utf8_kind() {
    let bad = vec![0xffu8, 0xfe];
    let err = std::str::from_utf8(&bad).unwrap_err();
    assert_eq!(Error::from(err).kind(), ErrorKind::Utf8);
}
