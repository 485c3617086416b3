use j2534::text::buffer_string;
use j2534::{ErrorKind, VersionInfo};

fn buffer(text: &[u8]) -> Vec<u8> {
    let mut b = vec![0u8; 80];
    b[..text.len()].copy_from_slice(text);
    b
}

#[test]
fn read_version_returns_the_three_strings() {
    let v = VersionInfo::from_reply(0, &buffer(b"fw 1.2"), &buffer(b"dll 3.4"), &buffer(b"04.04"))
        .unwrap();
    assert_eq!(v.firmware_version, "fw 1.2");
    assert_eq!(v.dll_version, "dll 3.4");
    assert_eq!(v.api_version, "04.04");
}

#[test]
fn read_version_invalid_text_is_utf8_error() {
    let r = VersionInfo::from_reply(0, &buffer(b"ok"), &buffer(&[0xc3, 0x28]), &buffer(b"ok"));
    assert_eq!(r.unwrap_err().kind(), ErrorKind::Utf8);
}

#[test]
fn read_version_nonzero_status_is_code() {
    let r = VersionInfo::from_reply(0x1a, &buffer(b"a"), &buffer(b"b"), &buffer(b"c"));
    assert_eq!(r.unwrap_err().kind(), ErrorKind::Code(0x1a));
}

#[test]
fn buffer_without_terminator_is_rejected() {
    let full = vec![b'x'; 80];
    assert_eq!(buffer_string(&full).unwrap_err().kind(), ErrorKind::Utf8);
}

#[test]
fn buffer_text_stops_at_first_nul_and_decodes_utf8() {
    let b = buffer(&[0x63, 0x61, 0x66, 0xc3, 0xa9, 0, b'z']);
    assert_eq!(buffer_string(&b).unwrap(), "caf\u{e9}");
    assert_eq!(buffer_string(&[0u8]).unwrap(), "");
}

#[test]
fn from_texts_needs_all_three() {
    let ok = VersionInfo::from_texts(Ok("a".to_string()), Ok("b".to_string()), Ok("c".to_string()));
    assert_eq!(ok.unwrap().api_version, "c");
    let bad = VersionInfo::from_texts(
        Ok("a".to_string()),
        Err(j2534::Error::utf8()),
        Ok("c".to_string()),
    );
    assert_eq!(bad.unwrap_err().kind(), ErrorKind::Utf8);
}
