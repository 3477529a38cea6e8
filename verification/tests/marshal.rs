use switchtec_user_sys::CStrBytes;
use switchtec_user_sys::CStrExt;
use switchtec_user_sys::ErrorKind;
use switchtec_user_sys::buf_to_string;
use switchtec_user_sys::cstr_to_string;

#[test]
fn test_buf_to_string() {
    let buf = [51, 46, 55, 48, 32, 66, 48, 52, 70, 0, 0, 0, 0, 0, 0, 0];
    assert_eq!(&buf_to_string(&buf).unwrap(), "3.70 B04F");
}

#[test]
fn buf_all_zero_yields_empty() {
    let buf = [0u8; 16];
    assert_eq!(&buf_to_string(&buf).unwrap(), "");
}

#[test]
fn buf_empty_yields_empty() {
    let buf: [u8; 0] = [];
    assert_eq!(&buf_to_string(&buf).unwrap(), "");
}

#[test]
fn buf_without_terminator_uses_whole_buffer() {
    let buf = [51, 46, 55, 48];
    assert_eq!(&buf_to_string(&buf).unwrap(), "3.70");
}

#[test]
fn buf_bytes_after_first_null_are_discarded() {
    let buf = [65, 0, 66, 66, 0, 67];
    assert_eq!(&buf_to_string(&buf).unwrap(), "A");
}

#[test]
fn buf_invalid_utf8_is_invalid_data() {
    let buf = [0xFF, 0xFE, 0, 0];
    let err = buf_to_string(&buf).unwrap_err();
    assert_eq!(err.kind, ErrorKind::InvalidData);
    assert_eq!(&err.message, "buffer bytes are not valid text");
}

#[test]
fn null_cstr_yields_empty_never_an_error() {
    let got = cstr_to_string(&CStrBytes::Null).unwrap();
    assert_eq!(&got, "");
}

#[test]
fn cstr_valid_bytes_decode() {
    let cstr = CStrBytes::Bytes(b"hello".to_vec());
    assert_eq!(&cstr_to_string(&cstr).unwrap(), "hello");
}

#[test]
fn cstr_non_ascii_bytes_decode_as_utf8() {
    // Two bytes encoding one character: a decode that handed the raw bytes
    // back unchanged would give the wrong length and content.
    let cstr = CStrBytes::Bytes(vec![0xC3, 0xA9]);
    let got = cstr_to_string(&cstr).unwrap();
    assert_eq!(got.chars().count(), 1);
    assert_eq!(&got, "\u{e9}");
}

#[test]
fn cstr_invalid_bytes_are_invalid_data() {
    let cstr = CStrBytes::Bytes(vec![0xC3, 0x28]);
    let err = cstr_to_string(&cstr).unwrap_err();
    assert_eq!(err.kind, ErrorKind::InvalidData);
    assert_eq!(&err.message, "foreign string is not valid text");
}

#[test]
fn as_string_agrees_with_cstr_to_string() {
    assert_eq!(&CStrBytes::Null.as_string().unwrap(), "");
    let cstr = CStrBytes::Bytes(b"pciswitch0".to_vec());
    assert_eq!(&cstr.as_string().unwrap(), "pciswitch0");
    let bad = CStrBytes::Bytes(vec![0x80]);
    assert_eq!(bad.as_string().unwrap_err().kind, ErrorKind::InvalidData);
}
