use nt_minimal_template::contract::{
    ctl_code, ECHO_MAX_LEN, FILE_ANY_ACCESS, FILE_DEVICE_UNKNOWN, IOCTL_ECHO, IOCTL_PING,
    METHOD_BUFFERED, PING_RESPONSE_U32, USER_DEVICE_PATH, DEVICE_BASENAME, CONTRACT_VERSION,
};
use nt_minimal_template::names::{encode_utf16z, to_unicode_string};
use nt_minimal_template::client::to_wide;
use nt_minimal_template::wire::u32_from_le_bytes;
use nt_minimal_template::utf16::char_to_utf16;

#[test]
fn ioctl_codes_match_ctl_code() {
    assert_eq!(ctl_code(FILE_DEVICE_UNKNOWN, 0x900, METHOD_BUFFERED, FILE_ANY_ACCESS), IOCTL_PING);
    assert_eq!(ctl_code(FILE_DEVICE_UNKNOWN, 0x901, METHOD_BUFFERED, FILE_ANY_ACCESS), IOCTL_ECHO);
    assert_eq!(IOCTL_PING, 0x0022_2400);
    assert_eq!(IOCTL_ECHO, 0x0022_2404);
    assert_ne!(IOCTL_PING, IOCTL_ECHO);
}

#[test]
fn ctl_code_layout() {
    // CTL_CODE(FILE_DEVICE_DISK = 7, 0x10, METHOD_NEITHER = 3, FILE_WRITE_ACCESS = 2)
    assert_eq!(ctl_code(7, 0x10, 3, 2), (7 << 16) | (2 << 14) | (0x10 << 2) | 3);
    assert_eq!(ctl_code(7, 0x10, 3, 2), 0x0007_8043);
    let code = ctl_code(0xABCD, 0xFFF, 1, 3);
    assert_eq!(code >> 16, 0xABCD);
    assert_eq!((code >> 14) & 3, 3);
    assert_eq!((code >> 2) & 0xFFF, 0xFFF);
    assert_eq!(code & 3, 1);
    assert_eq!(ctl_code(0, 0, 0, 0), 0);
}

#[test]
fn contract_constants() {
    assert_eq!(ECHO_MAX_LEN, 1024);
    assert_eq!(PING_RESPONSE_U32.to_le_bytes(), *b"PNG\0");
    assert_eq!(CONTRACT_VERSION, "0.1.0");
    assert!(USER_DEVICE_PATH.starts_with("\\\\.\\"));
    assert!(USER_DEVICE_PATH.ends_with(DEVICE_BASENAME));
}

#[test]
fn encode_utf16z_fits() {
    let mut out = [0xAAAAu16; 8];
    let used = encode_utf16z("abc", &mut out);
    assert_eq!(used, Some(4));
    assert_eq!(&out[..4], &[0x61, 0x62, 0x63, 0]);
    assert_eq!(&out[4..], &[0xAAAA; 4]);
}

#[test]
fn encode_utf16z_exact_fit() {
    let mut out = [9u16; 4];
    assert_eq!(encode_utf16z("abc", &mut out), Some(4));
    assert_eq!(out, [0x61, 0x62, 0x63, 0]);
}

#[test]
fn encode_utf16z_too_small() {
    let mut out = [9u16; 3];
    assert_eq!(encode_utf16z("abc", &mut out), None);
    assert_eq!(out, [0x61, 0x62, 9]);
    let mut none = [5u16; 0];
    assert_eq!(encode_utf16z("x", &mut none), None);
}

#[test]
fn encode_utf16z_empty_input() {
    let mut out = [9u16; 2];
    assert_eq!(encode_utf16z("", &mut out), Some(1));
    assert_eq!(out, [0, 9]);
}

#[test]
fn encode_utf16z_surrogate_pair() {
    let mut out = [1u16; 6];
    assert_eq!(encode_utf16z("a\u{1F600}é", &mut out), Some(5));
    let expected: Vec<u16> = "a\u{1F600}é".encode_utf16().collect();
    assert_eq!(&out[..4], expected.as_slice());
    assert_eq!(&out[4..], &[0, 1]);
    // the surrogate pair is cut when only its first half fits before the last slot
    let mut small = [1u16; 3];
    assert_eq!(encode_utf16z("a\u{1F600}", &mut small), None);
    assert_eq!(small, [0x61, 0xD83D, 1]);
}

#[test]
fn encode_utf16z_matches_std() {
    for s in ["", "\\Device\\SampleTpl", "Grüße", "日本語", "\u{10FFFF}\u{10000}"] {
        let mut out = [0u16; 32];
        let expected: Vec<u16> = s.encode_utf16().collect();
        assert_eq!(encode_utf16z(s, &mut out), Some(expected.len() + 1));
        assert_eq!(&out[..expected.len()], expected.as_slice());
        assert_eq!(out[expected.len()], 0);
    }
}

#[test]
fn char_to_utf16_units() {
    assert_eq!(char_to_utf16('A'), (0x41, None));
    assert_eq!(char_to_utf16('\u{FFFF}'), (0xFFFF, None));
    assert_eq!(char_to_utf16('\u{10000}'), (0xD800, Some(0xDC00)));
    assert_eq!(char_to_utf16('\u{10FFFF}'), (0xDBFF, Some(0xDFFF)));
}

#[test]
fn to_wide_appends_nul() {
    assert_eq!(to_wide("ab"), vec![0x61, 0x62, 0]);
    assert_eq!(to_wide(""), vec![0]);
    let expected: Vec<u16> = "\\\\.\\Dev\u{1F600}".encode_utf16().chain(Some(0)).collect();
    assert_eq!(to_wide("\\\\.\\Dev\u{1F600}"), expected);
}

#[test]
fn kernel_and_user_encodings_agree() {
    let name = "\\\\.\\SampleTpl";
    let mut out = [0xFFFFu16; 96];
    let used = encode_utf16z(name, &mut out).unwrap();
    assert_eq!(out[..used].to_vec(), to_wide(name));
}

#[test]
fn unicode_string_lengths() {
    let mut buf = [0u16; 96];
    let used = encode_utf16z("\\Device\\X", &mut buf).unwrap();
    assert_eq!(used, 10);
    let s = to_unicode_string(&buf, used);
    assert_eq!(s.length, 18);
    assert_eq!(s.maximum_length, 20);
    assert_eq!(s.buffer, buf.to_vec());
    let one = to_unicode_string(&[0u16], 1);
    assert_eq!(one.length, 0);
    assert_eq!(one.maximum_length, 2);
}

#[test]
fn unicode_string_lengths_truncate_to_16_bits() {
    let s = to_unicode_string(&[], 0x8001);
    assert_eq!(s.length, 0);
    assert_eq!(s.maximum_length, 2);
}

#[test]
fn le_bytes_read_back() {
    assert_eq!(u32_from_le_bytes([0x50, 0x4E, 0x47, 0x00]), PING_RESPONSE_U32);
    assert_eq!(u32_from_le_bytes([0xFF, 0xFF, 0xFF, 0xFF]), u32::MAX);
    assert_eq!(u32_from_le_bytes([1, 2, 3, 4]), u32::from_le_bytes([1, 2, 3, 4]));
}
