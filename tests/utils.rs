use bustd::error::Error;
use bustd::utils::{first_nul_index, page_size_from_sysconf, str_from_u8, username_from_lookup};

fn padded(text: &[u8], len: usize) -> Vec<u8> {
    let mut buf = text.to_vec();
    buf.resize(len, 0);
    buf
}

#[test]
fn path_buffer_padded_with_zeros() {
    let buf = padded(b"/etc/hostname", 50);
    assert_eq!(buf.len(), 50);
    assert_eq!(str_from_u8(&buf).unwrap(), "/etc/hostname");
}

#[test]
fn invalid_bytes_before_nul_are_a_decoding_error() {
    let buf = padded(&[0xFF, 0xFE], 50);
    assert!(matches!(str_from_u8(&buf), Err(Error::UnicodeError { .. })));
}

#[test]
fn buffer_without_nul_is_read_whole() {
    let buf: Vec<u8> = (0..64u8).map(|i| b'a' + i % 26).collect();
    let text = str_from_u8(&buf).unwrap();
    assert_eq!(text.len(), 64);
    assert_eq!(text.as_bytes(), &buf[..]);
}

#[test]
fn buffer_without_nul_multibyte_text() {
    let buf = "héllo wörld".as_bytes();
    assert_eq!(str_from_u8(buf).unwrap(), "héllo wörld");
}

#[test]
fn buffer_without_nul_invalid_text_fails() {
    let buf = [b'a', b'b', 0xC3];
    assert!(matches!(str_from_u8(&buf), Err(Error::UnicodeError { .. })));
}

#[test]
fn leading_nul_gives_empty_text() {
    assert_eq!(str_from_u8(&[0, b'a', 0xFF]).unwrap(), "");
    assert_eq!(str_from_u8(&[0; 50]).unwrap(), "");
}

#[test]
fn empty_buffer_gives_empty_text() {
    assert_eq!(str_from_u8(&[]).unwrap(), "");
}

#[test]
fn garbage_after_nul_is_ignored() {
    let buf = [b'a', b'b', b'c', 0, 0xFF, 0xFE, b'x', 0];
    assert_eq!(str_from_u8(&buf).unwrap(), "abc");
}

#[test]
fn text_stops_at_first_of_several_nuls() {
    let buf = [b'a', 0, b'b', 0];
    assert_eq!(str_from_u8(&buf).unwrap(), "a");
}

#[test]
fn first_nul_index_values() {
    assert_eq!(first_nul_index(&[]), 0);
    assert_eq!(first_nul_index(&[0]), 0);
    assert_eq!(first_nul_index(&[1, 2, 0, 3, 0]), 2);
    assert_eq!(first_nul_index(&[1, 2, 3]), 3);
}

#[test]
fn page_size_positive_value_is_kept() {
    assert_eq!(page_size_from_sysconf(4096).unwrap(), 4096);
    assert_eq!(page_size_from_sysconf(65536).unwrap(), 65536);
    assert_eq!(page_size_from_sysconf(i64::MAX).unwrap(), i64::MAX);
}

#[test]
fn page_size_sentinel_is_sysconf_failure() {
    assert!(matches!(page_size_from_sysconf(-1), Err(Error::SysconfFailedError)));
}

#[test]
fn page_size_never_zero_or_negative() {
    assert!(matches!(page_size_from_sysconf(0), Err(Error::SysconfFailedError)));
    assert!(matches!(page_size_from_sysconf(-4096), Err(Error::SysconfFailedError)));
    assert!(matches!(page_size_from_sysconf(i64::MIN), Err(Error::SysconfFailedError)));
}

#[test]
fn username_found() {
    let name: &[u8] = b"root";
    assert_eq!(username_from_lookup(0, Some(name)), Some("root".to_string()));
}

#[test]
fn username_absent_entry_is_none() {
    assert_eq!(username_from_lookup(0, None), None);
}

#[test]
fn username_failed_lookup_is_none() {
    let name: &[u8] = b"root";
    assert_eq!(username_from_lookup(34, Some(name)), None);
    assert_eq!(username_from_lookup(-1, None), None);
}

#[test]
fn username_invalid_bytes_are_replaced() {
    let name: &[u8] = &[b'a', 0xFF, b'b'];
    assert_eq!(username_from_lookup(0, Some(name)), Some("a\u{FFFD}b".to_string()));
}

#[test]
fn username_multibyte_name() {
    let name: &[u8] = "jürgen".as_bytes();
    assert_eq!(username_from_lookup(0, Some(name)), Some("jürgen".to_string()));
}

#[test]
fn same_text_before_nul_gives_same_result() {
    let a = [b'p', b'a', b't', b'h', 0, 0xFF, 0xFE];
    let b = [b'p', b'a', b't', b'h', 0, b'x'];
    assert_eq!(str_from_u8(&a).unwrap(), str_from_u8(&b).unwrap());
    let c = [0xC3, 0x28, 0, b'a'];
    let d = [0xC3, 0x28, 0, 0xFF, 0xFF];
    match (str_from_u8(&c), str_from_u8(&d)) {
        (Err(Error::UnicodeError { error: e1 }), Err(Error::UnicodeError { error: e2 })) => {
            assert_eq!(e1, e2)
        }
        _ => panic!("expected two decoding errors"),
    }
}
