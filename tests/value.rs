use std::cmp::Ordering;
use std::collections::hash_map::DefaultHasher;
use std::collections::HashSet;
use std::hash::{Hash, Hasher};

use bytes::Bytes;
use header_value::name::HeaderName;
use header_value::validate::{is_valid, is_visible_ascii};
use header_value::value::HeaderValue;

#[test]
fn test_try_from() {
    assert!(HeaderValue::from_shared(Bytes::from(vec![127u8])).is_err());
    assert!(HeaderValue::from_bytes(&[127u8]).is_err());
}

#[test]
fn test_debug() {
    let cases = &[
        ("hello", "\"hello\""),
        ("hello \"world\"", "\"hello \\\"world\\\"\""),
        ("\u{7FFF}hello", "\"\\xe7\\xbf\\xbfhello\""),
    ];

    for &(value, expected) in cases {
        let val = HeaderValue::from_bytes(value.as_bytes()).unwrap();
        let actual = val.debug_string();
        assert_eq!(expected, actual);
    }

    let mut sensitive = HeaderValue::from_static("password");
    sensitive.set_sensitive(true);
    assert_eq!("Sensitive", sensitive.debug_string());
}

#[test]
fn it_converts_using_try_from() {
    let upgrade = HeaderName::from_bytes(b"upgrade").unwrap();
    assert!(HeaderValue::from_name(upgrade) == HeaderValue::from_bytes(b"upgrade").unwrap());
}

#[test]
fn it_can_insert_header_name_as_header_value() {
    let protocol = HeaderName::from_bytes(b"sec-websocket-protocol").unwrap();
    let hello = HeaderName::from_bytes(b"hello-world").unwrap();
    assert!(
        HeaderValue::from_name(protocol)
            == HeaderValue::from_bytes(b"sec-websocket-protocol").unwrap()
    );
    assert!(HeaderValue::from_name(hello) == HeaderValue::from_bytes(b"hello-world").unwrap());
}

#[test]
fn from_u16_numbers() {
    let n: u16 = 55;
    assert!(HeaderValue::from_u16(n).eq_str(&n.to_string()));
    let n = u16::MAX;
    assert!(HeaderValue::from_u16(n).eq_str(&n.to_string()));
    assert!(HeaderValue::from_u16(0).eq_bytes(b"0"));
}

#[test]
fn from_i16_numbers() {
    let n: i16 = 55;
    assert!(HeaderValue::from_i16(n).eq_str(&n.to_string()));
    assert!(HeaderValue::from_i16(i16::MAX).eq_str("32767"));
    assert!(HeaderValue::from_i16(i16::MIN).eq_str("-32768"));
}

#[test]
fn from_u32_numbers() {
    let n: u32 = 55;
    assert!(HeaderValue::from_u32(n).eq_str(&n.to_string()));
    assert!(HeaderValue::from_u32(u32::MAX).eq_str("4294967295"));
}

#[test]
fn from_i32_numbers() {
    let n: i32 = 55;
    assert!(HeaderValue::from_i32(n).eq_str(&n.to_string()));
    assert!(HeaderValue::from_i32(i32::MAX).eq_str("2147483647"));
    assert!(HeaderValue::from_i32(-7).eq_str("-7"));
}

#[test]
fn from_u64_numbers() {
    let n: u64 = 55;
    assert!(HeaderValue::from_u64(n).eq_str(&n.to_string()));
    assert!(HeaderValue::from_u64(u64::MAX).eq_str("18446744073709551615"));
    assert!(HeaderValue::from_u64(1_000_000_000_000_000_000).eq_str("1000000000000000000"));
}

#[test]
fn from_i64_numbers() {
    let n: i64 = 55;
    assert!(HeaderValue::from_i64(n).eq_str(&n.to_string()));
    assert!(HeaderValue::from_i64(i64::MAX).eq_str("9223372036854775807"));
    assert!(HeaderValue::from_i64(i64::MIN).eq_str("-9223372036854775808"));
}

#[test]
fn from_usize_numbers() {
    let n: usize = 55;
    assert!(HeaderValue::from_usize(n).eq_str(&n.to_string()));
    let n = usize::MAX;
    assert!(HeaderValue::from_usize(n).eq_str(&n.to_string()));
}

#[test]
fn from_isize_numbers() {
    let n: isize = 55;
    assert!(HeaderValue::from_isize(n).eq_str(&n.to_string()));
    let n = isize::MIN;
    assert!(HeaderValue::from_isize(n).eq_str(&n.to_string()));
    let n = isize::MAX;
    assert!(HeaderValue::from_isize(n).eq_str(&n.to_string()));
}

#[test]
fn construction_byte_edges() {
    assert!(HeaderValue::from_bytes(&[127u8]).is_err());
    assert!(HeaderValue::from_bytes(&[9u8]).is_ok());
    assert!(HeaderValue::from_bytes(&[31u8]).is_err());
    assert!(HeaderValue::from_bytes(&[32u8]).is_ok());
    assert!(HeaderValue::from_bytes(&[255u8]).is_ok());
    assert!(HeaderValue::from_bytes(b"\n").is_err());
    assert!(HeaderValue::from_str("\n").is_err());
    assert!(HeaderValue::from_bytes(b"").unwrap().is_empty());
}

#[test]
fn predicates_differ_on_opaque_octets() {
    assert!(is_valid(200));
    assert!(!is_visible_ascii(200));
    assert!(is_valid(9) && is_visible_ascii(9));
    assert!(!is_valid(127) && !is_visible_ascii(127));
    assert!(is_valid(126) && is_visible_ascii(126));
    assert!(!is_valid(0) && !is_visible_ascii(0));
}

#[test]
fn bytes_round_trip() {
    let src: &[u8] = b"hello\xfa";
    let val = HeaderValue::from_bytes(src).unwrap();
    assert_eq!(val.as_bytes(), src);
    assert_eq!(val.len(), 6);
    assert!(!val.is_sensitive());
    let shared = HeaderValue::from_shared(Bytes::from(&b"abc"[..])).unwrap();
    assert_eq!(&shared.into_shared()[..], b"abc");
}

#[test]
fn shared_failure_kind() {
    let err = HeaderValue::from_shared(Bytes::from(&b"a\x7fb"[..])).err().unwrap();
    assert_eq!(err.description(), "failed to parse header value");
    let err = HeaderValue::from_bytes(b"a\x00").err().unwrap();
    assert_eq!(err.description(), "failed to parse header value");
}

#[test]
fn unchecked_takes_bytes_as_given() {
    let val = HeaderValue::from_shared_unchecked(Bytes::from_static(b"token"));
    assert_eq!(val.as_bytes(), b"token");
}

#[test]
fn text_view() {
    let val = HeaderValue::from_static("hello");
    assert_eq!(val.to_str().unwrap(), "hello");
    let tab = HeaderValue::from_bytes(b"a\tb").unwrap();
    assert_eq!(tab.to_str().unwrap(), "a\tb");
    let opaque = HeaderValue::from_bytes(b"hello\xfa").unwrap();
    let err = opaque.to_str().unwrap_err();
    assert_eq!(err.description(), "failed to convert header to a str");
    assert!(HeaderValue::from_static("").to_str().unwrap().is_empty());
}

#[test]
fn sensitivity_is_not_identity() {
    let mut a = HeaderValue::from_static("my secret");
    let b = HeaderValue::from_static("my secret");
    a.set_sensitive(true);
    assert!(a.is_sensitive());
    assert!(!b.is_sensitive());
    assert!(a == b);
    assert_eq!(a.partial_cmp(&b), Some(Ordering::Equal));
    assert_eq!(a.compare(&b), Ordering::Equal);
    a.set_sensitive(false);
    assert!(!a.is_sensitive());
    assert_eq!(a.clone().as_bytes(), b"my secret");
}

#[test]
fn sensitive_debug_hides_every_content() {
    let mut v = HeaderValue::from_bytes(b"\xff\x80").unwrap();
    assert_eq!(v.debug_string(), "\"\\xff\\x80\"");
    v.set_sensitive(true);
    assert_eq!(v.debug_string(), "Sensitive");
    let mut w = HeaderValue::from_static("");
    w.set_sensitive(true);
    assert_eq!(w.debug_string(), "Sensitive");
}

#[test]
fn debug_escapes_each_byte() {
    let v = HeaderValue::from_bytes(b"a\tb\x7f\x80\"").err().unwrap();
    assert_eq!(v.description(), "failed to parse header value");
    let v = HeaderValue::from_bytes(b"a\tb\x80\"").unwrap();
    assert_eq!(v.debug_string(), "\"a\tb\\x80\\\"\"");
    let v = HeaderValue::from_bytes(b"\xa0").unwrap();
    assert_eq!(v.debug_string(), "\"\\xa0\"");
    assert_eq!(HeaderValue::from_static("").debug_string(), "\"\"");
}

#[test]
fn ordering_is_lexicographic() {
    let a = HeaderValue::from_static("abc");
    let b = HeaderValue::from_static("abd");
    let p = HeaderValue::from_static("ab");
    assert!(a < b);
    assert!(p < a);
    assert_eq!(a.cmp_bytes(b"abc"), Ordering::Equal);
    assert_eq!(a.cmp_str("b"), Ordering::Less);
    assert_eq!(a.cmp_str("aa"), Ordering::Greater);
    assert!(a.eq_str("abc"));
    assert!(!a.eq_bytes(b"ab"));
}

#[test]
fn header_name_rules() {
    assert!(HeaderName::from_bytes(b"").is_err());
    assert!(HeaderName::from_bytes(b"Upgrade").is_err());
    assert!(HeaderName::from_bytes(b"x y").is_err());
    assert_eq!(HeaderName::from_bytes(b"x-token").unwrap().as_bytes(), b"x-token");
}

#[test]
fn compares_with_text_and_bytes() {
    let val = HeaderValue::from_static("hello");
    assert!(val == "hello");
    assert!("hello" == val);
    assert!(val != "hell");
    assert!(val == *"hello");
    assert!(val == b"hello"[..]);
    assert!(val < *"help");
    assert!(val > b"hell"[..]);
}

#[test]
fn parses_through_from_str() {
    let val: HeaderValue = "text/plain".parse().unwrap();
    assert!(val == "text/plain");
    assert!("bad\r".parse::<HeaderValue>().is_err());
}

#[test]
fn compares_from_either_side() {
    let val = HeaderValue::from_static("hello");
    let owned = String::from("hello");
    assert!(val == owned);
    assert!(owned == val);
    assert!(val == &owned);
    assert!(*"hello" == val);
    assert!(b"hello"[..] == val);
    assert!(&b"hello"[..] == val);
    assert!(val == &b"hello"[..]);
    assert!(String::from("help") > val);
    assert!(val < String::from("help"));
    assert!(*"hell" < val);
    assert!(b"hellp"[..] > val);
    assert!("a" < val);
    assert!(val > "a");
    assert!(&b"z"[..] > val);
    assert!(val != String::from("hell"));
}

#[test]
fn compares_through_references() {
    let a = HeaderValue::from_static("abc");
    let mut b = HeaderValue::from_static("abc");
    b.set_sensitive(true);
    let c = HeaderValue::from_static("abd");
    assert!(&a == b);
    assert!(a == &b);
    assert!(&a < c);
    assert!(c > &a);
    assert_eq!((&a).partial_cmp(&b), Some(Ordering::Equal));
}

fn hash_of(v: &HeaderValue) -> u64 {
    let mut h = DefaultHasher::new();
    v.hash(&mut h);
    h.finish()
}

#[test]
fn hash_ignores_sensitivity() {
    let a = HeaderValue::from_static("token");
    let mut b = HeaderValue::from_static("token");
    b.set_sensitive(true);
    assert_eq!(hash_of(&a), hash_of(&b));
    let mut set = HashSet::new();
    set.insert(a);
    assert!(set.contains(&b));
}
