use netsim_ng::{decode_ifr_name, encode_ifr_name, infer_prefix_len, ErrorClass, IfaceError, IpIfaceBuilder, SysOp};

#[test]
fn builder_starts_empty() {
    let b = IpIfaceBuilder::new();
    assert_eq!(b.requested_name(), "netsim");
    assert_eq!(b.ipv4_config(), None);
}

#[test]
fn builder_name_overrides_default() {
    let b = IpIfaceBuilder::new().name(String::from("tun7"));
    assert_eq!(b.requested_name(), "tun7");
    assert_eq!(b.ipv4_config(), None);
}

#[test]
fn builder_ipv4_infers_class_prefix() {
    let b = IpIfaceBuilder::new().ipv4_addr([10, 1, 2, 3]);
    assert_eq!(b.ipv4_config(), Some(([10, 1, 2, 3], 8)));
    let b = IpIfaceBuilder::new().ipv4_addr([192, 168, 5, 5]).name(String::from("x"));
    assert_eq!(b.ipv4_config(), Some(([192, 168, 5, 5], 24)));
    assert_eq!(b.requested_name(), "x");
}

#[test]
fn prefix_by_class() {
    assert_eq!(infer_prefix_len([0, 0, 0, 0]), 8);
    assert_eq!(infer_prefix_len([127, 0, 0, 1]), 8);
    assert_eq!(infer_prefix_len([128, 0, 0, 1]), 16);
    assert_eq!(infer_prefix_len([172, 16, 0, 1]), 16);
    assert_eq!(infer_prefix_len([191, 255, 0, 1]), 16);
    assert_eq!(infer_prefix_len([192, 0, 2, 1]), 24);
    assert_eq!(infer_prefix_len([223, 1, 1, 1]), 24);
    assert_eq!(infer_prefix_len([224, 0, 0, 1]), 32);
    assert_eq!(infer_prefix_len([255, 255, 255, 255]), 32);
}

#[test]
fn encode_default_name_is_nul_padded() {
    let v = encode_ifr_name("netsim").unwrap();
    let mut expected = b"netsim".to_vec();
    expected.resize(16, 0);
    assert_eq!(v, expected);
}

#[test]
fn encode_longest_name_fits() {
    let v = encode_ifr_name("abcdefghijklmno").unwrap();
    assert_eq!(v.len(), 16);
    assert_eq!(&v[..15], b"abcdefghijklmno");
    assert_eq!(v[15], 0);
}

#[test]
fn encode_rejects_long_name() {
    assert_eq!(encode_ifr_name("abcdefghijklmnop"), Err(IfaceError::NameTooLong));
    assert_eq!(IfaceError::NameTooLong.class(), ErrorClass::InvalidInput);
}

#[test]
fn encode_rejects_nul() {
    assert_eq!(encode_ifr_name("ne\0sim"), Err(IfaceError::NameContainsNul));
    assert_eq!(encode_ifr_name("abcdefghijklmnopq\0"), Err(IfaceError::NameContainsNul));
    assert_eq!(IfaceError::NameContainsNul.class(), ErrorClass::InvalidInput);
}

#[test]
fn encode_counts_bytes_not_chars() {
    // eight two-byte characters take sixteen bytes
    assert_eq!(encode_ifr_name("éééééééé"), Err(IfaceError::NameTooLong));
    let v = encode_ifr_name("ééééééé").unwrap();
    assert_eq!(&v[..14], "ééééééé".as_bytes());
}

#[test]
fn decode_stops_at_first_nul() {
    let mut buf = b"tun0".to_vec();
    buf.resize(16, 0);
    buf[10] = b'z';
    assert_eq!(decode_ifr_name(&buf).unwrap(), "tun0");
}

#[test]
fn decode_without_nul_takes_all() {
    assert_eq!(decode_ifr_name(b"abc").unwrap(), "abc");
    assert_eq!(decode_ifr_name(b"").unwrap(), "");
}

#[test]
fn decode_rejects_invalid_utf8() {
    let buf = [b'a', 0xff, 0, 0];
    assert_eq!(decode_ifr_name(&buf), Err(IfaceError::NameNotUtf8));
    assert_eq!(IfaceError::NameNotUtf8.class(), ErrorClass::InvalidData);
    let e = IfaceError::Os { op: SysOp::OpenControl, code: 13 };
    assert_eq!(e.class(), ErrorClass::Io);
}
