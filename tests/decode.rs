use snmp_monitor::decode::{decode_ipv6, decode_mac, decode_text, parse_field, split_fields, WalkError};
use snmp_monitor::value::{MibValue, WireValue};

fn leaf(kind: &str) -> MibValue {
    let parent: Vec<u16> = vec![1, 3, 6, 1, 2, 1, 1];
    match kind {
        "string" => MibValue::declare_string("s", &parent, 1, false),
        "inti32" => MibValue::declare_inti32("i", &parent, 2, false),
        "intu32" => MibValue::declare_intu32("u", &parent, 3, false),
        "intu64" => MibValue::declare_intu64("w", &parent, 4, false),
        "oid" => MibValue::declare_oid("o", &parent, 5, false),
        "ipv4" => MibValue::declare_ipv4("a", &parent, 6, false),
        "mac" => MibValue::declare_mac("m", &parent, 7, false),
        _ => MibValue::declare_ipv6("v", &parent, 8, false),
    }
}

#[test]
fn parse_field_reads_unsigned_decimals() {
    assert_eq!(parse_field(b"12"), Some(12));
    assert_eq!(parse_field(b"+7"), Some(7));
    assert_eq!(parse_field(b"0065535"), Some(65535));
    assert_eq!(parse_field(b"65536"), None);
    assert_eq!(parse_field(b""), None);
    assert_eq!(parse_field(b"+"), None);
    assert_eq!(parse_field(b"1a"), None);
    assert_eq!(parse_field(b"-1"), None);
}

#[test]
fn split_fields_splits_on_dots() {
    assert_eq!(split_fields(b"1.2.3"), vec![1, 2, 3]);
    assert_eq!(split_fields(b"a.5"), vec![0, 5]);
    assert_eq!(split_fields(b""), vec![0]);
    assert_eq!(split_fields(b"7."), vec![7, 0]);
}

#[test]
fn text_decode_substitutes_err() {
    assert_eq!(decode_text(&WireValue::String(b"eth0".to_vec())), "eth0");
    assert_eq!(decode_text(&WireValue::Opaque(b"x".to_vec())), "x");
    assert_eq!(decode_text(&WireValue::String(vec![0xff, 0xfe])), "err");
    assert_eq!(decode_text(&WireValue::Integer(3)), "err");
}

#[test]
fn tuple_decode_reads_dotted_text() {
    assert_eq!(decode_mac(&WireValue::String(b"1.2.3.4.5.6".to_vec())), (1, 2, 3, 4, 5, 6));
    assert_eq!(decode_mac(&WireValue::String(b"1.2.3".to_vec())), (0, 0, 0, 0, 0, 0));
    assert_eq!(decode_mac(&WireValue::String(b"1.x.3.4.5.6".to_vec())), (1, 0, 3, 4, 5, 6));
    assert_eq!(decode_mac(&WireValue::Integer(1)), (0, 0, 0, 0, 0, 0));
    assert_eq!(decode_ipv6(&WireValue::String(b"1.2.3.4.5.6.7.8".to_vec())), (1, 2, 3, 4, 5, 6, 7, 8));
    assert_eq!(decode_ipv6(&WireValue::String(vec![0xff])), (0, 0, 0, 0, 0, 0, 0, 0));
}

#[test]
fn decode_substitutes_malformed_elements() {
    let mut v = leaf("inti32");
    v.decode(&vec![WireValue::Integer(5), WireValue::Counter32(3), WireValue::Integer(-2)]);
    assert_eq!(v.as_mvinti32().unwrap().value, vec![5, 0, -2]);

    let mut u = leaf("intu32");
    u.decode(&vec![WireValue::TimeTicks(9), WireValue::Counter64(1), WireValue::Unsigned32(4)]);
    assert_eq!(u.as_mvintu32().unwrap().value, vec![9, 0, 4]);

    let mut w = leaf("intu64");
    w.decode(&vec![WireValue::Counter32(7), WireValue::Counter64(1 << 40), WireValue::Integer(1)]);
    assert_eq!(w.as_mvintu64().unwrap().value, vec![7, 1 << 40, 0]);

    let mut s = leaf("string");
    s.decode(&vec![WireValue::String(b"up".to_vec()), WireValue::Integer(1)]);
    assert_eq!(s.as_mvstring().unwrap().value, vec!["up".to_string(), "err".to_string()]);

    let mut o = leaf("oid");
    o.decode(&vec![WireValue::ObjectId(vec![1, 3, 300]), WireValue::Integer(1)]);
    assert_eq!(o.as_mvoid().unwrap().value, vec![vec![1, 3, 44], vec![]]);

    let mut a = leaf("ipv4");
    a.decode(&vec![WireValue::IpAddress(10, 0, 0, 1), WireValue::String(b"10.0.0.1".to_vec())]);
    assert_eq!(a.as_mvipv4().unwrap().value, vec![(10, 0, 0, 1), (0, 0, 0, 0)]);

    let mut m = leaf("mac");
    m.decode(&vec![WireValue::String(b"0.1.2.3.4.5".to_vec()), WireValue::Counter32(1)]);
    assert_eq!(m.as_mvmac().unwrap().value, vec![(0, 1, 2, 3, 4, 5), (0, 0, 0, 0, 0, 0)]);
}

#[test]
fn apply_walk_keeps_values_on_error() {
    let mut v = leaf("inti32");
    assert_eq!(v.apply_walk(&Ok(vec![WireValue::Integer(8)])), Ok(()));
    assert_eq!(v.apply_walk(&Err(WalkError::Transport)), Err(WalkError::Transport));
    assert_eq!(v.as_mvinti32().unwrap().value, vec![8]);
}

#[test]
fn clone_index_yields_one_row() {
    let mut s = leaf("string");
    s.decode(&vec![WireValue::String(b"a".to_vec()), WireValue::String(b"b".to_vec())]);
    let row = s.clone_index(1).unwrap();
    let m = row.as_mvstring().unwrap();
    assert_eq!(m.value, vec!["b".to_string()]);
    assert_eq!(m.name, "s");
    assert_eq!(m.oid, vec![1, 3, 6, 1, 2, 1, 1, 1]);
    assert!(s.clone_index(2).is_none());
    assert_eq!(s.value_count(), 2);
}

#[test]
fn numeric_values_widen() {
    let mut u = leaf("intu32");
    u.decode(&vec![WireValue::Counter32(u32::MAX)]);
    assert_eq!(u.val_as_mvinti64(), Some(vec![u32::MAX as i64]));
    assert_eq!(leaf("string").val_as_mvinti64(), None);
}
