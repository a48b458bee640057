use snmp_monitor::oid::{oid_string, request_identifier};
use snmp_monitor::schema::MibObject;
use std::collections::HashSet;

#[test]
fn schema_identifiers_are_unique() {
    let s = MibObject::with_timestamp(0);
    let oids = s.leaf_oids();
    assert_eq!(oids.len(), 175);
    let set: HashSet<Vec<u16>> = oids.iter().cloned().collect();
    assert_eq!(set.len(), oids.len());
    assert_eq!(oids[0], vec![1, 3, 6, 1, 2, 1, 1, 1]);
    assert_eq!(oids[oids.len() - 1], vec![1, 3, 6, 1, 2, 1, 11, 30]);
}

#[test]
fn schema_declares_names_and_groups() {
    let s = MibObject::with_timestamp(42);
    assert_eq!(s.timestamp, 42);
    assert_eq!(s.oid, vec![1, 3, 6, 1, 2, 1]);
    assert_eq!(s.ip.ipRouteTable.oid, vec![1, 3, 6, 1, 2, 1, 4, 21]);
    let d = s.interfaces.ifTable.ifDescr.as_mvstring().unwrap();
    assert_eq!(d.name, "ifDescr");
    assert_eq!(d.oid, vec![1, 3, 6, 1, 2, 1, 2, 2, 1, 2]);
    assert!(!d.mutable);
    assert!(d.value.is_empty());
    assert!(s.system.sysContact.as_mvstring().unwrap().mutable);
    assert_eq!(s.snmp.snmpOutGenErrs.get_oid(), vec![1, 3, 6, 1, 2, 1, 11, 24]);
    assert_eq!(s.transmission.get_oid(), vec![1, 3, 6, 1, 2, 1, 10]);
}

#[test]
fn find_oid_resolves_scalars() {
    let s = MibObject::new();
    let r = s.find_oid(vec![1, 3, 6, 1, 2, 1, 1, 5]).unwrap();
    assert_eq!(r.as_mvstring().unwrap().name, "sysName");
    let r0 = s.find_oid(vec![1, 3, 6, 1, 2, 1, 1, 5, 0]).unwrap();
    assert_eq!(r0.as_mvstring().unwrap().name, "sysName");
    let t = s.find_oid(vec![1, 3, 6, 1, 2, 1, 10]).unwrap();
    assert_eq!(t.as_mvoid().unwrap().name, "transmission");
    let e = s.find_oid(vec![1, 3, 6, 1, 2, 1, 8, 6]).unwrap();
    assert_eq!(e.as_mvinti32().unwrap().name, "egpAs");
}

#[test]
fn find_oid_misses() {
    let s = MibObject::new();
    assert!(s.find_oid(vec![1, 3, 6, 1, 2, 1, 99, 1]).is_none());
    assert!(s.find_oid(vec![1, 3, 6, 1, 2, 1, 1, 99]).is_none());
    assert!(s.find_oid(vec![1, 3, 6]).is_none());
    assert!(s.find_oid(vec![1, 3, 6, 1, 2, 1, 1]).is_none());
    assert!(s.find_oid(vec![]).is_none());
    // no rows walked yet
    assert!(s.find_oid(vec![1, 3, 6, 1, 2, 1, 2, 2, 1, 2, 0]).is_none());
}

#[test]
fn oid_text_and_request_identifier() {
    assert_eq!(oid_string(&[1, 3, 6, 1, 2, 1, 65535]), "1.3.6.1.2.1.65535");
    assert_eq!(oid_string(&[]), "");
    let s = MibObject::with_timestamp(0);
    assert_eq!(s.system.sysDesc.oid(), "1.3.6.1.2.1.1.1");
    assert!(request_identifier(&[1, 3, 6, 1, 2, 1, 1, 1]).is_some());
    assert!(request_identifier(&vec![1u16; 128]).is_some());
    assert!(request_identifier(&vec![1u16; 129]).is_none());
}

#[test]
fn has_oid_compares_exactly() {
    let s = MibObject::with_timestamp(0);
    assert!(s.system.sysName.has_oid(&[1, 3, 6, 1, 2, 1, 1, 5]));
    assert!(!s.system.sysName.has_oid(&[1, 3, 6, 1, 2, 1, 1, 5, 0]));
}
