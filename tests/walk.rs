use snmp_monitor::decode::WalkError;
use snmp_monitor::schema::MibObject;
use snmp_monitor::value::WireValue;
use snmp_monitor::walk::WalkResponse;

fn response(oid: &[u16], outcome: Result<Vec<WireValue>, WalkError>) -> WalkResponse {
    WalkResponse { oid: oid.to_vec(), outcome }
}

#[test]
fn walk_fills_interfaces() {
    let mut s = MibObject::with_timestamp(0);
    let responses = vec![
        response(&[1, 3, 6, 1, 2, 1, 2, 1], Ok(vec![WireValue::Integer(2)])),
        response(
            &[1, 3, 6, 1, 2, 1, 2, 2, 1, 2],
            Ok(vec![WireValue::String(b"eth0".to_vec()), WireValue::String(b"eth1".to_vec())]),
        ),
    ];
    s.walk(&responses);
    let n = s.find_oid(vec![1, 3, 6, 1, 2, 1, 2, 1]).unwrap();
    assert_eq!(n.as_mvinti32().unwrap().value, vec![2]);
    let d = s.find_oid(vec![1, 3, 6, 1, 2, 1, 2, 2, 1, 2, 1]).unwrap();
    assert_eq!(d.as_mvstring().unwrap().value, vec!["eth1".to_string()]);
    let d0 = s.find_oid(vec![1, 3, 6, 1, 2, 1, 2, 2, 1, 2, 0]).unwrap();
    assert_eq!(d0.as_mvstring().unwrap().value, vec!["eth0".to_string()]);
    assert!(s.find_oid(vec![1, 3, 6, 1, 2, 1, 2, 2, 1, 2, 2]).is_none());
    // a leaf without a response keeps its empty values
    assert!(s.interfaces.ifTable.ifType.as_mvinti32().unwrap().value.is_empty());
}

#[test]
fn walk_failure_leaves_sibling_populated() {
    let mut s = MibObject::with_timestamp(0);
    let responses = vec![
        response(&[1, 3, 6, 1, 2, 1, 1, 4], Err(WalkError::Transport)),
        response(&[1, 3, 6, 1, 2, 1, 1, 5], Ok(vec![WireValue::String(b"router".to_vec())])),
    ];
    s.walk(&responses);
    assert!(s.system.sysContact.as_mvstring().unwrap().value.is_empty());
    assert_eq!(s.system.sysName.as_mvstring().unwrap().value, vec!["router".to_string()]);
}

#[test]
fn leaf_walk_reports_missing_and_first_response_wins() {
    let mut s = MibObject::with_timestamp(0);
    assert_eq!(s.system.sysUpTime.walk(&vec![]), Err(WalkError::Missing));
    let responses = vec![
        response(&[1, 3, 6, 1, 2, 1, 1, 3], Ok(vec![WireValue::TimeTicks(5)])),
        response(&[1, 3, 6, 1, 2, 1, 1, 3], Ok(vec![WireValue::TimeTicks(6)])),
    ];
    assert_eq!(s.system.sysUpTime.walk(&responses), Ok(()));
    assert_eq!(s.system.sysUpTime.as_mvintu32().unwrap().value, vec![5]);
}
