use snmp_monitor::poll::TargetSwitch;

#[test]
fn target_switch_retries_until_connected() {
    let mut s: TargetSwitch<(String, String)> = TargetSwitch::new();
    assert!(s.to_connect().is_none());
    s.request(("10.0.0.1".to_string(), "public".to_string()));
    s.request(("10.0.0.2".to_string(), "private".to_string()));
    assert_eq!(s.to_connect(), Some(&("10.0.0.2".to_string(), "private".to_string())));
    s.connected(false);
    assert_eq!(s.to_connect(), Some(&("10.0.0.2".to_string(), "private".to_string())));
    s.connected(true);
    assert!(s.to_connect().is_none());
}
