use snmp_monitor::plot::{PlotContext, Plottable};
use snmp_monitor::schema::MibObject;
use snmp_monitor::store::{frame_record, log_file_name, log_lines, replay_series};
use snmp_monitor::value::WireValue;
use snmp_monitor::walk::WalkResponse;

fn snapshot(timestamp: i64, in_receives: u32) -> MibObject {
    let mut s = MibObject::with_timestamp(timestamp);
    let responses = vec![WalkResponse {
        oid: vec![1, 3, 6, 1, 2, 1, 4, 3],
        outcome: Ok(vec![WireValue::Counter32(in_receives)]),
    }];
    s.walk(&responses);
    s
}

#[test]
fn replay_three_snapshots() {
    let snaps = vec![snapshot(100, 5), snapshot(130, 7), snapshot(160, 6)];
    let series = replay_series(&snaps, &vec![1, 3, 6, 1, 2, 1, 4, 3]);
    assert_eq!(series, vec![(100, 5), (130, 7), (160, 6)]);
}

#[test]
fn replay_skips_misses_and_keeps_order() {
    let snaps = vec![snapshot(100, 5), MibObject::with_timestamp(110), snapshot(120, 9)];
    let series = replay_series(&snaps, &vec![1, 3, 6, 1, 2, 1, 4, 3]);
    assert_eq!(series, vec![(100, 5), (120, 9)]);
    // text leaves are not plottable; unknown identifiers resolve to nothing
    assert!(replay_series(&snaps, &vec![1, 3, 6, 1, 2, 1, 1, 1]).is_empty());
    assert!(replay_series(&snaps, &vec![1, 3, 6, 1, 2, 1, 99, 1]).is_empty());
    assert!(replay_series(&vec![], &vec![1, 3, 6, 1, 2, 1, 4, 3]).is_empty());
}

#[test]
fn log_lines_skip_blank_lines() {
    let text = b"{\"a\":1}\n\n{\"b\":2}\r\n\r\n{\"c\":3}".to_vec();
    let lines = log_lines(&text);
    assert_eq!(lines, vec![b"{\"a\":1}".to_vec(), b"{\"b\":2}".to_vec(), b"{\"c\":3}".to_vec()]);
    assert!(log_lines(&vec![]).is_empty());
    assert!(log_lines(&b"\n\n".to_vec()).is_empty());
}

#[test]
fn framed_records_replay_in_order() {
    let mut text: Vec<u8> = Vec::new();
    for r in [b"one".to_vec(), b"two".to_vec(), b"three".to_vec()] {
        text.extend(frame_record(&r).unwrap());
    }
    assert_eq!(text, b"one\ntwo\nthree\n".to_vec());
    assert_eq!(log_lines(&text), vec![b"one".to_vec(), b"two".to_vec(), b"three".to_vec()]);
    assert!(frame_record(&b"a\nb".to_vec()).is_none());
}

#[test]
fn log_file_name_is_filesystem_safe() {
    assert_eq!(log_file_name("127.0.0.1"), "logs/MIB-log-127-0-0-1.log");
    assert_eq!(log_file_name(""), "logs/MIB-log-.log");
}

#[test]
fn plottable_tracks_points_and_maxima() {
    let s = snapshot(100, 5);
    let mut p = Plottable::new(s.ip.ipInReceives.clone()).unwrap();
    assert_eq!(p.name, "ipInReceives");
    assert_eq!(p.points_max, (0, 0));
    p.add((100, 5));
    p.add((130, -2));
    assert_eq!(p.points, vec![(100, 5), (130, -2)]);
    assert_eq!(p.points_max, (130, 5));
    assert!(Plottable::new(s.system.sysDesc.clone()).is_none());
    let ctx = PlotContext::new(vec![p]);
    assert_eq!(ctx.plottables.len(), 1);
    assert!(ctx.draggable && ctx.axes && ctx.scroll && ctx.zoom && ctx.legend && ctx.grid);
}

#[test]
fn plottable_follows_snapshots() {
    let mut p = Plottable::new(MibObject::with_timestamp(0).ip.ipInReceives.clone()).unwrap();
    p.add_snapshot(&snapshot(100, 5));
    p.add_snapshot(&MibObject::with_timestamp(110));
    p.add_snapshot(&snapshot(120, 3));
    assert_eq!(p.points, vec![(100, 5), (120, 3)]);
    assert_eq!(p.points_max, (120, 5));
}
