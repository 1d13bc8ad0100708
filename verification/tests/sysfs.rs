use richtap_vibrator::logger::logging_enabled;
use richtap_vibrator::sysfs::{node_path, off, on, set_index, get_vibrator_prefix, Node, NodeWrite};

#[test]
fn on_stops_sets_duration_then_starts() {
    assert_eq!(
        on(40),
        vec![
            NodeWrite { node: Node::Activate, value: 0 },
            NodeWrite { node: Node::Duration, value: 40 },
            NodeWrite { node: Node::Activate, value: 1 },
        ]
    );
}

#[test]
fn off_and_index_writes() {
    assert_eq!(off(), vec![NodeWrite { node: Node::Activate, value: 0 }]);
    assert_eq!(set_index(5), vec![NodeWrite { node: Node::Index, value: 5 }]);
}

#[test]
fn node_names_and_paths() {
    assert_eq!(Node::Activate.file_name(), "activate");
    assert_eq!(Node::Duration.file_name(), "duration");
    assert_eq!(Node::Gain.file_name(), "gain");
    assert_eq!(Node::Index.file_name(), "index");
    assert_eq!(get_vibrator_prefix(true), "/sys/class/leds/vibrator_single/");
    assert_eq!(get_vibrator_prefix(false), "/sys/class/leds/vibrator/");
    assert_eq!(node_path(true, "gain"), "/sys/class/leds/vibrator_single/gain");
    assert_eq!(node_path(false, "activate"), "/sys/class/leds/vibrator/activate");
}

#[test]
fn logging_switch_values() {
    let mut buf = [0u8; 92];
    buf[0] = b'1';
    assert!(logging_enabled(&buf, 1));
    assert!(!logging_enabled(&buf, 0));
    assert!(!logging_enabled(&buf, -1));
    assert!(!logging_enabled(&buf, 2));
    buf[..4].copy_from_slice(b"true");
    assert!(logging_enabled(&buf, 4));
    assert!(!logging_enabled(&buf, 3));
    buf[..4].copy_from_slice(b"TRUE");
    assert!(!logging_enabled(&buf, 4));
    buf[0] = b'0';
    assert!(!logging_enabled(&buf, 1));
}
