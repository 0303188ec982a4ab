use ne4_konfig::event::UiCommand;
use ne4_konfig::ports::{get_ports, port_name_le, ports_changed, PortWatcher, PORT_SCAN_INTERVAL_MS};

fn names(list: &[&str]) -> Vec<String> {
    list.iter().map(|name| name.to_string()).collect()
}

#[test]
fn get_ports_sorts_and_leaves_out_the_unusable_port() {
    let found = names(&["/dev/ttyUSB1", "/dev/ttyS0", "/dev/ttyACM0", "/dev/ttyUSB0"]);
    assert_eq!(
        get_ports(found),
        names(&["/dev/ttyACM0", "/dev/ttyUSB0", "/dev/ttyUSB1"])
    );
}

#[test]
fn get_ports_of_nothing_is_nothing() {
    assert_eq!(get_ports(Vec::new()), Vec::<String>::new());
    assert_eq!(get_ports(names(&["/dev/ttyS0"])), Vec::<String>::new());
    assert_eq!(get_ports(names(&["/dev/ttyS0", "/dev/ttyS0"])), Vec::<String>::new());
}

#[test]
fn get_ports_keeps_names_that_only_resemble_the_unusable_one() {
    let found = names(&["/dev/ttyS01", "/dev/ttyS", "/dev/ttyS1", "/dev/ttys0"]);
    assert_eq!(
        get_ports(found),
        names(&["/dev/ttyS", "/dev/ttyS01", "/dev/ttyS1", "/dev/ttys0"])
    );
}

#[test]
fn get_ports_keeps_each_name_as_often_as_it_was_found() {
    let found = names(&["COM3", "COM1", "COM3"]);
    assert_eq!(get_ports(found), names(&["COM1", "COM3", "COM3"]));
}

#[test]
fn get_ports_orders_as_strings_compare() {
    let samples = [
        "", "a", "A", "ab", "aa", "b", "COM10", "COM2", "COM1", "/dev/ttyUSB10", "/dev/ttyUSB2",
        "é", "e", "z", "ß", "€", "😀", "~", " ", "\u{7f}", "\u{80}", "\u{7ff}", "\u{800}",
        "\u{ffff}", "\u{10000}", "/dev/ttyS0", "/dev/ttyS00",
    ];
    let found = names(&samples);
    let mut expected = found.clone();
    expected.sort();
    expected.retain(|name| name != "/dev/ttyS0");
    assert_eq!(get_ports(found), expected);
}

#[test]
fn get_ports_does_not_depend_on_the_order_found() {
    let one = get_ports(names(&["A", "B", "C", "/dev/ttyS0"]));
    let other = get_ports(names(&["C", "/dev/ttyS0", "B", "A"]));
    assert_eq!(one, other);
    assert_eq!(one, names(&["A", "B", "C"]));
}

#[test]
fn port_name_le_agrees_with_the_order_of_strings() {
    let samples = [
        "", "a", "A", "ab", "aa", "b", "COM10", "COM2", "é", "e", "€", "😀", "\u{7f}", "\u{80}",
        "\u{7ff}", "\u{800}", "\u{ffff}", "\u{10000}",
    ];
    for left in samples.iter() {
        for right in samples.iter() {
            let a = left.to_string();
            let b = right.to_string();
            assert_eq!(port_name_le(&a, &b), a <= b, "{:?} <= {:?}", a, b);
        }
    }
}

#[test]
fn port_name_le_puts_a_prefix_first() {
    assert!(port_name_le(&"COM1".to_string(), &"COM10".to_string()));
    assert!(!port_name_le(&"COM10".to_string(), &"COM1".to_string()));
    assert!(port_name_le(&"COM1".to_string(), &"COM1".to_string()));
}

#[test]
fn ports_changed_carries_the_port_set() {
    assert_eq!(
        ports_changed(names(&["B", "/dev/ttyS0", "A"])),
        UiCommand::UpdatePorts(names(&["A", "B"]))
    );
}

#[test]
fn watcher_first_tick_always_reports() {
    let mut watcher = PortWatcher::new();
    assert_eq!(
        watcher.tick(Vec::new()),
        Some(UiCommand::UpdatePorts(Vec::new()))
    );

    let mut watcher = PortWatcher::new();
    assert_eq!(
        watcher.tick(names(&["B", "A"])),
        Some(UiCommand::UpdatePorts(names(&["A", "B"])))
    );
}

#[test]
fn watcher_reports_a_port_that_appears_once() {
    let mut watcher = PortWatcher::new();
    let _ = watcher.tick(names(&["A", "B"]));
    assert_eq!(
        watcher.tick(names(&["A", "B", "C"])),
        Some(UiCommand::UpdatePorts(names(&["A", "B", "C"])))
    );
    assert_eq!(watcher.tick(names(&["A", "B", "C"])), None);
    assert_eq!(watcher.tick(names(&["C", "B", "A"])), None);
}

#[test]
fn watcher_is_silent_when_only_the_order_differs() {
    let mut watcher = PortWatcher::new();
    let _ = watcher.tick(names(&["A", "B"]));
    assert_eq!(watcher.tick(names(&["B", "A"])), None);
}

#[test]
fn watcher_is_silent_when_names_change_but_not_their_number() {
    let mut watcher = PortWatcher::new();
    let _ = watcher.tick(names(&["A", "B"]));
    assert_eq!(watcher.tick(names(&["A", "C"])), None);
    // the unusable port does not count
    assert_eq!(watcher.tick(names(&["A", "C", "/dev/ttyS0"])), None);
}

#[test]
fn watcher_reports_a_port_that_vanishes() {
    let mut watcher = PortWatcher::new();
    let _ = watcher.tick(names(&["A", "B", "C"]));
    assert_eq!(
        watcher.tick(names(&["C", "A"])),
        Some(UiCommand::UpdatePorts(names(&["A", "C"])))
    );
    assert_eq!(
        watcher.tick(Vec::new()),
        Some(UiCommand::UpdatePorts(Vec::new()))
    );
    assert_eq!(watcher.tick(Vec::new()), None);
}

#[test]
fn watcher_scans_ten_times_a_second() {
    assert_eq!(PORT_SCAN_INTERVAL_MS, 100);
}
