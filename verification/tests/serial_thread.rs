use ne4_konfig::error::{CommError, ErrorKind};
use ne4_konfig::ports::sort_ports;
use ne4_konfig::ports::usable_ports;
use ne4_konfig::serial_thread::{
    SerialCommand, SerialResponse, SerialStep, SerialThread, DEFAULT_BAUD_RATE, LOOP_TIME_MS,
    PORT_SCAN_TIME_MS,
};

fn names(list: &[&str]) -> Vec<String> {
    list.iter().map(|name| name.to_string()).collect()
}

fn connected_to(name: &str) -> SerialThread {
    let mut manager = SerialThread::new();
    let step = manager.on_command(SerialCommand::ConnectToPort { name: name.to_string(), baud: 19200 });
    assert_eq!(step, SerialStep::Open { name: name.to_string(), baud: 19200 });
    assert_eq!(
        manager.on_opened(name.to_string(), Ok(())),
        SerialResponse::OpenPortSuccess(name.to_string())
    );
    manager
}

#[test]
fn serial_constants() {
    assert_eq!(PORT_SCAN_TIME_MS, 5000);
    assert_eq!(LOOP_TIME_MS, 10);
    assert_eq!(DEFAULT_BAUD_RATE, 9600);
}

#[test]
fn scan_is_due_after_more_than_five_seconds() {
    assert!(!SerialThread::scan_due(0));
    assert!(!SerialThread::scan_due(4999));
    assert!(!SerialThread::scan_due(5000));
    assert!(SerialThread::scan_due(5001));
    assert!(SerialThread::scan_due(u64::MAX));
}

#[test]
fn sort_ports_sorts_and_keeps_everything() {
    assert_eq!(
        sort_ports(names(&["COM3", "/dev/ttyS0", "COM1", "COM3"])),
        names(&["/dev/ttyS0", "COM1", "COM3", "COM3"])
    );
    assert_eq!(sort_ports(Vec::new()), Vec::<String>::new());
}

#[test]
fn usable_ports_keeps_the_order_found() {
    assert_eq!(
        usable_ports(&names(&["COM3", "/dev/ttyS0", "COM1", "/dev/ttyS0", "COM3"])),
        names(&["COM3", "COM1", "COM3"])
    );
    assert_eq!(usable_ports(&Vec::new()), Vec::<String>::new());
}

#[test]
fn connect_asks_for_the_port_to_be_opened() {
    let mut manager = SerialThread::new();
    assert_eq!(
        manager.on_command(SerialCommand::ConnectToPort { name: "COM4".to_string(), baud: 115200 }),
        SerialStep::Open { name: "COM4".to_string(), baud: 115200 }
    );
}

#[test]
fn open_failure_is_reported_and_nothing_is_open() {
    let mut manager = SerialThread::new();
    let _ = manager.on_command(SerialCommand::ConnectToPort { name: "COM4".to_string(), baud: 9600 });
    let error = CommError::new(ErrorKind::TransportUnavailable, "belegt".to_string());
    assert_eq!(
        manager.on_opened("COM4".to_string(), Err(error.duplicate())),
        SerialResponse::OpenPortError(error)
    );
    // nothing is open, so nothing can be lost
    assert_eq!(
        manager.on_scan(names(&["COM1"])),
        SerialResponse::PortsFound(names(&["COM1"]))
    );
}

#[test]
fn open_failure_keeps_the_port_that_was_open() {
    let mut manager = connected_to("COM1");
    let _ = manager.on_command(SerialCommand::ConnectToPort { name: "COM4".to_string(), baud: 9600 });
    let error = CommError::new(ErrorKind::TransportUnavailable, "belegt".to_string());
    let _ = manager.on_opened("COM4".to_string(), Err(error));
    // COM1 is still the open port: its loss is noticed
    assert_eq!(
        manager.on_scan(names(&["COM4"])),
        SerialResponse::UnexpectedDisconnection(names(&["COM4"]))
    );
}

#[test]
fn change_port_does_nothing() {
    let mut manager = connected_to("COM1");
    assert_eq!(
        manager.on_command(SerialCommand::ChangePort("COM2".to_string())),
        SerialStep::Nothing
    );
    assert_eq!(
        manager.on_scan(names(&["COM2", "COM1"])),
        SerialResponse::PortsFound(names(&["COM1", "COM2"]))
    );
}

#[test]
fn disconnect_forgets_the_port() {
    let mut manager = connected_to("COM1");
    assert_eq!(
        manager.on_command(SerialCommand::Disconnect),
        SerialStep::Reply(SerialResponse::DisconnectSuccess)
    );
    assert_eq!(
        manager.on_scan(names(&["COM2"])),
        SerialResponse::PortsFound(names(&["COM2"]))
    );
}

#[test]
fn scan_reports_the_ports_sorted() {
    let mut manager = SerialThread::new();
    assert_eq!(
        manager.on_scan(names(&["/dev/ttyUSB1", "/dev/ttyS0", "/dev/ttyACM0"])),
        SerialResponse::PortsFound(names(&["/dev/ttyACM0", "/dev/ttyS0", "/dev/ttyUSB1"]))
    );
    assert_eq!(manager.on_scan(Vec::new()), SerialResponse::PortsFound(Vec::new()));
}

#[test]
fn scan_finds_the_open_port_wherever_it_stands() {
    let all = ["A", "B", "C", "D", "E", "F", "G"];
    for open in all.iter() {
        let mut manager = connected_to(open);
        assert_eq!(
            manager.on_scan(names(&["G", "C", "A", "F", "B", "E", "D"])),
            SerialResponse::PortsFound(names(&all))
        );
    }
}

#[test]
fn scan_notices_the_loss_of_the_open_port() {
    let all = ["A", "B", "C", "D", "E", "F", "G"];
    for lost in all.iter() {
        let mut manager = connected_to(lost);
        let left: Vec<&str> = all.iter().filter(|name| *name != lost).cloned().collect();
        let mut found = names(&left);
        found.reverse();
        assert_eq!(
            manager.on_scan(found),
            SerialResponse::UnexpectedDisconnection(names(&left))
        );
        // the loss is reported once: the port is given up
        assert_eq!(
            manager.on_scan(names(&left)),
            SerialResponse::PortsFound(names(&left))
        );
    }
}

#[test]
fn scan_with_no_ports_loses_the_open_port() {
    let mut manager = connected_to("COM1");
    assert_eq!(
        manager.on_scan(Vec::new()),
        SerialResponse::UnexpectedDisconnection(Vec::new())
    );
}
