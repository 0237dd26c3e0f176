use epd2in7::driver::DriverError;
use epd2in7::driver::Epd2in7;
use epd2in7::interface::BusError;
use epd2in7::interface::BusEvent;
use epd2in7::interface::DisplayInterface;
use epd2in7::recorder::RecordingInterface;

#[test]
fn recorder_busy_line_is_scriptable() {
    let mut rec = RecordingInterface::new();
    rec.busy = true;
    assert!(rec.is_busy(true));
    rec.wait_until_idle(true);
    assert!(!rec.is_busy(true));
    assert_eq!(rec.events, vec![BusEvent::BusyWait]);
}

#[test]
fn recorder_primitives_record_per_byte() {
    let mut rec = RecordingInterface::new();
    rec.reset(2);
    rec.cmd(0x55).unwrap();
    rec.data(&[1, 2]).unwrap();
    rec.data_x_times(7, 3).unwrap();
    assert_eq!(
        rec.events,
        vec![
            BusEvent::Reset,
            BusEvent::Command(0x55),
            BusEvent::Data(1),
            BusEvent::Data(2),
            BusEvent::Data(7),
            BusEvent::Data(7),
            BusEvent::Data(7),
        ]
    );
}

#[test]
fn failed_transmissions_record_nothing() {
    let mut rec = RecordingInterface::new();
    rec.fail = true;
    assert_eq!(rec.cmd(0x55), Err(BusError));
    assert_eq!(rec.data(&[1, 2]), Err(BusError));
    assert_eq!(rec.data_x_times(7, 3), Err(BusError));
    assert!(rec.events.is_empty());
}

#[test]
fn controller_probe_reflects_busy_line() {
    // Initialization ends in a busy-wait, after which the line is ready.
    let epd = Epd2in7::new(RecordingInterface::new()).unwrap();
    assert!(!epd.is_busy());
}

#[test]
fn bus_failure_surfaces_as_bus_error() {
    let mut rec = RecordingInterface::new();
    rec.fail = true;
    match Epd2in7::new(rec) {
        Err(DriverError::Bus(BusError)) => {}
        other => panic!("expected a bus error, got ok = {}", other.is_ok()),
    }
}
