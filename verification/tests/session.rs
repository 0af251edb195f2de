use mptt::config::{ModbusPollingForm, ReadFunction};
use mptt::session::{ConnectOutcome, ConnectStatus, ConnectionKind, ModbusState};

#[test]
fn fresh_session_has_no_connection_and_default_configuration() {
    let s = ModbusState::new();
    assert!(s.context.is_none());
    assert!(s.get_last_poll_duration().is_none());
    assert_eq!(s.protocol_options.function_code, ReadFunction::ReadHoldingRegisters);
    assert_eq!(s.protocol_options.start_register, 1);
    assert_eq!(s.protocol_options.count, 5);
    assert!(!s.protocol_options.float32);
}

#[test]
fn successful_connect_installs_the_handle() {
    let mut s = ModbusState::new();
    let status = s.apply_connect_outcome(ConnectOutcome::Connected(ConnectionKind::Tcp));
    assert_eq!(status, ConnectStatus::Connected);
    assert_eq!(s.context, Some(ConnectionKind::Tcp));

    let status = s.apply_connect_outcome(ConnectOutcome::Connected(ConnectionKind::Serial));
    assert_eq!(status, ConnectStatus::Connected);
    assert_eq!(s.context, Some(ConnectionKind::Serial));
}

#[test]
fn failed_connect_clears_any_previous_handle() {
    let mut s = ModbusState::new();
    s.set_connection(ConnectionKind::Tcp);

    let status = s.apply_connect_outcome(ConnectOutcome::ConnectFailed);
    assert_eq!(status, ConnectStatus::ConnectError);
    assert!(s.context.is_none());

    s.set_connection(ConnectionKind::Tcp);
    let status = s.apply_connect_outcome(ConnectOutcome::AddressParseFailed);
    assert_eq!(status, ConnectStatus::AddressParseError);
    assert!(s.context.is_none());

    s.set_connection(ConnectionKind::Serial);
    let status = s.apply_connect_outcome(ConnectOutcome::SerialOpenFailed);
    assert_eq!(status, ConnectStatus::SerialOpenError);
    assert!(s.context.is_none());
}

#[test]
fn connect_outcome_leaves_configuration_and_timing_alone() {
    let mut s = ModbusState::new();
    s.record_poll_duration(1234);
    let opts_before = s.protocol_options;
    s.apply_connect_outcome(ConnectOutcome::Connected(ConnectionKind::Tcp));
    assert_eq!(s.protocol_options, opts_before);
    assert_eq!(s.get_last_poll_duration(), Some(1234));
}

#[test]
fn disconnect_twice_succeeds_both_times() {
    let mut s = ModbusState::new();
    s.set_connection(ConnectionKind::Tcp);
    s.disconnect();
    assert!(s.context.is_none());
    s.disconnect();
    assert!(s.context.is_none());
}

#[test]
fn disconnect_keeps_configuration_and_timing() {
    let mut s = ModbusState::new();
    s.set_connection(ConnectionKind::Serial);
    s.record_poll_duration(77);
    let opts_before = s.protocol_options;
    s.disconnect();
    assert!(s.context.is_none());
    assert_eq!(s.protocol_options, opts_before);
    assert_eq!(s.get_last_poll_duration(), Some(77));
}

#[test]
fn update_configuration_replaces_options_wholesale() {
    let mut s = ModbusState::new();
    s.set_connection(ConnectionKind::Tcp);
    s.record_poll_duration(5);
    s.update_configuration(&ModbusPollingForm {
        register: 10,
        count: 3,
        function: "1".to_owned(),
        float32: "int16".to_owned(),
    });
    assert_eq!(s.protocol_options.function_code, ReadFunction::ReadCoils);
    assert_eq!(s.protocol_options.start_register, 10);
    assert_eq!(s.protocol_options.count, 3);
    assert!(!s.protocol_options.float32);
    assert_eq!(s.context, Some(ConnectionKind::Tcp));
    assert_eq!(s.get_last_poll_duration(), Some(5));
}

#[test]
fn poll_duration_is_recorded_and_cleared() {
    let mut s = ModbusState::new();
    assert_eq!(s.get_last_poll_duration(), None);
    s.record_poll_duration(42);
    assert_eq!(s.get_last_poll_duration(), Some(42));
    s.record_poll_duration(43);
    assert_eq!(s.get_last_poll_duration(), Some(43));
    s.clear_poll_duration();
    assert_eq!(s.get_last_poll_duration(), None);
}
