use mptt::config::{
    ModbusPollingForm, ModbusTcpForm, ReadFunction, decimal_render, parse_protocol_opts,
    socket_address_string,
};

fn form(function: &str, float32: &str) -> ModbusPollingForm {
    ModbusPollingForm {
        register: 1,
        count: 5,
        function: function.to_owned(),
        float32: float32.to_owned(),
    }
}

#[test]
fn selector_3_with_f32_selects_holding_float() {
    let opts = parse_protocol_opts(&form("3", "f32"));
    assert_eq!(opts.function_code, ReadFunction::ReadHoldingRegisters);
    assert!(opts.float32);
}

#[test]
fn selector_3_with_int16_selects_holding_raw() {
    let opts = parse_protocol_opts(&form("3", "int16"));
    assert_eq!(opts.function_code, ReadFunction::ReadHoldingRegisters);
    assert!(!opts.float32);
}

#[test]
fn selector_3_with_unknown_companion_selects_holding_raw() {
    let opts = parse_protocol_opts(&form("3", "mystery"));
    assert_eq!(opts.function_code, ReadFunction::ReadHoldingRegisters);
    assert!(!opts.float32);
}

#[test]
fn unrecognized_selector_defaults_to_holding_raw() {
    let opts = parse_protocol_opts(&form("banana", "f32"));
    assert_eq!(opts.function_code, ReadFunction::ReadHoldingRegisters);
    assert!(!opts.float32);
}

#[test]
fn selector_1_selects_coils_and_never_floats() {
    let opts = parse_protocol_opts(&form("1", "f32"));
    assert_eq!(opts.function_code, ReadFunction::ReadCoils);
    assert!(!opts.float32);
}

#[test]
fn selector_4_selects_input_registers_and_never_floats() {
    let opts = parse_protocol_opts(&form("4", "f32"));
    assert_eq!(opts.function_code, ReadFunction::ReadInputRegisters);
    assert!(!opts.float32);
}

#[test]
fn decimal_rendering_has_no_padding() {
    assert_eq!(decimal_render(0), "0");
    assert_eq!(decimal_render(7), "7");
    assert_eq!(decimal_render(10), "10");
    assert_eq!(decimal_render(5502), "5502");
    assert_eq!(decimal_render(65535), "65535");
}

#[test]
fn socket_address_joins_address_and_port_with_a_colon() {
    let form = ModbusTcpForm { address: "127.0.0.1".to_owned(), port: 5502 };
    assert_eq!(socket_address_string(&form), "127.0.0.1:5502");
    let form = ModbusTcpForm { address: "device.local".to_owned(), port: 502 };
    assert_eq!(socket_address_string(&form), "device.local:502");
}

#[test]
fn register_and_count_carry_over() {
    let opts = parse_protocol_opts(&ModbusPollingForm {
        register: 42,
        count: 99,
        function: "4".to_owned(),
        float32: "int16".to_owned(),
    });
    assert_eq!(opts.start_register, 42);
    assert_eq!(opts.count, 99);
}
