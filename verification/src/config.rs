//! Read configuration and the forms that carry user input.
//!
//! A read configuration names one of the three read exchanges, the first
//! register address, how many registers to read, and whether register pairs
//! are decoded as 32-bit floats. It is replaced wholesale: the selector
//! strings of a polling form map onto it, and an unrecognized selector
//! falls back to a holding-register read of raw words — never an error.

use vstd::prelude::*;

verus! {

/// The three Modbus read exchanges the engine can issue.
#[derive(Clone, Copy, Debug, PartialEq, Eq, Structural)]
pub enum ReadFunction {
    ReadCoils,
    ReadInputRegisters,
    ReadHoldingRegisters,
}

/// The active read configuration: which exchange to issue, where it starts,
/// how many registers it covers, and whether pairs decode as floats.
#[derive(Clone, Copy, Debug, PartialEq, Eq, Structural)]
pub struct ProtocolOpts {
    pub function_code: ReadFunction,
    pub start_register: u16,
    pub count: u16,
    pub float32: bool,
}

/// Parameters of a serial connection attempt.
#[derive(Clone, Debug)]
pub struct ModbusSerialForm {
    pub com: String,
    pub baudrate: u32,
    pub slave: u8,
}

/// Parameters of a TCP connection attempt.
#[derive(Clone, Debug)]
pub struct ModbusTcpForm {
    pub address: String,
    pub port: usize,
}

/// Parameters of a single write: the register, the write-function
/// selector, the float32 selector (carried along, unused by writes), and
/// the value.
#[derive(Clone, Debug)]
pub struct ModbusWriteForm {
    pub register: u16,
    pub write_function: String,
    pub float32: String,
    pub value: u16,
}

/// Parameters of a configuration update: the first register, the count,
/// the read-function selector, and the float32 selector.
#[derive(Clone, Debug)]
pub struct ModbusPollingForm {
    pub register: u16,
    pub count: u16,
    pub function: String,
    pub float32: String,
}

/// Serial connection parameters and a polling configuration in one form.
#[derive(Clone, Debug)]
pub struct ModbusSerialFormInput {
    pub com: String,
    pub baudrate: u32,
    pub slave: u8,
    pub register: u16,
    pub count: u16,
    pub function: String,
    pub float32: String,
}

/// The read function a selector names: `"1"` reads coils, `"4"` reads
/// input registers, and everything else — `"3"` included — reads holding
/// registers.
pub open spec fn selected_function(sel: Seq<char>) -> ReadFunction {
    if sel == "1"@ {
        ReadFunction::ReadCoils
    } else if sel == "4"@ {
        ReadFunction::ReadInputRegisters
    } else {
        ReadFunction::ReadHoldingRegisters
    }
}

/// Float decoding is chosen only by selector `"3"` with companion `"f32"`.
pub open spec fn selected_float32(sel: Seq<char>, float32_sel: Seq<char>) -> bool {
    sel == "3"@ && float32_sel == "f32"@
}

/// The configuration a polling form selects.
pub open spec fn selected_options(
    register: u16,
    count: u16,
    sel: Seq<char>,
    float32_sel: Seq<char>,
) -> ProtocolOpts {
    ProtocolOpts {
        function_code: selected_function(sel),
        start_register: register,
        count: count,
        float32: selected_float32(sel, float32_sel),
    }
}

/// The decimal rendering of a non-negative number, no padding, most
/// significant digit first.
pub open spec fn decimal_render_of(n: int) -> Seq<char>
    decreases n,
{
    if n < 10 {
        seq![crate::codec::hex_digit_char_of(n)]
    } else {
        decimal_render_of(n / 10).push(crate::codec::hex_digit_char_of(n % 10))
    }
}

/// Render a number in decimal.
pub fn decimal_render(n: usize) -> (r: String)
    ensures
        r@ == decimal_render_of(n as int),
    decreases n,
{
    if n < 10 {
        let mut s = String::new();
        s.append(crate::codec::hex_digit_str(n as u16));
        proof {
            assert(s@ =~= decimal_render_of(n as int));
        }
        s
    } else {
        let mut s = decimal_render(n / 10);
        s.append(crate::codec::hex_digit_str((n % 10) as u16));
        proof {
            assert(s@ =~= decimal_render_of(n as int));
        }
        s
    }
}

/// The socket-address string a TCP form names: the address, a colon, and
/// the port in decimal — what the connector hands to the address parser.
pub fn socket_address_string(form: &ModbusTcpForm) -> (r: String)
    ensures
        r@ == form.address@ + seq![':'] + decimal_render_of(form.port as int),
{
    let mut s = form.address.clone();
    proof {
        reveal_strlit(":");
        assert(":"@ =~= seq![':']);
    }
    s.append(":");
    let port = decimal_render(form.port);
    s.append(port.as_str());
    proof {
        assert(s@ =~= form.address@ + seq![':'] + decimal_render_of(form.port as int));
    }
    s
}

/// Map a polling form onto a read configuration. Total: an unrecognized
/// function selector defaults to a raw holding-register read.
pub fn parse_protocol_opts(form: &ModbusPollingForm) -> (r: ProtocolOpts)
    ensures
        r == selected_options(form.register, form.count, form.function@, form.float32@),
{
    let function_code: ReadFunction = if form.function == "1".to_owned() {
        ReadFunction::ReadCoils
    } else if form.function == "4".to_owned() {
        ReadFunction::ReadInputRegisters
    } else {
        ReadFunction::ReadHoldingRegisters
    };
    let float32: bool = form.function == "3".to_owned() && form.float32 == "f32".to_owned();
    ProtocolOpts { function_code, start_register: form.register, count: form.count, float32 }
}

} // verus!
