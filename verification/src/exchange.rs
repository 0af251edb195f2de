//! Protocol exchange engine: what to ask the transport, and what each
//! answer means.
//!
//! An exchange is split around the one step this crate cannot take — the
//! transport call itself. `poll_request` and `write_request` decide, from
//! the session alone, exactly which exchange to issue (or which input error
//! to report instead, before any transport work); `apply_poll_outcome` and
//! `write_result` take the raw outcome the transport produced and turn it
//! into the decoded sample or the reported failure, updating the session's
//! timing record. Transport-level failures (the exchange never completed)
//! and protocol-level exceptions (the device answered, rejecting the
//! request) stay distinct throughout, and neither ever clears the
//! connection record.

use vstd::prelude::*;

use crate::codec::{float32_bits, float32_bits_of, hex_render, hex_render_of};
use crate::config::{ModbusWriteForm, ProtocolOpts, ReadFunction};
use crate::session::ModbusState;

verus! {

/// One read exchange to issue: the function, the first register, and how
/// many registers to read.
#[derive(Clone, Copy, Debug, PartialEq, Eq, Structural)]
pub struct ReadRequest {
    pub function_code: ReadFunction,
    pub start_register: u16,
    pub count: u16,
}

/// One write exchange to issue: a single holding register, or a single
/// coil.
#[derive(Clone, Copy, Debug, PartialEq, Eq, Structural)]
pub enum WriteRequest {
    SingleRegister { register: u16, value: u16 },
    SingleCoil { register: u16, value: bool },
}

/// How the transport reported a failed exchange: it could not be carried
/// out at all (timeout, I/O error), or the device replied with a Modbus
/// exception. The message is the transport's own description.
#[derive(Clone, Debug)]
pub enum ExchangeFailure {
    Transport { message: String },
    Protocol { message: String },
}

/// Why a poll returned no sample.
#[derive(Clone, Debug)]
pub enum PollError {
    NotConnected,
    TransportFailure { message: String },
    ProtocolException { message: String },
}

/// Why a write was not performed, or how it failed.
#[derive(Clone, Debug)]
pub enum WriteError {
    NotConnected,
    InvalidWriteFunction,
    InvalidCoilValue,
    TransportFailure { message: String },
    ProtocolException { message: String },
}

/// One decoded value: a raw word with its hexadecimal rendering, or the
/// bit pattern of a float reconstructed from a register pair (the caller
/// reinterprets it with `f32::from_bits`).
#[derive(Clone, Debug)]
pub enum SampleValue {
    Word { value: u16, hex: String },
    Float32 { bits: u32 },
}

/// One decoded (register address, value) pair of a poll.
#[derive(Clone, Debug)]
pub struct Sample {
    pub address: u32,
    pub value: SampleValue,
}

/// How a word sequence read under a configuration decodes into samples.
///
/// With float decoding selected and at least two words returned, the words
/// pair up left to right — sample `i` holds the float bits of words `2*i`
/// and `2*i + 1` at address `start + 2*i`, an odd trailing word dropped.
/// Otherwise every word stands raw at address `start + i`, with its
/// hexadecimal rendering.
pub open spec fn decodes_to(opts: ProtocolOpts, words: Seq<u16>, samples: Seq<Sample>) -> bool {
    if opts.float32 && words.len() >= 2 {
        &&& samples.len() == words.len() / 2
        &&& forall|i: int|
            0 <= i < samples.len() ==> {
                &&& (#[trigger] samples[i]).address == opts.start_register + 2 * i
                &&& samples[i].value matches SampleValue::Float32 { bits } && bits
                    == float32_bits_of(words[2 * i], words[2 * i + 1])
            }
    } else {
        &&& samples.len() == words.len()
        &&& forall|i: int|
            0 <= i < samples.len() ==> {
                &&& (#[trigger] samples[i]).address == opts.start_register + i
                &&& samples[i].value matches SampleValue::Word { value, hex } && value == words[i]
                    && hex@ == hex_render_of(words[i])
            }
    }
}

/// Decode the words a read exchange returned into samples, per the
/// configuration the exchange was issued under.
///
/// A read exchange returns at most one word per requested register, and the
/// request's count is 16-bit, which bounds any response the engine asked
/// for.
pub fn decode_samples(opts: &ProtocolOpts, words: &Vec<u16>) -> (r: Vec<Sample>)
    requires
        words@.len() <= u16::MAX,
    ensures
        decodes_to(*opts, words@, r@),
{
    let mut out: Vec<Sample> = Vec::new();
    if opts.float32 && words.len() >= 2 {
        let pairs = words.len() / 2;
        let mut i: usize = 0;
        while i < pairs
            invariant
                pairs == words@.len() / 2,
                words@.len() <= u16::MAX,
                i <= pairs,
                out@.len() == i,
                forall|j: int|
                    0 <= j < i ==> {
                        &&& (#[trigger] out@[j]).address == opts.start_register + 2 * j
                        &&& out@[j].value matches SampleValue::Float32 { bits } && bits
                            == float32_bits_of(words@[2 * j], words@[2 * j + 1])
                    },
            decreases pairs - i,
        {
            let address: u32 = (opts.start_register as u32) + 2 * (i as u32);
            let bits = float32_bits(words[2 * i], words[2 * i + 1]);
            out.push(Sample { address, value: SampleValue::Float32 { bits } });
            i = i + 1;
        }
    } else {
        let mut i: usize = 0;
        while i < words.len()
            invariant
                words@.len() <= u16::MAX,
                i <= words@.len(),
                out@.len() == i,
                forall|j: int|
                    0 <= j < i ==> {
                        &&& (#[trigger] out@[j]).address == opts.start_register + j
                        &&& out@[j].value matches SampleValue::Word { value, hex } && value
                            == words@[j] && hex@ == hex_render_of(words@[j])
                    },
            decreases words@.len() - i,
        {
            let address: u32 = (opts.start_register as u32) + (i as u32);
            let value = words[i];
            let hex = hex_render(value);
            out.push(Sample { address, value: SampleValue::Word { value, hex } });
            i = i + 1;
        }
    }
    out
}

impl ModbusState {
    /// The read exchange the next poll must issue, from the session alone:
    /// exactly the active configuration's function, start and count — or
    /// `NotConnected`, before any transport work, when no connection is
    /// live. The session itself is never touched, so an unconnected poll
    /// leaves the last poll duration exactly as it was.
    pub fn poll_request(&self) -> (r: Result<ReadRequest, PollError>)
        ensures
            self.context is Some <==> r is Ok,
            r matches Ok(req) ==> req == (ReadRequest {
                function_code: self.protocol_options.function_code,
                start_register: self.protocol_options.start_register,
                count: self.protocol_options.count,
            }),
            r matches Err(e) ==> e is NotConnected,
    {
        match self.context {
            Some(_) => Ok(
                ReadRequest {
                    function_code: self.protocol_options.function_code,
                    start_register: self.protocol_options.start_register,
                    count: self.protocol_options.count,
                },
            ),
            None => Err(PollError::NotConnected),
        }
    }

    /// Apply what the transport returned for the poll's read exchange.
    ///
    /// Success decodes the words under the configuration the request was
    /// issued under and records the measured cycle duration; either kind
    /// of failure clears the duration to unknown and is reported as a
    /// result, never propagated — one bad cycle must not interrupt the
    /// polling cadence. The connection record is left as it stands in
    /// every case: only an explicit disconnect clears it.
    pub fn apply_poll_outcome(
        &mut self,
        outcome: Result<Vec<u16>, ExchangeFailure>,
        elapsed_micros: u64,
    ) -> (r: Result<Vec<Sample>, PollError>)
        requires
            outcome matches Ok(words) ==> words@.len() <= u16::MAX,
        ensures
            final(self).context == old(self).context,
            final(self).protocol_options == old(self).protocol_options,
            outcome matches Ok(words) ==> {
                &&& final(self).poll_time == Some(elapsed_micros)
                &&& r matches Ok(samples) && decodes_to(
                    old(self).protocol_options,
                    words@,
                    samples@,
                )
            },
            outcome matches Err(ExchangeFailure::Transport { message }) ==> {
                &&& final(self).poll_time is None
                &&& r matches Err(PollError::TransportFailure { message: m }) && m == message
            },
            outcome matches Err(ExchangeFailure::Protocol { message }) ==> {
                &&& final(self).poll_time is None
                &&& r matches Err(PollError::ProtocolException { message: m }) && m == message
            },
    {
        match outcome {
            Ok(words) => {
                let samples = decode_samples(&self.protocol_options, &words);
                self.poll_time = Some(elapsed_micros);
                Ok(samples)
            },
            Err(ExchangeFailure::Transport { message }) => {
                self.poll_time = None;
                Err(PollError::TransportFailure { message })
            },
            Err(ExchangeFailure::Protocol { message }) => {
                self.poll_time = None;
                Err(PollError::ProtocolException { message })
            },
        }
    }

    /// The write exchange a write form asks for, from the session alone.
    ///
    /// With no live connection, `NotConnected`. Selector `"6"` writes the
    /// value to a single holding register; `"5"` writes a single coil and
    /// accepts only the literal values `1` and `0`, rejecting anything
    /// else as `InvalidCoilValue`; any other selector is
    /// `InvalidWriteFunction`. Every rejection is decided here, before any
    /// transport work. The session is never touched.
    pub fn write_request(&self, form: &ModbusWriteForm) -> (r: Result<WriteRequest, WriteError>)
        ensures
            self.context is None ==> (r matches Err(e) && e is NotConnected),
            self.context is Some && form.write_function@ == "6"@ ==> r == Ok::<_, WriteError>(
                WriteRequest::SingleRegister { register: form.register, value: form.value },
            ),
            self.context is Some && form.write_function@ == "5"@ && form.value == 1 ==> r
                == Ok::<_, WriteError>(
                WriteRequest::SingleCoil { register: form.register, value: true },
            ),
            self.context is Some && form.write_function@ == "5"@ && form.value == 0 ==> r
                == Ok::<_, WriteError>(
                WriteRequest::SingleCoil { register: form.register, value: false },
            ),
            self.context is Some && form.write_function@ == "5"@ && form.value != 0 && form.value
                != 1 ==> (r matches Err(e) && e is InvalidCoilValue),
            self.context is Some && form.write_function@ != "6"@ && form.write_function@ != "5"@
                ==> (r matches Err(e) && e is InvalidWriteFunction),
    {
        proof {
            reveal_strlit("6");
            reveal_strlit("5");
            assert("6"@[0] == '6' && "5"@[0] == '5');
            assert("6"@ != "5"@);
        }
        if self.context.is_none() {
            return Err(WriteError::NotConnected);
        }
        if form.write_function == "6".to_owned() {
            Ok(WriteRequest::SingleRegister { register: form.register, value: form.value })
        } else if form.write_function == "5".to_owned() {
            if form.value == 1 {
                Ok(WriteRequest::SingleCoil { register: form.register, value: true })
            } else if form.value == 0 {
                Ok(WriteRequest::SingleCoil { register: form.register, value: false })
            } else {
                Err(WriteError::InvalidCoilValue)
            }
        } else {
            Err(WriteError::InvalidWriteFunction)
        }
    }
}

/// Report how the transport carried out a write exchange: success, or the
/// two failure kinds kept distinct. A write never touches the session —
/// neither the connection record nor the poll timing.
pub fn write_result(outcome: Result<(), ExchangeFailure>) -> (r: Result<(), WriteError>)
    ensures
        outcome is Ok <==> r is Ok,
        outcome matches Err(ExchangeFailure::Transport { message }) ==> r matches Err(
            WriteError::TransportFailure { message: m },
        ) && m == message,
        outcome matches Err(ExchangeFailure::Protocol { message }) ==> r matches Err(
            WriteError::ProtocolException { message: m },
        ) && m == message,
{
    match outcome {
        Ok(()) => Ok(()),
        Err(ExchangeFailure::Transport { message }) => Err(
            WriteError::TransportFailure { message },
        ),
        Err(ExchangeFailure::Protocol { message }) => Err(
            WriteError::ProtocolException { message },
        ),
    }
}

} // verus!
