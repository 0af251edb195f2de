//! Session state: the one owner of the live connection, the active read
//! configuration, and the last measured poll timing.
//!
//! Exactly one session exists per process; the caller serializes access to
//! it (the driver holds it behind an asynchronous mutual-exclusion lock).
//! The connection handle itself is transport state the driver keeps beside
//! this model: here the session records whether a connection is live and
//! which transport kind it is, and every operation states exactly how it
//! moves that record.

use vstd::prelude::*;

use crate::config::{
    ModbusPollingForm, ProtocolOpts, ReadFunction, parse_protocol_opts, selected_options,
};

verus! {

/// The transport kind of the live connection: a TCP socket, or a serial
/// port bound to a slave address for RTU framing.
#[derive(Clone, Copy, Debug, PartialEq, Eq, Structural)]
pub enum ConnectionKind {
    Tcp,
    Serial,
}

/// How a connection attempt ended: a handle of some kind was established,
/// the socket address did not parse, the TCP peer was unreachable or
/// refused, or the serial device could not be opened.
#[derive(Clone, Copy, Debug, PartialEq, Eq, Structural)]
pub enum ConnectOutcome {
    Connected(ConnectionKind),
    AddressParseFailed,
    ConnectFailed,
    SerialOpenFailed,
}

/// The status a connection attempt reports to the caller.
#[derive(Clone, Copy, Debug, PartialEq, Eq, Structural)]
pub enum ConnectStatus {
    Connected,
    AddressParseError,
    ConnectError,
    SerialOpenError,
}

/// The session: connection record, read configuration, and the last poll
/// duration in microseconds (`None` while unknown — before any successful
/// poll, and again after any failed one).
#[derive(Clone, Copy, Debug, PartialEq, Eq, Structural)]
pub struct ModbusState {
    pub context: Option<ConnectionKind>,
    pub poll_time: Option<u64>,
    pub protocol_options: ProtocolOpts,
}

/// The session as it stands after a disconnect: the connection record is
/// cleared, everything else is kept.
pub open spec fn disconnected_state(s: ModbusState) -> ModbusState {
    ModbusState { context: None, ..s }
}

/// Disconnecting is idempotent: a second disconnect moves the session
/// nowhere.
pub proof fn lemma_disconnect_idempotent(s: ModbusState)
    ensures
        disconnected_state(disconnected_state(s)) == disconnected_state(s),
{
}

impl ModbusState {
    /// A fresh session: no connection, no timing, and the initial read
    /// configuration — five holding registers from address 1, raw words.
    pub fn new() -> (r: ModbusState)
        ensures
            r.context is None,
            r.poll_time is None,
            r.protocol_options == (ProtocolOpts {
                function_code: ReadFunction::ReadHoldingRegisters,
                start_register: 1,
                count: 5,
                float32: false,
            }),
    {
        ModbusState {
            context: None,
            poll_time: None,
            protocol_options: ProtocolOpts {
                function_code: ReadFunction::ReadHoldingRegisters,
                start_register: 1,
                count: 5,
                float32: false,
            },
        }
    }

    /// Install a freshly connected handle, replacing any previous one.
    pub fn set_connection(&mut self, kind: ConnectionKind)
        ensures
            final(self).context == Some(kind),
            final(self).poll_time == old(self).poll_time,
            final(self).protocol_options == old(self).protocol_options,
    {
        self.context = Some(kind);
    }

    /// Drop the connection record, whether or not one was live.
    pub fn clear_connection(&mut self)
        ensures
            *final(self) == disconnected_state(*old(self)),
    {
        self.context = None;
    }

    /// Record how a connection attempt ended: success installs the new
    /// handle, any failure leaves the session with no connection. The
    /// configuration and timing are untouched either way.
    pub fn apply_connect_outcome(&mut self, outcome: ConnectOutcome) -> (r: ConnectStatus)
        ensures
            final(self).poll_time == old(self).poll_time,
            final(self).protocol_options == old(self).protocol_options,
            outcome matches ConnectOutcome::Connected(kind) ==> final(self).context == Some(kind)
                && r == ConnectStatus::Connected,
            outcome == ConnectOutcome::AddressParseFailed ==> final(self).context is None
                && r == ConnectStatus::AddressParseError,
            outcome == ConnectOutcome::ConnectFailed ==> final(self).context is None
                && r == ConnectStatus::ConnectError,
            outcome == ConnectOutcome::SerialOpenFailed ==> final(self).context is None
                && r == ConnectStatus::SerialOpenError,
    {
        match outcome {
            ConnectOutcome::Connected(kind) => {
                self.context = Some(kind);
                ConnectStatus::Connected
            },
            ConnectOutcome::AddressParseFailed => {
                self.context = None;
                ConnectStatus::AddressParseError
            },
            ConnectOutcome::ConnectFailed => {
                self.context = None;
                ConnectStatus::ConnectError
            },
            ConnectOutcome::SerialOpenFailed => {
                self.context = None;
                ConnectStatus::SerialOpenError
            },
        }
    }

    /// Disconnect. Succeeds unconditionally and is idempotent: with no
    /// live connection it is a no-op, not an error. Only this operation
    /// (and a failed connection attempt) clears the connection record —
    /// a failed exchange never does.
    pub fn disconnect(&mut self)
        ensures
            *final(self) == disconnected_state(*old(self)),
    {
        self.context = None;
    }

    /// Replace the read configuration wholesale with what the form
    /// selects. Total: never an error, whatever the selectors hold.
    pub fn update_configuration(&mut self, form: &ModbusPollingForm)
        ensures
            final(self).protocol_options == selected_options(
                form.register,
                form.count,
                form.function@,
                form.float32@,
            ),
            final(self).context == old(self).context,
            final(self).poll_time == old(self).poll_time,
    {
        self.protocol_options = parse_protocol_opts(form);
    }

    /// Record the duration of a completed poll cycle, in microseconds.
    pub fn record_poll_duration(&mut self, micros: u64)
        ensures
            final(self).poll_time == Some(micros),
            final(self).context == old(self).context,
            final(self).protocol_options == old(self).protocol_options,
    {
        self.poll_time = Some(micros);
    }

    /// Forget the last poll duration: the most recent cycle failed.
    pub fn clear_poll_duration(&mut self)
        ensures
            final(self).poll_time is None,
            final(self).context == old(self).context,
            final(self).protocol_options == old(self).protocol_options,
    {
        self.poll_time = None;
    }

    /// The duration of the most recent successful poll cycle, in
    /// microseconds, or `None` while unknown.
    pub fn get_last_poll_duration(&self) -> (r: Option<u64>)
        ensures
            r == self.poll_time,
    {
        self.poll_time
    }
}

} // verus!
