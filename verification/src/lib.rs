//! Modbus session manager and polling engine.
//!
//! The crate owns the model of one Modbus client session: the active read
//! configuration, the presence and kind of the single live connection, and
//! the most recent poll timing. It decodes raw 16-bit register words into
//! presentable samples, reconstructing 32-bit float bit patterns from
//! register pairs, and decides every protocol exchange (what to read, what
//! to write, how to apply an outcome). The transport itself — TCP or
//! serial/RTU sockets — lives outside, in the thin driver around this
//! library: the driver performs each exchange this crate asks for and hands
//! the raw outcome back.

pub mod codec;
pub mod config;
pub mod exchange;
pub mod session;
