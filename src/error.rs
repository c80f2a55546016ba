use vstd::prelude::*;

verus! {

/// Every way an operation of this crate can fail.
#[derive(Clone, Copy, Debug, PartialEq, Eq, Structural)]
pub enum VitaError {
    /// The input is too short, declares more words than it holds, or uses a
    /// reserved packet type.
    Framing,
    /// The words consumed while parsing differ from the declared packet size.
    LengthMismatch,
    /// A signal data payload whose byte length is not a multiple of four.
    PayloadUneven32BitWords,
    /// A signal-data-only operation was used on another kind of packet.
    SignalDataOnly,
    /// A context-only operation was used on another kind of packet.
    ContextOnly,
    /// A command-only operation was used on another kind of packet.
    CommandOnly,
    /// A control-only operation was used on another kind of command.
    ControlOnly,
    /// A cancellation-only operation was used on another kind of command.
    CancellationOnly,
    /// A validation-ACK-only operation was used on another kind of command.
    ValidationAckOnly,
    /// An execution-ACK-only operation was used on another kind of command.
    ExecAckOnly,
    /// A query-ACK-only operation was used on another kind of command.
    QueryAckOnly,
    /// A timestamp value was given with a "none" mode, or no value with
    /// another mode.
    TimestampModeMismatch,
    /// A 32-bit identifier was set while the 128-bit one is present.
    TriedIdWhenUuidSet,
    /// A 128-bit identifier was set while the 32-bit one is present.
    TriedUuidWhenIdSet,
    /// A value lies outside the range its field can hold.
    OutOfRange,
    /// A reserved value or bit was written or read.
    ReservedField,
    /// A field whose layout this crate does not know was met.
    UnimplementedField { cif: u8, bit: u8 },
}

} // verus!
