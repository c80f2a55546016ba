//! Encoding and decoding of ANSI/VITA 49.2 packets: signal data, context,
//! command and acknowledgement packets, with every field gated by its
//! indicator bit and laid out in descending bit order.
use vstd::prelude::*;

pub mod ack_response;
pub mod bits;
pub mod cam;
pub mod cif;
pub mod cif7;
pub mod cifs;
pub mod class_id;
pub mod command;
pub mod error;
pub mod extract;
pub mod fields;
pub mod header;
pub mod laws;
pub mod schema;
pub mod spectrum;
pub mod trailer;
pub mod vrt;

pub use crate::ack_response::AckResponse;
pub use crate::cam::{ActionMode, ControlAckMode, IdFormat, TimingControlMode};
pub use crate::cif::CifBlock;
pub use crate::cif7::Cif7;
pub use crate::cifs::CifSet;
pub use crate::class_id::ClassIdentifier;
pub use crate::command::{Ack, AckLevel, Command, CommandKind, CommandPayload};
pub use crate::error::VitaError;
pub use crate::extract::{parse_vita49, MySignalData};
pub use crate::fields::{DeviceId, Gain, Threshold};
pub use crate::header::{
    CommandIndicators, ContextIndicators, Indicators, PacketHeader, PacketType,
    SignalDataIndicators, TimestampMode, Tsf, Tsi,
};
pub use crate::schema::{FieldKind, Layout};
pub use crate::spectrum::{AveragingType, Spectrum, SpectrumType, WindowTimeDeltaInterpretation};
pub use crate::trailer::{SampleFrameIndicator, Trailer};
pub use crate::vrt::{Payload, SignalData, Vrt};

verus! {

/// The payload of a context packet.
pub type Context = CifSet;

/// The section of a control command.
pub type Control = CifSet;

/// The section of a cancellation command.
pub type Cancellation = CifSet;

/// The section of a query ACK.
pub type QueryAck = CifSet;

} // verus!
