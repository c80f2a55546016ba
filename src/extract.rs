//! Pulling the stream identifier and samples out of a signal data packet.
use vstd::prelude::*;
use crate::bits::words_to_bytes;
use crate::error::VitaError;
use crate::header::PacketType;
use crate::vrt::{Vrt, VrtModel, PayloadModel, decode_bytes, vrt_result_view};

verus! {

/// The stream identifier and sample bytes of a signal data packet.
#[derive(Clone, Debug, PartialEq, Eq)]
pub struct MySignalData {
    pub stream_id: u32,
    pub signal_data: Vec<u8>,
}

/// Parses `packet_data` and returns the stream identifier and samples of
/// the signal data packet (with stream identifier) it holds: the parse error
/// where it does not parse, `Err(SignalDataOnly)` for another packet type.
pub fn parse_vita49(packet_data: &[u8]) -> (r: Result<MySignalData, VitaError>)
    ensures
        decode_bytes(packet_data@) matches Err(e) ==> r == Err::<MySignalData, VitaError>(e),
        decode_bytes(packet_data@) matches Ok(v) ==> (v.header.packet_type != PacketType::SignalData
            ==> r == Err::<MySignalData, VitaError>(VitaError::SignalDataOnly)),
        decode_bytes(packet_data@) matches Ok(v) ==> (v.header.packet_type == PacketType::SignalData
            ==> (r matches Ok(s) && Some(s.stream_id) == v.stream_id
                && (v.payload matches PayloadModel::SignalData(w) && s.signal_data@ == words_to_bytes(w)))),
{
    let packet = Vrt::from_bytes(packet_data)?;
    if !matches!(packet.header().packet_type(), PacketType::SignalData) {
        return Err(VitaError::SignalDataOnly);
    }
    let stream_id = match packet.stream_id() {
        Some(s) => s,
        None => {
            return Err(VitaError::SignalDataOnly);
        },
    };
    let signal_data = packet.signal_payload()?;
    Ok(MySignalData { stream_id, signal_data })
}

} // verus!
