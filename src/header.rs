//! The packet header word: packet type, class-id flag, three type-specific
//! indicator bits, timestamp kinds, packet counter and packet size.
use vstd::prelude::*;
use crate::error::VitaError;

verus! {

/// The 4-bit packet type; codes 8 to 15 are reserved.
#[derive(Clone, Copy, Debug, PartialEq, Eq, Hash, Structural)]
pub enum PacketType {
    SignalDataWithoutStreamId,
    SignalData,
    ExtensionDataWithoutStreamId,
    ExtensionData,
    Context,
    ExtensionContext,
    Command,
    ExtensionCommand,
}

pub open spec fn packet_type_code(t: PacketType) -> u32 {
    match t {
        PacketType::SignalDataWithoutStreamId => 0,
        PacketType::SignalData => 1,
        PacketType::ExtensionDataWithoutStreamId => 2,
        PacketType::ExtensionData => 3,
        PacketType::Context => 4,
        PacketType::ExtensionContext => 5,
        PacketType::Command => 6,
        PacketType::ExtensionCommand => 7,
    }
}

pub open spec fn packet_type_of_code(c: u32) -> Option<PacketType> {
    if c == 0 {
        Some(PacketType::SignalDataWithoutStreamId)
    } else if c == 1 {
        Some(PacketType::SignalData)
    } else if c == 2 {
        Some(PacketType::ExtensionDataWithoutStreamId)
    } else if c == 3 {
        Some(PacketType::ExtensionData)
    } else if c == 4 {
        Some(PacketType::Context)
    } else if c == 5 {
        Some(PacketType::ExtensionContext)
    } else if c == 6 {
        Some(PacketType::Command)
    } else if c == 7 {
        Some(PacketType::ExtensionCommand)
    } else {
        None
    }
}

/// Whether packets of this type carry signal data.
pub open spec fn is_signal_type(t: PacketType) -> bool {
    t == PacketType::SignalData || t == PacketType::SignalDataWithoutStreamId
        || t == PacketType::ExtensionData || t == PacketType::ExtensionDataWithoutStreamId
}

/// Whether packets of this type carry a stream identifier.
pub open spec fn has_stream_id(t: PacketType) -> bool {
    t != PacketType::SignalDataWithoutStreamId && t != PacketType::ExtensionDataWithoutStreamId
}

impl PacketType {
    /// The type's 4-bit code.
    pub fn code(self) -> (r: u32)
        ensures
            r == packet_type_code(self),
    {
        match self {
            PacketType::SignalDataWithoutStreamId => 0,
            PacketType::SignalData => 1,
            PacketType::ExtensionDataWithoutStreamId => 2,
            PacketType::ExtensionData => 3,
            PacketType::Context => 4,
            PacketType::ExtensionContext => 5,
            PacketType::Command => 6,
            PacketType::ExtensionCommand => 7,
        }
    }

    /// The type with code `c`; `Err(Framing)` for a reserved code.
    pub fn try_from(c: u32) -> (r: Result<PacketType, VitaError>)
        ensures
            packet_type_of_code(c) matches Some(t) ==> r == Ok::<PacketType, VitaError>(t),
            packet_type_of_code(c) is None ==> r == Err::<PacketType, VitaError>(VitaError::Framing),
    {
        if c == 0 {
            Ok(PacketType::SignalDataWithoutStreamId)
        } else if c == 1 {
            Ok(PacketType::SignalData)
        } else if c == 2 {
            Ok(PacketType::ExtensionDataWithoutStreamId)
        } else if c == 3 {
            Ok(PacketType::ExtensionData)
        } else if c == 4 {
            Ok(PacketType::Context)
        } else if c == 5 {
            Ok(PacketType::ExtensionContext)
        } else if c == 6 {
            Ok(PacketType::Command)
        } else if c == 7 {
            Ok(PacketType::ExtensionCommand)
        } else {
            Err(VitaError::Framing)
        }
    }

    /// Whether packets of this type carry signal data.
    pub fn has_signal_data_payload(&self) -> (r: bool)
        ensures
            r == is_signal_type(*self),
    {
        matches!(
            self,
            PacketType::SignalData | PacketType::ExtensionData | PacketType::SignalDataWithoutStreamId
                | PacketType::ExtensionDataWithoutStreamId
        )
    }

    /// Whether packets of this type carry a context payload.
    pub fn has_context_payload(&self) -> (r: bool)
        ensures
            r == (*self == PacketType::Context || *self == PacketType::ExtensionContext),
    {
        matches!(self, PacketType::Context | PacketType::ExtensionContext)
    }

    /// Whether packets of this type carry a command payload.
    pub fn has_command_payload(&self) -> (r: bool)
        ensures
            r == (*self == PacketType::Command || *self == PacketType::ExtensionCommand),
    {
        matches!(self, PacketType::Command | PacketType::ExtensionCommand)
    }
}

/// Kind of the integer timestamp (TSI).
#[derive(Clone, Copy, Debug, PartialEq, Eq, Hash, Structural)]
pub enum Tsi {
    Null,
    Utc,
    Gps,
    Other,
}

/// Kind of the fractional timestamp (TSF).
#[derive(Clone, Copy, Debug, PartialEq, Eq, Hash, Structural)]
pub enum Tsf {
    Null,
    SampleCount,
    RealTimePs,
    FreeRunningCount,
}

pub open spec fn tsi_code(t: Tsi) -> u32 {
    match t {
        Tsi::Null => 0,
        Tsi::Utc => 1,
        Tsi::Gps => 2,
        Tsi::Other => 3,
    }
}

pub open spec fn tsf_code(t: Tsf) -> u32 {
    match t {
        Tsf::Null => 0,
        Tsf::SampleCount => 1,
        Tsf::RealTimePs => 2,
        Tsf::FreeRunningCount => 3,
    }
}

pub open spec fn tsi_of_code(c: u32) -> Tsi {
    if c == 0 {
        Tsi::Null
    } else if c == 1 {
        Tsi::Utc
    } else if c == 2 {
        Tsi::Gps
    } else {
        Tsi::Other
    }
}

pub open spec fn tsf_of_code(c: u32) -> Tsf {
    if c == 0 {
        Tsf::Null
    } else if c == 1 {
        Tsf::SampleCount
    } else if c == 2 {
        Tsf::RealTimePs
    } else {
        Tsf::FreeRunningCount
    }
}

fn tsi_from_code(c: u32) -> (r: Tsi)
    ensures
        r == tsi_of_code(c),
{
    if c == 0 {
        Tsi::Null
    } else if c == 1 {
        Tsi::Utc
    } else if c == 2 {
        Tsi::Gps
    } else {
        Tsi::Other
    }
}

fn tsf_from_code(c: u32) -> (r: Tsf)
    ensures
        r == tsf_of_code(c),
{
    if c == 0 {
        Tsf::Null
    } else if c == 1 {
        Tsf::SampleCount
    } else if c == 2 {
        Tsf::RealTimePs
    } else {
        Tsf::FreeRunningCount
    }
}

/// Timing mode of a context packet.
#[derive(Clone, Copy, Debug, PartialEq, Eq, Hash, Structural)]
pub enum TimestampMode {
    PreciseTiming,
    GeneralTiming,
}

/// Indicator bits of a signal data packet.
#[derive(Clone, Copy, Debug, PartialEq, Eq, Hash, Structural)]
pub struct SignalDataIndicators {
    pub trailer_included: bool,
    pub not_a_vita490_packet: bool,
    pub signal_spectral_data: bool,
}

/// Indicator bits of a context packet (the first one is reserved).
#[derive(Clone, Copy, Debug, PartialEq, Eq, Hash, Structural)]
pub struct ContextIndicators {
    pub not_a_vita490_packet: bool,
    pub timestamp_mode: TimestampMode,
}

/// Indicator bits of a command packet (the second one is reserved).
#[derive(Clone, Copy, Debug, PartialEq, Eq, Hash, Structural)]
pub struct CommandIndicators {
    pub ack_packet: bool,
    pub cancellation_packet: bool,
}

/// The three indicator bits, read according to the packet type.
#[derive(Clone, Copy, Debug, PartialEq, Eq, Hash, Structural)]
pub enum Indicators {
    SignalData(SignalDataIndicators),
    Context(ContextIndicators),
    Command(CommandIndicators),
}

/// The header word, held as its fields.
#[derive(Clone, Copy, Debug, PartialEq, Eq, Hash, Structural)]
pub struct PacketHeader {
    pub packet_type: PacketType,
    pub class_id_included: bool,
    /// Indicator bit 26 of the word.
    pub ind1: bool,
    /// Indicator bit 25 of the word.
    pub ind2: bool,
    /// Indicator bit 24 of the word.
    pub ind3: bool,
    pub tsi: Tsi,
    pub tsf: Tsf,
    /// Modulo-16 packet counter.
    pub packet_count: u8,
    /// Packet size in 32-bit words.
    pub packet_size: u16,
}

pub open spec fn b2u(b: bool) -> u32 {
    if b {
        1
    } else {
        0
    }
}

/// The header's 32-bit form: type in bits 31..28, class-id flag in 27,
/// indicators in 26..24, TSI in 23..22, TSF in 21..20, counter in 19..16 and
/// size in 15..0.
pub open spec fn header_word(h: PacketHeader) -> u32 {
    (packet_type_code(h.packet_type) << 28u32) | (b2u(h.class_id_included) << 27u32) | (b2u(h.ind1)
        << 26u32) | (b2u(h.ind2) << 25u32) | (b2u(h.ind3) << 24u32) | (tsi_code(h.tsi) << 22u32) | (
    tsf_code(h.tsf) << 20u32) | ((h.packet_count as u32) << 16u32) | (h.packet_size as u32)
}

/// The header that a word describes; `None` where its type code is reserved.
pub open spec fn decode_header(w: u32) -> Option<PacketHeader> {
    match packet_type_of_code(w >> 28u32) {
        Some(t) => Some(
            PacketHeader {
                packet_type: t,
                class_id_included: (w >> 27u32) & 1 == 1,
                ind1: (w >> 26u32) & 1 == 1, ind2: (w >> 25u32) & 1 == 1, ind3: (w >> 24u32) & 1 == 1,
                tsi: tsi_of_code((w >> 22u32) & 3),
                tsf: tsf_of_code((w >> 20u32) & 3),
                packet_count: ((w >> 16u32) & 0xF) as u8,
                packet_size: (w & 0xFFFF) as u16,
            },
        ),
        None => None,
    }
}

proof fn lemma_header_fields(
    t: u32,
    c: u32,
    i1: u32,
    i2: u32,
    i3: u32,
    ti: u32,
    tf: u32,
    n: u32,
    s: u32,
)
    requires
        t < 16,
        c < 2,
        i1 < 2,
        i2 < 2,
        i3 < 2,
        ti < 4,
        tf < 4,
        n < 16,
        s < 0x10000,
    ensures
        ({
            let w = (t << 28u32) | (c << 27u32) | (i1 << 26u32) | (i2 << 25u32) | (i3 << 24u32) | (ti
                << 22u32) | (tf << 20u32) | (n << 16u32) | s;
            &&& w >> 28u32 == t
            &&& (w >> 27u32) & 1 == c
            &&& (w >> 26u32) & 1 == i1
            &&& (w >> 25u32) & 1 == i2
            &&& (w >> 24u32) & 1 == i3
            &&& (w >> 22u32) & 3 == ti
            &&& (w >> 20u32) & 3 == tf
            &&& (w >> 16u32) & 0xF == n
            &&& w & 0xFFFF == s
        }),
{
    assert(({
        let w = (t << 28u32) | (c << 27u32) | (i1 << 26u32) | (i2 << 25u32) | (i3 << 24u32) | (ti
            << 22u32) | (tf << 20u32) | (n << 16u32) | s;
        &&& w >> 28u32 == t
        &&& (w >> 27u32) & 1 == c
        &&& (w >> 26u32) & 1 == i1
        &&& (w >> 25u32) & 1 == i2
        &&& (w >> 24u32) & 1 == i3
        &&& (w >> 22u32) & 3 == ti
        &&& (w >> 20u32) & 3 == tf
        &&& (w >> 16u32) & 0xF == n
        &&& w & 0xFFFF == s
    })) by (bit_vector)
        requires
            t < 16,
            c < 2,
            i1 < 2,
            i2 < 2,
            i3 < 2,
            ti < 4,
            tf < 4,
            n < 16,
            s < 0x10000,
    ;
}

/// A header whose counter fits in four bits reads back from its word.
pub proof fn lemma_header_round_trip(h: PacketHeader)
    requires
        h.packet_count < 16,
    ensures
        decode_header(header_word(h)) == Some(h),
{
    lemma_header_fields(
        packet_type_code(h.packet_type),
        b2u(h.class_id_included),
        b2u(h.ind1),
        b2u(h.ind2),
        b2u(h.ind3),
        tsi_code(h.tsi),
        tsf_code(h.tsf),
        h.packet_count as u32,
        h.packet_size as u32,
    );
}

/// A word that reads as a header is that header's word.
pub proof fn lemma_header_word_of_decode(w: u32)
    requires
        decode_header(w) is Some,
    ensures
        header_word(decode_header(w)->0) == w,
{
    let h = decode_header(w)->0;
    let t = w >> 28u32;
    let c = (w >> 27u32) & 1;
    let i1 = (w >> 26u32) & 1;
    let i2 = (w >> 25u32) & 1;
    let i3 = (w >> 24u32) & 1;
    let ti = (w >> 22u32) & 3;
    let tf = (w >> 20u32) & 3;
    let n = (w >> 16u32) & 0xF;
    let sz = w & 0xFFFF;
    assert(c < 2 && i1 < 2 && i2 < 2 && i3 < 2 && ti < 4 && tf < 4 && n < 16 && sz < 0x10000
        && ((n as u8) as u32) == n && ((sz as u16) as u32) == sz) by (bit_vector)
        requires
            c == (w >> 27u32) & 1,
            i1 == (w >> 26u32) & 1,
            i2 == (w >> 25u32) & 1,
            i3 == (w >> 24u32) & 1,
            ti == (w >> 22u32) & 3,
            tf == (w >> 20u32) & 3,
            n == (w >> 16u32) & 0xF,
            sz == w & 0xFFFF,
    ;
    assert(packet_type_code(h.packet_type) == t);
    assert(b2u(h.class_id_included) == c);
    assert(b2u(h.ind1) == i1);
    assert(b2u(h.ind2) == i2);
    assert(b2u(h.ind3) == i3);
    assert(tsi_code(h.tsi) == ti);
    assert(tsf_code(h.tsf) == tf);
    assert(h.packet_count as u32 == n);
    assert(h.packet_size as u32 == sz);
    assert((t << 28u32) | (c << 27u32) | (i1 << 26u32) | (i2 << 25u32) | (i3 << 24u32) | (ti << 22u32) | (tf << 20u32) | (n << 16u32) | sz == w)
        by (bit_vector)
        requires
            t == w >> 28u32,
            c == (w >> 27u32) & 1,
            i1 == (w >> 26u32) & 1,
            i2 == (w >> 25u32) & 1,
            i3 == (w >> 24u32) & 1,
            ti == (w >> 22u32) & 3,
            tf == (w >> 20u32) & 3,
            n == (w >> 16u32) & 0xF,
            sz == w & 0xFFFF,
    ;
}

impl PacketHeader {
    /// The header is well formed when its counter fits in four bits.
    pub open spec fn wf(&self) -> bool {
        self.packet_count < 16
    }

    /// The header as one 32-bit word.
    pub fn as_u32(&self) -> (r: u32)
        ensures
            r == header_word(*self),
    {
        let c: u32 = if self.class_id_included { 1 } else { 0 };
        let i1: u32 = if self.ind1 { 1 } else { 0 };
        let i2: u32 = if self.ind2 { 1 } else { 0 };
        let i3: u32 = if self.ind3 { 1 } else { 0 };
        let ti: u32 = match self.tsi {
            Tsi::Null => 0,
            Tsi::Utc => 1,
            Tsi::Gps => 2,
            Tsi::Other => 3,
        };
        let tf: u32 = match self.tsf {
            Tsf::Null => 0,
            Tsf::SampleCount => 1,
            Tsf::RealTimePs => 2,
            Tsf::FreeRunningCount => 3,
        };
        (self.packet_type.code() << 28u32) | (c << 27u32) | (i1 << 26u32) | (i2 << 25u32) | (i3
            << 24u32) | (ti << 22u32) | (tf << 20u32) | ((self.packet_count as u32) << 16u32) | (
        self.packet_size as u32)
    }

    /// Reads a header word; `Err(Framing)` where the type code is reserved.
    pub fn from_u32(w: u32) -> (r: Result<PacketHeader, VitaError>)
        ensures
            decode_header(w) matches Some(h) ==> r == Ok::<PacketHeader, VitaError>(h),
            decode_header(w) is None ==> r == Err::<PacketHeader, VitaError>(VitaError::Framing),
            r matches Ok(h) ==> h.wf(),
    {
        let t = PacketType::try_from(w >> 28u32)?;
        let h = PacketHeader {
            packet_type: t,
            class_id_included: (w >> 27u32) & 1 == 1,
            ind1: (w >> 26u32) & 1 == 1, ind2: (w >> 25u32) & 1 == 1, ind3: (w >> 24u32) & 1 == 1,
            tsi: tsi_from_code((w >> 22u32) & 3),
            tsf: tsf_from_code((w >> 20u32) & 3),
            packet_count: ((w >> 16u32) & 0xF) as u8,
            packet_size: (w & 0xFFFF) as u16,
        };
        assert(((w >> 16u32) & 0xF) < 16) by (bit_vector);
        Ok(h)
    }

    /// A header of the given type with every other field zero.
    pub fn of_type(t: PacketType) -> (r: PacketHeader)
        ensures
            r.packet_type == t,
            !r.class_id_included,
            !r.ind1 && !r.ind2 && !r.ind3,
            r.tsi == Tsi::Null,
            r.tsf == Tsf::Null,
            r.packet_count == 0,
            r.packet_size == 0,
    {
        PacketHeader {
            packet_type: t,
            class_id_included: false,
            ind1: false, ind2: false, ind3: false,
            tsi: Tsi::Null,
            tsf: Tsf::Null,
            packet_count: 0,
            packet_size: 0,
        }
    }

    /// A signal data header (with stream identifier, no trailer).
    pub fn new_signal_data_header() -> (r: PacketHeader)
        ensures
            r == PacketHeader::spec_of_type(PacketType::SignalData),
    {
        PacketHeader::of_type(PacketType::SignalData)
    }

    /// A context header in general timing mode.
    pub fn new_context_header() -> (r: PacketHeader)
        ensures
            r == (PacketHeader { ind1: false, ind2: false, ind3: true, ..PacketHeader::spec_of_type(PacketType::Context) }),
    {
        let mut h = PacketHeader::of_type(PacketType::Context);
        h.ind1 = false;
        h.ind2 = false;
        h.ind3 = true;
        h
    }

    /// A control command header.
    pub fn new_control_header() -> (r: PacketHeader)
        ensures
            r == PacketHeader::spec_of_type(PacketType::Command),
    {
        PacketHeader::of_type(PacketType::Command)
    }

    /// A cancellation command header.
    pub fn new_cancellation_header() -> (r: PacketHeader)
        ensures
            r == (PacketHeader { ind1: false, ind2: false, ind3: true, ..PacketHeader::spec_of_type(PacketType::Command) }),
    {
        let mut h = PacketHeader::of_type(PacketType::Command);
        h.ind1 = false;
        h.ind2 = false;
        h.ind3 = true;
        h
    }

    /// An acknowledgement command header.
    pub fn new_ack_header() -> (r: PacketHeader)
        ensures
            r == (PacketHeader { ind1: true, ind2: false, ind3: false, ..PacketHeader::spec_of_type(PacketType::Command) }),
    {
        let mut h = PacketHeader::of_type(PacketType::Command);
        h.ind1 = true;
        h.ind2 = false;
        h.ind3 = false;
        h
    }

    pub open spec fn spec_of_type(t: PacketType) -> PacketHeader {
        PacketHeader {
            packet_type: t,
            class_id_included: false,
            ind1: false, ind2: false, ind3: false,
            tsi: Tsi::Null,
            tsf: Tsf::Null,
            packet_count: 0,
            packet_size: 0,
        }
    }

    /// The packet type.
    pub fn packet_type(&self) -> (r: PacketType)
        ensures
            r == self.packet_type,
    {
        self.packet_type
    }

    /// Sets the packet type.
    pub fn set_packet_type(&mut self, t: PacketType)
        ensures
            *final(self) == (PacketHeader { packet_type: t, ..*old(self) }),
    {
        self.packet_type = t;
    }

    /// Whether a class identifier follows.
    pub fn class_id_included(&self) -> (r: bool)
        ensures
            r == self.class_id_included,
    {
        self.class_id_included
    }

    /// The indicator bits, read according to the packet type.
    pub fn indicators(&self) -> (r: Indicators)
        ensures
            is_signal_type(self.packet_type) ==> r == Indicators::SignalData(
                SignalDataIndicators {
                    trailer_included: self.ind1,
                    not_a_vita490_packet: self.ind2,
                    signal_spectral_data: self.ind3,
                },
            ),
            (self.packet_type == PacketType::Context || self.packet_type
                == PacketType::ExtensionContext) ==> r == Indicators::Context(
                ContextIndicators {
                    not_a_vita490_packet: self.ind2,
                    timestamp_mode: if self.ind3 {
                        TimestampMode::GeneralTiming
                    } else {
                        TimestampMode::PreciseTiming
                    },
                },
            ),
            (self.packet_type == PacketType::Command || self.packet_type
                == PacketType::ExtensionCommand) ==> r == Indicators::Command(
                CommandIndicators { ack_packet: self.ind1, cancellation_packet: self.ind3 },
            ),
    {
        match self.packet_type {
            PacketType::Context | PacketType::ExtensionContext => Indicators::Context(
                ContextIndicators {
                    not_a_vita490_packet: self.ind2,
                    timestamp_mode: if self.ind3 {
                        TimestampMode::GeneralTiming
                    } else {
                        TimestampMode::PreciseTiming
                    },
                },
            ),
            PacketType::Command | PacketType::ExtensionCommand => Indicators::Command(
                CommandIndicators { ack_packet: self.ind1, cancellation_packet: self.ind3 },
            ),
            _ => Indicators::SignalData(
                SignalDataIndicators {
                    trailer_included: self.ind1,
                    not_a_vita490_packet: self.ind2,
                    signal_spectral_data: self.ind3,
                },
            ),
        }
    }

    /// Writes the indicator bits; reserved positions are written as zero.
    pub fn set_indicators(&mut self, i: Indicators)
        ensures
            *final(self) == (match i {
                Indicators::SignalData(s) => PacketHeader {
                    ind1: s.trailer_included,
                    ind2: s.not_a_vita490_packet,
                    ind3: s.signal_spectral_data,
                    ..*old(self)
                },
                Indicators::Context(c) => PacketHeader {
                    ind1: false,
                    ind2: c.not_a_vita490_packet,
                    ind3: c.timestamp_mode == TimestampMode::GeneralTiming,
                    ..*old(self)
                },
                Indicators::Command(c) => PacketHeader {
                    ind1: c.ack_packet,
                    ind2: false,
                    ind3: c.cancellation_packet,
                    ..*old(self)
                },
            }),
    {
        match i {
            Indicators::SignalData(s) => {
                self.ind1 = s.trailer_included;
                self.ind2 = s.not_a_vita490_packet;
                self.ind3 = s.signal_spectral_data;
            },
            Indicators::Context(c) => {
                self.ind1 = false;
                self.ind2 = c.not_a_vita490_packet;
                self.ind3 = match c.timestamp_mode {
                    TimestampMode::GeneralTiming => true,
                    TimestampMode::PreciseTiming => false,
                };
            },
            Indicators::Command(c) => {
                self.ind1 = c.ack_packet;
                self.ind2 = false;
                self.ind3 = c.cancellation_packet;
            },
        }
    }

    /// Whether this is an acknowledgement packet; `Err(CommandOnly)` for
    /// packets that are not commands.
    pub fn is_ack_packet(&self) -> (r: Result<bool, VitaError>)
        ensures
            (self.packet_type == PacketType::Command || self.packet_type
                == PacketType::ExtensionCommand) ==> r == Ok::<bool, VitaError>(self.ind1),
            !(self.packet_type == PacketType::Command || self.packet_type
                == PacketType::ExtensionCommand) ==> r == Err::<bool, VitaError>(VitaError::CommandOnly),
    {
        if self.packet_type.has_command_payload() {
            Ok(self.ind1)
        } else {
            Err(VitaError::CommandOnly)
        }
    }

    /// Whether this is a cancellation packet; `Err(CommandOnly)` for
    /// packets that are not commands.
    pub fn is_cancellation_packet(&self) -> (r: Result<bool, VitaError>)
        ensures
            (self.packet_type == PacketType::Command || self.packet_type
                == PacketType::ExtensionCommand) ==> r == Ok::<bool, VitaError>(self.ind3),
            !(self.packet_type == PacketType::Command || self.packet_type
                == PacketType::ExtensionCommand) ==> r == Err::<bool, VitaError>(VitaError::CommandOnly),
    {
        if self.packet_type.has_command_payload() {
            Ok(self.ind3)
        } else {
            Err(VitaError::CommandOnly)
        }
    }

    /// The integer timestamp kind.
    pub fn tsi(&self) -> (r: Tsi)
        ensures
            r == self.tsi,
    {
        self.tsi
    }

    /// The fractional timestamp kind.
    pub fn tsf(&self) -> (r: Tsf)
        ensures
            r == self.tsf,
    {
        self.tsf
    }

    /// The modulo-16 packet counter.
    pub fn packet_count(&self) -> (r: u8)
        ensures
            r == self.packet_count,
    {
        self.packet_count
    }

    /// Sets the packet counter to the low four bits of `count`.
    pub fn set_packet_count(&mut self, count: u8)
        ensures
            *final(self) == (PacketHeader { packet_count: count % 16, ..*old(self) }),
    {
        self.packet_count = count % 16;
    }

    /// Advances the packet counter, wrapping from 15 to 0.
    pub fn inc_packet_count(&mut self)
        requires
            old(self).wf(),
        ensures
            *final(self) == (PacketHeader {
                packet_count: ((old(self).packet_count + 1) % 16) as u8,
                ..*old(self)
            }),
    {
        self.packet_count = (self.packet_count + 1) % 16;
    }

    /// The packet size in words.
    pub fn packet_size(&self) -> (r: u16)
        ensures
            r == self.packet_size,
    {
        self.packet_size
    }

    /// Sets the packet size in words.
    pub fn set_packet_size(&mut self, n_words: u16)
        ensures
            *final(self) == (PacketHeader { packet_size: n_words, ..*old(self) }),
    {
        self.packet_size = n_words;
    }

    pub open spec fn spec_stream_id_included(&self) -> bool {
        has_stream_id(self.packet_type)
    }

    pub open spec fn spec_trailer_included(&self) -> bool {
        is_signal_type(self.packet_type) && self.ind1
    }

    /// Whether a stream identifier follows the header.
    pub fn stream_id_included(&self) -> (r: bool)
        ensures
            r == self.spec_stream_id_included(),
    {
        !matches!(
            self.packet_type,
            PacketType::SignalDataWithoutStreamId | PacketType::ExtensionDataWithoutStreamId
        )
    }

    /// Whether an integer timestamp follows.
    pub fn integer_timestamp_included(&self) -> (r: bool)
        ensures
            r == (self.tsi != Tsi::Null),
    {
        !matches!(self.tsi, Tsi::Null)
    }

    /// Whether a fractional timestamp follows.
    pub fn fractional_timestamp_included(&self) -> (r: bool)
        ensures
            r == (self.tsf != Tsf::Null),
    {
        !matches!(self.tsf, Tsf::Null)
    }

    /// Whether a trailer ends the packet (signal data packets only).
    pub fn trailer_included(&self) -> (r: bool)
        ensures
            r == self.spec_trailer_included(),
    {
        self.packet_type.has_signal_data_payload() && self.ind1
    }

    /// Words of everything but the payload: header, stream id, class id,
    /// timestamps and trailer.
    pub open spec fn spec_framing_words(&self) -> nat {
        1 + (if self.spec_stream_id_included() { 1nat } else { 0 }) + (if self.class_id_included {
            2nat
        } else {
            0
        }) + (if self.tsi != Tsi::Null { 1nat } else { 0 }) + (if self.tsf != Tsf::Null {
            2nat
        } else {
            0
        }) + (if self.spec_trailer_included() { 1nat } else { 0 })
    }

    /// Words of everything but the payload.
    pub fn framing_words(&self) -> (r: u16)
        ensures
            r == self.spec_framing_words(),
    {
        let mut n: u16 = 1;
        if self.stream_id_included() {
            n = n + 1;
        }
        if self.class_id_included {
            n = n + 2;
        }
        if self.integer_timestamp_included() {
            n = n + 1;
        }
        if self.fractional_timestamp_included() {
            n = n + 2;
        }
        if self.trailer_included() {
            n = n + 1;
        }
        n
    }

    /// Payload words that the declared size leaves; `None` where the size
    /// does not even cover the rest of the packet.
    pub fn payload_size_words(&self) -> (r: Option<usize>)
        ensures
            self.packet_size >= self.spec_framing_words() ==> r == Some(
                (self.packet_size - self.spec_framing_words()) as usize,
            ),
            self.packet_size < self.spec_framing_words() ==> r is None,
    {
        let f = self.framing_words();
        if self.packet_size >= f {
            Some((self.packet_size - f) as usize)
        } else {
            None
        }
    }
}

} // verus!
