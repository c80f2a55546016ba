//! The optional trailer word of signal data packets.
use vstd::prelude::*;
use crate::bits::bit;

verus! {

/// Position of a packet within a sample frame.
#[derive(Clone, Copy, Debug, PartialEq, Eq, Hash, Structural)]
pub enum SampleFrameIndicator {
    NotApplicable,
    FirstDataPacket,
    MiddleDataPacket,
    FinalDataPacket,
}

/// The trailer: enable bits 31..20, indicator bits 19..8, and a 7-bit
/// associated-context-packet count (bits 6..0) enabled by bit 7.
#[derive(Clone, Copy, Debug, PartialEq, Eq, Hash, Default)]
pub struct Trailer(u32);

impl View for Trailer {
    type V = u32;

    closed spec fn view(&self) -> u32 {
        self.0
    }
}

/// The indicator whose enable bit is `e` and value bit `v`.
pub open spec fn indicator(w: u32, e: u32, v: u32) -> Option<bool> {
    if bit(w, e) {
        Some(bit(w, v))
    } else {
        None
    }
}

impl Trailer {
    /// The trailer holding word `w`.
    pub fn from_u32(w: u32) -> (r: Trailer)
        ensures
            r@ == w,
    {
        Trailer(w)
    }

    /// The trailer as a word.
    pub fn as_u32(&self) -> (r: u32)
        ensures
            r == self@,
    {
        self.0
    }

    fn ind(&self, e: u32, v: u32) -> (r: Option<bool>)
        requires
            e < 32,
            v < 32,
        ensures
            r == indicator(self@, e, v),
    {
        if (self.0 >> e) & 1u32 == 1u32 {
            Some((self.0 >> v) & 1u32 == 1u32)
        } else {
            None
        }
    }

    /// The cal time indicator.
    pub fn cal_time_indicator(&self) -> (r: Option<bool>)
        ensures r == indicator(self@, 31, 19),
    { self.ind(31, 19) }

    /// The valid data indicator.
    pub fn valid_data_indicator(&self) -> (r: Option<bool>)
        ensures r == indicator(self@, 30, 18),
    { self.ind(30, 18) }

    /// The reference lock indicator.
    pub fn reference_lock_indicator(&self) -> (r: Option<bool>)
        ensures r == indicator(self@, 29, 17),
    { self.ind(29, 17) }

    /// The agc indicator.
    pub fn agc_indicator(&self) -> (r: Option<bool>)
        ensures r == indicator(self@, 28, 16),
    { self.ind(28, 16) }

    /// The detected signal indicator.
    pub fn detected_signal_indicator(&self) -> (r: Option<bool>)
        ensures r == indicator(self@, 27, 15),
    { self.ind(27, 15) }

    /// The spectral inversion indicator.
    pub fn spectral_inversion_indicator(&self) -> (r: Option<bool>)
        ensures r == indicator(self@, 26, 14),
    { self.ind(26, 14) }

    /// The over range indicator.
    pub fn over_range_indicator(&self) -> (r: Option<bool>)
        ensures r == indicator(self@, 25, 13),
    { self.ind(25, 13) }

    /// The sample loss indicator.
    pub fn sample_loss_indicator(&self) -> (r: Option<bool>)
        ensures r == indicator(self@, 24, 12),
    { self.ind(24, 12) }

    /// The sample frame indicator (bits 11..10), present when both of its
    /// enable bits (23 and 22) are set.
    pub fn sample_frame_indicator(&self) -> (r: Option<SampleFrameIndicator>)
        ensures
            r is Some <==> bit(self@, 23) && bit(self@, 22),
            r matches Some(s) ==> s == (if (self@ >> 10u32) & 3 == 0 {
                SampleFrameIndicator::NotApplicable
            } else if (self@ >> 10u32) & 3 == 1 {
                SampleFrameIndicator::FirstDataPacket
            } else if (self@ >> 10u32) & 3 == 2 {
                SampleFrameIndicator::MiddleDataPacket
            } else {
                SampleFrameIndicator::FinalDataPacket
            }),
    {
        if (self.0 >> 23u32) & 1u32 == 1u32 && (self.0 >> 22u32) & 1u32 == 1u32 {
            let c = (self.0 >> 10u32) & 3;
            Some(if c == 0 {
                SampleFrameIndicator::NotApplicable
            } else if c == 1 {
                SampleFrameIndicator::FirstDataPacket
            } else if c == 2 {
                SampleFrameIndicator::MiddleDataPacket
            } else {
                SampleFrameIndicator::FinalDataPacket
            })
        } else {
            None
        }
    }

    /// The user-defined indicator (bits 9..8), present when both of its
    /// enable bits (21 and 20) are set.
    pub fn user_defined_indicator(&self) -> (r: Option<u8>)
        ensures
            r is Some <==> bit(self@, 21) && bit(self@, 20),
            r matches Some(u) ==> u == ((self@ >> 8u32) & 3) as u8,
    {
        if (self.0 >> 21u32) & 1u32 == 1u32 && (self.0 >> 20u32) & 1u32 == 1u32 {
            Some(((self.0 >> 8u32) & 3) as u8)
        } else {
            None
        }
    }

    /// The associated context packet count, present when bit 7 is set.
    pub fn associated_context_packet_count(&self) -> (r: Option<u8>)
        ensures
            r is Some <==> bit(self@, 7),
            r matches Some(n) ==> n == (self@ & 0x7F) as u8,
    {
        if (self.0 >> 7u32) & 1u32 == 1u32 {
            Some((self.0 & 0x7F) as u8)
        } else {
            None
        }
    }
}

} // verus!
