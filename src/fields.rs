//! Typed access to the fields most used: frequencies and rates in fixed
//! point with 20 fractional bits, reference point, gain, device identifier,
//! threshold and spectrum.
use vstd::prelude::*;
use crate::cifs::{CifSet, set_wf, primary_of, set_field_error, field_set, opt_repeat, copies_of, field_of};
use crate::cif::opt_view;
use crate::error::VitaError;
use crate::spectrum::{Spectrum, u64_of};

verus! {

/// Two gains in dB, each a signed 16-bit fixed-point value with 7
/// fractional bits: stage 1 in bits 15..0, stage 2 in bits 31..16.
#[derive(Clone, Copy, Debug, PartialEq, Eq, Hash, Default)]
pub struct Gain(u32);

/// Two thresholds in dB, laid out like [`Gain`].
#[derive(Clone, Copy, Debug, PartialEq, Eq, Hash, Default)]
pub struct Threshold(u32);

/// Device identifier: manufacturer OUI (bits 23..0 of the first word) and
/// device code (bits 15..0 of the second word).
#[derive(Clone, Copy, Debug, PartialEq, Eq, Hash, Default)]
pub struct DeviceId(u32, u32);

impl View for Gain {
    type V = u32;

    closed spec fn view(&self) -> u32 {
        self.0
    }
}

impl View for Threshold {
    type V = u32;

    closed spec fn view(&self) -> u32 {
        self.0
    }
}

impl View for DeviceId {
    type V = (u32, u32);

    closed spec fn view(&self) -> (u32, u32) {
        (self.0, self.1)
    }
}

/// The word holding two 16-bit stages.
pub open spec fn stages_word(s1: i16, s2: i16) -> u32 {
    (((s2 as u16) as u32) << 16u32) | ((s1 as u16) as u32)
}

impl Gain {
    /// Gain of the two raw stage values.
    pub fn new(stage_1: i16, stage_2: i16) -> (r: Gain)
        ensures
            r@ == stages_word(stage_1, stage_2),
    {
        Gain((((stage_2 as u16) as u32) << 16u32) | ((stage_1 as u16) as u32))
    }

    /// The from u32.
    pub fn from_u32(w: u32) -> (r: Gain)
        ensures r@ == w,
    { Gain(w) }

    /// The as u32.
    pub fn as_u32(&self) -> (r: u32)
        ensures r == self@,
    { self.0 }

    /// The size words.
    pub fn size_words(&self) -> (r: u16)
        ensures r == 1,
    { 1 }

    /// Stage 1, raw (7 fractional bits).
    pub fn stage_1(&self) -> (r: i16)
        ensures r == (self@ & 0xFFFF) as u16 as i16,
    { (self.0 & 0xFFFF) as u16 as i16 }

    /// Stage 2, raw (7 fractional bits).
    pub fn stage_2(&self) -> (r: i16)
        ensures r == (self@ >> 16u32) as u16 as i16,
    { (self.0 >> 16u32) as u16 as i16 }

    /// Replaces stage 1, keeping stage 2.
    pub fn set_stage_1(&mut self, v: i16)
        ensures final(self)@ == (old(self)@ & 0xFFFF_0000) | ((v as u16) as u32),
    { self.0 = (self.0 & 0xFFFF_0000) | ((v as u16) as u32); }

    /// Replaces stage 2, keeping stage 1.
    pub fn set_stage_2(&mut self, v: i16)
        ensures final(self)@ == (old(self)@ & 0xFFFF) | (((v as u16) as u32) << 16u32),
    { self.0 = (self.0 & 0xFFFF) | (((v as u16) as u32) << 16u32); }
}

impl Threshold {
    /// Threshold of the two raw stage values.
    pub fn new(stage_1: i16, stage_2: i16) -> (r: Threshold)
        ensures
            r@ == stages_word(stage_1, stage_2),
    {
        Threshold((((stage_2 as u16) as u32) << 16u32) | ((stage_1 as u16) as u32))
    }

    /// The from u32.
    pub fn from_u32(w: u32) -> (r: Threshold)
        ensures r@ == w,
    { Threshold(w) }

    /// The as u32.
    pub fn as_u32(&self) -> (r: u32)
        ensures r == self@,
    { self.0 }

    /// The size words.
    pub fn size_words(&self) -> (r: u16)
        ensures r == 1,
    { 1 }

    /// The stage 1.
    pub fn stage_1(&self) -> (r: i16)
        ensures r == (self@ & 0xFFFF) as u16 as i16,
    { (self.0 & 0xFFFF) as u16 as i16 }

    /// The stage 2.
    pub fn stage_2(&self) -> (r: i16)
        ensures r == (self@ >> 16u32) as u16 as i16,
    { (self.0 >> 16u32) as u16 as i16 }

    /// Sets stage 1.
    pub fn set_stage_1(&mut self, v: i16)
        ensures final(self)@ == (old(self)@ & 0xFFFF_0000) | ((v as u16) as u32),
    { self.0 = (self.0 & 0xFFFF_0000) | ((v as u16) as u32); }

    /// Sets stage 2.
    pub fn set_stage_2(&mut self, v: i16)
        ensures final(self)@ == (old(self)@ & 0xFFFF) | (((v as u16) as u32) << 16u32),
    { self.0 = (self.0 & 0xFFFF) | (((v as u16) as u32) << 16u32); }
}

impl DeviceId {
    /// The from words.
    pub fn from_words(w1: u32, w2: u32) -> (r: DeviceId)
        ensures r@ == (w1, w2),
    { DeviceId(w1, w2) }

    /// The size words.
    pub fn size_words(&self) -> (r: u16)
        ensures r == 2,
    { 2 }

    /// The manufacturer oui.
    pub fn manufacturer_oui(&self) -> (r: u32)
        ensures r == self@.0 & 0xFF_FFFF,
    { self.0 & 0xFF_FFFF }

    /// Sets the OUI to the low 24 bits of `oui`.
    pub fn set_manufacturer_oui(&mut self, oui: u32)
        ensures final(self)@ == ((old(self)@.0 & 0xFF00_0000) | (oui & 0xFF_FFFF), old(self)@.1),
    { self.0 = (self.0 & 0xFF00_0000) | (oui & 0xFF_FFFF); }

    /// The device code.
    pub fn device_code(&self) -> (r: u16)
        ensures r == (self@.1 & 0xFFFF) as u16,
    { (self.1 & 0xFFFF) as u16 }

    /// Sets device code.
    pub fn set_device_code(&mut self, code: u16)
        ensures final(self)@ == (old(self)@.0, (old(self)@.1 & 0xFFFF_0000) | (code as u32)),
    { self.1 = (self.1 & 0xFFFF_0000) | (code as u32); }
}

pub open spec fn u64_field(o: Option<Seq<u32>>) -> Option<u64> {
    match o {
        Some(ws) => Some(u64_of(ws[0], ws[1])),
        None => None,
    }
}

pub open spec fn u32_field(o: Option<Seq<u32>>) -> Option<u32> {
    match o {
        Some(ws) => Some(ws[0]),
        None => None,
    }
}

pub open spec fn u64_words(v: Option<u64>) -> Option<Seq<u32>> {
    match v {
        Some(x) => Some(seq![(x >> 32u64) as u32, x as u32]),
        None => None,
    }
}

pub open spec fn u32_words(v: Option<u32>) -> Option<Seq<u32>> {
    match v {
        Some(x) => Some(seq![x]),
        None => None,
    }
}

/// Setting field (`cif`, `b`) of `s` to the words `v` went as
/// [`CifSet::set_value`] says.
pub open spec fn value_set(old: crate::cifs::CifSetModel, new: crate::cifs::CifSetModel, r: Result<(), VitaError>, cif: u8, b: u32, v: Option<Seq<u32>>) -> bool {
    let full = opt_repeat(v, copies_of(old.cif7));
    &&& (set_field_error(old, cif, b, full) matches Some(e) ==> r == Err::<(), VitaError>(e) && new == old)
    &&& (set_field_error(old, cif, b, full) is None ==> r is Ok && field_set(old, new, cif, b, full))
}

impl CifSet {
    fn get_u64(&self, cif: u8, b: u32) -> (r: Option<u64>)
        requires
            set_wf(self@),
            cif <= 3,
            b < 32,
        ensures
            r == u64_field(primary_of(self@, cif, b, 2)),
    {
        match self.value(cif, b, 2) {
            Some(ws) => Some(((ws[0] as u64) << 32u64) | (ws[1] as u64)),
            None => None,
        }
    }

    fn put_u64(&mut self, cif: u8, b: u32, v: Option<u64>) -> (r: Result<(), VitaError>)
        requires
            set_wf(old(self)@),
        ensures
            value_set(old(self)@, final(self)@, r, cif, b, u64_words(v)),
    {
        let ws: Option<Vec<u32>> = match v {
            Some(x) => {
                let mut w: Vec<u32> = Vec::new();
                w.push((x >> 32u64) as u32);
                w.push(x as u32);
                assert(w@ =~= seq![(x >> 32u64) as u32, x as u32]);
                Some(w)
            },
            None => None,
        };
        self.set_value(cif, b, ws)
    }

    fn get_u32(&self, cif: u8, b: u32) -> (r: Option<u32>)
        requires
            set_wf(self@),
            cif <= 3,
            b < 32,
        ensures
            r == u32_field(primary_of(self@, cif, b, 1)),
    {
        match self.value(cif, b, 1) {
            Some(ws) => Some(ws[0]),
            None => None,
        }
    }

    fn put_u32(&mut self, cif: u8, b: u32, v: Option<u32>) -> (r: Result<(), VitaError>)
        requires
            set_wf(old(self)@),
        ensures
            value_set(old(self)@, final(self)@, r, cif, b, u32_words(v)),
    {
        let ws: Option<Vec<u32>> = match v {
            Some(x) => {
                let mut w: Vec<u32> = Vec::new();
                w.push(x);
                assert(w@ =~= seq![x]);
                Some(w)
            },
            None => None,
        };
        self.set_value(cif, b, ws)
    }

    /// Bandwidth (CIF0 bit 29), hertz with 20 fractional bits.
    pub fn bandwidth(&self) -> (r: Option<u64>)
        requires set_wf(self@),
        ensures r == u64_field(primary_of(self@, 0u8, 29u32, 2)),
    { self.get_u64(0, 29) }

    /// Sets or clears: bandwidth (CIF0 bit 29), hertz with 20 fractional bits.
    pub fn set_bandwidth(&mut self, v: Option<u64>) -> (r: Result<(), VitaError>)
        requires set_wf(old(self)@),
        ensures value_set(old(self)@, final(self)@, r, 0u8, 29u32, u64_words(v)),
    { self.put_u64(0, 29, v) }

    /// IF reference frequency (CIF0 bit 28), hertz with 20 fractional bits, two's complement.
    pub fn if_ref_freq(&self) -> (r: Option<u64>)
        requires set_wf(self@),
        ensures r == u64_field(primary_of(self@, 0u8, 28u32, 2)),
    { self.get_u64(0, 28) }

    /// Sets or clears: iF reference frequency (CIF0 bit 28), hertz with 20 fractional bits, two's complement.
    pub fn set_if_ref_freq(&mut self, v: Option<u64>) -> (r: Result<(), VitaError>)
        requires set_wf(old(self)@),
        ensures value_set(old(self)@, final(self)@, r, 0u8, 28u32, u64_words(v)),
    { self.put_u64(0, 28, v) }

    /// RF reference frequency (CIF0 bit 27), hertz with 20 fractional bits.
    pub fn rf_ref_freq(&self) -> (r: Option<u64>)
        requires set_wf(self@),
        ensures r == u64_field(primary_of(self@, 0u8, 27u32, 2)),
    { self.get_u64(0, 27) }

    /// Sets or clears: rF reference frequency (CIF0 bit 27), hertz with 20 fractional bits.
    pub fn set_rf_ref_freq(&mut self, v: Option<u64>) -> (r: Result<(), VitaError>)
        requires set_wf(old(self)@),
        ensures value_set(old(self)@, final(self)@, r, 0u8, 27u32, u64_words(v)),
    { self.put_u64(0, 27, v) }

    /// RF reference frequency offset (CIF0 bit 26), hertz with 20 fractional bits.
    pub fn rf_ref_freq_offset(&self) -> (r: Option<u64>)
        requires set_wf(self@),
        ensures r == u64_field(primary_of(self@, 0u8, 26u32, 2)),
    { self.get_u64(0, 26) }

    /// Sets or clears: rF reference frequency offset (CIF0 bit 26), hertz with 20 fractional bits.
    pub fn set_rf_ref_freq_offset(&mut self, v: Option<u64>) -> (r: Result<(), VitaError>)
        requires set_wf(old(self)@),
        ensures value_set(old(self)@, final(self)@, r, 0u8, 26u32, u64_words(v)),
    { self.put_u64(0, 26, v) }

    /// IF band offset (CIF0 bit 25), hertz with 20 fractional bits.
    pub fn if_band_offset(&self) -> (r: Option<u64>)
        requires set_wf(self@),
        ensures r == u64_field(primary_of(self@, 0u8, 25u32, 2)),
    { self.get_u64(0, 25) }

    /// Sets or clears: iF band offset (CIF0 bit 25), hertz with 20 fractional bits.
    pub fn set_if_band_offset(&mut self, v: Option<u64>) -> (r: Result<(), VitaError>)
        requires set_wf(old(self)@),
        ensures value_set(old(self)@, final(self)@, r, 0u8, 25u32, u64_words(v)),
    { self.put_u64(0, 25, v) }

    /// Sample rate (CIF0 bit 21), samples per second with 20 fractional bits.
    pub fn sample_rate(&self) -> (r: Option<u64>)
        requires set_wf(self@),
        ensures r == u64_field(primary_of(self@, 0u8, 21u32, 2)),
    { self.get_u64(0, 21) }

    /// Sets or clears: sample rate (CIF0 bit 21), samples per second with 20 fractional bits.
    pub fn set_sample_rate(&mut self, v: Option<u64>) -> (r: Result<(), VitaError>)
        requires set_wf(old(self)@),
        ensures value_set(old(self)@, final(self)@, r, 0u8, 21u32, u64_words(v)),
    { self.put_u64(0, 21, v) }

    /// Timestamp adjustment (CIF0 bit 20), femtoseconds.
    pub fn timestamp_adjustment(&self) -> (r: Option<u64>)
        requires set_wf(self@),
        ensures r == u64_field(primary_of(self@, 0u8, 20u32, 2)),
    { self.get_u64(0, 20) }

    /// Sets or clears: timestamp adjustment (CIF0 bit 20), femtoseconds.
    pub fn set_timestamp_adjustment(&mut self, v: Option<u64>) -> (r: Result<(), VitaError>)
        requires set_wf(old(self)@),
        ensures value_set(old(self)@, final(self)@, r, 0u8, 20u32, u64_words(v)),
    { self.put_u64(0, 20, v) }

    /// Auxiliary frequency (CIF1 bit 15), hertz with 20 fractional bits.
    pub fn aux_freq(&self) -> (r: Option<u64>)
        requires set_wf(self@),
        ensures r == u64_field(primary_of(self@, 1u8, 15u32, 2)),
    { self.get_u64(1, 15) }

    /// Sets or clears: auxiliary frequency (CIF1 bit 15), hertz with 20 fractional bits.
    pub fn set_aux_freq(&mut self, v: Option<u64>) -> (r: Result<(), VitaError>)
        requires set_wf(old(self)@),
        ensures value_set(old(self)@, final(self)@, r, 1u8, 15u32, u64_words(v)),
    { self.put_u64(1, 15, v) }

    /// Auxiliary bandwidth (CIF1 bit 13), hertz with 20 fractional bits.
    pub fn aux_bandwidth(&self) -> (r: Option<u64>)
        requires set_wf(self@),
        ensures r == u64_field(primary_of(self@, 1u8, 13u32, 2)),
    { self.get_u64(1, 13) }

    /// Sets or clears: auxiliary bandwidth (CIF1 bit 13), hertz with 20 fractional bits.
    pub fn set_aux_bandwidth(&mut self, v: Option<u64>) -> (r: Result<(), VitaError>)
        requires set_wf(old(self)@),
        ensures value_set(old(self)@, final(self)@, r, 1u8, 13u32, u64_words(v)),
    { self.put_u64(1, 13, v) }

    /// Reference point identifier (CIF0 bit 30).
    pub fn reference_point_id(&self) -> (r: Option<u32>)
        requires set_wf(self@),
        ensures r == u32_field(primary_of(self@, 0u8, 30u32, 1)),
    { self.get_u32(0, 30) }

    /// Sets or clears: reference point identifier (CIF0 bit 30).
    pub fn set_reference_point_id(&mut self, v: Option<u32>) -> (r: Result<(), VitaError>)
        requires set_wf(old(self)@),
        ensures value_set(old(self)@, final(self)@, r, 0u8, 30u32, u32_words(v)),
    { self.put_u32(0, 30, v) }

    /// Over-range count (CIF0 bit 22).
    pub fn over_range_count(&self) -> (r: Option<u32>)
        requires set_wf(self@),
        ensures r == u32_field(primary_of(self@, 0u8, 22u32, 1)),
    { self.get_u32(0, 22) }

    /// Sets or clears: over-range count (CIF0 bit 22).
    pub fn set_over_range_count(&mut self, v: Option<u32>) -> (r: Result<(), VitaError>)
        requires set_wf(old(self)@),
        ensures value_set(old(self)@, final(self)@, r, 0u8, 22u32, u32_words(v)),
    { self.put_u32(0, 22, v) }

    /// Timestamp calibration time (CIF0 bit 19).
    pub fn timestamp_calibration_time(&self) -> (r: Option<u32>)
        requires set_wf(self@),
        ensures r == u32_field(primary_of(self@, 0u8, 19u32, 1)),
    { self.get_u32(0, 19) }

    /// Sets or clears: timestamp calibration time (CIF0 bit 19).
    pub fn set_timestamp_calibration_time(&mut self, v: Option<u32>) -> (r: Result<(), VitaError>)
        requires set_wf(old(self)@),
        ensures value_set(old(self)@, final(self)@, r, 0u8, 19u32, u32_words(v)),
    { self.put_u32(0, 19, v) }

    /// State and event indicators (CIF0 bit 16).
    pub fn state_event_indicators(&self) -> (r: Option<u32>)
        requires set_wf(self@),
        ensures r == u32_field(primary_of(self@, 0u8, 16u32, 1)),
    { self.get_u32(0, 16) }

    /// Sets or clears: state and event indicators (CIF0 bit 16).
    pub fn set_state_event_indicators(&mut self, v: Option<u32>) -> (r: Result<(), VitaError>)
        requires set_wf(old(self)@),
        ensures value_set(old(self)@, final(self)@, r, 0u8, 16u32, u32_words(v)),
    { self.put_u32(0, 16, v) }

    /// Ephemeris reference identifier (CIF0 bit 10).
    pub fn ephemeris_ref_id(&self) -> (r: Option<u32>)
        requires set_wf(self@),
        ensures r == u32_field(primary_of(self@, 0u8, 10u32, 1)),
    { self.get_u32(0, 10) }

    /// Sets or clears: ephemeris reference identifier (CIF0 bit 10).
    pub fn set_ephemeris_ref_id(&mut self, v: Option<u32>) -> (r: Result<(), VitaError>)
        requires set_wf(old(self)@),
        ensures value_set(old(self)@, final(self)@, r, 0u8, 10u32, u32_words(v)),
    { self.put_u32(0, 10, v) }

    /// Gain (CIF0 bit 23).
    pub fn gain(&self) -> (r: Option<Gain>)
        requires set_wf(self@),
        ensures
            r is Some == primary_of(self@, 0u8, 23u32, 1) is Some,
            r matches Some(g) ==> Some(g@) == u32_field(primary_of(self@, 0u8, 23u32, 1)),
    {
        match self.get_u32(0, 23) {
            Some(w) => Some(Gain::from_u32(w)),
            None => None,
        }
    }

    /// Sets or clears the gain (CIF0 bit 23).
    pub fn set_gain(&mut self, g: Option<Gain>) -> (r: Result<(), VitaError>)
        requires set_wf(old(self)@),
        ensures value_set(old(self)@, final(self)@, r, 0u8, 23u32, u32_words(match g { Some(x) => Some(x@), None => None })),
    {
        let w = match g {
            Some(x) => Some(x.as_u32()),
            None => None,
        };
        self.put_u32(0, 23, w)
    }

    /// Threshold (CIF1 bit 19).
    pub fn threshold(&self) -> (r: Option<Threshold>)
        requires set_wf(self@),
        ensures
            r is Some == primary_of(self@, 1u8, 19u32, 1) is Some,
            r matches Some(t) ==> Some(t@) == u32_field(primary_of(self@, 1u8, 19u32, 1)),
    {
        match self.get_u32(1, 19) {
            Some(w) => Some(Threshold::from_u32(w)),
            None => None,
        }
    }

    /// Sets or clears the threshold (CIF1 bit 19).
    pub fn set_threshold(&mut self, t: Option<Threshold>) -> (r: Result<(), VitaError>)
        requires set_wf(old(self)@),
        ensures value_set(old(self)@, final(self)@, r, 1u8, 19u32, u32_words(match t { Some(x) => Some(x@), None => None })),
    {
        let w = match t {
            Some(x) => Some(x.as_u32()),
            None => None,
        };
        self.put_u32(1, 19, w)
    }

    /// Device identifier (CIF0 bit 17).
    pub fn device_id(&self) -> (r: Option<DeviceId>)
        requires set_wf(self@),
        ensures
            r is Some == primary_of(self@, 0u8, 17u32, 2) is Some,
            r matches Some(d) ==> primary_of(self@, 0u8, 17u32, 2) == Some(seq![d@.0, d@.1]),
    {
        match self.value(0, 17, 2) {
            Some(ws) => Some(DeviceId::from_words(ws[0], ws[1])),
            None => None,
        }
    }

    /// Sets or clears the device identifier (CIF0 bit 17).
    pub fn set_device_id(&mut self, d: Option<DeviceId>) -> (r: Result<(), VitaError>)
        requires set_wf(old(self)@),
        ensures value_set(old(self)@, final(self)@, r, 0u8, 17u32, match d { Some(x) => Some(seq![x@.0, x@.1]), None => None }),
    {
        let ws: Option<Vec<u32>> = match d {
            Some(x) => {
                let mut w: Vec<u32> = Vec::new();
                w.push(x.0);
                w.push(x.1);
                assert(w@ =~= seq![x@.0, x@.1]);
                Some(w)
            },
            None => None,
        };
        self.set_value(0, 17, ws)
    }

    /// Spectrum (CIF1 bit 10).
    pub fn spectrum(&self) -> (r: Option<Spectrum>)
        requires set_wf(self@),
        ensures
            r is Some == primary_of(self@, 1u8, 10u32, 13) is Some,
            r matches Some(s) ==> primary_of(self@, 1u8, 10u32, 13) == Some(s@),
    {
        match self.value(1, 10, 13) {
            Some(ws) => Some(Spectrum::from_words(&ws)),
            None => None,
        }
    }

    /// Sets or clears the spectrum (CIF1 bit 10).
    pub fn set_spectrum(&mut self, s: Option<Spectrum>) -> (r: Result<(), VitaError>)
        requires set_wf(old(self)@),
        ensures value_set(old(self)@, final(self)@, r, 1u8, 10u32, match s { Some(x) => Some(x@), None => None }),
    {
        let ws: Option<Vec<u32>> = match s {
            Some(x) => Some(x.to_words()),
            None => None,
        };
        self.set_value(1, 10, ws)
    }
}

/// The low 16 bits of a word, read as a signed value.
pub open spec fn low_i16(o: Option<Seq<u32>>) -> Option<i16> {
    match o {
        Some(ws) => Some((ws[0] & 0xFFFF) as u16 as i16),
        None => None,
    }
}

/// A signed 16-bit value in the low half of a word, the high half zero.
pub open spec fn masked_words(v: Option<i16>) -> Option<Seq<u32>> {
    match v {
        Some(x) => Some(seq![(x as u16) as u32]),
        None => None,
    }
}

/// Relation of an EMS device to its organization (bits 15..14 of the EMS
/// device class).
#[derive(Clone, Copy, Debug, PartialEq, Eq, Hash, Structural)]
pub enum EmsOrganizationRelationship {
    Coalition,
    Known,
    Unknown,
    Reserved,
}

impl CifSet {
    fn get_masked(&self, cif: u8, b: u32) -> (r: Option<i16>)
        requires
            set_wf(self@),
            cif <= 3,
            b < 32,
        ensures
            r == low_i16(primary_of(self@, cif, b, 1)),
    {
        match self.value(cif, b, 1) {
            Some(ws) => Some((ws[0] & 0xFFFF) as u16 as i16),
            None => None,
        }
    }

    fn put_masked(&mut self, cif: u8, b: u32, v: Option<i16>) -> (r: Result<(), VitaError>)
        requires
            set_wf(old(self)@),
        ensures
            value_set(old(self)@, final(self)@, r, cif, b, masked_words(v)),
    {
        let w = match v {
            Some(x) => Some((x as u16) as u32),
            None => None,
        };
        self.put_u32(cif, b, w)
    }

    /// Reference level (CIF0 bit 24): dBm with 7 fractional bits, in the low half of its word.
    pub fn reference_level(&self) -> (r: Option<i16>)
        requires set_wf(self@),
        ensures r == low_i16(primary_of(self@, 0u8, 24u32, 1)),
    { self.get_masked(0, 24) }

    /// Sets or clears: reference level (CIF0 bit 24): dBm with 7 fractional bits; the high half of the word is written as zero.
    pub fn set_reference_level(&mut self, v: Option<i16>) -> (r: Result<(), VitaError>)
        requires set_wf(old(self)@),
        ensures value_set(old(self)@, final(self)@, r, 0u8, 24u32, masked_words(v)),
    { self.put_masked(0, 24, v) }

    /// Temperature (CIF0 bit 18): degrees Celsius with 6 fractional bits, in the low half of its word.
    pub fn temperature(&self) -> (r: Option<i16>)
        requires set_wf(self@),
        ensures r == low_i16(primary_of(self@, 0u8, 18u32, 1)),
    { self.get_masked(0, 18) }

    /// Sets or clears: temperature (CIF0 bit 18): degrees Celsius with 6 fractional bits; the high half of the word is written as zero.
    pub fn set_temperature(&mut self, v: Option<i16>) -> (r: Result<(), VitaError>)
        requires set_wf(old(self)@),
        ensures value_set(old(self)@, final(self)@, r, 0u8, 18u32, masked_words(v)),
    { self.put_masked(0, 18, v) }

    /// Phase offset (CIF1 bit 31): radians with 7 fractional bits, in the low half of its word.
    pub fn phase_offset(&self) -> (r: Option<i16>)
        requires set_wf(self@),
        ensures r == low_i16(primary_of(self@, 1u8, 31u32, 1)),
    { self.get_masked(1, 31) }

    /// Sets or clears: phase offset (CIF1 bit 31): radians with 7 fractional bits; the high half of the word is written as zero.
    pub fn set_phase_offset(&mut self, v: Option<i16>) -> (r: Result<(), VitaError>)
        requires set_wf(old(self)@),
        ensures value_set(old(self)@, final(self)@, r, 1u8, 31u32, masked_words(v)),
    { self.put_masked(1, 31, v) }

    /// Compression point (CIF1 bit 18): dBm with 7 fractional bits, in the low half of its word.
    pub fn compression_point(&self) -> (r: Option<i16>)
        requires set_wf(self@),
        ensures r == low_i16(primary_of(self@, 1u8, 18u32, 1)),
    { self.get_masked(1, 18) }

    /// Sets or clears: compression point (CIF1 bit 18): dBm with 7 fractional bits; the high half of the word is written as zero.
    pub fn set_compression_point(&mut self, v: Option<i16>) -> (r: Result<(), VitaError>)
        requires set_wf(old(self)@),
        ensures value_set(old(self)@, final(self)@, r, 1u8, 18u32, masked_words(v)),
    { self.put_masked(1, 18, v) }

    /// EMS device class (CIF2 bit 14).
    pub fn ems_device_class(&self) -> (r: Option<u32>)
        requires set_wf(self@),
        ensures r == u32_field(primary_of(self@, 2u8, 14u32, 1)),
    { self.get_u32(2, 14) }

    /// Sets or clears the EMS device class (CIF2 bit 14).
    pub fn set_ems_device_class(&mut self, v: Option<u32>) -> (r: Result<(), VitaError>)
        requires set_wf(old(self)@),
        ensures value_set(old(self)@, final(self)@, r, 2u8, 14u32, u32_words(v)),
    { self.put_u32(2, 14, v) }

    /// The organization relationship of the EMS device class.
    pub fn ems_device_class_org(&self) -> (r: Option<EmsOrganizationRelationship>)
        requires set_wf(self@),
        ensures
            r is Some == u32_field(primary_of(self@, 2u8, 14u32, 1)) is Some,
            r matches Some(o) ==> ({
                let c = (u32_field(primary_of(self@, 2u8, 14u32, 1))->0 >> 14u32) & 3;
                o == if c == 0 {
                    EmsOrganizationRelationship::Coalition
                } else if c == 1 {
                    EmsOrganizationRelationship::Known
                } else if c == 2 {
                    EmsOrganizationRelationship::Unknown
                } else {
                    EmsOrganizationRelationship::Reserved
                }
            }),
    {
        match self.get_u32(2, 14) {
            Some(w) => {
                let c = (w >> 14u32) & 3;
                Some(if c == 0 {
                    EmsOrganizationRelationship::Coalition
                } else if c == 1 {
                    EmsOrganizationRelationship::Known
                } else if c == 2 {
                    EmsOrganizationRelationship::Unknown
                } else {
                    EmsOrganizationRelationship::Reserved
                })
            },
            None => None,
        }
    }

    /// Whether the EMS device is an exciter (bit 13 of its class).
    pub fn ems_device_is_exciter(&self) -> (r: Option<bool>)
        requires set_wf(self@),
        ensures
            r is Some == u32_field(primary_of(self@, 2u8, 14u32, 1)) is Some,
            r matches Some(x) ==> x == crate::bits::bit(u32_field(primary_of(self@, 2u8, 14u32, 1))->0, 13),
    {
        match self.get_u32(2, 14) {
            Some(w) => Some((w >> 13u32) & 1 == 1),
            None => None,
        }
    }

    /// Whether the EMS device is a receiver (bit 12 of its class).
    pub fn ems_device_is_receiver(&self) -> (r: Option<bool>)
        requires set_wf(self@),
        ensures
            r is Some == u32_field(primary_of(self@, 2u8, 14u32, 1)) is Some,
            r matches Some(x) ==> x == crate::bits::bit(u32_field(primary_of(self@, 2u8, 14u32, 1))->0, 12),
    {
        match self.get_u32(2, 14) {
            Some(w) => Some((w >> 12u32) & 1 == 1),
            None => None,
        }
    }
}

impl CifSet {

    /// Formatted GPS geolocation (CIF0 bit 14), 11 words.
    pub fn formatted_gps(&self) -> (r: Option<Vec<u32>>)
        requires set_wf(self@),
        ensures opt_view(r) == primary_of(self@, 0u8, 14u32, 11),
    { self.value(0, 14, 11) }

    /// Sets or clears: formatted GPS geolocation (CIF0 bit 14), 11 words.
    pub fn set_formatted_gps(&mut self, v: Option<Vec<u32>>) -> (r: Result<(), VitaError>)
        requires set_wf(old(self)@),
        ensures
            (v matches Some(w) && w@.len() != 11) ==> r == Err::<(), VitaError>(VitaError::OutOfRange) && final(self)@ == old(self)@,
            !(v matches Some(w) && w@.len() != 11) ==> value_set(old(self)@, final(self)@, r, 0u8, 14u32, opt_view(v)),
    {
        if let Some(w) = &v {
            if w.len() != 11 {
                return Err(VitaError::OutOfRange);
            }
        }
        self.set_value(0, 14, v)
    }

    /// Formatted INS geolocation (CIF0 bit 13), 11 words.
    pub fn formatted_ins(&self) -> (r: Option<Vec<u32>>)
        requires set_wf(self@),
        ensures opt_view(r) == primary_of(self@, 0u8, 13u32, 11),
    { self.value(0, 13, 11) }

    /// Sets or clears: formatted INS geolocation (CIF0 bit 13), 11 words.
    pub fn set_formatted_ins(&mut self, v: Option<Vec<u32>>) -> (r: Result<(), VitaError>)
        requires set_wf(old(self)@),
        ensures
            (v matches Some(w) && w@.len() != 11) ==> r == Err::<(), VitaError>(VitaError::OutOfRange) && final(self)@ == old(self)@,
            !(v matches Some(w) && w@.len() != 11) ==> value_set(old(self)@, final(self)@, r, 0u8, 13u32, opt_view(v)),
    {
        if let Some(w) = &v {
            if w.len() != 11 {
                return Err(VitaError::OutOfRange);
            }
        }
        self.set_value(0, 13, v)
    }

    /// ECEF ephemeris (CIF0 bit 12), 13 words.
    pub fn ecef_ephemeris(&self) -> (r: Option<Vec<u32>>)
        requires set_wf(self@),
        ensures opt_view(r) == primary_of(self@, 0u8, 12u32, 13),
    { self.value(0, 12, 13) }

    /// Sets or clears: eCEF ephemeris (CIF0 bit 12), 13 words.
    pub fn set_ecef_ephemeris(&mut self, v: Option<Vec<u32>>) -> (r: Result<(), VitaError>)
        requires set_wf(old(self)@),
        ensures
            (v matches Some(w) && w@.len() != 13) ==> r == Err::<(), VitaError>(VitaError::OutOfRange) && final(self)@ == old(self)@,
            !(v matches Some(w) && w@.len() != 13) ==> value_set(old(self)@, final(self)@, r, 0u8, 12u32, opt_view(v)),
    {
        if let Some(w) = &v {
            if w.len() != 13 {
                return Err(VitaError::OutOfRange);
            }
        }
        self.set_value(0, 12, v)
    }

    /// Relative ephemeris (CIF0 bit 11), 13 words.
    pub fn relative_ephemeris(&self) -> (r: Option<Vec<u32>>)
        requires set_wf(self@),
        ensures opt_view(r) == primary_of(self@, 0u8, 11u32, 13),
    { self.value(0, 11, 13) }

    /// Sets or clears: relative ephemeris (CIF0 bit 11), 13 words.
    pub fn set_relative_ephemeris(&mut self, v: Option<Vec<u32>>) -> (r: Result<(), VitaError>)
        requires set_wf(old(self)@),
        ensures
            (v matches Some(w) && w@.len() != 13) ==> r == Err::<(), VitaError>(VitaError::OutOfRange) && final(self)@ == old(self)@,
            !(v matches Some(w) && w@.len() != 13) ==> value_set(old(self)@, final(self)@, r, 0u8, 11u32, opt_view(v)),
    {
        if let Some(w) = &v {
            if w.len() != 13 {
                return Err(VitaError::OutOfRange);
            }
        }
        self.set_value(0, 11, v)
    }
}

impl CifSet {

    /// GPS ASCII (CIF0 bit 9): an OUI word, a word count, then that many words of text, once per CIF7 copy.
    pub fn gps_ascii(&self) -> (r: Option<Vec<u32>>)
        requires set_wf(self@),
        ensures opt_view(r) == field_of(self@, 0u8, 9u32),
    { self.field(0, 9) }

    /// Sets or clears: gPS ASCII (CIF0 bit 9): an OUI word, a word count, then that many words of text, once per CIF7 copy; as [`CifSet::set_field`].
    pub fn set_gps_ascii(&mut self, v: Option<Vec<u32>>) -> (r: Result<(), VitaError>)
        requires set_wf(old(self)@),
        ensures
            set_field_error(old(self)@, 0u8, 9u32, opt_view(v)) matches Some(e) ==> r == Err::<(), VitaError>(e) && final(self)@ == old(self)@,
            set_field_error(old(self)@, 0u8, 9u32, opt_view(v)) is None ==> r is Ok && field_set(old(self)@, final(self)@, 0u8, 9u32, opt_view(v)),
    { self.set_field(0, 9, v) }

    /// Context association lists (CIF0 bit 8): two size words, then the source, system, vector-component and asynchronous-channel lists and, where flagged, the channel tags, once per CIF7 copy.
    pub fn context_association_lists(&self) -> (r: Option<Vec<u32>>)
        requires set_wf(self@),
        ensures opt_view(r) == field_of(self@, 0u8, 8u32),
    { self.field(0, 8) }

    /// Sets or clears: context association lists (CIF0 bit 8): two size words, then the source, system, vector-component and asynchronous-channel lists and, where flagged, the channel tags, once per CIF7 copy; as [`CifSet::set_field`].
    pub fn set_context_association_lists(&mut self, v: Option<Vec<u32>>) -> (r: Result<(), VitaError>)
        requires set_wf(old(self)@),
        ensures
            set_field_error(old(self)@, 0u8, 8u32, opt_view(v)) matches Some(e) ==> r == Err::<(), VitaError>(e) && final(self)@ == old(self)@,
            set_field_error(old(self)@, 0u8, 8u32, opt_view(v)) is None ==> r is Ok && field_set(old(self)@, final(self)@, 0u8, 8u32, opt_view(v)),
    { self.set_field(0, 8, v) }
}

} // verus!
