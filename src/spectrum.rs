//! The spectrum field of CIF1 (13 words): spectrum and window kinds,
//! transform sizes, resolution and span (fixed point, 20 fractional bits),
//! averaging, weighting, frequency indices and the window time delta.
use vstd::prelude::*;
use crate::error::VitaError;

verus! {

/// Kind of spectrum (bits 7..0 of the first word).
#[derive(Clone, Copy, Debug, PartialEq, Eq, Hash, Structural)]
pub enum SpectrumType {
    Default,
    LogPowerDb,
    Cartesian,
    Polar,
    Magnitude,
    /// Codes 5 to 127.
    Reserved,
    /// Codes 128 to 255.
    UserDefined(u8),
}

/// Averaging applied (bits 15..8 of the first word).
#[derive(Clone, Copy, Debug, PartialEq, Eq, Hash, Structural)]
pub enum AveragingType {
    NoAveraging,
    Linear,
    PeakHold,
    MinHold,
    Exponential,
    Median,
    Smoothing,
    Reserved,
}

/// How the window time delta reads (bits 19..16 of the first word).
#[derive(Clone, Copy, Debug, PartialEq, Eq, Hash, Structural)]
pub enum WindowTimeDeltaInterpretation {
    OverlapNotControlled,
    PercentOverlap,
    Samples,
    Time,
    Reserved,
}

pub open spec fn spectrum_type_of(c: u32) -> SpectrumType {
    if c == 0 {
        SpectrumType::Default
    } else if c == 1 {
        SpectrumType::LogPowerDb
    } else if c == 2 {
        SpectrumType::Cartesian
    } else if c == 3 {
        SpectrumType::Polar
    } else if c == 4 {
        SpectrumType::Magnitude
    } else if c < 128 {
        SpectrumType::Reserved
    } else {
        SpectrumType::UserDefined(c as u8)
    }
}

pub open spec fn averaging_type_of(c: u32) -> AveragingType {
    if c == 0 {
        AveragingType::NoAveraging
    } else if c == 1 {
        AveragingType::Linear
    } else if c == 2 {
        AveragingType::PeakHold
    } else if c == 4 {
        AveragingType::MinHold
    } else if c == 8 {
        AveragingType::Exponential
    } else if c == 16 {
        AveragingType::Median
    } else if c == 32 {
        AveragingType::Smoothing
    } else {
        AveragingType::Reserved
    }
}

pub open spec fn interpretation_of(c: u32) -> WindowTimeDeltaInterpretation {
    if c == 0 {
        WindowTimeDeltaInterpretation::OverlapNotControlled
    } else if c == 1 {
        WindowTimeDeltaInterpretation::PercentOverlap
    } else if c == 2 {
        WindowTimeDeltaInterpretation::Samples
    } else if c == 3 {
        WindowTimeDeltaInterpretation::Time
    } else {
        WindowTimeDeltaInterpretation::Reserved
    }
}

/// The 64-bit value of two words, high word first.
pub open spec fn u64_of(hi: u32, lo: u32) -> u64 {
    (((hi as u64) << 32u64) | (lo as u64)) as u64
}

/// The spectrum field.
#[derive(Clone, Copy, Debug, PartialEq, Eq, Hash, Default)]
pub struct Spectrum {
    spectrum_type: u32,
    window_type: u32,
    num_transform_points: u32,
    num_window_points: u32,
    resolution_hi: u32,
    resolution_lo: u32,
    span_hi: u32,
    span_lo: u32,
    num_averages: u32,
    weighting_factor: u32,
    f1_index: u32,
    f2_index: u32,
    window_time_delta: u32,
}

impl View for Spectrum {
    type V = Seq<u32>;

    closed spec fn view(&self) -> Seq<u32> {
        seq![self.spectrum_type, self.window_type, self.num_transform_points, self.num_window_points, self.resolution_hi, self.resolution_lo, self.span_hi, self.span_lo, self.num_averages, self.weighting_factor, self.f1_index, self.f2_index, self.window_time_delta]
    }
}

/// A spectrum field is always 13 words long.
pub proof fn lemma_spectrum_len(s: Spectrum)
    ensures
        s@.len() == 13,
{
}

impl Spectrum {
    /// A spectrum field with every word zero.
    pub fn new() -> (r: Spectrum)
        ensures
            r@ == Seq::new(13, |i: int| 0u32),
    {
        let r = Spectrum::default_words();
        assert(r@ =~= Seq::new(13, |i: int| 0u32));
        r
    }

    fn default_words() -> (r: Spectrum)
        ensures
            forall|i: int| 0 <= i < 13 ==> r@[i] == 0,
            r@.len() == 13,
    {
        Spectrum { spectrum_type: 0, window_type: 0, num_transform_points: 0, num_window_points: 0, resolution_hi: 0, resolution_lo: 0, span_hi: 0, span_lo: 0, num_averages: 0, weighting_factor: 0, f1_index: 0, f2_index: 0, window_time_delta: 0 }
    }

    /// The spectrum field held by 13 words.
    pub fn from_words(ws: &Vec<u32>) -> (r: Spectrum)
        requires
            ws@.len() == 13,
        ensures
            r@ == ws@,
    {
        let r = Spectrum { spectrum_type: ws[0], window_type: ws[1], num_transform_points: ws[2], num_window_points: ws[3], resolution_hi: ws[4], resolution_lo: ws[5], span_hi: ws[6], span_lo: ws[7], num_averages: ws[8], weighting_factor: ws[9], f1_index: ws[10], f2_index: ws[11], window_time_delta: ws[12] };
        assert(r@ =~= ws@);
        r
    }

    /// The 13 words of the field.
    pub fn to_words(&self) -> (r: Vec<u32>)
        ensures
            self@.len() == 13,
            r@ == self@,
            r@.len() == 13,
    {
        let mut v: Vec<u32> = Vec::new();
        v.push(self.spectrum_type);
        v.push(self.window_type);
        v.push(self.num_transform_points);
        v.push(self.num_window_points);
        v.push(self.resolution_hi);
        v.push(self.resolution_lo);
        v.push(self.span_hi);
        v.push(self.span_lo);
        v.push(self.num_averages);
        v.push(self.weighting_factor);
        v.push(self.f1_index);
        v.push(self.f2_index);
        v.push(self.window_time_delta);
        assert(v@ =~= self@);
        v
    }

    /// The field occupies 13 words.
    pub fn size_words(&self) -> (r: u16)
        ensures
            self@.len() == 13,
            r == 13,
    {
        13
    }

    /// The whole first word.
    pub fn spectrum_type_as_u32(&self) -> (r: u32)
        ensures
            self@.len() == 13,
            r == self@[0],
    {
        self.spectrum_type
    }

    /// The spectrum kind of bits 7..0.
    pub fn spectrum_type(&self) -> (r: SpectrumType)
        ensures
            self@.len() == 13,
            r == spectrum_type_of(self@[0] & 0xFF),
    {
        let c = self.spectrum_type & 0xFF;
        if c == 0 {
            SpectrumType::Default
        } else if c == 1 {
            SpectrumType::LogPowerDb
        } else if c == 2 {
            SpectrumType::Cartesian
        } else if c == 3 {
            SpectrumType::Polar
        } else if c == 4 {
            SpectrumType::Magnitude
        } else if c < 128 {
            SpectrumType::Reserved
        } else {
            SpectrumType::UserDefined(c as u8)
        }
    }

    /// Writes the spectrum kind into bits 7..0. `Err(ReservedField)` for
    /// `Reserved`, `Err(OutOfRange)` for a user-defined code below 128; on
    /// error nothing changes.
    pub fn set_spectrum_type(&mut self, t: SpectrumType) -> (r: Result<(), VitaError>)
        ensures
            t == SpectrumType::Reserved ==> r == Err::<(), VitaError>(VitaError::ReservedField) && final(self)@ == old(self)@,
            (t matches SpectrumType::UserDefined(v) && v < 128) ==> r == Err::<(), VitaError>(VitaError::OutOfRange) && final(self)@ == old(self)@,
            r is Ok <==> (t != SpectrumType::Reserved && !(t matches SpectrumType::UserDefined(v) && v < 128)),
            r is Ok ==> final(self)@ == old(self)@.update(0, (old(self)@[0] & 0xFFFF_FF00) | spectrum_code(t)),
    {
        let c: u32 = match t {
            SpectrumType::Default => 0,
            SpectrumType::LogPowerDb => 1,
            SpectrumType::Cartesian => 2,
            SpectrumType::Polar => 3,
            SpectrumType::Magnitude => 4,
            SpectrumType::Reserved => {
                return Err(VitaError::ReservedField);
            },
            SpectrumType::UserDefined(v) => {
                if v < 128 {
                    return Err(VitaError::OutOfRange);
                }
                v as u32
            },
        };
        self.spectrum_type = (self.spectrum_type & 0xFFFF_FF00) | c;
        Ok(())
    }

    /// The averaging kind of bits 15..8.
    pub fn averaging_type(&self) -> (r: AveragingType)
        ensures
            self@.len() == 13,
            r == averaging_type_of((self@[0] >> 8u32) & 0xFF),
    {
        let c = (self.spectrum_type >> 8u32) & 0xFF;
        if c == 0 {
            AveragingType::NoAveraging
        } else if c == 1 {
            AveragingType::Linear
        } else if c == 2 {
            AveragingType::PeakHold
        } else if c == 4 {
            AveragingType::MinHold
        } else if c == 8 {
            AveragingType::Exponential
        } else if c == 16 {
            AveragingType::Median
        } else if c == 32 {
            AveragingType::Smoothing
        } else {
            AveragingType::Reserved
        }
    }

    /// Writes the averaging kind into bits 15..8; `Err(ReservedField)`, with
    /// nothing changed, for `Reserved`.
    pub fn set_averaging_type(&mut self, t: AveragingType) -> (r: Result<(), VitaError>)
        ensures
            t == AveragingType::Reserved ==> r == Err::<(), VitaError>(VitaError::ReservedField) && final(self)@ == old(self)@,
            t != AveragingType::Reserved ==> r is Ok && final(self)@ == old(self)@.update(0, (old(self)@[0] & 0xFFFF_00FF) | (averaging_code(t) << 8u32)),
    {
        let c: u32 = match t {
            AveragingType::NoAveraging => 0,
            AveragingType::Linear => 1,
            AveragingType::PeakHold => 2,
            AveragingType::MinHold => 4,
            AveragingType::Exponential => 8,
            AveragingType::Median => 16,
            AveragingType::Smoothing => 32,
            AveragingType::Reserved => {
                return Err(VitaError::ReservedField);
            },
        };
        self.spectrum_type = (self.spectrum_type & 0xFFFF_00FF) | (c << 8u32);
        Ok(())
    }

    /// How the window time delta reads, from bits 19..16.
    pub fn window_time_delta_interpretation(&self) -> (r: WindowTimeDeltaInterpretation)
        ensures
            self@.len() == 13,
            r == interpretation_of((self@[0] >> 16u32) & 0xF),
    {
        let c = (self.spectrum_type >> 16u32) & 0xF;
        if c == 0 {
            WindowTimeDeltaInterpretation::OverlapNotControlled
        } else if c == 1 {
            WindowTimeDeltaInterpretation::PercentOverlap
        } else if c == 2 {
            WindowTimeDeltaInterpretation::Samples
        } else if c == 3 {
            WindowTimeDeltaInterpretation::Time
        } else {
            WindowTimeDeltaInterpretation::Reserved
        }
    }

    /// Writes the interpretation into bits 19..16; `Err(ReservedField)`,
    /// with nothing changed, for `Reserved`.
    pub fn set_window_time_delta_interpretation(&mut self, t: WindowTimeDeltaInterpretation) -> (r: Result<(), VitaError>)
        ensures
            t == WindowTimeDeltaInterpretation::Reserved ==> r == Err::<(), VitaError>(VitaError::ReservedField) && final(self)@ == old(self)@,
            t != WindowTimeDeltaInterpretation::Reserved ==> r is Ok && final(self)@ == old(self)@.update(0, (old(self)@[0] & 0xFFF0_FFFF) | (interpretation_code(t) << 16u32)),
    {
        let c: u32 = match t {
            WindowTimeDeltaInterpretation::OverlapNotControlled => 0,
            WindowTimeDeltaInterpretation::PercentOverlap => 1,
            WindowTimeDeltaInterpretation::Samples => 2,
            WindowTimeDeltaInterpretation::Time => 3,
            WindowTimeDeltaInterpretation::Reserved => {
                return Err(VitaError::ReservedField);
            },
        };
        self.spectrum_type = (self.spectrum_type & 0xFFF0_FFFF) | (c << 16u32);
        Ok(())
    }

    /// The window (bits 7..0 of the second word).
    pub fn window_type(&self) -> (r: WindowType)
        ensures
            self@.len() == 13,
            r == window_type_of((self@[1] & 0xFF) as u8),
    {
        WindowType::from_code((self.window_type & 0xFF) as u8)
    }

    /// Writes the window's code as the second word; the errors of
    /// [`WindowType::code`], with nothing changed.
    pub fn set_window_type(&mut self, t: WindowType) -> (r: Result<(), VitaError>)
        ensures
            match window_code(t) {
                Some(c) => r is Ok && final(self)@ == old(self)@.update(1, c as u32),
                None => r is Err && final(self)@ == old(self)@,
            },
    {
        let c = t.code()?;
        self.window_type = c as u32;
        Ok(())
    }

    /// The num transform points.
    pub fn num_transform_points(&self) -> (r: u32)
        ensures
            self@.len() == 13, r == self@[2],
    { self.num_transform_points }

    /// Sets num transform points.
    pub fn set_num_transform_points(&mut self, v: u32)
        ensures final(self)@ == old(self)@.update(2, v),
    { self.num_transform_points = v; }

    /// The num window points.
    pub fn num_window_points(&self) -> (r: u32)
        ensures
            self@.len() == 13, r == self@[3],
    { self.num_window_points }

    /// Sets num window points.
    pub fn set_num_window_points(&mut self, v: u32)
        ensures final(self)@ == old(self)@.update(3, v),
    { self.num_window_points = v; }

    /// The num averages.
    pub fn num_averages(&self) -> (r: u32)
        ensures
            self@.len() == 13, r == self@[8],
    { self.num_averages }

    /// Sets num averages.
    pub fn set_num_averages(&mut self, v: u32)
        ensures final(self)@ == old(self)@.update(8, v),
    { self.num_averages = v; }

    /// The window time delta.
    pub fn window_time_delta(&self) -> (r: u32)
        ensures
            self@.len() == 13, r == self@[12],
    { self.window_time_delta }

    /// Sets window time delta.
    pub fn set_window_time_delta(&mut self, v: u32)
        ensures final(self)@ == old(self)@.update(12, v),
    { self.window_time_delta = v; }

    /// The weighting factor.
    pub fn weighting_factor(&self) -> (r: i32)
        ensures
            self@.len() == 13, r == self@[9] as i32,
    { self.weighting_factor as i32 }

    /// Sets weighting factor.
    pub fn set_weighting_factor(&mut self, v: i32)
        ensures final(self)@ == old(self)@.update(9, v as u32),
    { self.weighting_factor = v as u32; }

    /// The f1 index.
    pub fn f1_index(&self) -> (r: i32)
        ensures
            self@.len() == 13, r == self@[10] as i32,
    { self.f1_index as i32 }

    /// Sets f1 index.
    pub fn set_f1_index(&mut self, v: i32)
        ensures final(self)@ == old(self)@.update(10, v as u32),
    { self.f1_index = v as u32; }

    /// The f2 index.
    pub fn f2_index(&self) -> (r: i32)
        ensures
            self@.len() == 13, r == self@[11] as i32,
    { self.f2_index as i32 }

    /// Sets f2 index.
    pub fn set_f2_index(&mut self, v: i32)
        ensures final(self)@ == old(self)@.update(11, v as u32),
    { self.f2_index = v as u32; }

    /// Fixed point with 20 fractional bits, in hertz.
    pub fn resolution(&self) -> (r: i64)
        ensures
            self@.len() == 13, r == u64_of(self@[4], self@[5]) as i64,
    { (((self.resolution_hi as u64) << 32u64) | (self.resolution_lo as u64)) as i64 }

    /// Fixed point with 20 fractional bits, in hertz.
    pub fn set_resolution(&mut self, v: i64)
        ensures final(self)@ == old(self)@.update(4, ((v as u64) >> 32u64) as u32).update(5, (v as u64) as u32),
    {
        self.resolution_hi = ((v as u64) >> 32u64) as u32;
        self.resolution_lo = (v as u64) as u32;
    }

    /// Fixed point with 20 fractional bits, in hertz.
    pub fn span(&self) -> (r: i64)
        ensures
            self@.len() == 13, r == u64_of(self@[6], self@[7]) as i64,
    { (((self.span_hi as u64) << 32u64) | (self.span_lo as u64)) as i64 }

    /// Fixed point with 20 fractional bits, in hertz.
    pub fn set_span(&mut self, v: i64)
        ensures final(self)@ == old(self)@.update(6, ((v as u64) >> 32u64) as u32).update(7, (v as u64) as u32),
    {
        self.span_hi = ((v as u64) >> 32u64) as u32;
        self.span_lo = (v as u64) as u32;
    }
}

pub open spec fn spectrum_code(t: SpectrumType) -> u32 {
    match t {
        SpectrumType::Default => 0,
        SpectrumType::LogPowerDb => 1,
        SpectrumType::Cartesian => 2,
        SpectrumType::Polar => 3,
        SpectrumType::Magnitude => 4,
        SpectrumType::Reserved => 0,
        SpectrumType::UserDefined(v) => v as u32,
    }
}

pub open spec fn averaging_code(t: AveragingType) -> u32 {
    match t {
        AveragingType::NoAveraging => 0,
        AveragingType::Linear => 1,
        AveragingType::PeakHold => 2,
        AveragingType::MinHold => 4,
        AveragingType::Exponential => 8,
        AveragingType::Median => 16,
        AveragingType::Smoothing => 32,
        AveragingType::Reserved => 0,
    }
}

pub open spec fn interpretation_code(t: WindowTimeDeltaInterpretation) -> u32 {
    match t {
        WindowTimeDeltaInterpretation::OverlapNotControlled => 0,
        WindowTimeDeltaInterpretation::PercentOverlap => 1,
        WindowTimeDeltaInterpretation::Samples => 2,
        WindowTimeDeltaInterpretation::Time => 3,
        WindowTimeDeltaInterpretation::Reserved => 0,
    }
}


/// Window applied before the transform, coded 0 to 43; 44 to 99 are
/// reserved and 100 to 255 are other, user-chosen windows.
#[derive(Clone, Copy, Debug, PartialEq, Eq, Hash, Structural)]
pub enum WindowType {
    Rectangle,
    Triangle,
    Hanning100,
    Hanning200,
    Hanning300,
    Hanning400,
    Hamming,
    Riesz,
    Riemann,
    DeLaVallepoussin,
    Tukey025,
    Tukey050,
    Tukey075,
    Bohman,
    Poisson200,
    Poisson300,
    Poisson400,
    HanningPoisson050,
    HanningPoisson100,
    HanningPoisson200,
    Cauchy300,
    Cauchy400,
    Cauchy500,
    Gaussian250,
    Gaussian300,
    Gaussian350,
    DolphChebyshiev250,
    DolphChebyshiev300,
    DolphChebyshiev350,
    DolphChebyshiev400,
    KaiserBessel200,
    KaiserBessel250,
    KaiserBessel300,
    KaiserBessel350,
    BarcilonTemes300,
    BarcilonTemes350,
    BarcilonTemes400,
    ExactBlackman,
    Blackman,
    BlackmanHarrisMin3Sample,
    BlackmanHarrisMin4Sample,
    BlackmanHarris61Db3Sample,
    BlackmanHarris74Db4Sample,
    KaiserBessel4Sample300,
    Reserved,
    Other(u8),
}

/// The window of code `c`.
pub open spec fn window_type_of(c: u8) -> WindowType {
    if c == 0 {
        WindowType::Rectangle
    } else if c == 1 {
        WindowType::Triangle
    } else if c == 2 {
        WindowType::Hanning100
    } else if c == 3 {
        WindowType::Hanning200
    } else if c == 4 {
        WindowType::Hanning300
    } else if c == 5 {
        WindowType::Hanning400
    } else if c == 6 {
        WindowType::Hamming
    } else if c == 7 {
        WindowType::Riesz
    } else if c == 8 {
        WindowType::Riemann
    } else if c == 9 {
        WindowType::DeLaVallepoussin
    } else if c == 10 {
        WindowType::Tukey025
    } else if c == 11 {
        WindowType::Tukey050
    } else if c == 12 {
        WindowType::Tukey075
    } else if c == 13 {
        WindowType::Bohman
    } else if c == 14 {
        WindowType::Poisson200
    } else if c == 15 {
        WindowType::Poisson300
    } else if c == 16 {
        WindowType::Poisson400
    } else if c == 17 {
        WindowType::HanningPoisson050
    } else if c == 18 {
        WindowType::HanningPoisson100
    } else if c == 19 {
        WindowType::HanningPoisson200
    } else if c == 20 {
        WindowType::Cauchy300
    } else if c == 21 {
        WindowType::Cauchy400
    } else if c == 22 {
        WindowType::Cauchy500
    } else if c == 23 {
        WindowType::Gaussian250
    } else if c == 24 {
        WindowType::Gaussian300
    } else if c == 25 {
        WindowType::Gaussian350
    } else if c == 26 {
        WindowType::DolphChebyshiev250
    } else if c == 27 {
        WindowType::DolphChebyshiev300
    } else if c == 28 {
        WindowType::DolphChebyshiev350
    } else if c == 29 {
        WindowType::DolphChebyshiev400
    } else if c == 30 {
        WindowType::KaiserBessel200
    } else if c == 31 {
        WindowType::KaiserBessel250
    } else if c == 32 {
        WindowType::KaiserBessel300
    } else if c == 33 {
        WindowType::KaiserBessel350
    } else if c == 34 {
        WindowType::BarcilonTemes300
    } else if c == 35 {
        WindowType::BarcilonTemes350
    } else if c == 36 {
        WindowType::BarcilonTemes400
    } else if c == 37 {
        WindowType::ExactBlackman
    } else if c == 38 {
        WindowType::Blackman
    } else if c == 39 {
        WindowType::BlackmanHarrisMin3Sample
    } else if c == 40 {
        WindowType::BlackmanHarrisMin4Sample
    } else if c == 41 {
        WindowType::BlackmanHarris61Db3Sample
    } else if c == 42 {
        WindowType::BlackmanHarris74Db4Sample
    } else if c == 43 {
        WindowType::KaiserBessel4Sample300
    } else if c < 100 {
        WindowType::Reserved
    } else {
        WindowType::Other(c)
    }
}

/// The code of window `t` (`Reserved` has none).
pub open spec fn window_code(t: WindowType) -> Option<u8> {
    match t {
        WindowType::Rectangle => Some(0u8),
        WindowType::Triangle => Some(1u8),
        WindowType::Hanning100 => Some(2u8),
        WindowType::Hanning200 => Some(3u8),
        WindowType::Hanning300 => Some(4u8),
        WindowType::Hanning400 => Some(5u8),
        WindowType::Hamming => Some(6u8),
        WindowType::Riesz => Some(7u8),
        WindowType::Riemann => Some(8u8),
        WindowType::DeLaVallepoussin => Some(9u8),
        WindowType::Tukey025 => Some(10u8),
        WindowType::Tukey050 => Some(11u8),
        WindowType::Tukey075 => Some(12u8),
        WindowType::Bohman => Some(13u8),
        WindowType::Poisson200 => Some(14u8),
        WindowType::Poisson300 => Some(15u8),
        WindowType::Poisson400 => Some(16u8),
        WindowType::HanningPoisson050 => Some(17u8),
        WindowType::HanningPoisson100 => Some(18u8),
        WindowType::HanningPoisson200 => Some(19u8),
        WindowType::Cauchy300 => Some(20u8),
        WindowType::Cauchy400 => Some(21u8),
        WindowType::Cauchy500 => Some(22u8),
        WindowType::Gaussian250 => Some(23u8),
        WindowType::Gaussian300 => Some(24u8),
        WindowType::Gaussian350 => Some(25u8),
        WindowType::DolphChebyshiev250 => Some(26u8),
        WindowType::DolphChebyshiev300 => Some(27u8),
        WindowType::DolphChebyshiev350 => Some(28u8),
        WindowType::DolphChebyshiev400 => Some(29u8),
        WindowType::KaiserBessel200 => Some(30u8),
        WindowType::KaiserBessel250 => Some(31u8),
        WindowType::KaiserBessel300 => Some(32u8),
        WindowType::KaiserBessel350 => Some(33u8),
        WindowType::BarcilonTemes300 => Some(34u8),
        WindowType::BarcilonTemes350 => Some(35u8),
        WindowType::BarcilonTemes400 => Some(36u8),
        WindowType::ExactBlackman => Some(37u8),
        WindowType::Blackman => Some(38u8),
        WindowType::BlackmanHarrisMin3Sample => Some(39u8),
        WindowType::BlackmanHarrisMin4Sample => Some(40u8),
        WindowType::BlackmanHarris61Db3Sample => Some(41u8),
        WindowType::BlackmanHarris74Db4Sample => Some(42u8),
        WindowType::KaiserBessel4Sample300 => Some(43u8),
        WindowType::Reserved => None,
        WindowType::Other(v) => if v >= 100 { Some(v) } else { None },
    }
}

impl WindowType {
    /// The window of code `c`.
    pub fn from_code(c: u8) -> (r: WindowType)
        ensures
            r == window_type_of(c),
    {
        match c {
            0 => WindowType::Rectangle,
            1 => WindowType::Triangle,
            2 => WindowType::Hanning100,
            3 => WindowType::Hanning200,
            4 => WindowType::Hanning300,
            5 => WindowType::Hanning400,
            6 => WindowType::Hamming,
            7 => WindowType::Riesz,
            8 => WindowType::Riemann,
            9 => WindowType::DeLaVallepoussin,
            10 => WindowType::Tukey025,
            11 => WindowType::Tukey050,
            12 => WindowType::Tukey075,
            13 => WindowType::Bohman,
            14 => WindowType::Poisson200,
            15 => WindowType::Poisson300,
            16 => WindowType::Poisson400,
            17 => WindowType::HanningPoisson050,
            18 => WindowType::HanningPoisson100,
            19 => WindowType::HanningPoisson200,
            20 => WindowType::Cauchy300,
            21 => WindowType::Cauchy400,
            22 => WindowType::Cauchy500,
            23 => WindowType::Gaussian250,
            24 => WindowType::Gaussian300,
            25 => WindowType::Gaussian350,
            26 => WindowType::DolphChebyshiev250,
            27 => WindowType::DolphChebyshiev300,
            28 => WindowType::DolphChebyshiev350,
            29 => WindowType::DolphChebyshiev400,
            30 => WindowType::KaiserBessel200,
            31 => WindowType::KaiserBessel250,
            32 => WindowType::KaiserBessel300,
            33 => WindowType::KaiserBessel350,
            34 => WindowType::BarcilonTemes300,
            35 => WindowType::BarcilonTemes350,
            36 => WindowType::BarcilonTemes400,
            37 => WindowType::ExactBlackman,
            38 => WindowType::Blackman,
            39 => WindowType::BlackmanHarrisMin3Sample,
            40 => WindowType::BlackmanHarrisMin4Sample,
            41 => WindowType::BlackmanHarris61Db3Sample,
            42 => WindowType::BlackmanHarris74Db4Sample,
            43 => WindowType::KaiserBessel4Sample300,
            44..=99 => WindowType::Reserved,
            _ => WindowType::Other(c),
        }
    }

    /// The code of the window; `Err(ReservedField)` for `Reserved`, and
    /// `Err(OutOfRange)` for `Other` with a code below 100.
    pub fn code(self) -> (r: Result<u8, VitaError>)
        ensures
            window_code(self) matches Some(c) ==> r == Ok::<u8, VitaError>(c),
            self == WindowType::Reserved ==> r == Err::<u8, VitaError>(VitaError::ReservedField),
            (self matches WindowType::Other(v) && v < 100) ==> r == Err::<u8, VitaError>(VitaError::OutOfRange),
    {
        match self {
            WindowType::Rectangle => Ok(0),
            WindowType::Triangle => Ok(1),
            WindowType::Hanning100 => Ok(2),
            WindowType::Hanning200 => Ok(3),
            WindowType::Hanning300 => Ok(4),
            WindowType::Hanning400 => Ok(5),
            WindowType::Hamming => Ok(6),
            WindowType::Riesz => Ok(7),
            WindowType::Riemann => Ok(8),
            WindowType::DeLaVallepoussin => Ok(9),
            WindowType::Tukey025 => Ok(10),
            WindowType::Tukey050 => Ok(11),
            WindowType::Tukey075 => Ok(12),
            WindowType::Bohman => Ok(13),
            WindowType::Poisson200 => Ok(14),
            WindowType::Poisson300 => Ok(15),
            WindowType::Poisson400 => Ok(16),
            WindowType::HanningPoisson050 => Ok(17),
            WindowType::HanningPoisson100 => Ok(18),
            WindowType::HanningPoisson200 => Ok(19),
            WindowType::Cauchy300 => Ok(20),
            WindowType::Cauchy400 => Ok(21),
            WindowType::Cauchy500 => Ok(22),
            WindowType::Gaussian250 => Ok(23),
            WindowType::Gaussian300 => Ok(24),
            WindowType::Gaussian350 => Ok(25),
            WindowType::DolphChebyshiev250 => Ok(26),
            WindowType::DolphChebyshiev300 => Ok(27),
            WindowType::DolphChebyshiev350 => Ok(28),
            WindowType::DolphChebyshiev400 => Ok(29),
            WindowType::KaiserBessel200 => Ok(30),
            WindowType::KaiserBessel250 => Ok(31),
            WindowType::KaiserBessel300 => Ok(32),
            WindowType::KaiserBessel350 => Ok(33),
            WindowType::BarcilonTemes300 => Ok(34),
            WindowType::BarcilonTemes350 => Ok(35),
            WindowType::BarcilonTemes400 => Ok(36),
            WindowType::ExactBlackman => Ok(37),
            WindowType::Blackman => Ok(38),
            WindowType::BlackmanHarrisMin3Sample => Ok(39),
            WindowType::BlackmanHarrisMin4Sample => Ok(40),
            WindowType::BlackmanHarris61Db3Sample => Ok(41),
            WindowType::BlackmanHarris74Db4Sample => Ok(42),
            WindowType::KaiserBessel4Sample300 => Ok(43),
            WindowType::Reserved => Err(VitaError::ReservedField),
            WindowType::Other(v) => if v >= 100 { Ok(v) } else { Err(VitaError::OutOfRange) },
        }
    }
}

/// Reading a window back from its code gives the same window.
pub proof fn lemma_window_round_trip(t: WindowType)
    ensures
        window_code(t) matches Some(c) ==> window_type_of(c) == t,
{
}

/// Writing the code of the window read from `c` gives `c` back, for every
/// code that is not reserved.
pub proof fn lemma_window_code_round_trip(c: u8)
    ensures
        !(44 <= c < 100) ==> window_code(window_type_of(c)) == Some(c),
{
}

} // verus!
