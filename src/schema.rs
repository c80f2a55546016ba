//! The field schema: for each bit of CIF0, CIF1, CIF2 and CIF3, what the bit
//! stands for and how many 32-bit words its data field occupies.
use vstd::prelude::*;

verus! {

/// What an indicator bit stands for.
#[derive(Clone, Copy, Debug, PartialEq, Eq, Structural)]
pub enum FieldKind {
    /// Reserved: must read and write as zero.
    Reserved,
    /// A flag with no data field (CIF0's context-field-change indicator).
    Flag,
    /// A CIF0 meta-bit that announces CIF1, CIF2, CIF3 or CIF7.
    Meta,
    /// A data field of the given number of words.
    Data(u32),
    /// A data field whose length its own first two words give (GPS ASCII,
    /// context association lists).
    Variable,
    /// A named field whose layout is not supported.
    Unimplemented,
}

/// CIF0 bit of the context-field-change indicator.
pub const CONTEXT_CHANGED: u32 = 31;
/// CIF0 meta-bit announcing CIF1.
pub const CIF1_ENABLE: u32 = 4;
/// CIF0 meta-bit announcing CIF2.
pub const CIF2_ENABLE: u32 = 3;
/// CIF0 meta-bit announcing CIF3.
pub const CIF3_ENABLE: u32 = 2;
/// CIF0 meta-bit announcing CIF7 (field attributes).
pub const CIF7_ENABLE: u32 = 1;

/// Bit positions of the named fields, for [`crate::CifSet::has_field`],
/// [`crate::CifSet::field`] and [`crate::CifSet::set_field`]. Bits not listed
/// are reserved or CIF0 meta-bits.
/// CIF0 bit of reference point id.
pub const CIF0_REFERENCE_POINT_ID: u32 = 30;
/// CIF0 bit of bandwidth.
pub const CIF0_BANDWIDTH: u32 = 29;
/// CIF0 bit of if ref freq.
pub const CIF0_IF_REF_FREQ: u32 = 28;
/// CIF0 bit of rf ref freq.
pub const CIF0_RF_REF_FREQ: u32 = 27;
/// CIF0 bit of rf ref freq offset.
pub const CIF0_RF_REF_FREQ_OFFSET: u32 = 26;
/// CIF0 bit of if band offset.
pub const CIF0_IF_BAND_OFFSET: u32 = 25;
/// CIF0 bit of reference level.
pub const CIF0_REFERENCE_LEVEL: u32 = 24;
/// CIF0 bit of gain.
pub const CIF0_GAIN: u32 = 23;
/// CIF0 bit of over range count.
pub const CIF0_OVER_RANGE_COUNT: u32 = 22;
/// CIF0 bit of sample rate.
pub const CIF0_SAMPLE_RATE: u32 = 21;
/// CIF0 bit of timestamp adjustment.
pub const CIF0_TIMESTAMP_ADJUSTMENT: u32 = 20;
/// CIF0 bit of timestamp calibration time.
pub const CIF0_TIMESTAMP_CALIBRATION_TIME: u32 = 19;
/// CIF0 bit of temperature.
pub const CIF0_TEMPERATURE: u32 = 18;
/// CIF0 bit of device id.
pub const CIF0_DEVICE_ID: u32 = 17;
/// CIF0 bit of state event indicators.
pub const CIF0_STATE_EVENT_INDICATORS: u32 = 16;
/// CIF0 bit of data payload format.
pub const CIF0_DATA_PAYLOAD_FORMAT: u32 = 15;
/// CIF0 bit of formatted gps.
pub const CIF0_FORMATTED_GPS: u32 = 14;
/// CIF0 bit of formatted ins.
pub const CIF0_FORMATTED_INS: u32 = 13;
/// CIF0 bit of ecef ephemeris.
pub const CIF0_ECEF_EPHEMERIS: u32 = 12;
/// CIF0 bit of relative ephemeris.
pub const CIF0_RELATIVE_EPHEMERIS: u32 = 11;
/// CIF0 bit of ephemeris ref id.
pub const CIF0_EPHEMERIS_REF_ID: u32 = 10;
/// CIF0 bit of gps ascii.
pub const CIF0_GPS_ASCII: u32 = 9;
/// CIF0 bit of context association lists.
pub const CIF0_CONTEXT_ASSOCIATION_LISTS: u32 = 8;
/// CIF1 bit of phase offset.
pub const CIF1_PHASE_OFFSET: u32 = 31;
/// CIF1 bit of polarization.
pub const CIF1_POLARIZATION: u32 = 30;
/// CIF1 bit of three d pointing vector.
pub const CIF1_THREE_D_POINTING_VECTOR: u32 = 29;
/// CIF1 bit of three d pointing vector struct.
pub const CIF1_THREE_D_POINTING_VECTOR_STRUCT: u32 = 28;
/// CIF1 bit of spatial scan type.
pub const CIF1_SPATIAL_SCAN_TYPE: u32 = 27;
/// CIF1 bit of spatial ref type.
pub const CIF1_SPATIAL_REF_TYPE: u32 = 26;
/// CIF1 bit of beam widths.
pub const CIF1_BEAM_WIDTHS: u32 = 25;
/// CIF1 bit of range.
pub const CIF1_RANGE: u32 = 24;
/// CIF1 bit of eb over no and ber.
pub const CIF1_EB_OVER_NO_AND_BER: u32 = 20;
/// CIF1 bit of threshold.
pub const CIF1_THRESHOLD: u32 = 19;
/// CIF1 bit of compression point.
pub const CIF1_COMPRESSION_POINT: u32 = 18;
/// CIF1 bit of intercept points.
pub const CIF1_INTERCEPT_POINTS: u32 = 17;
/// CIF1 bit of snr figure.
pub const CIF1_SNR_FIGURE: u32 = 16;
/// CIF1 bit of aux freq.
pub const CIF1_AUX_FREQ: u32 = 15;
/// CIF1 bit of aux gain.
pub const CIF1_AUX_GAIN: u32 = 14;
/// CIF1 bit of aux bandwidth.
pub const CIF1_AUX_BANDWIDTH: u32 = 13;
/// CIF1 bit of array of cifs.
pub const CIF1_ARRAY_OF_CIFS: u32 = 11;
/// CIF1 bit of spectrum.
pub const CIF1_SPECTRUM: u32 = 10;
/// CIF1 bit of sector scan.
pub const CIF1_SECTOR_SCAN: u32 = 9;
/// CIF1 bit of index list.
pub const CIF1_INDEX_LIST: u32 = 7;
/// CIF1 bit of discrete io 32.
pub const CIF1_DISCRETE_IO_32: u32 = 6;
/// CIF1 bit of discrete io 64.
pub const CIF1_DISCRETE_IO_64: u32 = 5;
/// CIF1 bit of health status.
pub const CIF1_HEALTH_STATUS: u32 = 4;
/// CIF1 bit of v49 spec compliance.
pub const CIF1_V49_SPEC_COMPLIANCE: u32 = 3;
/// CIF1 bit of version and build code.
pub const CIF1_VERSION_AND_BUILD_CODE: u32 = 2;
/// CIF1 bit of buffer size.
pub const CIF1_BUFFER_SIZE: u32 = 1;
/// CIF2 bit of bind.
pub const CIF2_BIND: u32 = 31;
/// CIF2 bit of cited sid.
pub const CIF2_CITED_SID: u32 = 30;
/// CIF2 bit of sibling sid.
pub const CIF2_SIBLING_SID: u32 = 29;
/// CIF2 bit of parent sid.
pub const CIF2_PARENT_SID: u32 = 28;
/// CIF2 bit of child sid.
pub const CIF2_CHILD_SID: u32 = 27;
/// CIF2 bit of cited message id.
pub const CIF2_CITED_MESSAGE_ID: u32 = 26;
/// CIF2 bit of controllee id.
pub const CIF2_CONTROLLEE_ID: u32 = 25;
/// CIF2 bit of controllee uuid.
pub const CIF2_CONTROLLEE_UUID: u32 = 24;
/// CIF2 bit of controller id.
pub const CIF2_CONTROLLER_ID: u32 = 23;
/// CIF2 bit of controller uuid.
pub const CIF2_CONTROLLER_UUID: u32 = 22;
/// CIF2 bit of info source id.
pub const CIF2_INFO_SOURCE_ID: u32 = 21;
/// CIF2 bit of track id.
pub const CIF2_TRACK_ID: u32 = 20;
/// CIF2 bit of country code.
pub const CIF2_COUNTRY_CODE: u32 = 19;
/// CIF2 bit of operator.
pub const CIF2_OPERATOR: u32 = 18;
/// CIF2 bit of platform class.
pub const CIF2_PLATFORM_CLASS: u32 = 17;
/// CIF2 bit of platform instance.
pub const CIF2_PLATFORM_INSTANCE: u32 = 16;
/// CIF2 bit of platform display.
pub const CIF2_PLATFORM_DISPLAY: u32 = 15;
/// CIF2 bit of ems device class.
pub const CIF2_EMS_DEVICE_CLASS: u32 = 14;
/// CIF2 bit of ems device type.
pub const CIF2_EMS_DEVICE_TYPE: u32 = 13;
/// CIF2 bit of ems device instance.
pub const CIF2_EMS_DEVICE_INSTANCE: u32 = 12;
/// CIF2 bit of modulation class.
pub const CIF2_MODULATION_CLASS: u32 = 11;
/// CIF2 bit of modulation type.
pub const CIF2_MODULATION_TYPE: u32 = 10;
/// CIF2 bit of function id.
pub const CIF2_FUNCTION_ID: u32 = 9;
/// CIF2 bit of mode id.
pub const CIF2_MODE_ID: u32 = 8;
/// CIF2 bit of event id.
pub const CIF2_EVENT_ID: u32 = 7;
/// CIF2 bit of function priority id.
pub const CIF2_FUNCTION_PRIORITY_ID: u32 = 6;
/// CIF2 bit of comms priority id.
pub const CIF2_COMMS_PRIORITY_ID: u32 = 5;
/// CIF2 bit of rf footprint.
pub const CIF2_RF_FOOTPRINT: u32 = 4;
/// CIF2 bit of rf footprint range.
pub const CIF2_RF_FOOTPRINT_RANGE: u32 = 3;
/// CIF3 bit of timestamp details.
pub const CIF3_TIMESTAMP_DETAILS: u32 = 31;
/// CIF3 bit of timestamp skew.
pub const CIF3_TIMESTAMP_SKEW: u32 = 30;
/// CIF3 bit of rise time.
pub const CIF3_RISE_TIME: u32 = 27;
/// CIF3 bit of fall time.
pub const CIF3_FALL_TIME: u32 = 26;
/// CIF3 bit of offset time.
pub const CIF3_OFFSET_TIME: u32 = 25;
/// CIF3 bit of pulse width.
pub const CIF3_PULSE_WIDTH: u32 = 24;
/// CIF3 bit of period.
pub const CIF3_PERIOD: u32 = 23;
/// CIF3 bit of duration.
pub const CIF3_DURATION: u32 = 22;
/// CIF3 bit of dwell.
pub const CIF3_DWELL: u32 = 21;
/// CIF3 bit of jitter.
pub const CIF3_JITTER: u32 = 20;
/// CIF3 bit of age.
pub const CIF3_AGE: u32 = 17;
/// CIF3 bit of shelf life.
pub const CIF3_SHELF_LIFE: u32 = 16;
/// CIF3 bit of air temp.
pub const CIF3_AIR_TEMP: u32 = 7;
/// CIF3 bit of ground temp.
pub const CIF3_GROUND_TEMP: u32 = 6;
/// CIF3 bit of humidity.
pub const CIF3_HUMIDITY: u32 = 5;
/// CIF3 bit of barometric pressure.
pub const CIF3_BAROMETRIC_PRESSURE: u32 = 4;
/// CIF3 bit of sea and swell state.
pub const CIF3_SEA_AND_SWELL_STATE: u32 = 3;
/// CIF3 bit of tropospheric state.
pub const CIF3_TROPOSPHERIC_STATE: u32 = 2;
/// CIF3 bit of network id.
pub const CIF3_NETWORK_ID: u32 = 1;

pub open spec fn cif0_kind(b: u32) -> FieldKind {
    if b == 31 {
        FieldKind::Flag
    } else if b == 30 || b == 24 || b == 23 || b == 22 || b == 19 || b == 18 || b == 16 || b
        == 10 {
        FieldKind::Data(1)
    } else if (25 <= b && b <= 29) || b == 21 || b == 20 || b == 17 || b == 15 {
        FieldKind::Data(2)
    } else if b == 14 || b == 13 {
        FieldKind::Data(11)
    } else if b == 12 || b == 11 {
        FieldKind::Data(13)
    } else if b == 9 || b == 8 {
        FieldKind::Variable
    } else if 1 <= b && b <= 4 {
        FieldKind::Meta
    } else {
        FieldKind::Reserved
    }
}

pub open spec fn cif1_kind(b: u32) -> FieldKind {
    if b == 28 || b == 11 || b == 9 || b == 7 {
        FieldKind::Unimplemented
    } else if b == 15 || b == 13 || b == 5 || b == 1 {
        FieldKind::Data(2)
    } else if b == 10 {
        FieldKind::Data(13)
    } else if (24 <= b && b <= 31) || (16 <= b && b <= 20) || b == 14 || (2 <= b && b <= 6) {
        FieldKind::Data(1)
    } else {
        FieldKind::Reserved
    }
}

pub open spec fn cif2_kind(b: u32) -> FieldKind {
    if b == 24 || b == 22 {
        FieldKind::Data(4)
    } else if 3 <= b && b <= 31 {
        FieldKind::Data(1)
    } else {
        FieldKind::Reserved
    }
}

pub open spec fn cif3_kind(b: u32) -> FieldKind {
    if b == 31 || b == 30 || (20 <= b && b <= 27) {
        FieldKind::Data(2)
    } else if b == 17 || b == 16 {
        FieldKind::Unimplemented
    } else if 1 <= b && b <= 7 {
        FieldKind::Data(1)
    } else {
        FieldKind::Reserved
    }
}

/// The schema entry of bit `b` of CIF number `cif` (0, 1, 2 or 3).
pub open spec fn kind_of(cif: u8, b: u32) -> FieldKind {
    if cif == 0 {
        cif0_kind(b)
    } else if cif == 1 {
        cif1_kind(b)
    } else if cif == 2 {
        cif2_kind(b)
    } else if cif == 3 {
        cif3_kind(b)
    } else {
        FieldKind::Reserved
    }
}

/// Looks up the schema entry of bit `b` of CIF number `cif`.
pub fn field_kind(cif: u8, b: u32) -> (r: FieldKind)
    ensures
        r == kind_of(cif, b),
{
    if cif == 0 {
        if b == 31 {
            FieldKind::Flag
        } else if b == 30 || b == 24 || b == 23 || b == 22 || b == 19 || b == 18 || b == 16 || b
            == 10 {
            FieldKind::Data(1)
        } else if (25 <= b && b <= 29) || b == 21 || b == 20 || b == 17 || b == 15 {
            FieldKind::Data(2)
        } else if b == 14 || b == 13 {
            FieldKind::Data(11)
        } else if b == 12 || b == 11 {
            FieldKind::Data(13)
        } else if b == 9 || b == 8 {
            FieldKind::Variable
        } else if 1 <= b && b <= 4 {
            FieldKind::Meta
        } else {
            FieldKind::Reserved
        }
    } else if cif == 1 {
        if b == 28 || b == 11 || b == 9 || b == 7 {
            FieldKind::Unimplemented
        } else if b == 15 || b == 13 || b == 5 || b == 1 {
            FieldKind::Data(2)
        } else if b == 10 {
            FieldKind::Data(13)
        } else if (24 <= b && b <= 31) || (16 <= b && b <= 20) || b == 14 || (2 <= b && b <= 6) {
            FieldKind::Data(1)
        } else {
            FieldKind::Reserved
        }
    } else if cif == 2 {
        if b == 24 || b == 22 {
            FieldKind::Data(4)
        } else if 3 <= b && b <= 31 {
            FieldKind::Data(1)
        } else {
            FieldKind::Reserved
        }
    } else if cif == 3 {
        if b == 31 || b == 30 || (20 <= b && b <= 27) {
            FieldKind::Data(2)
        } else if b == 17 || b == 16 {
            FieldKind::Unimplemented
        } else if 1 <= b && b <= 7 {
            FieldKind::Data(1)
        } else {
            FieldKind::Reserved
        }
    } else {
        FieldKind::Reserved
    }
}

/// How the data block that follows a set of indicator words is laid out.
#[derive(Clone, Copy, Debug, PartialEq, Eq, Structural)]
pub enum Layout {
    /// Each set data bit carries its value, once per CIF7 copy.
    Values,
    /// Each set named bit carries one AckResponse word (WIF/EIF blocks).
    Ack,
    /// The indicator words alone, with no data (cancellation).
    Indicators,
}

/// Whether a set bit of this kind may stand in a block of this layout.
pub open spec fn allowed(k: FieldKind, l: Layout) -> bool {
    match k {
        FieldKind::Reserved => false,
        FieldKind::Unimplemented => l != Layout::Values,
        _ => true,
    }
}

/// Words that a set bit of this kind carries in a block of this layout,
/// where each value is repeated `copies` times.
pub open spec fn slot_len(k: FieldKind, l: Layout, copies: nat) -> nat {
    match l {
        Layout::Values => match k {
            FieldKind::Data(w) => (w as nat) * copies,
            _ => 0,
        },
        Layout::Ack => match k {
            FieldKind::Data(_) => 1,
            FieldKind::Variable => 1,
            FieldKind::Unimplemented => 1,
            _ => 0,
        },
        Layout::Indicators => 0,
    }
}

/// Words of one value of a variable-length field whose first two words are
/// `w0` and `w1`: GPS ASCII (CIF0 bit 9) holds `w1` words of text after them;
/// context association lists (bit 8) hold the source and system lists whose
/// sizes `w0` gives (bits 25..16 and 9..0), then the vector-component and
/// asynchronous-channel lists whose sizes `w1` gives (bits 31..16 and 8..0),
/// and, where bit 15 of `w1` is set, one tag per asynchronous channel.
pub open spec fn var_value_len(b: u32, w0: u32, w1: u32) -> nat {
    if b == 9 {
        (2 + w1) as nat
    } else {
        (2 + ((w0 >> 16u32) & 0x3FF) + (w0 & 0x3FF) + (w1 >> 16u32) + (w1 & 0x1FF) + if (w1 >> 15u32) & 1 == 1 {
            (w1 & 0x1FF) as int
        } else {
            0int
        }) as nat
    }
}

/// Words of `n` consecutive values of variable-length field `b` starting at
/// `p` in `ws`; `None` where a value's first two words lie outside `ws`.
pub open spec fn var_copies_len(b: u32, ws: Seq<u32>, p: int, n: nat) -> Option<nat>
    decreases n,
{
    if n == 0 {
        Some(0)
    } else if p < 0 || p + 2 > ws.len() {
        None
    } else {
        let l1 = var_value_len(b, ws[p], ws[p + 1]);
        match var_copies_len(b, ws, p + l1, (n - 1) as nat) {
            Some(t) => Some(l1 + t),
            None => None,
        }
    }
}

/// Whether `s` may be the words of a set bit of kind `k` (bit `b`) in a
/// block of layout `l`, with each value repeated `copies` times.
pub open spec fn slot_ok(k: FieldKind, l: Layout, copies: nat, b: u32, s: Seq<u32>) -> bool {
    if k == FieldKind::Variable && l == Layout::Values {
        var_copies_len(b, s, 0, copies) == Some(s.len()) && s.len() <= 0xFFFF
    } else {
        s.len() == slot_len(k, l, copies)
    }
}

} // verus!
