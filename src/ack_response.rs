//! The AckResponse word: why a field of a command met a warning or an error.
use vstd::prelude::*;
use crate::bits::bit;
use crate::cam::with_bit;

verus! {

/// A 32-bit map of thirteen standard conditions (bits 31..19) and twelve
/// user-defined ones (bits 12..1); bits 18..13 and 0 are reserved.
#[derive(Clone, Copy, Debug, PartialEq, Eq, Hash, Default)]
pub struct AckResponse(u32);

impl View for AckResponse {
    type V = u32;

    closed spec fn view(&self) -> u32 {
        self.0
    }
}

impl AckResponse {
    /// A response with no condition set.
    pub fn new() -> (r: AckResponse)
        ensures
            r@ == 0,
    {
        AckResponse(0)
    }

    /// The response holding word `w`.
    pub fn from_u32(w: u32) -> (r: AckResponse)
        ensures
            r@ == w,
    {
        AckResponse(w)
    }

    /// The response as a word.
    pub fn as_u32(&self) -> (r: u32)
        ensures
            r == self@,
    {
        self.0
    }

    /// A response occupies one word.
    pub fn size_words(&self) -> (r: u16)
        ensures
            r == 1,
    {
        1
    }

    /// Whether no condition is set.
    pub fn empty(&self) -> (r: bool)
        ensures
            r == (self@ == 0),
    {
        self.0 == 0
    }

    fn get(&self, b: u32) -> (r: bool)
        requires
            b < 32,
        ensures
            r == bit(self@, b),
    {
        (self.0 >> b) & 1u32 == 1u32
    }

    fn put(&mut self, b: u32, v: bool)
        requires
            b < 32,
        ensures
            final(self)@ == with_bit(old(self)@, b, v),
    {
        if v {
            self.0 = self.0 | (1u32 << b);
        } else {
            self.0 = self.0 & !(1u32 << b);
        }
    }

    /// Whether the field not executed bit is set.
    pub fn field_not_executed(&self) -> (r: bool)
        ensures r == bit(self@, 31),
    { self.get(31) }

    /// Sets the field not executed bit.
    pub fn set_field_not_executed(&mut self)
        ensures final(self)@ == with_bit(old(self)@, 31, true),
    { self.put(31, true) }

    /// Clears the field not executed bit.
    pub fn unset_field_not_executed(&mut self)
        ensures final(self)@ == with_bit(old(self)@, 31, false),
    { self.put(31, false) }

    /// Whether the device failure bit is set.
    pub fn device_failure(&self) -> (r: bool)
        ensures r == bit(self@, 30),
    { self.get(30) }

    /// Sets the device failure bit.
    pub fn set_device_failure(&mut self)
        ensures final(self)@ == with_bit(old(self)@, 30, true),
    { self.put(30, true) }

    /// Clears the device failure bit.
    pub fn unset_device_failure(&mut self)
        ensures final(self)@ == with_bit(old(self)@, 30, false),
    { self.put(30, false) }

    /// Whether the erroneous field bit is set.
    pub fn erroneous_field(&self) -> (r: bool)
        ensures r == bit(self@, 29),
    { self.get(29) }

    /// Sets the erroneous field bit.
    pub fn set_erroneous_field(&mut self)
        ensures final(self)@ == with_bit(old(self)@, 29, true),
    { self.put(29, true) }

    /// Clears the erroneous field bit.
    pub fn unset_erroneous_field(&mut self)
        ensures final(self)@ == with_bit(old(self)@, 29, false),
    { self.put(29, false) }

    /// Whether the param out of range bit is set.
    pub fn param_out_of_range(&self) -> (r: bool)
        ensures r == bit(self@, 28),
    { self.get(28) }

    /// Sets the param out of range bit.
    pub fn set_param_out_of_range(&mut self)
        ensures final(self)@ == with_bit(old(self)@, 28, true),
    { self.put(28, true) }

    /// Clears the param out of range bit.
    pub fn unset_param_out_of_range(&mut self)
        ensures final(self)@ == with_bit(old(self)@, 28, false),
    { self.put(28, false) }

    /// Whether the parameter unsupported precision bit is set.
    pub fn parameter_unsupported_precision(&self) -> (r: bool)
        ensures r == bit(self@, 27),
    { self.get(27) }

    /// Sets the parameter unsupported precision bit.
    pub fn set_parameter_unsupported_precision(&mut self)
        ensures final(self)@ == with_bit(old(self)@, 27, true),
    { self.put(27, true) }

    /// Clears the parameter unsupported precision bit.
    pub fn unset_parameter_unsupported_precision(&mut self)
        ensures final(self)@ == with_bit(old(self)@, 27, false),
    { self.put(27, false) }

    /// Whether the field value invalid bit is set.
    pub fn field_value_invalid(&self) -> (r: bool)
        ensures r == bit(self@, 26),
    { self.get(26) }

    /// Sets the field value invalid bit.
    pub fn set_field_value_invalid(&mut self)
        ensures final(self)@ == with_bit(old(self)@, 26, true),
    { self.put(26, true) }

    /// Clears the field value invalid bit.
    pub fn unset_field_value_invalid(&mut self)
        ensures final(self)@ == with_bit(old(self)@, 26, false),
    { self.put(26, false) }

    /// Whether the timestamp problem bit is set.
    pub fn timestamp_problem(&self) -> (r: bool)
        ensures r == bit(self@, 25),
    { self.get(25) }

    /// Sets the timestamp problem bit.
    pub fn set_timestamp_problem(&mut self)
        ensures final(self)@ == with_bit(old(self)@, 25, true),
    { self.put(25, true) }

    /// Clears the timestamp problem bit.
    pub fn unset_timestamp_problem(&mut self)
        ensures final(self)@ == with_bit(old(self)@, 25, false),
    { self.put(25, false) }

    /// Whether the hazardous power levels bit is set.
    pub fn hazardous_power_levels(&self) -> (r: bool)
        ensures r == bit(self@, 24),
    { self.get(24) }

    /// Sets the hazardous power levels bit.
    pub fn set_hazardous_power_levels(&mut self)
        ensures final(self)@ == with_bit(old(self)@, 24, true),
    { self.put(24, true) }

    /// Clears the hazardous power levels bit.
    pub fn unset_hazardous_power_levels(&mut self)
        ensures final(self)@ == with_bit(old(self)@, 24, false),
    { self.put(24, false) }

    /// Whether the distortion bit is set.
    pub fn distortion(&self) -> (r: bool)
        ensures r == bit(self@, 23),
    { self.get(23) }

    /// Sets the distrortion bit.
    pub fn set_distrortion(&mut self)
        ensures final(self)@ == with_bit(old(self)@, 23, true),
    { self.put(23, true) }

    /// Clears the distrortion bit.
    pub fn unset_distrortion(&mut self)
        ensures final(self)@ == with_bit(old(self)@, 23, false),
    { self.put(23, false) }

    /// Whether the in band power compliance bit is set.
    pub fn in_band_power_compliance(&self) -> (r: bool)
        ensures r == bit(self@, 22),
    { self.get(22) }

    /// Sets the in band power compliance bit.
    pub fn set_in_band_power_compliance(&mut self)
        ensures final(self)@ == with_bit(old(self)@, 22, true),
    { self.put(22, true) }

    /// Clears the in band power compliance bit.
    pub fn unset_in_band_power_compliance(&mut self)
        ensures final(self)@ == with_bit(old(self)@, 22, false),
    { self.put(22, false) }

    /// Whether the out of band power compliance bit is set.
    pub fn out_of_band_power_compliance(&self) -> (r: bool)
        ensures r == bit(self@, 21),
    { self.get(21) }

    /// Sets the out of band power compliance bit.
    pub fn set_out_of_band_power_compliance(&mut self)
        ensures final(self)@ == with_bit(old(self)@, 21, true),
    { self.put(21, true) }

    /// Clears the out of band power compliance bit.
    pub fn unset_out_of_band_power_compliance(&mut self)
        ensures final(self)@ == with_bit(old(self)@, 21, false),
    { self.put(21, false) }

    /// Whether the co site interference bit is set.
    pub fn co_site_interference(&self) -> (r: bool)
        ensures r == bit(self@, 20),
    { self.get(20) }

    /// Sets the co site interference bit.
    pub fn set_co_site_interference(&mut self)
        ensures final(self)@ == with_bit(old(self)@, 20, true),
    { self.put(20, true) }

    /// Clears the co site interference bit.
    pub fn unset_co_site_interference(&mut self)
        ensures final(self)@ == with_bit(old(self)@, 20, false),
    { self.put(20, false) }

    /// Whether the regional interference bit is set.
    pub fn regional_interference(&self) -> (r: bool)
        ensures r == bit(self@, 19),
    { self.get(19) }

    /// Sets the regional interference bit.
    pub fn set_regional_interference(&mut self)
        ensures final(self)@ == with_bit(old(self)@, 19, true),
    { self.put(19, true) }

    /// Clears the regional interference bit.
    pub fn unset_regional_interference(&mut self)
        ensures final(self)@ == with_bit(old(self)@, 19, false),
    { self.put(19, false) }

    /// User-defined condition `n` (1 to 12).
    pub fn user_defined(&self, n: u32) -> (r: bool)
        requires 0 < n < 13,
        ensures r == bit(self@, n),
    { self.get(n) }

    /// Sets user defined.
    pub fn set_user_defined(&mut self, n: u32)
        requires 0 < n < 13,
        ensures final(self)@ == with_bit(old(self)@, n, true),
    { self.put(n, true) }

    /// Clears the user defined bit.
    pub fn unset_user_defined(&mut self, n: u32)
        requires 0 < n < 13,
        ensures final(self)@ == with_bit(old(self)@, n, false),
    { self.put(n, false) }
}

} // verus!
