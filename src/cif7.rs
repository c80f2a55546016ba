//! CIF7: which statistical attributes accompany every data field.
use vstd::prelude::*;
use crate::bits::bit;
use crate::cam::with_bit;
use crate::cif::{count_bits, popcount};

verus! {

/// The CIF7 word: thirteen attribute bits (31..19); bits 18..0 are reserved.
#[derive(Clone, Copy, Debug, PartialEq, Eq, Hash, Default)]
pub struct Cif7(u32);

impl View for Cif7 {
    type V = u32;

    closed spec fn view(&self) -> u32 {
        self.0
    }
}

impl Cif7 {
    /// The CIF7 holding word `w`.
    pub fn from_u32(w: u32) -> (r: Cif7)
        ensures r@ == w,
    { Cif7(w) }

    /// The CIF7 as a word.
    pub fn as_u32(&self) -> (r: u32)
        ensures r == self@,
    { self.0 }

    /// The number of set bits: how many values each data field carries.
    pub fn num_set(&self) -> (r: u32)
        ensures r == popcount(self@),
    { count_bits(self.0) }

    fn put(&mut self, b: u32, v: bool)
        requires b < 32,
        ensures final(self)@ == with_bit(old(self)@, b, v),
    {
        if v {
            self.0 = self.0 | (1u32 << b);
        } else {
            self.0 = self.0 & !(1u32 << b);
        }
    }

    /// Whether the current bit is set.
    pub fn current(&self) -> (r: bool)
        ensures r == bit(self@, 31),
    { (self.0 >> 31u32) & 1u32 == 1u32 }

    /// Sets or clears the current bit.
    pub fn set_current(&mut self, v: bool)
        ensures final(self)@ == with_bit(old(self)@, 31, v),
    { self.put(31, v) }

    /// Whether the average bit is set.
    pub fn average(&self) -> (r: bool)
        ensures r == bit(self@, 30),
    { (self.0 >> 30u32) & 1u32 == 1u32 }

    /// Sets or clears the average bit.
    pub fn set_average(&mut self, v: bool)
        ensures final(self)@ == with_bit(old(self)@, 30, v),
    { self.put(30, v) }

    /// Whether the median bit is set.
    pub fn median(&self) -> (r: bool)
        ensures r == bit(self@, 29),
    { (self.0 >> 29u32) & 1u32 == 1u32 }

    /// Sets or clears the median bit.
    pub fn set_median(&mut self, v: bool)
        ensures final(self)@ == with_bit(old(self)@, 29, v),
    { self.put(29, v) }

    /// Whether the std dev bit is set.
    pub fn std_dev(&self) -> (r: bool)
        ensures r == bit(self@, 28),
    { (self.0 >> 28u32) & 1u32 == 1u32 }

    /// Sets or clears the std dev bit.
    pub fn set_std_dev(&mut self, v: bool)
        ensures final(self)@ == with_bit(old(self)@, 28, v),
    { self.put(28, v) }

    /// Whether the max bit is set.
    pub fn max(&self) -> (r: bool)
        ensures r == bit(self@, 27),
    { (self.0 >> 27u32) & 1u32 == 1u32 }

    /// Sets or clears the max bit.
    pub fn set_max(&mut self, v: bool)
        ensures final(self)@ == with_bit(old(self)@, 27, v),
    { self.put(27, v) }

    /// Whether the min bit is set.
    pub fn min(&self) -> (r: bool)
        ensures r == bit(self@, 26),
    { (self.0 >> 26u32) & 1u32 == 1u32 }

    /// Sets or clears the min bit.
    pub fn set_min(&mut self, v: bool)
        ensures final(self)@ == with_bit(old(self)@, 26, v),
    { self.put(26, v) }

    /// Whether the precision bit is set.
    pub fn precision(&self) -> (r: bool)
        ensures r == bit(self@, 25),
    { (self.0 >> 25u32) & 1u32 == 1u32 }

    /// Sets or clears the precision bit.
    pub fn set_precision(&mut self, v: bool)
        ensures final(self)@ == with_bit(old(self)@, 25, v),
    { self.put(25, v) }

    /// Whether the accuracy bit is set.
    pub fn accuracy(&self) -> (r: bool)
        ensures r == bit(self@, 24),
    { (self.0 >> 24u32) & 1u32 == 1u32 }

    /// Sets or clears the accuracy bit.
    pub fn set_accuracy(&mut self, v: bool)
        ensures final(self)@ == with_bit(old(self)@, 24, v),
    { self.put(24, v) }

    /// Whether the first derivative bit is set.
    pub fn first_derivative(&self) -> (r: bool)
        ensures r == bit(self@, 23),
    { (self.0 >> 23u32) & 1u32 == 1u32 }

    /// Sets or clears the first derivative bit.
    pub fn set_first_derivative(&mut self, v: bool)
        ensures final(self)@ == with_bit(old(self)@, 23, v),
    { self.put(23, v) }

    /// Whether the second derivative bit is set.
    pub fn second_derivative(&self) -> (r: bool)
        ensures r == bit(self@, 22),
    { (self.0 >> 22u32) & 1u32 == 1u32 }

    /// Sets or clears the second derivative bit.
    pub fn set_second_derivative(&mut self, v: bool)
        ensures final(self)@ == with_bit(old(self)@, 22, v),
    { self.put(22, v) }

    /// Whether the third derivative bit is set.
    pub fn third_derivative(&self) -> (r: bool)
        ensures r == bit(self@, 21),
    { (self.0 >> 21u32) & 1u32 == 1u32 }

    /// Sets or clears the third derivative bit.
    pub fn set_third_derivative(&mut self, v: bool)
        ensures final(self)@ == with_bit(old(self)@, 21, v),
    { self.put(21, v) }

    /// Whether the probability bit is set.
    pub fn probability(&self) -> (r: bool)
        ensures r == bit(self@, 20),
    { (self.0 >> 20u32) & 1u32 == 1u32 }

    /// Sets or clears the probability bit.
    pub fn set_probability(&mut self, v: bool)
        ensures final(self)@ == with_bit(old(self)@, 20, v),
    { self.put(20, v) }

    /// Whether the belief bit is set.
    pub fn belief(&self) -> (r: bool)
        ensures r == bit(self@, 19),
    { (self.0 >> 19u32) & 1u32 == 1u32 }

    /// Sets or clears the belief bit.
    pub fn set_belief(&mut self, v: bool)
        ensures final(self)@ == with_bit(old(self)@, 19, v),
    { self.put(19, v) }
}

} // verus!
