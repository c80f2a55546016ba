//! The two-word class identifier.
use vstd::prelude::*;

verus! {

/// Pad-bit count (bits 31..27 of the first word), OUI (bits 23..0 of the
/// first word), information class code and packet class code (the two halves
/// of the second word).
#[derive(Clone, Copy, Debug, PartialEq, Eq, Hash, Default)]
pub struct ClassIdentifier {
    word_1: u32,
    word_2: u32,
}

impl View for ClassIdentifier {
    type V = (u32, u32);

    closed spec fn view(&self) -> (u32, u32) {
        (self.word_1, self.word_2)
    }
}

impl ClassIdentifier {
    /// The class identifier holding these two words.
    pub fn from_words(w1: u32, w2: u32) -> (r: ClassIdentifier)
        ensures
            r@ == (w1, w2),
    {
        ClassIdentifier { word_1: w1, word_2: w2 }
    }

    /// The two words, first one first.
    pub fn words(&self) -> (r: (u32, u32))
        ensures
            r == self@,
    {
        (self.word_1, self.word_2)
    }

    /// The pad bit count.
    pub fn pad_bit_count(&self) -> (r: u8)
        ensures
            r == ((self@.0 >> 27u32) & 0x1F) as u8,
    {
        ((self.word_1 >> 27u32) & 0x1F) as u8
    }

    /// Sets the pad-bit count to the low five bits of `count`.
    pub fn set_pad_bit_count(&mut self, count: u8)
        ensures
            final(self)@ == ((old(self)@.0 & !(0x1Fu32 << 27u32)) | (((count as u32) & 0x1F) << 27u32), old(self)@.1),
            ((final(self)@.0 >> 27u32) & 0x1F) == (count as u32) & 0x1F,
            final(self)@.0 & 0xFF_FFFF == old(self)@.0 & 0xFF_FFFF,
    {
        let w = self.word_1;
        let c = (count as u32) & 0x1F;
        assert(c < 32) by (bit_vector) requires c == (count as u32) & 0x1F;
        self.word_1 = (w & !(0x1Fu32 << 27u32)) | (c << 27u32);
        assert(((((w & !(0x1Fu32 << 27u32)) | (c << 27u32)) >> 27u32) & 0x1F) == c
            && ((w & !(0x1Fu32 << 27u32)) | (c << 27u32)) & 0xFF_FFFF == w & 0xFF_FFFF) by (bit_vector)
            requires c < 32;
    }

    /// The oui.
    pub fn oui(&self) -> (r: u32)
        ensures
            r == self@.0 & 0xFF_FFFF,
    {
        self.word_1 & 0xFF_FFFF
    }

    /// Sets the OUI to the low 24 bits of `oui`.
    pub fn set_oui(&mut self, oui: u32)
        ensures
            final(self)@ == ((old(self)@.0 & !0xFF_FFFFu32) | (oui & 0xFF_FFFF), old(self)@.1),
            final(self)@.0 & 0xFF_FFFF == oui & 0xFF_FFFF,
            (final(self)@.0 >> 27u32) & 0x1F == (old(self)@.0 >> 27u32) & 0x1F,
    {
        let w = self.word_1;
        self.word_1 = (w & !0xFF_FFFFu32) | (oui & 0xFF_FFFF);
        assert(((w & !0xFF_FFFFu32) | (oui & 0xFF_FFFF)) & 0xFF_FFFF == oui & 0xFF_FFFF
            && (((w & !0xFF_FFFFu32) | (oui & 0xFF_FFFF)) >> 27u32) & 0x1F == (w >> 27u32) & 0x1F) by (bit_vector);
    }

    /// The information class code.
    pub fn information_class_code(&self) -> (r: u16)
        ensures
            r == (self@.1 >> 16u32) as u16,
    {
        (self.word_2 >> 16u32) as u16
    }

    /// Sets information class code.
    pub fn set_information_class_code(&mut self, code: u16)
        ensures
            final(self)@ == (old(self)@.0, ((code as u32) << 16u32) | (old(self)@.1 & 0xFFFF)),
            (final(self)@.1 >> 16u32) as u16 == code,
            (final(self)@.1 & 0xFFFF) as u16 == (old(self)@.1 & 0xFFFF) as u16,
    {
        let w = self.word_2;
        self.word_2 = ((code as u32) << 16u32) | (w & 0xFFFF);
        assert(((((code as u32) << 16u32) | (w & 0xFFFF)) >> 16u32) as u16 == code
            && ((((code as u32) << 16u32) | (w & 0xFFFF)) & 0xFFFF) as u16 == (w & 0xFFFF) as u16) by (bit_vector);
    }

    /// The packet class code.
    pub fn packet_class_code(&self) -> (r: u16)
        ensures
            r == (self@.1 & 0xFFFF) as u16,
    {
        (self.word_2 & 0xFFFF) as u16
    }

    /// Sets packet class code.
    pub fn set_packet_class_code(&mut self, code: u16)
        ensures
            final(self)@ == (old(self)@.0, (old(self)@.1 & 0xFFFF_0000) | (code as u32)),
            (final(self)@.1 & 0xFFFF) as u16 == code,
            (final(self)@.1 >> 16u32) as u16 == (old(self)@.1 >> 16u32) as u16,
    {
        let w = self.word_2;
        self.word_2 = (w & 0xFFFF_0000) | (code as u32);
        assert((((w & 0xFFFF_0000) | (code as u32)) & 0xFFFF) as u16 == code
            && (((w & 0xFFFF_0000) | (code as u32)) >> 16u32) as u16 == (w >> 16u32) as u16) by (bit_vector);
    }
}

} // verus!
