//! Shared byte/word helpers: composing 16-bit words from bytes, nibble
//! access, and single-bit flag manipulation on flag bytes.

use vstd::prelude::*;

verus! {

pub type Byte = u8;

pub type SignedByte = i8;

pub type Address = u16;

pub type Word = u16;

/// True exactly of the eight single-bit masks.
pub open spec fn single_bit(flag: Byte) -> bool {
    flag == 0x01 || flag == 0x02 || flag == 0x04 || flag == 0x08 || flag == 0x10 || flag == 0x20
        || flag == 0x40 || flag == 0x80
}

/// Compose a word from its low and high bytes.
pub fn bytes2word(lsb: Byte, msb: Byte) -> (r: Word)
    ensures
        r == msb * 256 + lsb,
{
    (msb as Word) * 256 + (lsb as Word)
}

pub trait ByteOP {
    spec fn bval(&self) -> Byte;

    fn mask(&self, mask: Byte) -> (r: Byte)
        ensures
            r == self.bval() & mask,
    ;

    fn get_low_nibble(&self) -> (r: Byte)
        ensures
            r == self.bval() % 16,
    ;

    fn get_high_nibble(&self) -> (r: Byte)
        ensures
            r == self.bval() / 16,
    ;
}

impl ByteOP for Byte {
    open spec fn bval(&self) -> Byte {
        *self
    }

    fn mask(&self, mask: Byte) -> (r: Byte) {
        *self & mask
    }

    fn get_low_nibble(&self) -> (r: Byte) {
        *self % 16
    }

    fn get_high_nibble(&self) -> (r: Byte) {
        *self / 16
    }
}

pub trait WordOP {
    spec fn wval(&self) -> Word;

    fn get_low(&self) -> (r: Byte)
        ensures
            r == self.wval() % 256,
    ;

    fn get_high(&self) -> (r: Byte)
        ensures
            r == self.wval() / 256,
    ;

    fn set_low(&self, value: Byte) -> (r: Word)
        ensures
            r == (self.wval() / 256) * 256 + value,
    ;

    fn set_high(&self, value: Byte) -> (r: Word)
        ensures
            r == value * 256 + self.wval() % 256,
    ;

    fn mask(&self, mask: Word) -> (r: Word)
        ensures
            r == self.wval() & mask,
    ;
}

impl WordOP for Word {
    open spec fn wval(&self) -> Word {
        *self
    }

    fn get_low(&self) -> (r: Byte) {
        (*self % 256) as Byte
    }

    fn get_high(&self) -> (r: Byte) {
        (*self / 256) as Byte
    }

    fn set_low(&self, value: Byte) -> (r: Word) {
        (*self / 256) * 256 + (value as Word)
    }

    fn set_high(&self, value: Byte) -> (r: Word) {
        (value as Word) * 256 + *self % 256
    }

    fn mask(&self, mask: Word) -> (r: Word) {
        *self & mask
    }
}

/// Whether the given single-bit flag is set in `flag_byte`.
pub fn get_flag(flag_byte: Byte, flag: Byte) -> (r: bool)
    requires
        single_bit(flag),
    ensures
        r == ((flag_byte & flag) != 0),
{
    (flag_byte & flag) > 0
}

/// Set the given single-bit flag in `flag_byte`.
pub fn set_flag(flag_byte: &mut Byte, flag: Byte)
    requires
        single_bit(flag),
    ensures
        *final(flag_byte) == (*old(flag_byte) | flag),
{
    *flag_byte = *flag_byte | flag;
}

/// Return `flag_byte` with the given single-bit flag set.
pub fn set_flag_ref(flag_byte: Byte, flag: Byte) -> (r: Byte)
    requires
        single_bit(flag),
    ensures
        r == (flag_byte | flag),
{
    flag_byte | flag
}

/// Clear the given single-bit flag in `flag_byte`.
pub fn reset_flag(flag_byte: &mut Byte, flag: Byte)
    requires
        single_bit(flag),
    ensures
        *final(flag_byte) == (*old(flag_byte) & !flag),
{
    *flag_byte = *flag_byte & !flag;
}

/// Clear every flag in `flag_byte`.
pub fn reset_all_flags(flag_byte: &mut Byte)
    ensures
        *final(flag_byte) == 0,
{
    *flag_byte = 0;
}

} // verus!
