//! A plain volatile word with bit-range access, addressed by `msb` and `lsb`.
use crate::register::{
    bit_of, bit_value, field_value, lemma_with_field_fits, read_bit, read_bits, read_bits_u16,
    read_bits_u8, with_field, write_bit, write_bits,
};
use vstd::prelude::*;

verus! {

/// One word of memory-mapped storage. Every store to it is one bus transaction; the cell counts
/// its stores.
pub struct VolatileCell<T>(pub T, Ghost<nat>);

impl<T: Copy> VolatileCell<T> {
    /// The word the cell holds.
    pub closed spec fn spec_value(&self) -> T {
        self.0
    }

    /// How many stores the cell has seen.
    pub closed spec fn stores(&self) -> nat {
        self.1@
    }

    pub fn new(v: T) -> (r: Self)
        ensures
            r.spec_value() == v,
            r.stores() == 0,
    {
        VolatileCell(v, Ghost(0))
    }

    /// Reads the whole word.
    pub fn read(&self) -> (r: T)
        ensures
            r == self.spec_value(),
    {
        self.0
    }

    /// Stores the whole word: exactly one store.
    pub fn write(&mut self, value: T)
        ensures
            final(self).spec_value() == value,
            final(self).stores() == old(self).stores() + 1,
    {
        self.0 = value;
        self.1 = Ghost(self.1@ + 1);
    }
}

impl VolatileCell<u8> {
    /// Clears the bits of `mask`, then sets the bits of `value`: exactly one store.
    pub fn update(&mut self, value: u8, mask: u8)
        ensures
            final(self).spec_value() == (old(self).spec_value() & !mask) | value,
            final(self).stores() == old(self).stores() + 1,
    {
        let v = self.read() & !mask;
        self.write(v | value);
    }

    /// The value of bits `msb` down to `lsb`.
    pub fn bit_range(&self, msb: usize, lsb: usize) -> (r: u8)
        requires
            lsb <= msb < 8,
        ensures
            r as nat == field_value(self.spec_value() as nat, lsb as nat, (msb - lsb + 1) as nat),
    {
        read_bits_u8(self.read() as u32, msb, lsb)
    }

    /// Sets bits `msb` down to `lsb` to the low bits of `value`; the other bits are kept.
    /// Exactly one store.
    pub fn set_bit_range(&mut self, msb: usize, lsb: usize, value: u8)
        requires
            lsb <= msb < 8,
        ensures
            final(self).spec_value() as nat == with_field(
                old(self).spec_value() as nat,
                lsb as nat,
                (msb - lsb + 1) as nat,
                value as nat,
            ),
            final(self).stores() == old(self).stores() + 1,
    {
        let w = write_bits(self.read() as u32, msb, lsb, value as u32);
        proof {
            assert(1u32 << 8u32 == 0x100) by (bit_vector);
            lemma_with_field_fits(
                old(self).0 as u32,
                lsb as u32,
                (msb - lsb + 1) as u32,
                value as u32,
                8,
            );
        }
        self.write(w as u8);
    }

    /// Whether bit `bit` is set.
    pub fn bit(&self, bit: usize) -> (r: bool)
        requires
            bit < 8,
        ensures
            r == bit_of(self.spec_value() as nat, bit as nat),
    {
        read_bit(self.read() as u32, bit)
    }

    /// Sets or clears bit `bit`; the other bits are kept. Exactly one store.
    pub fn set_bit(&mut self, bit: usize, value: bool)
        requires
            bit < 8,
        ensures
            final(self).spec_value() as nat == with_field(
                old(self).spec_value() as nat,
                bit as nat,
                1,
                bit_value(value),
            ),
            final(self).stores() == old(self).stores() + 1,
    {
        let w = write_bit(self.read() as u32, bit, value);
        proof {
            assert(1u32 << 8u32 == 0x100) by (bit_vector);
            lemma_with_field_fits(old(self).0 as u32, bit as u32, 1, bit_value(value) as u32, 8);
        }
        self.write(w as u8);
    }
}

impl VolatileCell<u16> {
    /// Clears the bits of `mask`, then sets the bits of `value`: exactly one store.
    pub fn update(&mut self, value: u16, mask: u16)
        ensures
            final(self).spec_value() == (old(self).spec_value() & !mask) | value,
            final(self).stores() == old(self).stores() + 1,
    {
        let v = self.read() & !mask;
        self.write(v | value);
    }

    /// The value of bits `msb` down to `lsb`.
    pub fn bit_range(&self, msb: usize, lsb: usize) -> (r: u16)
        requires
            lsb <= msb < 16,
        ensures
            r as nat == field_value(self.spec_value() as nat, lsb as nat, (msb - lsb + 1) as nat),
    {
        read_bits_u16(self.read() as u32, msb, lsb)
    }

    /// Sets bits `msb` down to `lsb` to the low bits of `value`; the other bits are kept.
    /// Exactly one store.
    pub fn set_bit_range(&mut self, msb: usize, lsb: usize, value: u16)
        requires
            lsb <= msb < 16,
        ensures
            final(self).spec_value() as nat == with_field(
                old(self).spec_value() as nat,
                lsb as nat,
                (msb - lsb + 1) as nat,
                value as nat,
            ),
            final(self).stores() == old(self).stores() + 1,
    {
        let w = write_bits(self.read() as u32, msb, lsb, value as u32);
        proof {
            assert(1u32 << 16u32 == 0x10000) by (bit_vector);
            lemma_with_field_fits(
                old(self).0 as u32,
                lsb as u32,
                (msb - lsb + 1) as u32,
                value as u32,
                16,
            );
        }
        self.write(w as u16);
    }

    /// Whether bit `bit` is set.
    pub fn bit(&self, bit: usize) -> (r: bool)
        requires
            bit < 16,
        ensures
            r == bit_of(self.spec_value() as nat, bit as nat),
    {
        read_bit(self.read() as u32, bit)
    }

    /// Sets or clears bit `bit`; the other bits are kept. Exactly one store.
    pub fn set_bit(&mut self, bit: usize, value: bool)
        requires
            bit < 16,
        ensures
            final(self).spec_value() as nat == with_field(
                old(self).spec_value() as nat,
                bit as nat,
                1,
                bit_value(value),
            ),
            final(self).stores() == old(self).stores() + 1,
    {
        let w = write_bit(self.read() as u32, bit, value);
        proof {
            assert(1u32 << 16u32 == 0x10000) by (bit_vector);
            lemma_with_field_fits(old(self).0 as u32, bit as u32, 1, bit_value(value) as u32, 16);
        }
        self.write(w as u16);
    }
}

impl VolatileCell<u32> {
    /// Clears the bits of `mask`, then sets the bits of `value`: exactly one store.
    pub fn update(&mut self, value: u32, mask: u32)
        ensures
            final(self).spec_value() == (old(self).spec_value() & !mask) | value,
            final(self).stores() == old(self).stores() + 1,
    {
        let v = self.read() & !mask;
        self.write(v | value);
    }

    /// The value of bits `msb` down to `lsb`.
    pub fn bit_range(&self, msb: usize, lsb: usize) -> (r: u32)
        requires
            lsb <= msb < 32,
        ensures
            r as nat == field_value(self.spec_value() as nat, lsb as nat, (msb - lsb + 1) as nat),
    {
        read_bits(self.read(), msb, lsb)
    }

    /// Sets bits `msb` down to `lsb` to the low bits of `value`; the other bits are kept.
    /// Exactly one store.
    pub fn set_bit_range(&mut self, msb: usize, lsb: usize, value: u32)
        requires
            lsb <= msb < 32,
        ensures
            final(self).spec_value() as nat == with_field(
                old(self).spec_value() as nat,
                lsb as nat,
                (msb - lsb + 1) as nat,
                value as nat,
            ),
            final(self).stores() == old(self).stores() + 1,
    {
        let w = write_bits(self.read(), msb, lsb, value);
        self.write(w);
    }

    /// Whether bit `bit` is set.
    pub fn bit(&self, bit: usize) -> (r: bool)
        requires
            bit < 32,
        ensures
            r == bit_of(self.spec_value() as nat, bit as nat),
    {
        read_bit(self.read(), bit)
    }

    /// Sets or clears bit `bit`; the other bits are kept. Exactly one store.
    pub fn set_bit(&mut self, bit: usize, value: bool)
        requires
            bit < 32,
        ensures
            final(self).spec_value() as nat == with_field(
                old(self).spec_value() as nat,
                bit as nat,
                1,
                bit_value(value),
            ),
            final(self).stores() == old(self).stores() + 1,
    {
        let w = write_bit(self.read(), bit, value);
        self.write(w);
    }
}

} // verus!
