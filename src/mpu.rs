//! The memory protection unit block.
use crate::register::{
    bit_of, bit_value, field_value, read_bit, read_bits, read_bits_u8, with_field, write_bit,
    write_bits, Field,
};
use crate::cell::RegisterCell;
use vstd::prelude::*;

verus! {

/// MPU Type Register
pub struct TypeRegister(pub u32);

impl TypeRegister {
    /// The declared fields as `(msb, lsb)`, in declaration order.
    pub open spec fn spec_fields() -> Seq<(nat, nat)> {
        seq![(0, 0), (15, 8), (23, 16)]
    }

    /// The declared fields, in declaration order.
    pub fn fields() -> (r: Vec<Field>)
        ensures
            r@.len() == Self::spec_fields().len(),
            forall|i: int|
                0 <= i < r@.len() ==> r@[i].spec_msb() == Self::spec_fields()[i].0
                    && r@[i].spec_lsb() == Self::spec_fields()[i].1 && r@[i].wf(),
    {
        let mut v: Vec<Field> = Vec::new();
        v.push(Field::new(0, 0));
        v.push(Field::new(15, 8));
        v.push(Field::new(23, 16));
        v
    }

    /// The field at bit 0.
    pub fn separate(&self) -> (r: bool)
        ensures
            r == bit_of(self.0 as nat, 0),
    {
        read_bit(self.0, 0)
    }

    /// The field at bits 15 to 8.
    pub fn data_regions(&self) -> (r: u8)
        ensures
            r as nat == field_value(self.0 as nat, 8, 8),
    {
        read_bits_u8(self.0, 15, 8)
    }

    /// The field at bits 23 to 16.
    pub fn inst_regions(&self) -> (r: u8)
        ensures
            r as nat == field_value(self.0 as nat, 16, 8),
    {
        read_bits_u8(self.0, 23, 16)
    }
}

/// MPU Control Register
pub struct ControlRegister(pub u32);

impl ControlRegister {
    /// The declared fields as `(msb, lsb)`, in declaration order.
    pub open spec fn spec_fields() -> Seq<(nat, nat)> {
        seq![(0, 0), (1, 1), (2, 2)]
    }

    /// The declared fields, in declaration order.
    pub fn fields() -> (r: Vec<Field>)
        ensures
            r@.len() == Self::spec_fields().len(),
            forall|i: int|
                0 <= i < r@.len() ==> r@[i].spec_msb() == Self::spec_fields()[i].0
                    && r@[i].spec_lsb() == Self::spec_fields()[i].1 && r@[i].wf(),
    {
        let mut v: Vec<Field> = Vec::new();
        v.push(Field::new(0, 0));
        v.push(Field::new(1, 1));
        v.push(Field::new(2, 2));
        v
    }

    /// The field at bit 0.
    pub fn enabled(&self) -> (r: bool)
        ensures
            r == bit_of(self.0 as nat, 0),
    {
        read_bit(self.0, 0)
    }

    /// Writes bit 0; the other bits are kept.
    pub fn enable(&mut self, v: bool)
        ensures
            final(self).0 as nat == with_field(old(self).0 as nat, 0, 1, bit_value(v)),
    {
        self.0 = write_bit(self.0, 0, v);
    }

    /// The field at bit 1.
    pub fn hf_nmi_enabled(&self) -> (r: bool)
        ensures
            r == bit_of(self.0 as nat, 1),
    {
        read_bit(self.0, 1)
    }

    /// Writes bit 1; the other bits are kept.
    pub fn enable_in_hf_and_nmi(&mut self, v: bool)
        ensures
            final(self).0 as nat == with_field(old(self).0 as nat, 1, 1, bit_value(v)),
    {
        self.0 = write_bit(self.0, 1, v);
    }

    /// The field at bit 2.
    pub fn default_map_in_privileged_enabled(&self) -> (r: bool)
        ensures
            r == bit_of(self.0 as nat, 2),
    {
        read_bit(self.0, 2)
    }

    /// Writes bit 2; the other bits are kept.
    pub fn enable_default_map_in_privileged(&mut self, v: bool)
        ensures
            final(self).0 as nat == with_field(old(self).0 as nat, 2, 1, bit_value(v)),
    {
        self.0 = write_bit(self.0, 2, v);
    }
}

/// MPU Region Number Register
pub struct RegionNumberRegister(pub u32);

impl RegionNumberRegister {
    /// The declared fields as `(msb, lsb)`, in declaration order.
    pub open spec fn spec_fields() -> Seq<(nat, nat)> {
        seq![(7, 0)]
    }

    /// The declared fields, in declaration order.
    pub fn fields() -> (r: Vec<Field>)
        ensures
            r@.len() == Self::spec_fields().len(),
            forall|i: int|
                0 <= i < r@.len() ==> r@[i].spec_msb() == Self::spec_fields()[i].0
                    && r@[i].spec_lsb() == Self::spec_fields()[i].1 && r@[i].wf(),
    {
        let mut v: Vec<Field> = Vec::new();
        v.push(Field::new(7, 0));
        v
    }

    /// The field at bits 7 to 0.
    pub fn region(&self) -> (r: u8)
        ensures
            r as nat == field_value(self.0 as nat, 0, 8),
    {
        read_bits_u8(self.0, 7, 0)
    }

    /// Writes bits 7 to 0; the other bits are kept.
    pub fn set_region(&mut self, v: u8)
        ensures
            final(self).0 as nat == with_field(old(self).0 as nat, 0, 8, v as nat),
    {
        self.0 = write_bits(self.0, 7, 0, v as u32);
    }
}

/// MPU Region Base Address Register
pub struct RegionBaseAddressRegister(pub u32);

impl RegionBaseAddressRegister {
    /// The declared fields as `(msb, lsb)`, in declaration order.
    pub open spec fn spec_fields() -> Seq<(nat, nat)> {
        seq![(31, 5), (4, 4), (3, 0)]
    }

    /// The declared fields, in declaration order.
    pub fn fields() -> (r: Vec<Field>)
        ensures
            r@.len() == Self::spec_fields().len(),
            forall|i: int|
                0 <= i < r@.len() ==> r@[i].spec_msb() == Self::spec_fields()[i].0
                    && r@[i].spec_lsb() == Self::spec_fields()[i].1 && r@[i].wf(),
    {
        let mut v: Vec<Field> = Vec::new();
        v.push(Field::new(31, 5));
        v.push(Field::new(4, 4));
        v.push(Field::new(3, 0));
        v
    }

    /// The ADDR field, bits 31 to N of the register, where N is log2 of the region size in
    /// bytes as the SIZE field of the attribute register gives it. A region of 4GB has no valid
    /// ADDR field: it spans the whole memory map from address 0. The base address is aligned to
    /// the size of the region.
    pub fn addr(&self) -> (r: u32)
        ensures
            r as nat == field_value(self.0 as nat, 5, 27),
    {
        read_bits(self.0, 31, 5)
    }

    /// Writes bits 31 to 5; the other bits are kept.
    pub fn set_addr(&mut self, v: u32)
        ensures
            final(self).0 as nat == with_field(old(self).0 as nat, 5, 27, v as nat),
    {
        self.0 = write_bits(self.0, 31, 5, v);
    }

    /// Writes bit 4; the other bits are kept.
    pub fn valid(&mut self, v: bool)
        ensures
            final(self).0 as nat == with_field(old(self).0 as nat, 4, 1, bit_value(v)),
    {
        self.0 = write_bit(self.0, 4, v);
    }

    /// The field at bits 3 to 0.
    pub fn region(&self) -> (r: u8)
        ensures
            r as nat == field_value(self.0 as nat, 0, 4),
    {
        read_bits_u8(self.0, 3, 0)
    }

    /// Writes bits 3 to 0; the other bits are kept.
    pub fn set_region(&mut self, v: u8)
        ensures
            final(self).0 as nat == with_field(old(self).0 as nat, 0, 4, v as nat),
    {
        self.0 = write_bits(self.0, 3, 0, v as u32);
    }
}

/// MPU Region Attribute and Size Register
pub struct RegionAttributeAndSizeRegister(pub u32);

impl RegionAttributeAndSizeRegister {
    /// The declared fields as `(msb, lsb)`, in declaration order.
    pub open spec fn spec_fields() -> Seq<(nat, nat)> {
        seq![(0, 0), (5, 1)]
    }

    /// The declared fields, in declaration order.
    pub fn fields() -> (r: Vec<Field>)
        ensures
            r@.len() == Self::spec_fields().len(),
            forall|i: int|
                0 <= i < r@.len() ==> r@[i].spec_msb() == Self::spec_fields()[i].0
                    && r@[i].spec_lsb() == Self::spec_fields()[i].1 && r@[i].wf(),
    {
        let mut v: Vec<Field> = Vec::new();
        v.push(Field::new(0, 0));
        v.push(Field::new(5, 1));
        v
    }

    /// The field at bit 0.
    pub fn enabled(&self) -> (r: bool)
        ensures
            r == bit_of(self.0 as nat, 0),
    {
        read_bit(self.0, 0)
    }

    /// Writes bit 0; the other bits are kept.
    pub fn enable(&mut self, v: bool)
        ensures
            final(self).0 as nat == with_field(old(self).0 as nat, 0, 1, bit_value(v)),
    {
        self.0 = write_bit(self.0, 0, v);
    }

    /// The field at bits 5 to 1.
    pub fn size(&self) -> (r: u8)
        ensures
            r as nat == field_value(self.0 as nat, 1, 5),
    {
        read_bits_u8(self.0, 5, 1)
    }

    /// Writes bits 5 to 1; the other bits are kept.
    pub fn set_size(&mut self, v: u8)
        ensures
            final(self).0 as nat == with_field(old(self).0 as nat, 1, 5, v as nat),
    {
        self.0 = write_bits(self.0, 5, 1, v as u32);
    }
}

/// Memory protection unit block.
pub struct MemoryProtectionUnit {
    pub mpu_type: RegisterCell<TypeRegister>,
    pub control: RegisterCell<ControlRegister>,
    pub rnr: RegisterCell<RegionNumberRegister>,
    pub rbar: RegisterCell<RegionBaseAddressRegister>,
    pub rsar: RegisterCell<RegionAttributeAndSizeRegister>,
    pub rbar_a1: RegisterCell<RegionBaseAddressRegister>,
    pub rsar_a1: RegisterCell<RegionAttributeAndSizeRegister>,
    pub rbar_a2: RegisterCell<RegionBaseAddressRegister>,
    pub rsar_a2: RegisterCell<RegionAttributeAndSizeRegister>,
    pub rbar_a3: RegisterCell<RegionBaseAddressRegister>,
    pub rsar_a3: RegisterCell<RegionAttributeAndSizeRegister>,
}

} // verus!
