//! The SysTick timer block.
use crate::register::{
    bit_of, bit_value, field_value, read_bit, read_bits, with_field, write_bit, write_bits, Field,
};
use crate::cell::{RegisterCell, RoRegisterCell};
use vstd::prelude::*;

verus! {

/// SysTick Control and Status Register
#[derive(Clone, Copy)]
pub struct STCSRegister(pub u32);

impl STCSRegister {
    /// The declared fields as `(msb, lsb)`, in declaration order.
    pub open spec fn spec_fields() -> Seq<(nat, nat)> {
        seq![(16, 16), (2, 2), (1, 1), (0, 0)]
    }

    /// The declared fields, in declaration order.
    pub fn fields() -> (r: Vec<Field>)
        ensures
            r@.len() == Self::spec_fields().len(),
            forall|i: int|
                0 <= i < r@.len() ==> r@[i].spec_msb() == Self::spec_fields()[i].0
                    && r@[i].spec_lsb() == Self::spec_fields()[i].1 && r@[i].wf(),
    {
        let mut v: Vec<Field> = Vec::new();
        v.push(Field::new(16, 16));
        v.push(Field::new(2, 2));
        v.push(Field::new(1, 1));
        v.push(Field::new(0, 0));
        v
    }

    /// Whether the counter has counted to 0 since the last read of this register.
    /// The bit is cleared by a read of this register or by any write to the Current Value
    /// register.
    pub fn count_flag(&self) -> (r: bool)
        ensures
            r == bit_of(self.0 as nat, 16),
    {
        read_bit(self.0, 16)
    }

    /// The SysTick clock source.
    /// Without an external clock, this bit reads as true and ignores writes.
    pub fn using_processor_clock(&self) -> (r: bool)
        ensures
            r == bit_of(self.0 as nat, 2),
    {
        read_bit(self.0, 2)
    }

    /// Writes bit 2; the other bits are kept.
    pub fn use_processor_clock(&mut self, v: bool)
        ensures
            final(self).0 as nat == with_field(old(self).0 as nat, 2, 1, bit_value(v)),
    {
        self.0 = write_bit(self.0, 2, v);
    }

    /// Whether counting to 0 makes the SysTick exception pending.
    /// Writing zero to the Current Value register never changes the status of the SysTick
    /// exception.
    pub fn tick_int_enabled(&self) -> (r: bool)
        ensures
            r == bit_of(self.0 as nat, 1),
    {
        read_bit(self.0, 1)
    }

    /// Writes bit 1; the other bits are kept.
    pub fn enable_tick_interrupt(&mut self, v: bool)
        ensures
            final(self).0 as nat == with_field(old(self).0 as nat, 1, 1, bit_value(v)),
    {
        self.0 = write_bit(self.0, 1, v);
    }

    /// Whether the SysTick counter is enabled.
    pub fn systick_enabled(&self) -> (r: bool)
        ensures
            r == bit_of(self.0 as nat, 0),
    {
        read_bit(self.0, 0)
    }

    /// Writes bit 0; the other bits are kept.
    pub fn enable_systick(&mut self, v: bool)
        ensures
            final(self).0 as nat == with_field(old(self).0 as nat, 0, 1, bit_value(v)),
    {
        self.0 = write_bit(self.0, 0, v);
    }
}

/// SysTick Reload Value Register
#[derive(Clone, Copy)]
pub struct STRVRegister(pub u32);

impl STRVRegister {
    /// The declared fields as `(msb, lsb)`, in declaration order.
    pub open spec fn spec_fields() -> Seq<(nat, nat)> {
        seq![(23, 0)]
    }

    /// The declared fields, in declaration order.
    pub fn fields() -> (r: Vec<Field>)
        ensures
            r@.len() == Self::spec_fields().len(),
            forall|i: int|
                0 <= i < r@.len() ==> r@[i].spec_msb() == Self::spec_fields()[i].0
                    && r@[i].spec_lsb() == Self::spec_fields()[i].1 && r@[i].wf(),
    {
        let mut v: Vec<Field> = Vec::new();
        v.push(Field::new(23, 0));
        v
    }

    /// The field at bits 23 to 0.
    pub fn reload(&self) -> (r: u32)
        ensures
            r as nat == field_value(self.0 as nat, 0, 24),
    {
        read_bits(self.0, 23, 0)
    }

    /// Writes bits 23 to 0; the other bits are kept.
    pub fn set_reload(&mut self, v: u32)
        ensures
            final(self).0 as nat == with_field(old(self).0 as nat, 0, 24, v as nat),
    {
        self.0 = write_bits(self.0, 23, 0, v);
    }
}

/// SysTick Calibration Value Register
#[derive(Clone, Copy)]
pub struct STCRegister(pub u32);

impl STCRegister {
    /// The declared fields as `(msb, lsb)`, in declaration order.
    pub open spec fn spec_fields() -> Seq<(nat, nat)> {
        seq![(31, 31), (30, 30)]
    }

    /// The declared fields, in declaration order.
    pub fn fields() -> (r: Vec<Field>)
        ensures
            r@.len() == Self::spec_fields().len(),
            forall|i: int|
                0 <= i < r@.len() ==> r@[i].spec_msb() == Self::spec_fields()[i].0
                    && r@[i].spec_lsb() == Self::spec_fields()[i].1 && r@[i].wf(),
    {
        let mut v: Vec<Field> = Vec::new();
        v.push(Field::new(31, 31));
        v.push(Field::new(30, 30));
        v
    }

    /// Whether the reference clock is implemented.
    pub fn has_reference_clock(&self) -> (r: bool)
        ensures
            r == bit_of(self.0 as nat, 31),
    {
        read_bit(self.0, 31)
    }

    /// Whether the 10ms calibration value is inexact.
    pub fn is_calibration_inexact(&self) -> (r: bool)
        ensures
            r == bit_of(self.0 as nat, 30),
    {
        read_bit(self.0, 30)
    }
}

impl STCRegister {
    /// The reload value for 10ms, held in bits 23 to 0; `None` when those bits are zero, which
    /// means the value is not known.
    pub fn ten_millisecond(self) -> (r: Option<u32>)
        ensures
            field_value(self.0 as nat, 0, 24) == 0 ==> r is None,
            field_value(self.0 as nat, 0, 24) != 0 ==> r == Some(
                field_value(self.0 as nat, 0, 24) as u32,
            ),
    {
        let v = read_bits(self.0, 23, 0);
        if v == 0 {
            None
        } else {
            Some(v)
        }
    }
}

/// SysTick timer block.
pub struct SystickBlock {
    pub control_and_status: RegisterCell<STCSRegister>,
    pub reload_value: RegisterCell<STRVRegister>,
    /// Current value of the counter; any write clears it to zero.
    pub current_value: RegisterCell<u32>,
    pub calibration: RoRegisterCell<STCRegister>,
}

} // verus!
