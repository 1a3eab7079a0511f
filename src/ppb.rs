//! Registers of the private peripheral bus that belong to no larger block.
use crate::register::{bit_of, bit_value, read_bit, with_field, write_bit, Field};
use vstd::prelude::*;

verus! {

/// Auxiliary Control Register
#[derive(Clone, Copy)]
pub struct ACRegister(pub u32);

impl ACRegister {
    /// The declared fields as `(msb, lsb)`, in declaration order.
    pub open spec fn spec_fields() -> Seq<(nat, nat)> {
        seq![(0, 0), (1, 1), (2, 2), (8, 8), (9, 9)]
    }

    /// The declared fields, in declaration order.
    pub fn fields() -> (r: Vec<Field>)
        ensures
            r@.len() == Self::spec_fields().len(),
            forall|i: int|
                0 <= i < r@.len() ==> r@[i].spec_msb() == Self::spec_fields()[i].0
                    && r@[i].spec_lsb() == Self::spec_fields()[i].1 && r@[i].wf(),
    {
        let mut v: Vec<Field> = Vec::new();
        v.push(Field::new(0, 0));
        v.push(Field::new(1, 1));
        v.push(Field::new(2, 2));
        v.push(Field::new(8, 8));
        v.push(Field::new(9, 9));
        v
    }

    /// The field at bit 0.
    pub fn multiple_cycle_instr_interruptable(&self) -> (r: bool)
        ensures
            r == bit_of(self.0 as nat, 0),
    {
        read_bit(self.0, 0)
    }

    /// Writes bit 0; the other bits are kept.
    pub fn allow_interruption_of_multicycle_instr(&mut self, v: bool)
        ensures
            final(self).0 as nat == with_field(old(self).0 as nat, 0, 1, bit_value(v)),
    {
        self.0 = write_bit(self.0, 0, v);
    }

    /// The field at bit 1.
    pub fn write_buffer_disabled(&self) -> (r: bool)
        ensures
            r == bit_of(self.0 as nat, 1),
    {
        read_bit(self.0, 1)
    }

    /// Writes bit 1; the other bits are kept.
    pub fn disable_write_buffer(&mut self, v: bool)
        ensures
            final(self).0 as nat == with_field(old(self).0 as nat, 1, 1, bit_value(v)),
    {
        self.0 = write_bit(self.0, 1, v);
    }

    /// The field at bit 2.
    pub fn instr_folding_disabled(&self) -> (r: bool)
        ensures
            r == bit_of(self.0 as nat, 2),
    {
        read_bit(self.0, 2)
    }

    /// Writes bit 2; the other bits are kept.
    pub fn disable_instr_folding(&mut self, v: bool)
        ensures
            final(self).0 as nat == with_field(old(self).0 as nat, 2, 1, bit_value(v)),
    {
        self.0 = write_bit(self.0, 2, v);
    }

    /// The field at bit 8.
    pub fn fpca_autoupdate_disabled(&self) -> (r: bool)
        ensures
            r == bit_of(self.0 as nat, 8),
    {
        read_bit(self.0, 8)
    }

    /// Writes bit 8; the other bits are kept.
    pub fn disable_fpca_auto_update(&mut self, v: bool)
        ensures
            final(self).0 as nat == with_field(old(self).0 as nat, 8, 1, bit_value(v)),
    {
        self.0 = write_bit(self.0, 8, v);
    }

    /// The field at bit 9.
    pub fn out_of_order_fp_disabled(&self) -> (r: bool)
        ensures
            r == bit_of(self.0 as nat, 9),
    {
        read_bit(self.0, 9)
    }

    /// Writes bit 9; the other bits are kept.
    pub fn disable_out_of_order_fp(&mut self, v: bool)
        ensures
            final(self).0 as nat == with_field(old(self).0 as nat, 9, 1, bit_value(v)),
    {
        self.0 = write_bit(self.0, 9, v);
    }
}

} // verus!
