//! The floating-point unit block and the coprocessor access register.
use crate::cell::RegisterCell;
use crate::register::{field_value, lemma_read_back, read_bits, with_field, write_bits, Field};
use vstd::arithmetic::power2::lemma2_to64;
use vstd::prelude::*;

verus! {

/// The bit pattern names no coprocessor access level.
#[derive(Debug)]
pub struct TryIntoCoProcessorAccessError(());

/// Access that a coprocessor grants.
#[derive(Clone, Copy, Debug, PartialEq, Eq, Structural)]
pub enum CoProcessorAccess {
    /// Any attempted access generates a NOCP UsageFault.
    AccessDenied,
    /// An unprivileged access generates a NOCP fault.
    PrivilegedOnly,
    FullAccess,
}

impl CoProcessorAccess {
    /// The bit pattern that stands for the variant.
    pub open spec fn spec_bits(self) -> u32 {
        match self {
            CoProcessorAccess::AccessDenied => 0,
            CoProcessorAccess::PrivilegedOnly => 1,
            CoProcessorAccess::FullAccess => 3,
        }
    }

    /// The variant whose bit pattern is `v`, if any.
    pub open spec fn decode(v: nat) -> Option<CoProcessorAccess> {
        if v == 0 {
            Some(CoProcessorAccess::AccessDenied)
        } else if v == 1 {
            Some(CoProcessorAccess::PrivilegedOnly)
        } else if v == 3 {
            Some(CoProcessorAccess::FullAccess)
        } else {
            None
        }
    }

    /// `r` is the result of decoding `v`: the variant whose pattern is `v`, or an error when
    /// there is none.
    pub open spec fn decoded(v: nat, r: Result<CoProcessorAccess, TryIntoCoProcessorAccessError>) -> bool {
        match CoProcessorAccess::decode(v) {
            Some(a) => r matches Ok(b) && b == a,
            None => r is Err,
        }
    }

    /// The variant whose bit pattern is `v`, or an error when no variant has that pattern.
    pub fn try_from_bits(v: u32) -> (r: Result<CoProcessorAccess, TryIntoCoProcessorAccessError>)
        ensures
            CoProcessorAccess::decoded(v as nat, r),
    {
        if v == 0 {
            Ok(CoProcessorAccess::AccessDenied)
        } else if v == 1 {
            Ok(CoProcessorAccess::PrivilegedOnly)
        } else if v == 3 {
            Ok(CoProcessorAccess::FullAccess)
        } else {
            Err(TryIntoCoProcessorAccessError(()))
        }
    }

    /// The bit pattern that stands for the variant.
    pub fn bits(self) -> (r: u32)
        ensures
            r == self.spec_bits(),
    {
        match self {
            CoProcessorAccess::AccessDenied => 0,
            CoProcessorAccess::PrivilegedOnly => 1,
            CoProcessorAccess::FullAccess => 3,
        }
    }
}

impl core::convert::TryFrom<u32> for CoProcessorAccess {
    type Error = TryIntoCoProcessorAccessError;

    fn try_from(v: u32) -> (r: Result<CoProcessorAccess, TryIntoCoProcessorAccessError>) {
        match CoProcessorAccess::try_from_bits(v) {
            Ok(a) => Ok(a),
            Err(_) => Err(TryIntoCoProcessorAccessError(())),
        }
    }
}

impl vstd::std_specs::convert::TryFromSpecImpl<u32> for CoProcessorAccess {
    open spec fn obeys_try_from_spec() -> bool {
        true
    }

    closed spec fn try_from_spec(v: u32) -> Result<CoProcessorAccess, TryIntoCoProcessorAccessError> {
        match CoProcessorAccess::decode(v as nat) {
            Some(a) => Ok(a),
            None => Err(TryIntoCoProcessorAccessError(())),
        }
    }
}

impl core::convert::From<CoProcessorAccess> for u32 {
    fn from(v: CoProcessorAccess) -> (r: u32) {
        v.bits()
    }
}

impl vstd::std_specs::convert::FromSpecImpl<CoProcessorAccess> for u32 {
    open spec fn obeys_from_spec() -> bool {
        true
    }

    open spec fn from_spec(v: CoProcessorAccess) -> u32 {
        v.spec_bits()
    }
}

/// What `TryFrom::try_from` returns is the decoding of `v`: the variant whose bit pattern is
/// `v`, or an error when no variant has that pattern.
pub proof fn lemma_access_try_from_decodes(v: u32)
    ensures
        CoProcessorAccess::decoded(
            v as nat,
            <CoProcessorAccess as vstd::std_specs::convert::TryFromSpec<u32>>::try_from_spec(v),
        ),
{
}

/// Every variant decodes from its own bit pattern, the one that `From` gives.
pub proof fn lemma_access_bits_round_trip(a: CoProcessorAccess)
    ensures
        CoProcessorAccess::decode(a.spec_bits() as nat) == Some(a),
        <u32 as vstd::std_specs::convert::FromSpec<CoProcessorAccess>>::from_spec(a) == a.spec_bits(),
{
}

/// CoProcessor Access Control Register
#[derive(Clone, Copy)]
pub struct CPACRegister(pub u32);

impl CPACRegister {
    /// The declared fields as `(msb, lsb)`, in declaration order.
    pub open spec fn spec_fields() -> Seq<(nat, nat)> {
        seq![(21, 20), (23, 22)]
    }

    /// The declared fields, in declaration order.
    pub fn fields() -> (r: Vec<Field>)
        ensures
            r@.len() == Self::spec_fields().len(),
            forall|i: int|
                0 <= i < r@.len() ==> r@[i].spec_msb() == Self::spec_fields()[i].0
                    && r@[i].spec_lsb() == Self::spec_fields()[i].1 && r@[i].wf(),
    {
        let mut v: Vec<Field> = Vec::new();
        v.push(Field::new(21, 20));
        v.push(Field::new(23, 22));
        v
    }

    /// The field at bits 21 to 20.
    pub fn get_cp10_access(&self) -> (r: Result<CoProcessorAccess, TryIntoCoProcessorAccessError>)
        ensures
            CoProcessorAccess::decoded(field_value(self.0 as nat, 20, 2), r),
    {
        CoProcessorAccess::try_from_bits(read_bits(self.0, 21, 20))
    }

    /// Writes bits 21 to 20; the other bits are kept.
    pub fn set_cp10_access(&mut self, v: CoProcessorAccess)
        ensures
            final(self).0 as nat == with_field(old(self).0 as nat, 20, 2, v.spec_bits() as nat),
    {
        self.0 = write_bits(self.0, 21, 20, v.bits());
    }

    /// The field at bits 23 to 22.
    pub fn get_cp11_access(&self) -> (r: Result<CoProcessorAccess, TryIntoCoProcessorAccessError>)
        ensures
            CoProcessorAccess::decoded(field_value(self.0 as nat, 22, 2), r),
    {
        CoProcessorAccess::try_from_bits(read_bits(self.0, 23, 22))
    }

    /// Writes bits 23 to 22; the other bits are kept.
    pub fn set_cp11_access(&mut self, v: CoProcessorAccess)
        ensures
            final(self).0 as nat == with_field(old(self).0 as nat, 22, 2, v.spec_bits() as nat),
    {
        self.0 = write_bits(self.0, 23, 22, v.bits());
    }
}

/// Floating-point Context Control Register
#[derive(Clone, Copy)]
pub struct FPCCRegister(pub u32);

/// Floating-point Context Address Register
#[derive(Clone, Copy)]
pub struct FPCARegister(pub u32);

/// Floating-point Status Control Register
/// This register is not memory mapped: a dedicated instruction reads and writes it.
#[derive(Clone, Copy)]
pub struct FPSCRegister(pub u32);

/// Floating-point Default Status Control Register
#[derive(Clone, Copy)]
pub struct FPDSCRegister(pub u32);

/// Floating-point unit block.
pub struct FloatingPointUnit {
    pub ccr: RegisterCell<FPCCRegister>,
    pub car: RegisterCell<FPCARegister>,
    pub scr: RegisterCell<FPSCRegister>,
    pub dscr: RegisterCell<FPDSCRegister>,
}

/// An access level written to the CP10 or the CP11 field reads back as the same level, whatever
/// the rest of the register held.
pub proof fn lemma_access_round_trip(w: u32, a: CoProcessorAccess)
    ensures
        CoProcessorAccess::decode(
            field_value(with_field(w as nat, 20, 2, a.spec_bits() as nat), 20, 2),
        ) == Some(a),
        CoProcessorAccess::decode(
            field_value(with_field(w as nat, 22, 2, a.spec_bits() as nat), 22, 2),
        ) == Some(a),
{
    lemma2_to64();
    lemma_read_back(w, 20, 2, a.spec_bits());
    lemma_read_back(w, 22, 2, a.spec_bits());
}

/// Decoding never makes up a level: a pattern decodes only to the level whose pattern it is,
/// and the pattern 2, which names no level, decodes to none.
pub proof fn lemma_access_decode_exact(v: nat)
    ensures
        CoProcessorAccess::decode(v) matches Some(a) ==> a.spec_bits() == v,
        CoProcessorAccess::decode(2) is None,
{
}

} // verus!
