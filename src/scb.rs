//! The System Control Block.
use crate::cell::{RegisterCell, ReservedCell, RoRegisterCell};
use crate::register::{
    bit_of, bit_value, field_value, lemma_extract_formula, lemma_insert_formula, lemma_low_ones_u32,
    lemma_read_back, read_bit, read_bits, read_bits_u16, read_bits_u8, with_field, write_bit,
    write_bits, Field,
};
use vstd::arithmetic::div_mod::lemma_fundamental_div_mod_converse_div;
use vstd::arithmetic::power2::lemma2_to64;
use vstd::bits::{lemma_u32_shr_is_div, low_bits_mask};
use vstd::prelude::*;

verus! {

/// The bit pattern names no endianness.
#[derive(Debug)]
pub struct InvalidEndiannessError(());

/// Byte order of data accesses.
#[derive(Clone, Copy, Debug, PartialEq, Eq, Structural)]
pub enum Endianness {
    Little,
    Big,
}

impl Endianness {
    /// The bit pattern that stands for the variant.
    pub open spec fn spec_bits(self) -> u32 {
        match self {
            Endianness::Little => 0,
            Endianness::Big => 1,
        }
    }

    /// The variant whose bit pattern is `v`, if any.
    pub open spec fn decode(v: nat) -> Option<Endianness> {
        if v == 0 {
            Some(Endianness::Little)
        } else if v == 1 {
            Some(Endianness::Big)
        } else {
            None
        }
    }

    /// `r` is the result of decoding `v`: the variant whose pattern is `v`, or an error when
    /// there is none.
    pub open spec fn decoded(v: nat, r: Result<Endianness, InvalidEndiannessError>) -> bool {
        match Endianness::decode(v) {
            Some(a) => r matches Ok(b) && b == a,
            None => r is Err,
        }
    }

    /// The variant whose bit pattern is `v`, or an error when no variant has that pattern.
    pub fn try_from_bits(v: u32) -> (r: Result<Endianness, InvalidEndiannessError>)
        ensures
            Endianness::decoded(v as nat, r),
    {
        if v == 0 {
            Ok(Endianness::Little)
        } else if v == 1 {
            Ok(Endianness::Big)
        } else {
            Err(InvalidEndiannessError(()))
        }
    }

    /// The bit pattern that stands for the variant.
    pub fn bits(self) -> (r: u32)
        ensures
            r == self.spec_bits(),
    {
        match self {
            Endianness::Little => 0,
            Endianness::Big => 1,
        }
    }
}

impl core::convert::TryFrom<u32> for Endianness {
    type Error = InvalidEndiannessError;

    fn try_from(v: u32) -> (r: Result<Endianness, InvalidEndiannessError>) {
        match Endianness::try_from_bits(v) {
            Ok(a) => Ok(a),
            Err(_) => Err(InvalidEndiannessError(())),
        }
    }
}

impl vstd::std_specs::convert::TryFromSpecImpl<u32> for Endianness {
    open spec fn obeys_try_from_spec() -> bool {
        true
    }

    closed spec fn try_from_spec(v: u32) -> Result<Endianness, InvalidEndiannessError> {
        match Endianness::decode(v as nat) {
            Some(a) => Ok(a),
            None => Err(InvalidEndiannessError(())),
        }
    }
}

impl core::convert::From<Endianness> for u32 {
    fn from(v: Endianness) -> (r: u32) {
        v.bits()
    }
}

impl vstd::std_specs::convert::FromSpecImpl<Endianness> for u32 {
    open spec fn obeys_from_spec() -> bool {
        true
    }

    open spec fn from_spec(v: Endianness) -> u32 {
        v.spec_bits()
    }
}

/// What `TryFrom::try_from` returns is the decoding of `v`: the variant whose bit pattern is
/// `v`, or an error when no variant has that pattern.
pub proof fn lemma_endianness_try_from_decodes(v: u32)
    ensures
        Endianness::decoded(
            v as nat,
            <Endianness as vstd::std_specs::convert::TryFromSpec<u32>>::try_from_spec(v),
        ),
{
}

/// Every variant decodes from its own bit pattern, the one that `From` gives.
pub proof fn lemma_endianness_bits_round_trip(a: Endianness)
    ensures
        Endianness::decode(a.spec_bits() as nat) == Some(a),
        <u32 as vstd::std_specs::convert::FromSpec<Endianness>>::from_spec(a) == a.spec_bits(),
{
}

/// CPUID Base Register
#[derive(Clone, Copy)]
pub struct CPUIDRegister(pub u32);

impl CPUIDRegister {
    /// The declared fields as `(msb, lsb)`, in declaration order.
    pub open spec fn spec_fields() -> Seq<(nat, nat)> {
        seq![(31, 24), (23, 20), (19, 16), (15, 4), (3, 0)]
    }

    /// The declared fields, in declaration order.
    pub fn fields() -> (r: Vec<Field>)
        ensures
            r@.len() == Self::spec_fields().len(),
            forall|i: int|
                0 <= i < r@.len() ==> r@[i].spec_msb() == Self::spec_fields()[i].0
                    && r@[i].spec_lsb() == Self::spec_fields()[i].1 && r@[i].wf(),
    {
        let mut v: Vec<Field> = Vec::new();
        v.push(Field::new(31, 24));
        v.push(Field::new(23, 20));
        v.push(Field::new(19, 16));
        v.push(Field::new(15, 4));
        v.push(Field::new(3, 0));
        v
    }

    /// The field at bits 31 to 24.
    pub fn implementer_code(&self) -> (r: u8)
        ensures
            r as nat == field_value(self.0 as nat, 24, 8),
    {
        read_bits_u8(self.0, 31, 24)
    }

    /// The field at bits 23 to 20.
    pub fn variant(&self) -> (r: u8)
        ensures
            r as nat == field_value(self.0 as nat, 20, 4),
    {
        read_bits_u8(self.0, 23, 20)
    }

    /// The field at bits 19 to 16.
    pub fn constant(&self) -> (r: u8)
        ensures
            r as nat == field_value(self.0 as nat, 16, 4),
    {
        read_bits_u8(self.0, 19, 16)
    }

    /// The field at bits 15 to 4.
    pub fn part_number(&self) -> (r: u16)
        ensures
            r as nat == field_value(self.0 as nat, 4, 12),
    {
        read_bits_u16(self.0, 15, 4)
    }

    /// The field at bits 3 to 0.
    pub fn revision(&self) -> (r: u8)
        ensures
            r as nat == field_value(self.0 as nat, 0, 4),
    {
        read_bits_u8(self.0, 3, 0)
    }
}

/// Interrupt Control and State Register
#[derive(Clone, Copy)]
pub struct ICSRRegister(pub u32);

impl ICSRRegister {
    /// The declared fields as `(msb, lsb)`, in declaration order.
    pub open spec fn spec_fields() -> Seq<(nat, nat)> {
        seq![(31, 31), (28, 28), (26, 26), (22, 22), (17, 12), (11, 11), (8, 0)]
    }

    /// The declared fields, in declaration order.
    pub fn fields() -> (r: Vec<Field>)
        ensures
            r@.len() == Self::spec_fields().len(),
            forall|i: int|
                0 <= i < r@.len() ==> r@[i].spec_msb() == Self::spec_fields()[i].0
                    && r@[i].spec_lsb() == Self::spec_fields()[i].1 && r@[i].wf(),
    {
        let mut v: Vec<Field> = Vec::new();
        v.push(Field::new(31, 31));
        v.push(Field::new(28, 28));
        v.push(Field::new(26, 26));
        v.push(Field::new(22, 22));
        v.push(Field::new(17, 12));
        v.push(Field::new(11, 11));
        v.push(Field::new(8, 0));
        v
    }

    /// The field at bit 31.
    pub fn is_nmi_pending(&self) -> (r: bool)
        ensures
            r == bit_of(self.0 as nat, 31),
    {
        read_bit(self.0, 31)
    }

    /// The field at bit 28.
    pub fn is_pendsv_pending(&self) -> (r: bool)
        ensures
            r == bit_of(self.0 as nat, 28),
    {
        read_bit(self.0, 28)
    }

    /// The field at bit 26.
    pub fn is_systick_pending(&self) -> (r: bool)
        ensures
            r == bit_of(self.0 as nat, 26),
    {
        read_bit(self.0, 26)
    }

    /// True if any interrupt but NMI and faults is pending.
    pub fn is_any_isr_pending(&self) -> (r: bool)
        ensures
            r == bit_of(self.0 as nat, 22),
    {
        read_bit(self.0, 22)
    }

    /// Exception number of the highest priority pending enabled exception; 0 when none is
    /// pending. It includes the effect of the BASEPRI and FAULTMASK registers, not that of
    /// PRIMASK.
    pub fn highest_vector_pending(&self) -> (r: u8)
        ensures
            r as nat == field_value(self.0 as nat, 12, 6),
    {
        read_bits_u8(self.0, 17, 12)
    }

    /// False when the current context will return to an exception context.
    pub fn return_to_base(&self) -> (r: bool)
        ensures
            r == bit_of(self.0 as nat, 11),
    {
        read_bit(self.0, 11)
    }

    /// Exception number of the active exception; 0 in thread mode. Subtract 16 to obtain the
    /// IRQ number that indexes the interrupt clear-enable, set-enable, clear-pending,
    /// set-pending and priority registers.
    pub fn active_vector(&self) -> (r: u16)
        ensures
            r as nat == field_value(self.0 as nat, 0, 9),
    {
        read_bits_u16(self.0, 8, 0)
    }
}

impl ICSRRegister {
    /// Pends an NMI.
    pub fn set_nmi_pending(&mut self)
        ensures
            final(self).0 as nat == with_field(old(self).0 as nat, 31, 1, 1),
    {
        self.0 = write_bits(self.0, 31, 31, 1);
    }

    /// Pends a PendSV interrupt (bit 28), or removes its pending state (bit 27).
    pub fn set_pendsv_pending(&mut self, value: bool)
        ensures
            value ==> final(self).0 as nat == with_field(old(self).0 as nat, 28, 1, 1),
            !value ==> final(self).0 as nat == with_field(old(self).0 as nat, 27, 1, 1),
    {
        if value {
            self.0 = write_bits(self.0, 28, 28, 1);
        } else {
            self.0 = write_bits(self.0, 27, 27, 1);
        }
    }

    /// Pends a SysTick interrupt (bit 26), or removes its pending state (bit 25).
    pub fn set_systick_pending(&mut self, value: bool)
        ensures
            value ==> final(self).0 as nat == with_field(old(self).0 as nat, 26, 1, 1),
            !value ==> final(self).0 as nat == with_field(old(self).0 as nat, 25, 1, 1),
    {
        if value {
            self.0 = write_bits(self.0, 26, 26, 1);
        } else {
            self.0 = write_bits(self.0, 25, 25, 1);
        }
    }
}

/// Vector Table Offset Register
#[derive(Clone, Copy)]
pub struct VectorTableOffsetRegister(pub u32);

impl VectorTableOffsetRegister {
    /// Offset of the vector table base from the bottom of the memory map: bits 29 to 7 of
    /// the register, the low 7 bits being zero. Bit 29 tells whether the table is in the code
    /// region (0) or in SRAM (1).
    pub fn offset(&self) -> (r: u32)
        ensures
            r as nat == (self.0 as nat / 128) * 128,
    {
        let x = self.0;
        assert(x & !0x7fu32 == (x / 128) * 128) by (bit_vector);
        x & !0x7f
    }

    /// Sets the offset of the vector table. The offset is aligned to the size of the table:
    /// at least 32 words, so its low 7 bits are zero.
    pub fn set_offset(&mut self, value: u32)
        requires
            value % 128 == 0,
        ensures
            final(self).0 == value,
    {
        self.0 = value;
    }
}

/// Application Interrupt and Reset Control Register
/// A write takes effect only when the upper half-word holds the unlock code `0x05FA`.
#[derive(Clone, Copy)]
pub struct AIRCRegister(pub u32);

impl AIRCRegister {
    /// The declared fields as `(msb, lsb)`, in declaration order.
    pub open spec fn spec_fields() -> Seq<(nat, nat)> {
        seq![(15, 15), (10, 8)]
    }

    /// The declared fields, in declaration order.
    pub fn fields() -> (r: Vec<Field>)
        ensures
            r@.len() == Self::spec_fields().len(),
            forall|i: int|
                0 <= i < r@.len() ==> r@[i].spec_msb() == Self::spec_fields()[i].0
                    && r@[i].spec_lsb() == Self::spec_fields()[i].1 && r@[i].wf(),
    {
        let mut v: Vec<Field> = Vec::new();
        v.push(Field::new(15, 15));
        v.push(Field::new(10, 8));
        v
    }

    /// The field at bits 10 to 8.
    pub fn prigroup(&self) -> (r: u8)
        ensures
            r as nat == field_value(self.0 as nat, 8, 3),
    {
        read_bits_u8(self.0, 10, 8)
    }
}

/// The code that the upper half-word of a write to `AIRCRegister` must hold.
pub const AIRCR_UNLOCK: u32 = 0x05FA;

/// The word written to `AIRCRegister` to set a field of its lower half-word to `v`: the lower
/// half-word of `w` with the field replaced, under the unlock code.
pub open spec fn aircr_write(w: nat, lsb: nat, width: nat, v: nat) -> nat {
    (AIRCR_UNLOCK * 0x10000 + with_field(w % 0x10000, lsb, width, v)) as nat
}

/// For every field in the lower half-word of `AIRCRegister`: a write through it leaves the
/// unlock code in the upper half-word, whatever that half-word held before, and reading the
/// field back gives the written value masked with the field's mask.
pub proof fn lemma_aircr_write(w: u32, f: Field, v: u32)
    requires
        f.fits(16),
    ensures
        aircr_write(w as nat, f.spec_lsb(), f.spec_width(), v as nat) / 0x10000 == AIRCR_UNLOCK,
        field_value(
            aircr_write(w as nat, f.spec_lsb(), f.spec_width(), v as nat),
            f.spec_lsb(),
            f.spec_width(),
        ) == (v & (low_bits_mask(f.spec_width()) as u32)) as nat,
{
    let l = f.spec_lsb() as u32;
    let n = f.spec_width() as u32;
    let m = 0xffff_ffffu32 >> ((32 - n) as u32);
    lemma_low_ones_u32(n);
    let low = w & 0xffff;
    let x = (low & !(m << l)) | ((v & m) << l);
    lemma_insert_formula(low, v, l, n, m);
    assert(low as nat == w as nat % 0x10000 && x < 0x10000 && (((x + 0x05FA_0000) as u32) >> l)
        & m == v & m) by (bit_vector)
        requires
            1 <= n,
            l + n <= 16,
            m == 0xffff_ffffu32 >> ((32 - n) as u32),
            low == w & 0xffff,
            x == (low & !(m << l)) | ((v & m) << l),
    ;
    let r = (x + 0x05FA_0000) as u32;
    assert(r as nat == aircr_write(w as nat, f.spec_lsb(), f.spec_width(), v as nat));
    lemma_extract_formula(r, l, n, m);
    lemma_fundamental_div_mod_converse_div(r as int, 0x10000, 0x05FA, x as int);
}

impl AIRCRegister {
    /// The byte order of data accesses, bit 15.
    pub fn endianness(&self) -> (r: Result<Endianness, InvalidEndiannessError>)
        ensures
            Endianness::decoded(field_value(self.0 as nat, 15, 1), r),
    {
        Endianness::try_from_bits(self.extract(&Field::new(15, 15)))
    }

    fn extract(&self, f: &Field) -> (r: u32)
        requires
            f.fits(32),
        ensures
            r as nat == field_value(self.0 as nat, f.spec_lsb(), f.spec_width()),
    {
        crate::register::extract(self.0, f)
    }

    /// Sets the field `f` of the lower half-word to `v`, with the unlock code in the upper
    /// half-word.
    fn insert(&mut self, f: &Field, v: u32)
        requires
            f.fits(16),
        ensures
            final(self).0 as nat == aircr_write(
                old(self).0 as nat,
                f.spec_lsb(),
                f.spec_width(),
                v as nat,
            ),
    {
        let m: u32 = f.mask::<u32>();
        let l: u32 = f.lsb() as u32;
        let w = self.0;
        let ghost width = f.spec_width() as u32;
        let mask = 0x0000_FFFF & !(m << l);
        let value = 0x05FA_0000 | ((v & m) << l);
        proof {
            lemma_low_ones_u32(width);
            let low = w & 0xffff;
            lemma_insert_formula(low, v, l, width, m);
            assert((w & mask) | value == ((low & !(m << l)) | ((v & m) << l)) + 0x05FA_0000
                && w & 0xffff == w % 0x10000) by (bit_vector)
                requires
                    1 <= width,
                    l + width <= 16,
                    m == 0xffff_ffffu32 >> ((32 - width) as u32),
                    low == w & 0xffff,
                    mask == 0x0000_FFFF & !(m << l),
                    value == 0x05FA_0000 | ((v & m) << l),
            ;
        }
        self.0 = (w & mask) | value;
    }

    /// Sets the priority grouping field, bits 10 to 8.
    pub fn set_prigroup(&mut self, v: u8)
        ensures
            final(self).0 as nat == aircr_write(old(self).0 as nat, 8, 3, v as nat),
    {
        self.insert(&Field::new(10, 8), v as u32);
    }

    /// Requests a system reset: sets SYSRESETREQ, bit 2, under the unlock code.
    pub fn sys_reset_request(&mut self)
        ensures
            final(self).0 as nat == aircr_write(old(self).0 as nat, 2, 1, 1),
            final(self).0 as nat / 0x10000 == AIRCR_UNLOCK,
            bit_of(final(self).0 as nat, 2),
    {
        let f = Field::new(2, 2);
        self.insert(&f, 1);
        proof {
            let r = self.0;
            let w16 = (old(self).0 as nat % 0x10000) as u32;
            assert(w16 as nat == old(self).0 as nat % 0x10000);
            let m: u32 = 1;
            lemma_low_ones_u32(1);
            lemma2_to64();
            assert(low_bits_mask(1) == 1);
            lemma_insert_formula(w16, 1, 2, 1, m);
            let x = (w16 & !(m << 2u32)) | ((1u32 & m) << 2u32);
            assert(r == x + 0x05FA_0000);
            assert(r >> 16u32 == 0x05FA && (r >> 2u32) & 1 == (r >> 2u32) % 2 && (r >> 2u32) % 2 == 1)
                by (bit_vector)
                requires
                    w16 < 0x10000,
                    m == 1,
                    x == (w16 & !(m << 2u32)) | ((1u32 & m) << 2u32),
                    r == x + 0x05FA_0000,
            ;
            lemma_u32_shr_is_div(r, 16);
            lemma_u32_shr_is_div(r, 2);
        }
    }
}

/// The bit pattern names no sleep mode.
#[derive(Debug)]
pub struct TryIntoSleepModeError(());

/// Low-power mode that the processor enters.
#[derive(Clone, Copy, Debug, PartialEq, Eq, Structural)]
pub enum SleepMode {
    Sleep,
    DeepSleep,
}

impl SleepMode {
    /// The bit pattern that stands for the variant.
    pub open spec fn spec_bits(self) -> u32 {
        match self {
            SleepMode::Sleep => 0,
            SleepMode::DeepSleep => 1,
        }
    }

    /// The variant whose bit pattern is `v`, if any.
    pub open spec fn decode(v: nat) -> Option<SleepMode> {
        if v == 0 {
            Some(SleepMode::Sleep)
        } else if v == 1 {
            Some(SleepMode::DeepSleep)
        } else {
            None
        }
    }

    /// `r` is the result of decoding `v`: the variant whose pattern is `v`, or an error when
    /// there is none.
    pub open spec fn decoded(v: nat, r: Result<SleepMode, TryIntoSleepModeError>) -> bool {
        match SleepMode::decode(v) {
            Some(a) => r matches Ok(b) && b == a,
            None => r is Err,
        }
    }

    /// The variant whose bit pattern is `v`, or an error when no variant has that pattern.
    pub fn try_from_bits(v: u32) -> (r: Result<SleepMode, TryIntoSleepModeError>)
        ensures
            SleepMode::decoded(v as nat, r),
    {
        if v == 0 {
            Ok(SleepMode::Sleep)
        } else if v == 1 {
            Ok(SleepMode::DeepSleep)
        } else {
            Err(TryIntoSleepModeError(()))
        }
    }

    /// The bit pattern that stands for the variant.
    pub fn bits(self) -> (r: u32)
        ensures
            r == self.spec_bits(),
    {
        match self {
            SleepMode::Sleep => 0,
            SleepMode::DeepSleep => 1,
        }
    }
}

impl core::convert::TryFrom<u32> for SleepMode {
    type Error = TryIntoSleepModeError;

    fn try_from(v: u32) -> (r: Result<SleepMode, TryIntoSleepModeError>) {
        match SleepMode::try_from_bits(v) {
            Ok(a) => Ok(a),
            Err(_) => Err(TryIntoSleepModeError(())),
        }
    }
}

impl vstd::std_specs::convert::TryFromSpecImpl<u32> for SleepMode {
    open spec fn obeys_try_from_spec() -> bool {
        true
    }

    closed spec fn try_from_spec(v: u32) -> Result<SleepMode, TryIntoSleepModeError> {
        match SleepMode::decode(v as nat) {
            Some(a) => Ok(a),
            None => Err(TryIntoSleepModeError(())),
        }
    }
}

impl core::convert::From<SleepMode> for u32 {
    fn from(v: SleepMode) -> (r: u32) {
        v.bits()
    }
}

impl vstd::std_specs::convert::FromSpecImpl<SleepMode> for u32 {
    open spec fn obeys_from_spec() -> bool {
        true
    }

    open spec fn from_spec(v: SleepMode) -> u32 {
        v.spec_bits()
    }
}

/// What `TryFrom::try_from` returns is the decoding of `v`: the variant whose bit pattern is
/// `v`, or an error when no variant has that pattern.
pub proof fn lemma_sleep_mode_try_from_decodes(v: u32)
    ensures
        SleepMode::decoded(
            v as nat,
            <SleepMode as vstd::std_specs::convert::TryFromSpec<u32>>::try_from_spec(v),
        ),
{
}

/// Every variant decodes from its own bit pattern, the one that `From` gives.
pub proof fn lemma_sleep_mode_bits_round_trip(a: SleepMode)
    ensures
        SleepMode::decode(a.spec_bits() as nat) == Some(a),
        <u32 as vstd::std_specs::convert::FromSpec<SleepMode>>::from_spec(a) == a.spec_bits(),
{
}

/// System Control Register
#[derive(Clone, Copy)]
pub struct SCRegister(pub u32);

impl SCRegister {
    /// The declared fields as `(msb, lsb)`, in declaration order.
    pub open spec fn spec_fields() -> Seq<(nat, nat)> {
        seq![(1, 1), (2, 2), (4, 4)]
    }

    /// The declared fields, in declaration order.
    pub fn fields() -> (r: Vec<Field>)
        ensures
            r@.len() == Self::spec_fields().len(),
            forall|i: int|
                0 <= i < r@.len() ==> r@[i].spec_msb() == Self::spec_fields()[i].0
                    && r@[i].spec_lsb() == Self::spec_fields()[i].1 && r@[i].wf(),
    {
        let mut v: Vec<Field> = Vec::new();
        v.push(Field::new(1, 1));
        v.push(Field::new(2, 2));
        v.push(Field::new(4, 4));
        v
    }

    /// The field at bit 1.
    pub fn sleep_on_exit(&self) -> (r: bool)
        ensures
            r == bit_of(self.0 as nat, 1),
    {
        read_bit(self.0, 1)
    }

    /// The field at bit 2.
    pub fn sleep_mode(&self) -> (r: Result<SleepMode, TryIntoSleepModeError>)
        ensures
            SleepMode::decoded(field_value(self.0 as nat, 2, 1), r),
    {
        SleepMode::try_from_bits(read_bits(self.0, 2, 2))
    }

    /// Writes bit 2; the other bits are kept.
    pub fn set_sleep_mode(&mut self, v: SleepMode)
        ensures
            final(self).0 as nat == with_field(old(self).0 as nat, 2, 1, v.spec_bits() as nat),
    {
        self.0 = write_bits(self.0, 2, 2, v.bits());
    }

    /// The field at bit 4.
    pub fn event_sent_on_pending_bit(&self) -> (r: bool)
        ensures
            r == bit_of(self.0 as nat, 4),
    {
        read_bit(self.0, 4)
    }

    /// Writes bit 4; the other bits are kept.
    pub fn send_event_on_pending_bit(&mut self, v: bool)
        ensures
            final(self).0 as nat == with_field(old(self).0 as nat, 4, 1, bit_value(v)),
    {
        self.0 = write_bit(self.0, 4, v);
    }
}

/// A sleep mode written to its field reads back as the same mode, whatever the rest of the
/// register held.
pub proof fn lemma_sleep_mode_round_trip(w: u32, m: SleepMode)
    ensures
        SleepMode::decode(field_value(with_field(w as nat, 2, 1, m.spec_bits() as nat), 2, 1))
            == Some(m),
{
    lemma2_to64();
    lemma_read_back(w, 2, 1, m.spec_bits());
}

/// Decoding never makes up a mode: a pattern decodes only to the mode whose pattern it is.
pub proof fn lemma_sleep_mode_decode_exact(v: nat)
    ensures
        SleepMode::decode(v) matches Some(m) ==> m.spec_bits() == v,
        SleepMode::decode(2) is None,
{
}

/// Configuration and Control Register
#[derive(Clone, Copy)]
pub struct CCRegister(pub u32);

/// MemManage Fault Status Register
#[derive(Clone, Copy)]
pub struct MMSRegister(pub u8);

impl MMSRegister {
    /// The declared fields as `(msb, lsb)`, in declaration order.
    pub open spec fn spec_fields() -> Seq<(nat, nat)> {
        seq![(7, 7), (4, 4), (3, 3), (1, 1), (0, 0)]
    }

    /// The declared fields, in declaration order.
    pub fn fields() -> (r: Vec<Field>)
        ensures
            r@.len() == Self::spec_fields().len(),
            forall|i: int|
                0 <= i < r@.len() ==> r@[i].spec_msb() == Self::spec_fields()[i].0
                    && r@[i].spec_lsb() == Self::spec_fields()[i].1 && r@[i].wf(),
    {
        let mut v: Vec<Field> = Vec::new();
        v.push(Field::new(7, 7));
        v.push(Field::new(4, 4));
        v.push(Field::new(3, 3));
        v.push(Field::new(1, 1));
        v.push(Field::new(0, 0));
        v
    }

    /// The field at bit 7.
    pub fn is_valid(&self) -> (r: bool)
        ensures
            r == bit_of(self.0 as nat, 7),
    {
        read_bit(self.0 as u32, 7)
    }

    /// The field at bit 4.
    pub fn fault_on_stacking_for_exception_entry(&self) -> (r: bool)
        ensures
            r == bit_of(self.0 as nat, 4),
    {
        read_bit(self.0 as u32, 4)
    }

    /// The field at bit 3.
    pub fn fault_on_unstacking_for_a_return_from_exception(&self) -> (r: bool)
        ensures
            r == bit_of(self.0 as nat, 3),
    {
        read_bit(self.0 as u32, 3)
    }

    /// The field at bit 1.
    pub fn data_access_violation(&self) -> (r: bool)
        ensures
            r == bit_of(self.0 as nat, 1),
    {
        read_bit(self.0 as u32, 1)
    }

    /// The field at bit 0.
    pub fn instruction_access_violation(&self) -> (r: bool)
        ensures
            r == bit_of(self.0 as nat, 0),
    {
        read_bit(self.0 as u32, 0)
    }
}

impl core::convert::TryFrom<u32> for MMSRegister {
    type Error = core::num::TryFromIntError;

    /// The register whose word is `v`, or an error when `v` does not fit in 8 bits.
    fn try_from(v: u32) -> (r: Result<MMSRegister, core::num::TryFromIntError>) {
        match u8::try_from(v) {
            Ok(w) => Ok(MMSRegister(w)),
            Err(e) => Err(e),
        }
    }
}

impl vstd::std_specs::convert::TryFromSpecImpl<u32> for MMSRegister {
    open spec fn obeys_try_from_spec() -> bool {
        true
    }

    open spec fn try_from_spec(v: u32) -> Result<MMSRegister, core::num::TryFromIntError> {
        match <u8 as vstd::std_specs::convert::TryFromSpec<u32>>::try_from_spec(v) {
            Ok(w) => Ok(MMSRegister(w)),
            Err(e) => Err(e),
        }
    }
}

/// `MMSRegister::try_from(v)` succeeds exactly when `v` fits in 8 bits, with `v` as the word.
pub proof fn lemma_mmsr_try_from(v: u32)
    ensures
        v <= 0xff ==> (<MMSRegister as vstd::std_specs::convert::TryFromSpec<u32>>::try_from_spec(v)
            matches Ok(m) && m.0 == v),
        v > 0xff ==> <MMSRegister as vstd::std_specs::convert::TryFromSpec<u32>>::try_from_spec(
            v,
        ) is Err,
{
}

/// Configurable Fault Status Register
#[derive(Clone, Copy)]
pub struct CFSRegister(pub u32);

impl CFSRegister {
    /// The MemManage fault status, bits 7 to 0.
    pub fn get_mmsr(&self) -> (r: MMSRegister)
        ensures
            r.0 as nat == field_value(self.0 as nat, 0, 8),
    {
        MMSRegister(read_bits_u8(self.0, 7, 0))
    }
}

/// System Handler Priority Register 1
#[derive(Clone, Copy)]
pub struct SHPRegister1(pub u32);

impl SHPRegister1 {
    /// The declared fields as `(msb, lsb)`, in declaration order.
    pub open spec fn spec_fields() -> Seq<(nat, nat)> {
        seq![(7, 0), (15, 8), (23, 16)]
    }

    /// The declared fields, in declaration order.
    pub fn fields() -> (r: Vec<Field>)
        ensures
            r@.len() == Self::spec_fields().len(),
            forall|i: int|
                0 <= i < r@.len() ==> r@[i].spec_msb() == Self::spec_fields()[i].0
                    && r@[i].spec_lsb() == Self::spec_fields()[i].1 && r@[i].wf(),
    {
        let mut v: Vec<Field> = Vec::new();
        v.push(Field::new(7, 0));
        v.push(Field::new(15, 8));
        v.push(Field::new(23, 16));
        v
    }

    /// The field at bits 7 to 0.
    pub fn memfault_priority(&self) -> (r: u8)
        ensures
            r as nat == field_value(self.0 as nat, 0, 8),
    {
        read_bits_u8(self.0, 7, 0)
    }

    /// Writes bits 7 to 0; the other bits are kept.
    pub fn set_memfault_priority(&mut self, v: u8)
        ensures
            final(self).0 as nat == with_field(old(self).0 as nat, 0, 8, v as nat),
    {
        self.0 = write_bits(self.0, 7, 0, v as u32);
    }

    /// The field at bits 15 to 8.
    pub fn busfault_priority(&self) -> (r: u8)
        ensures
            r as nat == field_value(self.0 as nat, 8, 8),
    {
        read_bits_u8(self.0, 15, 8)
    }

    /// Writes bits 15 to 8; the other bits are kept.
    pub fn set_busfault_priority(&mut self, v: u8)
        ensures
            final(self).0 as nat == with_field(old(self).0 as nat, 8, 8, v as nat),
    {
        self.0 = write_bits(self.0, 15, 8, v as u32);
    }

    /// The field at bits 23 to 16.
    pub fn usgfault_priority(&self) -> (r: u8)
        ensures
            r as nat == field_value(self.0 as nat, 16, 8),
    {
        read_bits_u8(self.0, 23, 16)
    }

    /// Writes bits 23 to 16; the other bits are kept.
    pub fn set_usgfault_priority(&mut self, v: u8)
        ensures
            final(self).0 as nat == with_field(old(self).0 as nat, 16, 8, v as nat),
    {
        self.0 = write_bits(self.0, 23, 16, v as u32);
    }
}

/// System Handler Priority Register 2
#[derive(Clone, Copy)]
pub struct SHPRegister2(pub u32);

impl SHPRegister2 {
    /// The declared fields as `(msb, lsb)`, in declaration order.
    pub open spec fn spec_fields() -> Seq<(nat, nat)> {
        seq![(31, 24)]
    }

    /// The declared fields, in declaration order.
    pub fn fields() -> (r: Vec<Field>)
        ensures
            r@.len() == Self::spec_fields().len(),
            forall|i: int|
                0 <= i < r@.len() ==> r@[i].spec_msb() == Self::spec_fields()[i].0
                    && r@[i].spec_lsb() == Self::spec_fields()[i].1 && r@[i].wf(),
    {
        let mut v: Vec<Field> = Vec::new();
        v.push(Field::new(31, 24));
        v
    }

    /// The field at bits 31 to 24.
    pub fn svcall_priority(&self) -> (r: u8)
        ensures
            r as nat == field_value(self.0 as nat, 24, 8),
    {
        read_bits_u8(self.0, 31, 24)
    }

    /// Writes bits 31 to 24; the other bits are kept.
    pub fn set_svcall_priority(&mut self, v: u8)
        ensures
            final(self).0 as nat == with_field(old(self).0 as nat, 24, 8, v as nat),
    {
        self.0 = write_bits(self.0, 31, 24, v as u32);
    }
}

/// System Handler Priority Register 3
#[derive(Clone, Copy)]
pub struct SHPRegister3(pub u32);

impl SHPRegister3 {
    /// The declared fields as `(msb, lsb)`, in declaration order.
    pub open spec fn spec_fields() -> Seq<(nat, nat)> {
        seq![(31, 24), (23, 16)]
    }

    /// The declared fields, in declaration order.
    pub fn fields() -> (r: Vec<Field>)
        ensures
            r@.len() == Self::spec_fields().len(),
            forall|i: int|
                0 <= i < r@.len() ==> r@[i].spec_msb() == Self::spec_fields()[i].0
                    && r@[i].spec_lsb() == Self::spec_fields()[i].1 && r@[i].wf(),
    {
        let mut v: Vec<Field> = Vec::new();
        v.push(Field::new(31, 24));
        v.push(Field::new(23, 16));
        v
    }

    /// The field at bits 31 to 24.
    pub fn systick_priority(&self) -> (r: u8)
        ensures
            r as nat == field_value(self.0 as nat, 24, 8),
    {
        read_bits_u8(self.0, 31, 24)
    }

    /// Writes bits 31 to 24; the other bits are kept.
    pub fn set_systick_priority(&mut self, v: u8)
        ensures
            final(self).0 as nat == with_field(old(self).0 as nat, 24, 8, v as nat),
    {
        self.0 = write_bits(self.0, 31, 24, v as u32);
    }

    /// The field at bits 23 to 16.
    pub fn pendsv_priority(&self) -> (r: u8)
        ensures
            r as nat == field_value(self.0 as nat, 16, 8),
    {
        read_bits_u8(self.0, 23, 16)
    }

    /// Writes bits 23 to 16; the other bits are kept.
    pub fn set_pendsv_priority(&mut self, v: u8)
        ensures
            final(self).0 as nat == with_field(old(self).0 as nat, 16, 8, v as nat),
    {
        self.0 = write_bits(self.0, 23, 16, v as u32);
    }
}

/// System Handler Control and State Register
#[derive(Clone, Copy)]
pub struct SHCSRegister(pub u32);

impl SHCSRegister {
    /// The declared fields as `(msb, lsb)`, in declaration order.
    pub open spec fn spec_fields() -> Seq<(nat, nat)> {
        seq![(0, 0), (1, 1), (3, 3), (7, 7), (8, 8), (10, 10), (11, 11), (12, 12), (13, 13), (14, 14), (15, 15), (16, 16), (17, 17), (18, 18)]
    }

    /// The declared fields, in declaration order.
    pub fn fields() -> (r: Vec<Field>)
        ensures
            r@.len() == Self::spec_fields().len(),
            forall|i: int|
                0 <= i < r@.len() ==> r@[i].spec_msb() == Self::spec_fields()[i].0
                    && r@[i].spec_lsb() == Self::spec_fields()[i].1 && r@[i].wf(),
    {
        let mut v: Vec<Field> = Vec::new();
        v.push(Field::new(0, 0));
        v.push(Field::new(1, 1));
        v.push(Field::new(3, 3));
        v.push(Field::new(7, 7));
        v.push(Field::new(8, 8));
        v.push(Field::new(10, 10));
        v.push(Field::new(11, 11));
        v.push(Field::new(12, 12));
        v.push(Field::new(13, 13));
        v.push(Field::new(14, 14));
        v.push(Field::new(15, 15));
        v.push(Field::new(16, 16));
        v.push(Field::new(17, 17));
        v.push(Field::new(18, 18));
        v
    }

    /// The field at bit 0.
    pub fn memfault_active(&self) -> (r: bool)
        ensures
            r == bit_of(self.0 as nat, 0),
    {
        read_bit(self.0, 0)
    }

    /// The field at bit 1.
    pub fn busfault_active(&self) -> (r: bool)
        ensures
            r == bit_of(self.0 as nat, 1),
    {
        read_bit(self.0, 1)
    }

    /// The field at bit 3.
    pub fn usagefault_active(&self) -> (r: bool)
        ensures
            r == bit_of(self.0 as nat, 3),
    {
        read_bit(self.0, 3)
    }

    /// The field at bit 7.
    pub fn svcall_active(&self) -> (r: bool)
        ensures
            r == bit_of(self.0 as nat, 7),
    {
        read_bit(self.0, 7)
    }

    /// The field at bit 8.
    pub fn monitor_active(&self) -> (r: bool)
        ensures
            r == bit_of(self.0 as nat, 8),
    {
        read_bit(self.0, 8)
    }

    /// The field at bit 10.
    pub fn pendsv_active(&self) -> (r: bool)
        ensures
            r == bit_of(self.0 as nat, 10),
    {
        read_bit(self.0, 10)
    }

    /// The field at bit 11.
    pub fn systick_active(&self) -> (r: bool)
        ensures
            r == bit_of(self.0 as nat, 11),
    {
        read_bit(self.0, 11)
    }

    /// The field at bit 12.
    pub fn usagefault_pended(&self) -> (r: bool)
        ensures
            r == bit_of(self.0 as nat, 12),
    {
        read_bit(self.0, 12)
    }

    /// The field at bit 13.
    pub fn memfault_pended(&self) -> (r: bool)
        ensures
            r == bit_of(self.0 as nat, 13),
    {
        read_bit(self.0, 13)
    }

    /// The field at bit 14.
    pub fn busfault_pended(&self) -> (r: bool)
        ensures
            r == bit_of(self.0 as nat, 14),
    {
        read_bit(self.0, 14)
    }

    /// The field at bit 15.
    pub fn svcall_pended(&self) -> (r: bool)
        ensures
            r == bit_of(self.0 as nat, 15),
    {
        read_bit(self.0, 15)
    }

    /// The field at bit 16.
    pub fn memfault_enabled(&self) -> (r: bool)
        ensures
            r == bit_of(self.0 as nat, 16),
    {
        read_bit(self.0, 16)
    }

    /// Writes bit 16; the other bits are kept.
    pub fn enable_memfault(&mut self, v: bool)
        ensures
            final(self).0 as nat == with_field(old(self).0 as nat, 16, 1, bit_value(v)),
    {
        self.0 = write_bit(self.0, 16, v);
    }

    /// The field at bit 17.
    pub fn busfault_enabled(&self) -> (r: bool)
        ensures
            r == bit_of(self.0 as nat, 17),
    {
        read_bit(self.0, 17)
    }

    /// Writes bit 17; the other bits are kept.
    pub fn enable_busfault(&mut self, v: bool)
        ensures
            final(self).0 as nat == with_field(old(self).0 as nat, 17, 1, bit_value(v)),
    {
        self.0 = write_bit(self.0, 17, v);
    }

    /// The field at bit 18.
    pub fn usgfault_enabled(&self) -> (r: bool)
        ensures
            r == bit_of(self.0 as nat, 18),
    {
        read_bit(self.0, 18)
    }

    /// Writes bit 18; the other bits are kept.
    pub fn enable_usgfault(&mut self, v: bool)
        ensures
            final(self).0 as nat == with_field(old(self).0 as nat, 18, 1, bit_value(v)),
    {
        self.0 = write_bit(self.0, 18, v);
    }
}

/// HardFault Status Register
#[derive(Clone, Copy)]
pub struct HFSRegister(pub u32);

impl HFSRegister {
    /// The declared fields as `(msb, lsb)`, in declaration order.
    pub open spec fn spec_fields() -> Seq<(nat, nat)> {
        seq![(30, 30), (1, 1)]
    }

    /// The declared fields, in declaration order.
    pub fn fields() -> (r: Vec<Field>)
        ensures
            r@.len() == Self::spec_fields().len(),
            forall|i: int|
                0 <= i < r@.len() ==> r@[i].spec_msb() == Self::spec_fields()[i].0
                    && r@[i].spec_lsb() == Self::spec_fields()[i].1 && r@[i].wf(),
    {
        let mut v: Vec<Field> = Vec::new();
        v.push(Field::new(30, 30));
        v.push(Field::new(1, 1));
        v
    }

    /// A forced hard fault: a fault of configurable priority escalated because its priority or
    /// its disabled state kept it from being handled. The handler must then read the other
    /// fault status registers to find the cause.
    pub fn forced(&self) -> (r: bool)
        ensures
            r == bit_of(self.0 as nat, 30),
    {
        read_bit(self.0, 30)
    }

    /// A BusFault on a vector table read during exception processing, always handled by the
    /// hard fault handler. The stacked PC then points to the instruction that the exception
    /// preempted.
    pub fn vector_table(&self) -> (r: bool)
        ensures
            r == bit_of(self.0 as nat, 1),
    {
        read_bit(self.0, 1)
    }
}

impl HFSRegister {
    /// Clears the FORCED bit, bit 30, which is cleared by writing 1 to it.
    pub fn clear_forced_bit(&mut self)
        ensures
            final(self).0 as nat == with_field(old(self).0 as nat, 30, 1, 1),
    {
        self.0 = write_bit(self.0, 30, true);
    }

    /// Clears the VECTTBL bit, bit 1, which is cleared by writing 1 to it.
    pub fn clear_vector_table_bit(&mut self)
        ensures
            final(self).0 as nat == with_field(old(self).0 as nat, 1, 1, 1),
    {
        self.0 = write_bit(self.0, 1, true);
    }
}

/// System Control Block.
pub struct SystemControlBlock {
    pub cpuid: RoRegisterCell<CPUIDRegister>,
    pub icsr: RegisterCell<ICSRRegister>,
    pub vtor: RegisterCell<VectorTableOffsetRegister>,
    /// Application Interrupt and Reset Control Register
    pub aircr: RegisterCell<AIRCRegister>,
    pub scr: RegisterCell<SCRegister>,
    pub ccr: RegisterCell<CCRegister>,
    pub shp1: RegisterCell<SHPRegister1>,
    pub shp2: RegisterCell<SHPRegister2>,
    pub shp3: RegisterCell<SHPRegister3>,
    pub shcsr: RegisterCell<SHCSRegister>,
    pub cfsr: RoRegisterCell<CFSRegister>,
    pub hfsr: RegisterCell<HFSRegister>,
    reserved1: ReservedCell<u32>,
    pub mmar: RoRegisterCell<u32>,
    pub bfar: RoRegisterCell<u32>,
    /// Auxiliary Fault Status Register, implementation defined.
    pub afsr: RegisterCell<u32>,
}

/// Feature registers.
pub struct FeatureRegisters {
    /// Processor Feature Registers
    pub pfr: [RoRegisterCell<u32>; 2],
    /// Debug Feature Register
    pub dfr: RoRegisterCell<u32>,
    /// Auxiliary Feature Register
    pub adr: RoRegisterCell<u32>,
    /// Memory Model Feature Registers
    pub mmfr: [RoRegisterCell<u32>; 4],
    /// Instruction Set Attribute Registers
    pub isar: [RoRegisterCell<u32>; 5],
}

} // verus!
