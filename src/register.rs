//! Bit fields of a register word, the masks derived from them, and the
//! extract / insert primitives built on top.
use vstd::arithmetic::div_mod::{lemma_basic_div, lemma_fundamental_div_mod, lemma_mod_breakdown};
use vstd::arithmetic::power2::{lemma2_to64, lemma_pow2_adds, lemma_pow2_pos, pow2};
use vstd::bits::{lemma_u32_low_bits_mask_is_mod, lemma_u32_shr_is_div, low_bits_mask};
use vstd::prelude::*;

verus! {

/// The value of the `width`-bit field of `w` whose lowest bit is bit `lsb`.
pub open spec fn field_value(w: nat, lsb: nat, width: nat) -> nat {
    (w / pow2(lsb)) % pow2(width)
}

/// Whether bit `i` of `w` is set.
pub open spec fn bit_of(w: nat, i: nat) -> bool {
    field_value(w, i, 1) == 1
}

/// The number that a bit stands for: 1 when set, 0 when clear.
pub open spec fn bit_value(b: bool) -> nat {
    if b {
        1
    } else {
        0
    }
}

/// `w` with its `width`-bit field at `lsb` replaced by the low `width` bits of `v`:
/// the bits above the field and the bits below it are those of `w`.
pub open spec fn with_field(w: nat, lsb: nat, width: nat, v: nat) -> nat {
    (w / pow2(lsb + width)) * pow2(lsb + width) + (v % pow2(width)) * pow2(lsb) + w % pow2(lsb)
}

/// A bit range `msb..=lsb` of a register word.
pub struct Field {
    msb: usize,
    lsb: usize,
}

impl Field {
    /// Index of the most significant bit of the field.
    pub closed spec fn spec_msb(&self) -> nat {
        self.msb as nat
    }

    /// Index of the least significant bit of the field.
    pub closed spec fn spec_lsb(&self) -> nat {
        self.lsb as nat
    }

    /// Number of bits in the field.
    pub open spec fn spec_width(&self) -> nat {
        (self.spec_msb() - self.spec_lsb() + 1) as nat
    }

    /// A field lies within a 64-bit word and its most significant bit is not below its least
    /// significant one.
    pub open spec fn wf(&self) -> bool {
        self.spec_lsb() <= self.spec_msb() < 64
    }

    /// The field fits in a word of `bits` bits.
    pub open spec fn fits(&self, bits: nat) -> bool {
        self.wf() && self.spec_msb() < bits
    }

    /// The field of bits `msb` down to `lsb`, both included.
    pub fn new(msb: usize, lsb: usize) -> (r: Field)
        requires
            lsb <= msb < 64,
        ensures
            r.spec_msb() == msb,
            r.spec_lsb() == lsb,
            r.wf(),
    {
        Field { msb, lsb }
    }

    /// Index of the least significant bit of the field.
    pub fn lsb(&self) -> (r: usize)
        ensures
            r == self.spec_lsb(),
    {
        self.lsb
    }

    /// Number of bits in the field.
    pub fn width(&self) -> (r: usize)
        requires
            self.wf(),
        ensures
            r == self.spec_width(),
    {
        self.msb - self.lsb + 1
    }

    /// The mask of the field's width in the word type `T`: exactly the `width` low-order bits
    /// are set.
    pub fn mask<T: Word>(&self) -> (r: T)
        requires
            self.wf(),
            self.spec_width() <= T::nbits(),
        ensures
            r.to_nat() == low_bits_mask(self.spec_width()),
    {
        T::low_ones(self.width())
    }
}

/// An unsigned integer type that can hold a register word.
pub trait Word: Copy + Sized {
    /// Number of bits in the word.
    spec fn nbits() -> nat;

    /// The value of the word as a natural number.
    spec fn to_nat(self) -> nat;

    /// The word whose `width` low-order bits are set and whose other bits are clear.
    fn low_ones(width: usize) -> (r: Self)
        requires
            1 <= width <= Self::nbits(),
        ensures
            r.to_nat() == low_bits_mask(width as nat),
    ;
}

impl Word for u32 {
    open spec fn nbits() -> nat {
        32
    }

    open spec fn to_nat(self) -> nat {
        self as nat
    }

    fn low_ones(width: usize) -> (r: u32) {
        let w: u32 = width as u32;
        let r: u32 = 0xffff_ffffu32 >> (32 - w);
        proof {
            lemma_low_ones_u32(w);
        }
        r
    }
}

impl Word for u8 {
    open spec fn nbits() -> nat {
        8
    }

    open spec fn to_nat(self) -> nat {
        self as nat
    }

    fn low_ones(width: usize) -> (r: u8) {
        let w: u8 = width as u8;
        let r: u8 = 0xffu8 >> (8 - w);
        proof {
            let s: u64 = w as u64;
            assert(0xffu8 >> ((8 - w) as u8) == ((1u64 << s) - 1) as u8 && 1 <= 1u64 << s <= 0x100)
                by (bit_vector)
                requires
                    1 <= w <= 8,
                    s == w,
            ;
            lemma_pow2_of_shift(s);
        }
        r
    }
}

impl Word for u16 {
    open spec fn nbits() -> nat {
        16
    }

    open spec fn to_nat(self) -> nat {
        self as nat
    }

    fn low_ones(width: usize) -> (r: u16) {
        let w: u16 = width as u16;
        let r: u16 = 0xffffu16 >> (16 - w);
        proof {
            let s: u64 = w as u64;
            assert(0xffffu16 >> ((16 - w) as u16) == ((1u64 << s) - 1) as u16 && 1 <= 1u64 << s
                <= 0x1_0000) by (bit_vector)
                requires
                    1 <= w <= 16,
                    s == w,
            ;
            lemma_pow2_of_shift(s);
        }
        r
    }
}

/// `1 << s` is `2^s` for shifts that stay within 64 bits.
proof fn lemma_pow2_of_shift(s: u64)
    requires
        s < 64,
    ensures
        (1u64 << s) as nat == pow2(s as nat),
        low_bits_mask(s as nat) == pow2(s as nat) - 1,
{
    vstd::bits::lemma_u64_pow2_no_overflow(s as nat);
    vstd::bits::lemma_u64_shl_is_mul(1, s);
    lemma_pow2_pos(s as nat);
}

/// The mask of `w` low-order ones in a 32-bit word is all ones shifted right by `32 - w`.
pub proof fn lemma_low_ones_u32(w: u32)
    requires
        w <= 32,
    ensures
        (0xffff_ffffu32 >> ((32 - w) as u32)) as nat == low_bits_mask(w as nat),
{
    let s: u64 = w as u64;
    assert(0xffff_ffffu32 >> ((32 - w) as u32) == ((1u64 << s) - 1) as u32) by (bit_vector)
        requires
            w <= 32,
            s == w,
    ;
    assert(1 <= 1u64 << s <= 0x1_0000_0000) by (bit_vector)
        requires
            s <= 32,
    ;
    lemma_pow2_of_shift(s);
}


/// The `width` low-order bits of a 32-bit word, for `width <= 32`.
spec fn ones32(width: u32) -> u32 {
    0xffff_ffffu32 >> ((32 - width) as u32)
}

/// The field of `w` at `lsb`, `width` bits wide, replaced by the low bits of `v`.
spec fn insert_bits(w: u32, v: u32, lsb: u32, width: u32) -> u32 {
    (w & !(ones32(width) << lsb)) | ((v & ones32(width)) << lsb)
}

proof fn lemma_insert_bits(w: u32, v: u32, lsb: u32, width: u32)
    by (bit_vector)
    requires
        1 <= width,
        lsb + width <= 32,
    ensures
        insert_bits(w, v, lsb, width) & ones32(lsb) == w & ones32(lsb),
        (insert_bits(w, v, lsb, width) >> lsb) & ones32(width) == v & ones32(width),
        lsb + width < 32 ==> insert_bits(w, v, lsb, width) >> ((lsb + width) as u32) == w >> ((
        lsb + width) as u32),
{
}

/// Masking with the `width` low-order ones keeps the value of the low `width` bits.
proof fn lemma_and_ones(x: u32, width: u32)
    requires
        width <= 32,
    ensures
        (x & ones32(width)) as nat == field_value(x as nat, 0, width as nat),
{
    lemma_low_ones_u32(width);
    lemma2_to64();
    if width < 32 {
        lemma_u32_low_bits_mask_is_mod(x, width as nat);
        vstd::bits::lemma_u32_pow2_no_overflow(width as nat);
    } else {
        assert(x & 0xffff_ffffu32 == x) by (bit_vector);
    }
}

/// Shifting right by `lsb` then masking reads the field at `lsb`.
proof fn lemma_extract_bits(x: u32, lsb: u32, width: u32)
    requires
        lsb < 32,
        width <= 32,
    ensures
        ((x >> lsb) & ones32(width)) as nat == field_value(x as nat, lsb as nat, width as nat),
{
    lemma_u32_shr_is_div(x, lsb);
    lemma_and_ones(x >> lsb, width);
    lemma2_to64();
}

/// The bit formula of an insert computes `with_field`.
proof fn lemma_insert_value(w: u32, v: u32, lsb: u32, width: u32)
    requires
        1 <= width,
        lsb + width <= 32,
    ensures
        insert_bits(w, v, lsb, width) as nat == with_field(
            w as nat,
            lsb as nat,
            width as nat,
            v as nat,
        ),
        field_value(insert_bits(w, v, lsb, width) as nat, lsb as nat, width as nat) == field_value(
            v as nat,
            0,
            width as nat,
        ),
{
    let r = insert_bits(w, v, lsb, width);
    let l = lsb as nat;
    let n = width as nat;
    lemma_insert_bits(w, v, lsb, width);
    lemma_and_ones(r, lsb);
    lemma_and_ones(w, lsb);
    lemma_extract_bits(r, lsb, width);
    lemma_and_ones(v, width);
    lemma2_to64();
    lemma_pow2_pos(l);
    lemma_pow2_pos(n);
    lemma_pow2_adds(l, n);
    // the bits above the field
    if lsb + width < 32 {
        lemma_u32_shr_is_div(r, (lsb + width) as u32);
        lemma_u32_shr_is_div(w, (lsb + width) as u32);
    } else {
        assert(l + n == 32);
        lemma_basic_div(r as int, pow2(l + n) as int);
        lemma_basic_div(w as int, pow2(l + n) as int);
    }
    assert(r as nat / pow2(l + n) == w as nat / pow2(l + n));
    // r splits into its bits above the field, the field and the bits below it
    lemma_fundamental_div_mod(r as int, pow2(l + n) as int);
    lemma_mod_breakdown(r as int, pow2(l) as int, pow2(n) as int);
    assert(r as nat % pow2(l) == w as nat % pow2(l));
    assert((r as nat / pow2(l)) % pow2(n) == v as nat % pow2(n));
}

/// For every field that fits a 32-bit word, writing `v` into the field and reading the field
/// back gives `v` masked with the field's mask.
pub proof fn lemma_extract_of_insert(w: u32, f: Field, v: u32)
    requires
        f.fits(32),
    ensures
        field_value(
            with_field(w as nat, f.spec_lsb(), f.spec_width(), v as nat),
            f.spec_lsb(),
            f.spec_width(),
        ) == (v & (low_bits_mask(f.spec_width()) as u32)) as nat,
{
    let width = f.spec_width() as u32;
    lemma_insert_value(w, v, f.spec_lsb() as u32, width);
    lemma_low_ones_u32(width);
    lemma_and_ones(v, width);
}

/// The value of the field `f` of `w`.
pub fn extract(w: u32, f: &Field) -> (r: u32)
    requires
        f.fits(32),
    ensures
        r as nat == field_value(w as nat, f.spec_lsb(), f.spec_width()),
{
    let m: u32 = f.mask::<u32>();
    let l: u32 = f.lsb() as u32;
    proof {
        lemma_low_ones_u32(f.spec_width() as u32);
        lemma_extract_bits(w, l, f.spec_width() as u32);
    }
    (w >> l) & m
}

/// `w` with the field `f` set to the low bits of `v`; the other bits of `w` are kept.
pub fn insert(w: u32, f: &Field, v: u32) -> (r: u32)
    requires
        f.fits(32),
    ensures
        r as nat == with_field(w as nat, f.spec_lsb(), f.spec_width(), v as nat),
{
    let m: u32 = f.mask::<u32>();
    let l: u32 = f.lsb() as u32;
    proof {
        lemma_low_ones_u32(f.spec_width() as u32);
        lemma_insert_value(w, v, l, f.spec_width() as u32);
    }
    (w & !(m << l)) | ((v & m) << l)
}

/// A one-bit field is either 0 or 1.
proof fn lemma_one_bit(w: nat, i: nat)
    ensures
        field_value(w, i, 1) == 0 || field_value(w, i, 1) == 1,
{
    lemma2_to64();
}

/// Bits `msb` down to `lsb` of `w`.
pub fn read_bits(w: u32, msb: usize, lsb: usize) -> (r: u32)
    requires
        lsb <= msb < 32,
    ensures
        r as nat == field_value(w as nat, lsb as nat, (msb - lsb + 1) as nat),
{
    extract(w, &Field::new(msb, lsb))
}

/// `w` with bits `msb` down to `lsb` set to the low bits of `v`.
pub fn write_bits(w: u32, msb: usize, lsb: usize, v: u32) -> (r: u32)
    requires
        lsb <= msb < 32,
    ensures
        r as nat == with_field(w as nat, lsb as nat, (msb - lsb + 1) as nat, v as nat),
{
    insert(w, &Field::new(msb, lsb), v)
}

/// Whether bit `i` of `w` is set.
pub fn read_bit(w: u32, i: usize) -> (r: bool)
    requires
        i < 32,
    ensures
        r == bit_of(w as nat, i as nat),
{
    proof {
        lemma_one_bit(w as nat, i as nat);
    }
    read_bits(w, i, i) != 0
}

/// `w` with bit `i` set when `b` holds and cleared otherwise.
pub fn write_bit(w: u32, i: usize, b: bool) -> (r: u32)
    requires
        i < 32,
    ensures
        r as nat == with_field(w as nat, i as nat, 1, bit_value(b)),
{
    write_bits(
        w,
        i,
        i,
        if b {
            1
        } else {
            0
        },
    )
}

/// Bits `msb` down to `lsb` of `w`, for a field of at most 8 bits.
pub fn read_bits_u8(w: u32, msb: usize, lsb: usize) -> (r: u8)
    requires
        lsb <= msb < 32,
        msb - lsb < 8,
    ensures
        r as nat == field_value(w as nat, lsb as nat, (msb - lsb + 1) as nat),
{
    let v = read_bits(w, msb, lsb);
    proof {
        lemma_field_value_bound(w as nat, lsb as nat, (msb - lsb + 1) as nat, 8);
        lemma2_to64();
    }
    v as u8
}

/// Bits `msb` down to `lsb` of `w`, for a field of at most 16 bits.
pub fn read_bits_u16(w: u32, msb: usize, lsb: usize) -> (r: u16)
    requires
        lsb <= msb < 32,
        msb - lsb < 16,
    ensures
        r as nat == field_value(w as nat, lsb as nat, (msb - lsb + 1) as nat),
{
    let v = read_bits(w, msb, lsb);
    proof {
        lemma_field_value_bound(w as nat, lsb as nat, (msb - lsb + 1) as nat, 16);
        lemma2_to64();
    }
    v as u16
}

/// A field of `width` bits holds less than `2^bits` when `width <= bits`.
proof fn lemma_field_value_bound(w: nat, lsb: nat, width: nat, bits: nat)
    requires
        width <= bits,
    ensures
        field_value(w, lsb, width) < pow2(bits),
{
    lemma_pow2_pos(width);
    lemma_pow2_pos(lsb);
    if width < bits {
        vstd::arithmetic::power2::lemma_pow2_strictly_increases(width, bits);
    }
    lemma2_to64();
}

/// A value that fits in `width` bits reads back unchanged from the field it was written to.
pub proof fn lemma_read_back(w: u32, lsb: nat, width: nat, v: u32)
    requires
        1 <= width,
        lsb + width <= 32,
        v < pow2(width),
    ensures
        field_value(with_field(w as nat, lsb, width, v as nat), lsb, width) == v as nat,
{
    lemma_insert_value(w, v, lsb as u32, width as u32);
    lemma_pow2_pos(0);
    lemma2_to64();
    vstd::arithmetic::div_mod::lemma_small_mod(v as nat, pow2(width));
}

/// The bit formula that clears a field with its mask and ors in the masked value computes
/// `with_field`.
pub proof fn lemma_insert_formula(w: u32, v: u32, lsb: u32, width: u32, m: u32)
    requires
        1 <= width,
        lsb + width <= 32,
        m as nat == low_bits_mask(width as nat),
    ensures
        ((w & !(m << lsb)) | ((v & m) << lsb)) as nat == with_field(
            w as nat,
            lsb as nat,
            width as nat,
            v as nat,
        ),
{
    lemma_low_ones_u32(width);
    lemma_insert_value(w, v, lsb, width);
}

/// Shifting right by `lsb` and masking with the mask of `width` low-order ones reads the
/// field of `width` bits at `lsb`.
pub proof fn lemma_extract_formula(x: u32, lsb: u32, width: u32, m: u32)
    requires
        lsb < 32,
        1 <= width <= 32,
        m as nat == low_bits_mask(width as nat),
    ensures
        ((x >> lsb) & m) as nat == field_value(x as nat, lsb as nat, width as nat),
{
    lemma_low_ones_u32(width);
    lemma_extract_bits(x, lsb, width);
}

/// Writing a field that lies below bit `bits` into a word below `2^bits` gives a word below
/// `2^bits`.
pub proof fn lemma_with_field_fits(w: u32, lsb: u32, width: u32, v: u32, bits: u32)
    requires
        1 <= width,
        lsb + width <= bits < 32,
        w < 1u32 << bits,
    ensures
        with_field(w as nat, lsb as nat, width as nat, v as nat) < (1u32 << bits) as nat,
{
    let m = 0xffff_ffffu32 >> ((32 - width) as u32);
    lemma_low_ones_u32(width);
    lemma_insert_formula(w, v, lsb, width, m);
    assert((w & !(m << lsb)) | ((v & m) << lsb) < 1u32 << bits) by (bit_vector)
        requires
            1 <= width,
            lsb + width <= bits < 32,
            w < 1u32 << bits,
            m == 0xffff_ffffu32 >> ((32 - width) as u32),
    ;
}

} // verus!
