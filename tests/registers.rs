use silica::cell::{RegisterCell, RoRegisterCell};
use silica::ppb::ACRegister;
use silica::register::{extract, insert, read_bits, write_bits, Field};
use silica::volatile::VolatileCell;

#[test]
fn it_works() {
    assert_eq!(2 + 2, 4);
}

#[test]
fn test_allow_interruption() {
    let mut actlr = ACRegister(0);
    assert!(!actlr.multiple_cycle_instr_interruptable());
    actlr.allow_interruption_of_multicycle_instr(true);
    assert_eq!(1, actlr.0);
}

#[test]
fn test_volatile_cell() {
    let mut vc = VolatileCell::new(0u32);

    vc.set_bit_range(3, 3, 1);
    assert_eq!(0x08, vc.0);
    vc.set_bit(3, false);
    assert_eq!(0x00, vc.0);
    vc.set_bit(4, true);
    assert_eq!(0x10, vc.0);
}

#[test]
fn volatile_cell_reads_ranges_and_bits() {
    let vc = VolatileCell::new(0xABCD_1234u32);
    assert_eq!(vc.bit_range(15, 8), 0x12);
    assert_eq!(vc.bit_range(31, 0), 0xABCD_1234);
    assert!(vc.bit(2));
    assert!(!vc.bit(0));
    assert_eq!(vc.read(), 0xABCD_1234);
}

#[test]
fn volatile_cell_update_clears_mask_then_sets_value() {
    let mut vc = VolatileCell::new(0xFFFF_0000u32);
    vc.update(0x0000_0012, 0x00FF_00FF);
    assert_eq!(vc.0, 0xFF00_0012);
    vc.write(7);
    assert_eq!(vc.read(), 7);
}

#[test]
fn mask_has_width_low_ones() {
    assert_eq!(Field::new(3, 0).mask::<u32>(), 0xF);
    assert_eq!(Field::new(10, 8).mask::<u32>(), 0x7);
    assert_eq!(Field::new(31, 0).mask::<u32>(), 0xFFFF_FFFF);
    assert_eq!(Field::new(7, 0).mask::<u8>(), 0xFF);
    assert_eq!(Field::new(4, 4).mask::<u8>(), 0x1);
    assert_eq!(Field::new(15, 4).mask::<u16>(), 0x0FFF);
}

#[test]
fn field_width_and_lsb() {
    let f = Field::new(23, 16);
    assert_eq!(f.width(), 8);
    assert_eq!(f.lsb(), 16);
    assert_eq!(Field::new(5, 5).width(), 1);
}

#[test]
fn two_bit_field_keeps_low_bits_of_wide_value() {
    let f = Field::new(1, 0);
    let w = insert(0, &f, 0b101);
    assert_eq!(w, 0b01);
    assert_eq!(extract(w, &f), 0b01);
}

#[test]
fn extract_of_insert_is_value_under_mask() {
    let f = Field::new(13, 6);
    let w = 0xDEAD_BEEFu32;
    let v = 0x3F5u32;
    let r = insert(w, &f, v);
    assert_eq!(extract(r, &f), v & f.mask::<u32>());
    assert_eq!(r & !(0xFF << 6), w & !(0xFF << 6));
}

#[test]
fn insert_into_top_field_keeps_lower_bits() {
    let f = Field::new(31, 24);
    assert_eq!(insert(0x0012_3456, &f, 0xAB), 0xAB12_3456);
    assert_eq!(extract(0xAB12_3456, &f), 0xAB);
    assert_eq!(write_bits(0xFFFF_FFFF, 7, 4, 0), 0xFFFF_FF0F);
    assert_eq!(read_bits(0xFFFF_FF0F, 11, 4), 0xF0);
}

#[test]
fn register_cell_get_set() {
    let mut c = RegisterCell::new(5u32);
    assert_eq!(c.get(), 5);
    c.set(9);
    assert_eq!(c.get(), 9);
    let ro = RoRegisterCell::new(0x41u32);
    assert_eq!(ro.get(), 0x41);
}

#[test]
fn proxy_writes_back_final_copy_on_release() {
    let mut c = RegisterCell::new(ACRegister(0));
    let mut p = c.get_mut();
    assert_eq!(p.value().0, 0);
    p.value_mut().disable_write_buffer(true);
    p.value_mut().disable_instr_folding(true);
    assert_eq!((*p).0, 0b110);
    assert!(p.write_buffer_disabled());
    assert_eq!(p.vc.as_ref().unwrap().get().0, 0);
    p.release();
    assert_eq!(c.get().0, 0b110);
}

#[test]
fn proxy_set_value_then_release() {
    let mut c = RegisterCell::new(3u32);
    let mut p = c.get_mut();
    p.set_value(p.value() + 4);
    p.release();
    assert_eq!(c.get(), 7);
}

#[test]
fn update_applies_function_once() {
    let mut c = RegisterCell::new(ACRegister(0x100));
    c.update(|mut r: ACRegister| {
        r.disable_out_of_order_fp(true);
        r
    });
    assert_eq!(c.get().0, 0x300);
    assert!(c.get().out_of_order_fp_disabled());
    assert!(c.get().fpca_autoupdate_disabled());
}

#[test]
fn boolean_field_set_on_zero_word_is_exactly_one() {
    let mut r = ACRegister(0);
    r.allow_interruption_of_multicycle_instr(true);
    assert_eq!(r.0, 1);
    assert!(r.multiple_cycle_instr_interruptable());
    assert!(!r.write_buffer_disabled());
    r.allow_interruption_of_multicycle_instr(false);
    assert_eq!(r.0, 0);
}

#[test]
fn proxy_dropped_without_release_still_writes_back() {
    let mut c = RegisterCell::new(ACRegister(0));
    {
        let mut p = c.get_mut();
        p.value_mut().disable_write_buffer(true);
    }
    assert_eq!(c.get().0, 0b10);
}

fn set_bits_then_fail(c: &mut RegisterCell<u32>, fail: bool) -> Result<(), ()> {
    let mut p = c.get_mut();
    p.set_value(0x55);
    if fail {
        Err(())?;
    }
    p.set_value(0xAA);
    p.release();
    Ok(())
}

#[test]
fn proxy_writes_back_on_error_path() {
    let mut c = RegisterCell::new(0u32);
    assert!(set_bits_then_fail(&mut c, true).is_err());
    assert_eq!(c.get(), 0x55);
    assert!(set_bits_then_fail(&mut c, false).is_ok());
    assert_eq!(c.get(), 0xAA);
}

#[test]
fn narrow_volatile_cells() {
    let mut b = VolatileCell::new(0u8);
    b.set_bit_range(5, 4, 0b111);
    assert_eq!(b.0, 0b0011_0000);
    assert_eq!(b.bit_range(5, 4), 0b11);
    b.set_bit(7, true);
    assert_eq!(b.0, 0b1011_0000);
    assert!(b.bit(7));
    b.update(0x01, 0xF0);
    assert_eq!(b.0, 0x01);

    let mut h = VolatileCell::new(0xFFFFu16);
    h.set_bit_range(15, 8, 0x12);
    assert_eq!(h.0, 0x12FF);
    assert_eq!(h.bit_range(11, 4), 0x2F);
    h.set_bit(0, false);
    assert_eq!(h.0, 0x12FE);
    assert!(!h.bit(0));
    h.update(0x0001, 0x00FF);
    assert_eq!(h.read(), 0x1201);
}
