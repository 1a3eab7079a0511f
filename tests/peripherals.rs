use silica::boot::{init_memory, request_system_reset, BootStage};
use silica::cell::RegisterCell;
use silica::fpu::{CPACRegister, CoProcessorAccess};
use silica::mpu::{RegionBaseAddressRegister, RegionNumberRegister, TypeRegister};
use silica::scb::{
    AIRCRegister, CFSRegister, CPUIDRegister, Endianness, HFSRegister, ICSRRegister, MMSRegister,
    SCRegister, SHPRegister3, SleepMode, VectorTableOffsetRegister,
};
use silica::systick::{STCRegister, STCSRegister, STRVRegister};
use silica::vectors::{slot, Exception, Exceptions, VectorSlot, VECTOR_TABLE_LEN};

#[test]
fn cp10_access_round_trips() {
    for a in [
        CoProcessorAccess::AccessDenied,
        CoProcessorAccess::PrivilegedOnly,
        CoProcessorAccess::FullAccess,
    ] {
        let mut r = CPACRegister(0xFFFF_FFFF);
        r.set_cp10_access(a);
        assert_eq!(r.get_cp10_access().unwrap(), a);
        assert_eq!(r.get_cp11_access().unwrap(), CoProcessorAccess::FullAccess);
    }
    let mut r = CPACRegister(0);
    r.set_cp11_access(CoProcessorAccess::PrivilegedOnly);
    assert_eq!(r.0, 1 << 22);
}

#[test]
fn undeclared_access_pattern_is_a_decode_error() {
    let r = CPACRegister(2 << 20);
    assert!(r.get_cp10_access().is_err());
    assert_eq!(r.get_cp11_access().unwrap(), CoProcessorAccess::AccessDenied);
    assert!(CoProcessorAccess::try_from_bits(2).is_err());
    assert!(CoProcessorAccess::try_from_bits(4).is_err());
    assert_eq!(CoProcessorAccess::FullAccess.bits(), 3);
}

#[test]
fn sleep_mode_round_trips_and_rejects_unknown() {
    let mut r = SCRegister(0);
    r.set_sleep_mode(SleepMode::DeepSleep);
    assert_eq!(r.0, 0b100);
    assert_eq!(r.sleep_mode().unwrap(), SleepMode::DeepSleep);
    r.set_sleep_mode(SleepMode::Sleep);
    assert_eq!(r.sleep_mode().unwrap(), SleepMode::Sleep);
    assert!(SleepMode::try_from_bits(2).is_err());
    r.send_event_on_pending_bit(true);
    assert!(r.event_sent_on_pending_bit());
    assert!(!r.sleep_on_exit());
}

#[test]
fn endianness_decodes_bit_fifteen() {
    assert_eq!(AIRCRegister(1 << 15).endianness().unwrap(), Endianness::Big);
    assert_eq!(AIRCRegister(0).endianness().unwrap(), Endianness::Little);
    assert!(Endianness::try_from_bits(2).is_err());
}

#[test]
fn reset_request_carries_unlock_code() {
    let mut r = AIRCRegister(0);
    r.sys_reset_request();
    assert_eq!(r.0, 0x05FA_0004);
    let mut r = AIRCRegister(0xFFFF_FFFB);
    r.sys_reset_request();
    assert_eq!(r.0, 0x05FA_FFFF);
    assert_eq!(r.0 >> 16, 0x05FA);
    let mut r = AIRCRegister(0x1234_0000);
    r.sys_reset_request();
    assert_eq!(r.0, 0x05FA_0004);
}

#[test]
fn prigroup_write_keeps_lower_half_under_unlock_code() {
    let mut r = AIRCRegister(0xFA05_0001);
    r.set_prigroup(0b1101);
    assert_eq!(r.0, 0x05FA_0501);
    assert_eq!(r.prigroup(), 0b101);
}

#[test]
fn request_system_reset_stores_once() {
    let mut cell = RegisterCell::new(AIRCRegister(0x0000_0700));
    request_system_reset(&mut cell);
    assert_eq!(cell.get().0, 0x05FA_0704);
}

#[test]
fn icsr_pend_and_unpend_bits() {
    let mut r = ICSRRegister(0);
    r.set_nmi_pending();
    assert_eq!(r.0, 0x8000_0000);
    assert!(r.is_nmi_pending());
    let mut r = ICSRRegister(0);
    r.set_pendsv_pending(true);
    assert_eq!(r.0, 1 << 28);
    let mut r = ICSRRegister(0);
    r.set_pendsv_pending(false);
    assert_eq!(r.0, 1 << 27);
    let mut r = ICSRRegister(0);
    r.set_systick_pending(true);
    assert_eq!(r.0, 1 << 26);
    let mut r = ICSRRegister(0);
    r.set_systick_pending(false);
    assert_eq!(r.0, 1 << 25);
    let r = ICSRRegister(0x0042_B803);
    assert!(r.is_any_isr_pending());
    assert_eq!(r.highest_vector_pending(), 0x2B);
    assert!(r.return_to_base());
    assert_eq!(r.active_vector(), 3);
}

#[test]
fn cpuid_fields() {
    let r = CPUIDRegister(0x410F_C241);
    assert_eq!(r.implementer_code(), 0x41);
    assert_eq!(r.variant(), 0);
    assert_eq!(r.constant(), 0xF);
    assert_eq!(r.part_number(), 0xC24);
    assert_eq!(r.revision(), 1);
}

#[test]
fn vector_table_offset_drops_low_seven_bits() {
    let mut r = VectorTableOffsetRegister(0x2000_00FF);
    assert_eq!(r.offset(), 0x2000_0080);
    r.set_offset(0x0000_4000);
    assert_eq!(r.offset(), 0x0000_4000);
}

#[test]
fn hard_fault_status_clear_bits() {
    let mut r = HFSRegister(0);
    r.clear_forced_bit();
    assert_eq!(r.0, 0x4000_0000);
    r.clear_vector_table_bit();
    assert_eq!(r.0, 0x4000_0002);
    assert!(r.forced());
    assert!(r.vector_table());
}

#[test]
fn memmanage_status_from_word() {
    assert!(MMSRegister::try_from(0x100u32).is_err());
    let m = MMSRegister::try_from(0x82u32).unwrap();
    assert!(m.is_valid());
    assert!(m.data_access_violation());
    assert!(!m.instruction_access_violation());
    let c = CFSRegister(0x0000_1291);
    let m = c.get_mmsr();
    assert_eq!(m.0, 0x91);
    assert!(m.fault_on_stacking_for_exception_entry());
    assert!(!m.fault_on_unstacking_for_a_return_from_exception());
}

#[test]
fn handler_priorities() {
    let mut r = SHPRegister3(0);
    r.set_systick_priority(0xE0);
    r.set_pendsv_priority(0xF0);
    assert_eq!(r.0, 0xE0F0_0000);
    assert_eq!(r.systick_priority(), 0xE0);
    assert_eq!(r.pendsv_priority(), 0xF0);
}

#[test]
fn systick_registers() {
    let mut cs = STCSRegister(0x0001_0000);
    assert!(cs.count_flag());
    cs.enable_systick(true);
    cs.enable_tick_interrupt(true);
    cs.use_processor_clock(true);
    assert_eq!(cs.0, 0x0001_0007);
    let mut rv = STRVRegister(0xFF00_0000);
    rv.set_reload(0x1FF_FFFF);
    assert_eq!(rv.0, 0xFFFF_FFFF);
    assert_eq!(rv.reload(), 0xFF_FFFF);
}

#[test]
fn ten_millisecond_calibration() {
    assert_eq!(STCRegister(0xC000_0000).ten_millisecond(), None);
    assert_eq!(STCRegister(0x8001_2345).ten_millisecond(), Some(0x1_2345));
    assert!(STCRegister(0x8001_2345).has_reference_clock());
    assert!(!STCRegister(0x8001_2345).is_calibration_inexact());
}

#[test]
fn mpu_registers() {
    let t = TypeRegister(0x0000_0800);
    assert_eq!(t.data_regions(), 8);
    assert_eq!(t.inst_regions(), 0);
    assert!(!t.separate());
    let mut rnr = RegionNumberRegister(0);
    rnr.set_region(5);
    assert_eq!(rnr.region(), 5);
    let mut rbar = RegionBaseAddressRegister(0);
    rbar.set_addr(0x2000_0000 >> 5);
    rbar.valid(true);
    rbar.set_region(3);
    assert_eq!(rbar.0, 0x2000_0013);
    assert_eq!(rbar.addr(), 0x2000_0000 >> 5);
}

#[test]
fn boot_initializes_memory() {
    let mut bss = [1u8, 2, 3, 4, 5];
    let image = [9u8, 8, 7];
    let mut data = [0u8; 3];
    init_memory(&mut bss, &image, &mut data);
    assert_eq!(bss, [0u8; 5]);
    assert_eq!(data, image);
}

#[test]
fn boot_with_empty_regions() {
    let mut bss: [u8; 0] = [];
    let image: [u8; 0] = [];
    let mut data: [u8; 0] = [];
    init_memory(&mut bss, &image, &mut data);
    assert_eq!(bss.len(), 0);
    assert_eq!(data.len(), 0);
}

#[test]
fn boot_stages_run_in_order() {
    let mut s = BootStage::Reset;
    let order = [
        BootStage::ZeroingStatics,
        BootStage::CopyingInitializedData,
        BootStage::ApplicationEntry,
        BootStage::SystemResetRequested,
        BootStage::SystemResetRequested,
    ];
    for expected in order {
        s = s.next();
        assert_eq!(s, expected);
    }
}

fn entry() -> u32 {
    0
}

fn default_handler() -> u32 {
    1
}

fn hard_fault() -> u32 {
    2
}

fn pendsv() -> u32 {
    3
}

fn systick() -> u32 {
    4
}

#[test]
fn vector_table_layout() {
    let mut resets = 0;
    let mut reserved = Vec::new();
    for i in 0..VECTOR_TABLE_LEN {
        match slot(i) {
            VectorSlot::Reset => resets += 1,
            VectorSlot::Reserved => reserved.push(i),
            VectorSlot::Handler(_) => {}
        }
    }
    assert_eq!(resets, 1);
    assert_eq!(reserved, vec![6, 7, 8, 9, 12]);
    assert_eq!(slot(2), VectorSlot::Handler(Exception::HardFault));
    assert_eq!(slot(14), VectorSlot::Handler(Exception::SysTick));

    let t: Exceptions<fn() -> u32, fn() -> u32> = Exceptions::new(
        entry as fn() -> u32,
        default_handler as fn() -> u32,
        hard_fault as fn() -> u32,
        pendsv as fn() -> u32,
        systick as fn() -> u32,
    );
    assert_eq!(t.reserved1, [0u32; 4]);
    assert_eq!(t.reserved2, 0);
    assert_eq!((t.reset)(), 0);
    assert_eq!((t.handler(Exception::Nmi))(), 1);
    assert_eq!((t.handler(Exception::HardFault))(), 2);
    assert_eq!((t.handler(Exception::PendSv))(), 3);
    assert_eq!((t.handler(Exception::SysTick))(), 4);
    assert_eq!((t.handler(Exception::UsageFault))(), 1);
}

#[test]
fn std_conversions_of_enum_fields() {
    assert_eq!(CoProcessorAccess::try_from(3u32).unwrap(), CoProcessorAccess::FullAccess);
    assert_eq!(CoProcessorAccess::try_from(1u32).unwrap(), CoProcessorAccess::PrivilegedOnly);
    assert!(CoProcessorAccess::try_from(2u32).is_err());
    assert_eq!(u32::from(CoProcessorAccess::AccessDenied), 0);
    assert_eq!(u32::from(SleepMode::DeepSleep), 1);
    assert!(SleepMode::try_from(3u32).is_err());
    assert_eq!(Endianness::try_from(1u32).unwrap(), Endianness::Big);
    assert_eq!(u32::from(Endianness::Little), 0);
}

#[test]
fn aircr_field_write_keeps_unlock_code_whatever_was_there() {
    let mut r = AIRCRegister(0xFFFF_0000);
    r.set_prigroup(0xFF);
    assert_eq!(r.0 >> 16, 0x05FA);
    assert_eq!(r.prigroup(), 0b111);
    assert_eq!(r.0, 0x05FA_0700);
}
