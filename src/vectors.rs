//! The exception vector table: a fixed, ordered table that the processor reads to dispatch
//! the reset and each exception.
use vstd::prelude::*;

verus! {

/// Number of slots in the table.
pub const VECTOR_TABLE_LEN: usize = 15;

/// The exceptions that have a slot of their own.
#[derive(Clone, Copy, Debug, PartialEq, Eq, Structural)]
pub enum Exception {
    Nmi,
    HardFault,
    MemManage,
    BusFault,
    UsageFault,
    SvCall,
    DebugMonitor,
    PendSv,
    SysTick,
}

/// What a slot of the table holds.
#[derive(Clone, Copy, Debug, PartialEq, Eq, Structural)]
pub enum VectorSlot {
    /// The entry point after reset, which never returns.
    Reset,
    /// The handler of an exception.
    Handler(Exception),
    /// A slot that must hold zero.
    Reserved,
}

/// The content of slot `i` of the table.
pub open spec fn slot_of(i: nat) -> VectorSlot {
    if i == 0 {
        VectorSlot::Reset
    } else if i == 1 {
        VectorSlot::Handler(Exception::Nmi)
    } else if i == 2 {
        VectorSlot::Handler(Exception::HardFault)
    } else if i == 3 {
        VectorSlot::Handler(Exception::MemManage)
    } else if i == 4 {
        VectorSlot::Handler(Exception::BusFault)
    } else if i == 5 {
        VectorSlot::Handler(Exception::UsageFault)
    } else if 6 <= i <= 9 {
        VectorSlot::Reserved
    } else if i == 10 {
        VectorSlot::Handler(Exception::SvCall)
    } else if i == 11 {
        VectorSlot::Handler(Exception::DebugMonitor)
    } else if i == 12 {
        VectorSlot::Reserved
    } else if i == 13 {
        VectorSlot::Handler(Exception::PendSv)
    } else {
        VectorSlot::Handler(Exception::SysTick)
    }
}

/// The content of slot `i` of the table.
pub fn slot(i: usize) -> (r: VectorSlot)
    requires
        i < VECTOR_TABLE_LEN,
    ensures
        r == slot_of(i as nat),
{
    if i == 0 {
        VectorSlot::Reset
    } else if i == 1 {
        VectorSlot::Handler(Exception::Nmi)
    } else if i == 2 {
        VectorSlot::Handler(Exception::HardFault)
    } else if i == 3 {
        VectorSlot::Handler(Exception::MemManage)
    } else if i == 4 {
        VectorSlot::Handler(Exception::BusFault)
    } else if i == 5 {
        VectorSlot::Handler(Exception::UsageFault)
    } else if 6 <= i && i <= 9 {
        VectorSlot::Reserved
    } else if i == 10 {
        VectorSlot::Handler(Exception::SvCall)
    } else if i == 11 {
        VectorSlot::Handler(Exception::DebugMonitor)
    } else if i == 12 {
        VectorSlot::Reserved
    } else if i == 13 {
        VectorSlot::Handler(Exception::PendSv)
    } else {
        VectorSlot::Handler(Exception::SysTick)
    }
}

/// The slot of the handler of `e`.
pub open spec fn slot_index(e: Exception) -> nat {
    match e {
        Exception::Nmi => 1,
        Exception::HardFault => 2,
        Exception::MemManage => 3,
        Exception::BusFault => 4,
        Exception::UsageFault => 5,
        Exception::SvCall => 10,
        Exception::DebugMonitor => 11,
        Exception::PendSv => 13,
        Exception::SysTick => 14,
    }
}

/// The table has exactly one slot for the reset entry, the first; every exception has exactly
/// one slot, and every slot that is neither of these is reserved.
pub proof fn lemma_vector_table_layout()
    ensures
        forall|i: nat| i < VECTOR_TABLE_LEN && #[trigger] slot_of(i) == VectorSlot::Reset <==> i
            == 0,
        forall|e: Exception|
            #![trigger slot_index(e)]
            slot_index(e) < VECTOR_TABLE_LEN && slot_of(slot_index(e)) == VectorSlot::Handler(e),
        forall|i: nat|
            i < VECTOR_TABLE_LEN ==> match #[trigger] slot_of(i) {
                VectorSlot::Handler(e) => slot_index(e) == i,
                _ => true,
            },
        forall|i: nat|
            i < VECTOR_TABLE_LEN && #[trigger] slot_of(i) == VectorSlot::Reserved <==> (6 <= i <= 9
                || i == 12),
{
}

/// The exception vector table, laid out as `slot_of` says: the reset entry of type `R`, the
/// handlers of type `H`, and the reserved words.
pub struct Exceptions<R, H> {
    pub reset: R,
    pub nmi: H,
    pub hard_fault: H,
    pub mem_manage: H,
    pub bus_fault: H,
    pub usage_fault: H,
    pub reserved1: [u32; 4],
    pub sv_call: H,
    pub debug_monitor: H,
    pub reserved2: u32,
    pub pendsv: H,
    pub systick: H,
}

impl<R, H: Copy> Exceptions<R, H> {
    /// Every reserved slot holds zero.
    pub open spec fn reserved_zero(&self) -> bool {
        &&& self.reserved1@ == seq![0u32, 0u32, 0u32, 0u32]
        &&& self.reserved2 == 0
    }

    /// The handler in the slot of `e`.
    pub open spec fn spec_handler(&self, e: Exception) -> H {
        match e {
            Exception::Nmi => self.nmi,
            Exception::HardFault => self.hard_fault,
            Exception::MemManage => self.mem_manage,
            Exception::BusFault => self.bus_fault,
            Exception::UsageFault => self.usage_fault,
            Exception::SvCall => self.sv_call,
            Exception::DebugMonitor => self.debug_monitor,
            Exception::PendSv => self.pendsv,
            Exception::SysTick => self.systick,
        }
    }

    /// A table with `reset` as reset entry, the given handlers for the hard fault, PendSV and
    /// SysTick slots, `default` in every other exception slot, and zero in every reserved slot.
    pub fn new(reset: R, default: H, hard_fault: H, pendsv: H, systick: H) -> (r: Self)
        ensures
            r.reset == reset,
            r.reserved_zero(),
            r.spec_handler(Exception::HardFault) == hard_fault,
            r.spec_handler(Exception::PendSv) == pendsv,
            r.spec_handler(Exception::SysTick) == systick,
            forall|e: Exception|
                e != Exception::HardFault && e != Exception::PendSv && e != Exception::SysTick
                    ==> #[trigger] r.spec_handler(e) == default,
    {
        let r = Exceptions {
            reset,
            nmi: default,
            hard_fault,
            mem_manage: default,
            bus_fault: default,
            usage_fault: default,
            reserved1: [0u32; 4],
            sv_call: default,
            debug_monitor: default,
            reserved2: 0,
            pendsv,
            systick,
        };
        assert(r.reserved1@ =~= seq![0u32, 0u32, 0u32, 0u32]);
        r
    }

    /// The handler in the slot of `e`.
    pub fn handler(&self, e: Exception) -> (r: H)
        ensures
            r == self.spec_handler(e),
    {
        match e {
            Exception::Nmi => self.nmi,
            Exception::HardFault => self.hard_fault,
            Exception::MemManage => self.mem_manage,
            Exception::BusFault => self.bus_fault,
            Exception::UsageFault => self.usage_fault,
            Exception::SvCall => self.sv_call,
            Exception::DebugMonitor => self.debug_monitor,
            Exception::PendSv => self.pendsv,
            Exception::SysTick => self.systick,
        }
    }
}

} // verus!
