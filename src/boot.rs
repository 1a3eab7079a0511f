//! The boot sequence: memory initialization before the application runs, the system reset
//! that follows it, and the layout of the exception vector table.
use crate::cell::RegisterCell;
use crate::scb::{aircr_write, AIRCRegister};
use vstd::prelude::*;

verus! {

/// Writes zero to every byte of the zero-initialized region.
pub fn zero_statics(bss: &mut [u8])
    ensures
        final(bss)@.len() == old(bss)@.len(),
        forall|i: int| 0 <= i < final(bss)@.len() ==> final(bss)@[i] == 0,
{
    let n = bss.len();
    let mut i: usize = 0;
    while i < n
        invariant
            n == old(bss)@.len(),
            bss@.len() == n,
            i <= n,
            forall|k: int| 0 <= k < i ==> bss@[k] == 0,
        decreases n - i,
    {
        bss[i] = 0;
        i = i + 1;
    }
}

/// Copies the initialized-data image, byte for byte, to its place in RAM.
pub fn copy_initialized_data(image: &[u8], data: &mut [u8])
    requires
        old(data)@.len() == image@.len(),
    ensures
        final(data)@ == image@,
{
    let n = image.len();
    let mut i: usize = 0;
    while i < n
        invariant
            n == image@.len(),
            data@.len() == n,
            i <= n,
            forall|k: int| 0 <= k < i ==> data@[k] == image@[k],
        decreases n - i,
    {
        data[i] = image[i];
        i = i + 1;
    }
    assert(data@ =~= image@);
}

/// Initializes memory before the application runs: zeroes the whole zero-initialized region,
/// then copies the initialized-data image to its target. The two regions do not overlap, and the
/// image and its target have the same size.
pub fn init_memory(bss: &mut [u8], image: &[u8], data: &mut [u8])
    requires
        old(data)@.len() == image@.len(),
    ensures
        final(bss)@.len() == old(bss)@.len(),
        forall|i: int| 0 <= i < final(bss)@.len() ==> final(bss)@[i] == 0,
        final(data)@ == image@,
{
    zero_statics(bss);
    copy_initialized_data(image, data);
}

/// Requests a system reset through the Application Interrupt and Reset Control Register:
/// exactly one store, of the word with SYSRESETREQ set under the unlock code.
pub fn request_system_reset(aircr: &mut RegisterCell<AIRCRegister>)
    ensures
        final(aircr).spec_value().0 as nat == aircr_write(
            old(aircr).spec_value().0 as nat,
            2,
            1,
            1,
        ),
        final(aircr).stores() == old(aircr).stores() + 1,
{
    let mut p = aircr.get_mut();
    p.value_mut().sys_reset_request();
    p.release();
}

/// The stages of the boot sequence, in the order they run.
#[derive(Clone, Copy, Debug, PartialEq, Eq, Structural)]
pub enum BootStage {
    /// The processor has loaded the reset vector.
    Reset,
    /// Zeroing the zero-initialized region.
    ZeroingStatics,
    /// Copying the initialized-data image to RAM.
    CopyingInitializedData,
    /// Control is with the application entry, entered once.
    ApplicationEntry,
    /// The application returned; a system reset has been requested. Nothing follows.
    SystemResetRequested,
}

impl BootStage {
    /// The stage that follows `self`; the last stage is final.
    pub open spec fn spec_next(self) -> BootStage {
        match self {
            BootStage::Reset => BootStage::ZeroingStatics,
            BootStage::ZeroingStatics => BootStage::CopyingInitializedData,
            BootStage::CopyingInitializedData => BootStage::ApplicationEntry,
            BootStage::ApplicationEntry => BootStage::SystemResetRequested,
            BootStage::SystemResetRequested => BootStage::SystemResetRequested,
        }
    }

    /// The stage that follows `self`.
    pub fn next(self) -> (r: BootStage)
        ensures
            r == self.spec_next(),
    {
        match self {
            BootStage::Reset => BootStage::ZeroingStatics,
            BootStage::ZeroingStatics => BootStage::CopyingInitializedData,
            BootStage::CopyingInitializedData => BootStage::ApplicationEntry,
            BootStage::ApplicationEntry => BootStage::SystemResetRequested,
            BootStage::SystemResetRequested => BootStage::SystemResetRequested,
        }
    }
}

} // verus!
