//! Virtual I/O devices.
use vstd::prelude::*;

verus! {

/// A virtual I/O device, implemented by each device model.
pub trait VirtIo {
    /// Sets the device up.
    fn init(&self);

    /// Delivers the interrupt request `irq` to the device.
    fn irq(&self, irq: u32);
}

} // verus!
