//! Entry point to the driver.

use vstd::prelude::*;
use crate::channel::Channels;
use crate::handle::Handle;
use crate::peripheral::Peripheral;
use crate::rcc::Rcc;
use crate::registers::Dma1;

verus! {

/// Entry point to the DMA API.
pub struct DMA {
    /// Handle to the DMA peripheral.
    pub handle: Handle,
    /// DMA channels.
    pub channels: Channels,
}

impl DMA {
    /// Brings the controller up and hands out its handle and its channels.
    ///
    /// The controller is put into reset and let out again, then its clock is
    /// turned on, in this order. Whatever the register block held before,
    /// the handle starts from the reset state, with every channel free.
    pub fn new(dma: Dma1, rcc: &mut Rcc) -> (api: DMA)
        ensures
            final(rcc)@ == old(rcc)@.bring_up_dma(),
            api.handle@ == Peripheral::reset(),
    {
        let mut dma = dma;
        rcc.assert_dma_reset(&mut dma);
        rcc.release_dma_reset();
        rcc.enable_dma_clock();
        DMA { handle: Handle::new(dma), channels: Channels::new() }
    }
}

} // verus!
