//! The part of reset and clock control that concerns the DMA controller.

use vstd::prelude::*;
use crate::registers::Dma1;

verus! {

/// One write to the reset and clock control registers.
pub enum RccWrite {
    AssertDmaReset,
    ReleaseDmaReset,
    EnableDmaClock,
}

/// The abstract state of reset and clock control.
pub struct RccState {
    /// The controller is held in reset.
    pub dma_reset: bool,
    /// The controller's clock runs.
    pub dma_clock: bool,
    /// The writes made so far, oldest first.
    pub log: Seq<RccWrite>,
}

impl RccState {
    /// Reset and clock control after power-on: the controller is not held in
    /// reset, and its clock is off.
    pub open spec fn power_on() -> RccState {
        RccState { dma_reset: false, dma_clock: false, log: Seq::empty() }
    }

    pub open spec fn assert_dma_reset(self) -> RccState {
        RccState { dma_reset: true, log: self.log.push(RccWrite::AssertDmaReset), ..self }
    }

    pub open spec fn release_dma_reset(self) -> RccState {
        RccState { dma_reset: false, log: self.log.push(RccWrite::ReleaseDmaReset), ..self }
    }

    pub open spec fn enable_dma_clock(self) -> RccState {
        RccState { dma_clock: true, log: self.log.push(RccWrite::EnableDmaClock), ..self }
    }

    /// What bringing up the controller does: a reset pulse, then the clock.
    pub open spec fn bring_up_dma(self) -> RccState {
        self.assert_dma_reset().release_dma_reset().enable_dma_clock()
    }
}

/// Reset and clock control.
pub struct Rcc {
    dma_reset: bool,
    dma_clock: bool,
    log: Ghost<Seq<RccWrite>>,
}

impl Rcc {
    pub closed spec fn view(&self) -> RccState {
        RccState { dma_reset: self.dma_reset, dma_clock: self.dma_clock, log: self.log@ }
    }

    /// Reset and clock control as power-on leaves it.
    pub fn new() -> (rcc: Rcc)
        ensures
            rcc@ == RccState::power_on(),
    {
        Rcc { dma_reset: false, dma_clock: false, log: Ghost(Seq::empty()) }
    }

    /// Whether the controller is held in reset.
    pub fn dma_reset(&self) -> (reset: bool)
        ensures
            reset == self@.dma_reset,
    {
        self.dma_reset
    }

    /// Whether the controller's clock runs.
    pub fn dma_clock(&self) -> (clock: bool)
        ensures
            clock == self@.dma_clock,
    {
        self.dma_clock
    }

    /// Puts the controller into reset. While it is held there its registers
    /// take their reset values.
    pub(crate) fn assert_dma_reset(&mut self, dma: &mut Dma1)
        ensures
            final(self)@ == old(self)@.assert_dma_reset(),
            final(dma).is_reset(),
    {
        self.dma_reset = true;
        self.log = Ghost(self.log@.push(RccWrite::AssertDmaReset));
        *dma = Dma1::new();
    }

    /// Lets the controller out of reset.
    pub(crate) fn release_dma_reset(&mut self)
        ensures
            final(self)@ == old(self)@.release_dma_reset(),
    {
        self.dma_reset = false;
        self.log = Ghost(self.log@.push(RccWrite::ReleaseDmaReset));
    }

    /// Turns the controller's clock on.
    pub(crate) fn enable_dma_clock(&mut self)
        ensures
            final(self)@ == old(self)@.enable_dma_clock(),
    {
        self.dma_clock = true;
        self.log = Ghost(self.log@.push(RccWrite::EnableDmaClock));
    }
}

} // verus!
