//! The handle: the one owner of the controller's register block.

use vstd::prelude::*;
use crate::barrier::full_fence;
use crate::peripheral::{Access, Peripheral, Phase};
use crate::registers::{Control, Direction, Dma1, CHANNEL_COUNT};

verus! {

/// Handle to the DMA peripheral.
///
/// It owns the register block, and every register access of the driver goes
/// through it. Besides the registers it keeps the phase of each channel and,
/// as ghost state, the record of what was done to the hardware.
pub struct Handle {
    dma: Dma1,
    phases: [Phase; 7],
    log: Ghost<Seq<Access>>,
}

impl Handle {
    /// The state of the controller behind this handle.
    pub closed spec fn view(&self) -> Peripheral {
        Peripheral {
            channels: self.dma.channels@,
            phases: self.phases@,
            log: self.log@,
        }
    }

    /// The state behind a handle always covers all channels.
    pub proof fn lemma_wf(&self)
        ensures
            self@.wf(),
    {
    }

    /// Takes the register block as a peripheral reset has left it.
    pub(crate) fn new(dma: Dma1) -> (handle: Handle)
        requires
            dma.is_reset(),
        ensures
            handle@ == Peripheral::reset(),
    {
        let handle = Handle {
            dma: dma,
            phases: [Phase::Free; 7],
            log: Ghost(Seq::empty()),
        };
        assert(handle@.phases =~= Peripheral::reset().phases);
        handle
    }

    /// The register block, for inspection.
    pub fn registers(&self) -> (dma: &Dma1)
        ensures
            dma.channels@ == self@.channels,
    {
        &self.dma
    }

    pub(crate) fn select_target(&mut self, i: usize, request: u8)
        requires
            i < CHANNEL_COUNT,
        ensures
            final(self)@ == old(self)@.select_target(i as int, request),
    {
        self.dma.channels[i].request = request;
        self.log = Ghost(self.log@.push(Access::SelectTarget { channel: i as int, request: request }));
        assert(self@.channels =~= old(self)@.select_target(i as int, request).channels);
    }

    pub(crate) fn set_peripheral_address(&mut self, i: usize, address: u32)
        requires
            i < CHANNEL_COUNT,
        ensures
            final(self)@ == old(self)@.set_peripheral_address(i as int, address),
    {
        self.dma.channels[i].peripheral_address = address;
        self.log = Ghost(
            self.log@.push(Access::PeripheralAddress { channel: i as int, address: address }),
        );
        assert(self@.channels =~= old(self)@.set_peripheral_address(i as int, address).channels);
    }

    pub(crate) fn set_memory_address(&mut self, i: usize, address: u32)
        requires
            i < CHANNEL_COUNT,
        ensures
            final(self)@ == old(self)@.set_memory_address(i as int, address),
    {
        self.dma.channels[i].memory_address = address;
        self.log = Ghost(self.log@.push(Access::MemoryAddress { channel: i as int, address: address }));
        assert(self@.channels =~= old(self)@.set_memory_address(i as int, address).channels);
    }

    pub(crate) fn set_transfer_len(&mut self, i: usize, len: u16)
        requires
            i < CHANNEL_COUNT,
        ensures
            final(self)@ == old(self)@.set_transfer_len(i as int, len),
    {
        self.dma.channels[i].transfer_len = len;
        self.log = Ghost(self.log@.push(Access::TransferLen { channel: i as int, len: len }));
        assert(self@.channels =~= old(self)@.set_transfer_len(i as int, len).channels);
    }

    pub(crate) fn configure(&mut self, i: usize, direction: Direction)
        requires
            i < CHANNEL_COUNT,
        ensures
            final(self)@ == old(self)@.configure(i as int, direction),
    {
        self.dma.channels[i].control = Control::polled(direction);
        self.log = Ghost(self.log@.push(Access::Configure { channel: i as int, direction: direction }));
        assert(self@.channels =~= old(self)@.configure(i as int, direction).channels);
    }

    pub(crate) fn enable(&mut self, i: usize)
        requires
            i < CHANNEL_COUNT,
        ensures
            final(self)@ == old(self)@.enable(i as int),
    {
        self.dma.channels[i].control.enabled = true;
        self.log = Ghost(self.log@.push(Access::Enable { channel: i as int }));
        assert(self@.channels =~= old(self)@.enable(i as int).channels);
    }

    pub(crate) fn disable(&mut self, i: usize)
        requires
            i < CHANNEL_COUNT,
        ensures
            final(self)@ == old(self)@.disable(i as int),
    {
        self.dma.channels[i].control.enabled = false;
        self.log = Ghost(self.log@.push(Access::Disable { channel: i as int }));
        assert(self@.channels =~= old(self)@.disable(i as int).channels);
    }

    pub(crate) fn clear_complete(&mut self, i: usize)
        requires
            i < CHANNEL_COUNT,
        ensures
            final(self)@ == old(self)@.clear_complete(i as int),
    {
        self.dma.channels[i].transfer_complete = false;
        self.log = Ghost(self.log@.push(Access::ClearComplete { channel: i as int }));
        assert(self@.channels =~= old(self)@.clear_complete(i as int).channels);
    }

    pub(crate) fn clear_error(&mut self, i: usize)
        requires
            i < CHANNEL_COUNT,
        ensures
            final(self)@ == old(self)@.clear_error(i as int),
    {
        self.dma.channels[i].transfer_error = false;
        self.log = Ghost(self.log@.push(Access::ClearError { channel: i as int }));
        assert(self@.channels =~= old(self)@.clear_error(i as int).channels);
    }

    /// Whether channel `i` is enabled.
    pub(crate) fn enabled(&self, i: usize) -> (enabled: bool)
        requires
            i < CHANNEL_COUNT,
        ensures
            enabled == self@.channels[i as int].control.enabled,
    {
        self.dma.channels[i].control.enabled
    }

    /// Whether the completion flag of channel `i` is up.
    pub(crate) fn complete(&self, i: usize) -> (complete: bool)
        requires
            i < CHANNEL_COUNT,
        ensures
            complete == self@.channels[i as int].transfer_complete,
    {
        self.dma.channels[i].transfer_complete
    }

    /// Whether the error flag of channel `i` is up.
    pub(crate) fn error(&self, i: usize) -> (error: bool)
        requires
            i < CHANNEL_COUNT,
        ensures
            error == self@.channels[i as int].transfer_error,
    {
        self.dma.channels[i].transfer_error
    }

    /// Issues a full memory barrier and records it.
    pub(crate) fn fence(&mut self)
        ensures
            final(self)@ == old(self)@.fence(),
    {
        full_fence();
        self.log = Ghost(self.log@.push(Access::Fence));
    }

    /// Records the phase that channel `i` has entered.
    pub(crate) fn enter(&mut self, i: usize, phase: Phase)
        requires
            i < CHANNEL_COUNT,
        ensures
            final(self)@ == old(self)@.with_phase(i as int, phase),
    {
        self.phases[i] = phase;
        assert(self@.phases =~= old(self)@.with_phase(i as int, phase).phases);
    }

    /// The phase of channel `i`, or `None` where `i` names no channel.
    pub fn phase(&self, i: usize) -> (phase: Option<Phase>)
        ensures
            phase == if i < CHANNEL_COUNT {
                Some(self@.phase(i as int))
            } else {
                None
            },
    {
        if i < CHANNEL_COUNT {
            Some(self.phases[i])
        } else {
            None
        }
    }

    /// The engine reports that it has moved the last item of channel `i`:
    /// the completion flag goes up. An index that names no channel changes
    /// nothing.
    pub fn signal_complete(&mut self, i: usize)
        ensures
            final(self)@ == if i < CHANNEL_COUNT {
                old(self)@.raise_complete(i as int)
            } else {
                old(self)@
            },
    {
        if i < CHANNEL_COUNT {
            self.dma.channels[i].transfer_complete = true;
            assert(self@.channels =~= old(self)@.raise_complete(i as int).channels);
        }
    }

    /// The engine reports an error on channel `i`: the error flag goes up.
    /// An index that names no channel changes nothing.
    pub fn signal_error(&mut self, i: usize)
        ensures
            final(self)@ == if i < CHANNEL_COUNT {
                old(self)@.raise_error(i as int)
            } else {
                old(self)@
            },
    {
        if i < CHANNEL_COUNT {
            self.dma.channels[i].transfer_error = true;
            assert(self@.channels =~= old(self)@.raise_error(i as int).channels);
        }
    }
}

} // verus!
