//! The abstract state of the controller and the effect of each operation on
//! it. Every contract of the driver is stated over these functions.

use vstd::prelude::*;
use crate::registers::{ChannelRegisters, Control, Direction, CHANNEL_COUNT};

verus! {

/// Where a channel stands in the life of a transfer.
#[derive(Clone, Copy, Debug, PartialEq, Eq, Structural)]
pub enum Phase {
    /// No transfer holds the channel.
    Free,
    /// A transfer holds the channel and has programmed it; the engine is not
    /// engaged yet.
    Ready,
    /// A transfer holds the channel and has engaged the engine.
    Started,
}

/// One thing that software did to the hardware: a register write, or a
/// memory barrier.
pub enum Access {
    SelectTarget { channel: int, request: u8 },
    PeripheralAddress { channel: int, address: u32 },
    MemoryAddress { channel: int, address: u32 },
    TransferLen { channel: int, len: u16 },
    Configure { channel: int, direction: Direction },
    Enable { channel: int },
    Disable { channel: int },
    ClearComplete { channel: int },
    ClearError { channel: int },
    Fence,
}

/// The state of the controller as the driver sees it.
pub struct Peripheral {
    /// The registers of each channel.
    pub channels: Seq<ChannelRegisters>,
    /// The phase of each channel.
    pub phases: Seq<Phase>,
    /// Everything software has done to the hardware so far, oldest first.
    pub log: Seq<Access>,
}

impl Peripheral {
    pub open spec fn wf(self) -> bool {
        &&& self.channels.len() == CHANNEL_COUNT
        &&& self.phases.len() == CHANNEL_COUNT
    }

    /// The controller after a peripheral reset: every register at its reset
    /// value, every channel free, nothing done yet.
    pub open spec fn reset() -> Peripheral {
        Peripheral {
            channels: Seq::new(CHANNEL_COUNT as nat, |i: int| ChannelRegisters::spec_reset()),
            phases: Seq::new(CHANNEL_COUNT as nat, |i: int| Phase::Free),
            log: Seq::empty(),
        }
    }

    /// The registers of channel `i` replaced, and the access recorded.
    pub open spec fn write(self, i: int, regs: ChannelRegisters, access: Access) -> Peripheral {
        Peripheral {
            channels: self.channels.update(i, regs),
            log: self.log.push(access),
            ..self
        }
    }

    /// The request selector of channel `i` set to `request`.
    pub open spec fn select_target(self, i: int, request: u8) -> Peripheral {
        self.write(
            i,
            ChannelRegisters { request: request, ..self.channels[i] },
            Access::SelectTarget { channel: i, request: request },
        )
    }

    pub open spec fn set_peripheral_address(self, i: int, address: u32) -> Peripheral {
        self.write(
            i,
            ChannelRegisters { peripheral_address: address, ..self.channels[i] },
            Access::PeripheralAddress { channel: i, address: address },
        )
    }

    pub open spec fn set_memory_address(self, i: int, address: u32) -> Peripheral {
        self.write(
            i,
            ChannelRegisters { memory_address: address, ..self.channels[i] },
            Access::MemoryAddress { channel: i, address: address },
        )
    }

    pub open spec fn set_transfer_len(self, i: int, len: u16) -> Peripheral {
        self.write(
            i,
            ChannelRegisters { transfer_len: len, ..self.channels[i] },
            Access::TransferLen { channel: i, len: len },
        )
    }

    /// The whole control register of channel `i` written with the polled
    /// configuration for `direction`. The write leaves the channel disabled.
    pub open spec fn configure(self, i: int, direction: Direction) -> Peripheral {
        self.write(
            i,
            ChannelRegisters { control: Control::spec_polled(direction), ..self.channels[i] },
            Access::Configure { channel: i, direction: direction },
        )
    }

    /// The enable bit of channel `i` set.
    pub open spec fn enable(self, i: int) -> Peripheral {
        self.write(
            i,
            ChannelRegisters {
                control: Control { enabled: true, ..self.channels[i].control },
                ..self.channels[i]
            },
            Access::Enable { channel: i },
        )
    }

    /// The enable bit of channel `i` cleared.
    pub open spec fn disable(self, i: int) -> Peripheral {
        self.write(
            i,
            ChannelRegisters {
                control: Control { enabled: false, ..self.channels[i].control },
                ..self.channels[i]
            },
            Access::Disable { channel: i },
        )
    }

    /// The completion flag of channel `i` cleared.
    pub open spec fn clear_complete(self, i: int) -> Peripheral {
        self.write(
            i,
            ChannelRegisters { transfer_complete: false, ..self.channels[i] },
            Access::ClearComplete { channel: i },
        )
    }

    /// The error flag of channel `i` cleared.
    pub open spec fn clear_error(self, i: int) -> Peripheral {
        self.write(
            i,
            ChannelRegisters { transfer_error: false, ..self.channels[i] },
            Access::ClearError { channel: i },
        )
    }

    /// A full memory barrier issued.
    pub open spec fn fence(self) -> Peripheral {
        Peripheral { log: self.log.push(Access::Fence), ..self }
    }

    /// The engine has moved the last item of channel `i`: it raises the
    /// completion flag. Software takes no part in this.
    pub open spec fn raise_complete(self, i: int) -> Peripheral {
        Peripheral {
            channels: self.channels.update(
                i,
                ChannelRegisters { transfer_complete: true, ..self.channels[i] },
            ),
            ..self
        }
    }

    /// The engine has met an error on channel `i`: it raises the error flag.
    pub open spec fn raise_error(self, i: int) -> Peripheral {
        Peripheral {
            channels: self.channels.update(
                i,
                ChannelRegisters { transfer_error: true, ..self.channels[i] },
            ),
            ..self
        }
    }

    /// The phase of channel `i`.
    pub open spec fn phase(self, i: int) -> Phase {
        self.phases[i]
    }

    /// The phase of channel `i` changed.
    pub open spec fn with_phase(self, i: int, phase: Phase) -> Peripheral {
        Peripheral { phases: self.phases.update(i, phase), ..self }
    }

    /// Whether the transfer on channel `i` is still running: the channel is
    /// enabled and the engine has not reported completion.
    pub open spec fn is_running(self, i: int) -> bool {
        self.channels[i].control.enabled && !self.channels[i].transfer_complete
    }

    /// One poll for completion on channel `i`. The first poll that finds an
    /// enabled channel complete clears the flag, then disables the channel;
    /// any other poll changes nothing.
    pub open spec fn poll_complete(self, i: int) -> Peripheral {
        if self.channels[i].control.enabled && self.channels[i].transfer_complete {
            self.clear_complete(i).disable(i)
        } else {
            self
        }
    }

    /// One poll for an error on channel `i`: a raised flag is cleared.
    pub open spec fn poll_error(self, i: int) -> Peripheral {
        if self.channels[i].transfer_error {
            self.clear_error(i)
        } else {
            self
        }
    }

    /// Channel `i` programmed for a transfer, register by register in this
    /// order: request selector, peripheral address, memory address, length,
    /// control register. The channel is then held by a transfer that is
    /// ready to start.
    pub open spec fn prepare(
        self,
        i: int,
        request: u8,
        peripheral_address: u32,
        memory_address: u32,
        len: u16,
        direction: Direction,
    ) -> Peripheral {
        self.select_target(i, request).set_peripheral_address(
            i,
            peripheral_address,
        ).set_memory_address(i, memory_address).set_transfer_len(i, len).configure(
            i,
            direction,
        ).with_phase(i, Phase::Ready)
    }

    /// The engine engaged on channel `i`: a memory barrier first, then the
    /// enable bit.
    pub open spec fn start(self, i: int) -> Peripheral {
        self.fence().enable(i).with_phase(i, Phase::Started)
    }

    /// Whether the transfer on channel `i` has come to an end: the engine has
    /// raised one of the two flags, or completion was observed before and
    /// the channel is disabled.
    pub open spec fn resolved(self, i: int) -> bool {
        !self.channels[i].control.enabled || self.channels[i].transfer_complete
            || self.channels[i].transfer_error
    }

    /// Whether waiting on channel `i` ends in failure: the error flag is up.
    pub open spec fn failed(self, i: int) -> bool {
        self.channels[i].transfer_error
    }

    /// The controller after the wait on a resolved channel `i`.
    ///
    /// While the transfer still runs, an error ends the wait at once. Else
    /// completion is observed, a memory barrier follows, and the error flag
    /// is looked at once more behind the barrier. Either way the channel is
    /// free again.
    pub open spec fn wait(self, i: int) -> Peripheral {
        if self.is_running(i) {
            self.poll_error(i).with_phase(i, Phase::Free)
        } else {
            self.poll_complete(i).fence().poll_error(i).with_phase(i, Phase::Free)
        }
    }
}

} // verus!
