//! A value model of the DMA controller's register file.
//!
//! Registers are modelled field by field, not bit by bit: where a field sits
//! inside its register is a matter of the chip family and plays no part in
//! the transfer protocol.

use vstd::prelude::*;

verus! {

/// Number of transfer channels of the controller.
pub const CHANNEL_COUNT: usize = 7;

/// Largest number of bytes one transfer can move: the transfer-count
/// register is 16 bits wide.
pub const MAX_TRANSFER_LEN: usize = 65535;

/// Direction of a transfer, as held in the control register.
#[derive(Clone, Copy, Debug, PartialEq, Eq, Structural)]
pub enum Direction {
    /// The engine reads the peripheral and writes memory.
    FromPeripheral,
    /// The engine reads memory and writes the peripheral.
    FromMemory,
}

/// Arbitration priority of a channel.
#[derive(Clone, Copy, Debug, PartialEq, Eq, Structural)]
pub enum Priority {
    Low,
    Medium,
    High,
    VeryHigh,
}

/// Width of one transferred item.
#[derive(Clone, Copy, Debug, PartialEq, Eq, Structural)]
pub enum WordSize {
    Bits8,
    Bits16,
    Bits32,
}

/// The fields of a channel's control register.
#[derive(Clone, Copy, Debug, PartialEq, Eq, Structural)]
pub struct Control {
    /// Memory-to-memory mode.
    pub mem2mem: bool,
    /// Arbitration priority.
    pub priority: Priority,
    /// Item width on the memory side.
    pub memory_size: WordSize,
    /// Item width on the peripheral side.
    pub peripheral_size: WordSize,
    /// Advance the memory address after each item.
    pub memory_increment: bool,
    /// Advance the peripheral address after each item.
    pub peripheral_increment: bool,
    /// Restart the transfer when it completes.
    pub circular: bool,
    /// Transfer direction.
    pub direction: Direction,
    /// Interrupt on transfer error.
    pub error_interrupt: bool,
    /// Interrupt on half transfer.
    pub half_interrupt: bool,
    /// Interrupt on transfer completion.
    pub complete_interrupt: bool,
    /// Channel enable: while set, the engine runs the transfer.
    pub enabled: bool,
}

impl Control {
    /// The value of the control register after a peripheral reset.
    pub open spec fn spec_reset() -> Control {
        Control {
            mem2mem: false,
            priority: Priority::Low,
            memory_size: WordSize::Bits8,
            peripheral_size: WordSize::Bits8,
            memory_increment: false,
            peripheral_increment: false,
            circular: false,
            direction: Direction::FromPeripheral,
            error_interrupt: false,
            half_interrupt: false,
            complete_interrupt: false,
            enabled: false,
        }
    }

    /// The configuration of a polled byte transfer in the given direction:
    /// memory-to-memory mode off, low priority, 8-bit items on both sides,
    /// the memory address advancing and the peripheral address fixed, no
    /// circular mode, no interrupt enabled, and the channel not yet enabled.
    pub open spec fn spec_polled(direction: Direction) -> Control {
        Control {
            mem2mem: false,
            priority: Priority::Low,
            memory_size: WordSize::Bits8,
            peripheral_size: WordSize::Bits8,
            memory_increment: true,
            peripheral_increment: false,
            circular: false,
            direction: direction,
            error_interrupt: false,
            half_interrupt: false,
            complete_interrupt: false,
            enabled: false,
        }
    }

    #[verifier::when_used_as_spec(spec_reset)]
    pub fn reset() -> (control: Control)
        ensures
            control == Control::spec_reset(),
    {
        Control {
            mem2mem: false,
            priority: Priority::Low,
            memory_size: WordSize::Bits8,
            peripheral_size: WordSize::Bits8,
            memory_increment: false,
            peripheral_increment: false,
            circular: false,
            direction: Direction::FromPeripheral,
            error_interrupt: false,
            half_interrupt: false,
            complete_interrupt: false,
            enabled: false,
        }
    }

    #[verifier::when_used_as_spec(spec_polled)]
    pub fn polled(direction: Direction) -> (control: Control)
        ensures
            control == Control::spec_polled(direction),
    {
        Control {
            mem2mem: false,
            priority: Priority::Low,
            memory_size: WordSize::Bits8,
            peripheral_size: WordSize::Bits8,
            memory_increment: true,
            peripheral_increment: false,
            circular: false,
            direction: direction,
            error_interrupt: false,
            half_interrupt: false,
            complete_interrupt: false,
            enabled: false,
        }
    }
}

/// The registers and status flags that belong to one channel.
#[derive(Clone, Copy, Debug, PartialEq, Eq, Structural)]
pub struct ChannelRegisters {
    /// Request line that the channel is routed through.
    pub request: u8,
    /// Address of the peripheral's data register.
    pub peripheral_address: u32,
    /// Address of the first byte of the buffer.
    pub memory_address: u32,
    /// Number of items to transfer.
    pub transfer_len: u16,
    /// The control register.
    pub control: Control,
    /// Status flag: the engine has moved the last item.
    pub transfer_complete: bool,
    /// Status flag: the engine has met a bus error.
    pub transfer_error: bool,
}

impl ChannelRegisters {
    /// A channel's registers after a peripheral reset.
    pub open spec fn spec_reset() -> ChannelRegisters {
        ChannelRegisters {
            request: 0,
            peripheral_address: 0,
            memory_address: 0,
            transfer_len: 0,
            control: Control::spec_reset(),
            transfer_complete: false,
            transfer_error: false,
        }
    }

    #[verifier::when_used_as_spec(spec_reset)]
    pub fn reset() -> (regs: ChannelRegisters)
        ensures
            regs == ChannelRegisters::spec_reset(),
    {
        ChannelRegisters {
            request: 0,
            peripheral_address: 0,
            memory_address: 0,
            transfer_len: 0,
            control: Control::reset(),
            transfer_complete: false,
            transfer_error: false,
        }
    }
}

/// The register block of the controller: one set of registers per channel.
#[derive(Clone, Copy, Debug, PartialEq, Eq)]
pub struct Dma1 {
    pub channels: [ChannelRegisters; 7],
}

impl Dma1 {
    /// Whether every register holds its reset value.
    pub open spec fn is_reset(&self) -> bool {
        self.channels@ == Seq::new(CHANNEL_COUNT as nat, |i: int| ChannelRegisters::spec_reset())
    }

    /// The register block as a peripheral reset leaves it.
    pub fn new() -> (dma: Dma1)
        ensures
            dma.is_reset(),
    {
        let dma = Dma1 { channels: [ChannelRegisters::reset(); 7] };
        assert(dma.channels@ =~= Seq::new(
            CHANNEL_COUNT as nat,
            |i: int| ChannelRegisters::spec_reset(),
        ));
        dma
    }
}

} // verus!
