//! The channels of the controller and what each of them can do.

use vstd::prelude::*;
use crate::handle::Handle;
use crate::registers::{Direction, CHANNEL_COUNT};
use crate::target::Target;

verus! {

/// One transfer unit of the controller.
///
/// A value of a channel type is the right to program that channel's
/// registers and to read and clear its status flags. All of them are reached
/// through the handle. The operations are the same for every channel; a
/// channel type says only where its registers lie.
pub trait Channel: Sized {
    /// Position of the channel's registers in the register block.
    const INDEX: usize;

    /// The position names one of the controller's channels.
    proof fn index_in_range()
        ensures
            Self::INDEX < CHANNEL_COUNT,
    ;

    /// Routes the channel through the request line of `target`.
    fn select_target<T: Target<Self>>(&self, handle: &mut Handle, target: &T)
        ensures
            final(handle)@ == old(handle)@.select_target(Self::INDEX as int, T::REQUEST),
    {
        proof {
            Self::index_in_range();
        }
        handle.select_target(Self::INDEX, T::REQUEST);
    }

    /// Programs the address of the peripheral's data register.
    fn set_peripheral_address(&self, handle: &mut Handle, address: u32)
        ensures
            final(handle)@ == old(handle)@.set_peripheral_address(Self::INDEX as int, address),
    {
        proof {
            Self::index_in_range();
        }
        handle.set_peripheral_address(Self::INDEX, address);
    }

    /// Programs the address of the buffer's first byte.
    fn set_memory_address(&self, handle: &mut Handle, address: u32)
        ensures
            final(handle)@ == old(handle)@.set_memory_address(Self::INDEX as int, address),
    {
        proof {
            Self::index_in_range();
        }
        handle.set_memory_address(Self::INDEX, address);
    }

    /// Programs the number of bytes to move.
    fn set_transfer_len(&self, handle: &mut Handle, len: u16)
        ensures
            final(handle)@ == old(handle)@.set_transfer_len(Self::INDEX as int, len),
    {
        proof {
            Self::index_in_range();
        }
        handle.set_transfer_len(Self::INDEX, len);
    }

    /// Writes the control register for a polled byte transfer in direction
    /// `dir`. The channel is disabled afterwards.
    fn configure(&self, handle: &mut Handle, dir: Direction)
        ensures
            final(handle)@ == old(handle)@.configure(Self::INDEX as int, dir),
    {
        proof {
            Self::index_in_range();
        }
        handle.configure(Self::INDEX, dir);
    }

    /// Sets the enable bit: the engine starts to move bytes.
    fn start(&self, handle: &mut Handle)
        ensures
            final(handle)@ == old(handle)@.enable(Self::INDEX as int),
    {
        proof {
            Self::index_in_range();
        }
        handle.enable(Self::INDEX);
    }

    /// Says whether the transfer is still running.
    ///
    /// A disabled channel runs nothing. On an enabled channel the first call
    /// that finds the completion flag up clears the flag and disables the
    /// channel, so that this call and all later ones answer `false`.
    fn is_active(&self, handle: &mut Handle) -> (active: bool)
        ensures
            active == old(handle)@.is_running(Self::INDEX as int),
            final(handle)@ == old(handle)@.poll_complete(Self::INDEX as int),
    {
        proof {
            Self::index_in_range();
        }
        if !handle.enabled(Self::INDEX) {
            false
        } else if handle.complete(Self::INDEX) {
            handle.clear_complete(Self::INDEX);
            handle.disable(Self::INDEX);
            false
        } else {
            true
        }
    }

    /// Says whether the error flag is up, and clears it if so.
    fn error_occured(&self, handle: &mut Handle) -> (error: bool)
        ensures
            error == old(handle)@.failed(Self::INDEX as int),
            final(handle)@ == old(handle)@.poll_error(Self::INDEX as int),
    {
        proof {
            Self::index_in_range();
        }
        if handle.error(Self::INDEX) {
            handle.clear_error(Self::INDEX);
            true
        } else {
            false
        }
    }
}

/// The first channel.
#[derive(Debug)]
pub struct Channel1(());

impl Channel for Channel1 {
    const INDEX: usize = 0;

    proof fn index_in_range() {
    }
}

/// The second channel.
#[derive(Debug)]
pub struct Channel2(());

impl Channel for Channel2 {
    const INDEX: usize = 1;

    proof fn index_in_range() {
    }
}

/// The third channel.
#[derive(Debug)]
pub struct Channel3(());

impl Channel for Channel3 {
    const INDEX: usize = 2;

    proof fn index_in_range() {
    }
}

/// The fourth channel.
#[derive(Debug)]
pub struct Channel4(());

impl Channel for Channel4 {
    const INDEX: usize = 3;

    proof fn index_in_range() {
    }
}

/// The fifth channel.
#[derive(Debug)]
pub struct Channel5(());

impl Channel for Channel5 {
    const INDEX: usize = 4;

    proof fn index_in_range() {
    }
}

/// The sixth channel.
#[derive(Debug)]
pub struct Channel6(());

impl Channel for Channel6 {
    const INDEX: usize = 5;

    proof fn index_in_range() {
    }
}

/// The seventh channel.
#[derive(Debug)]
pub struct Channel7(());

impl Channel for Channel7 {
    const INDEX: usize = 6;

    proof fn index_in_range() {
    }
}

/// The seven channel types stand for the seven channels of the controller,
/// in order: no two of them share their registers.
pub proof fn lemma_channel_positions()
    ensures
        Channel1::INDEX == 0,
        Channel2::INDEX == 1,
        Channel3::INDEX == 2,
        Channel4::INDEX == 3,
        Channel5::INDEX == 4,
        Channel6::INDEX == 5,
        Channel7::INDEX == 6,
{
}

/// The channels of one controller, each of them once.
#[derive(Debug)]
pub struct Channels {
    pub channel1: Channel1,
    pub channel2: Channel2,
    pub channel3: Channel3,
    pub channel4: Channel4,
    pub channel5: Channel5,
    pub channel6: Channel6,
    pub channel7: Channel7,
}

impl Channels {
    pub(crate) fn new() -> Channels {
        Channels {
            channel1: Channel1(()),
            channel2: Channel2(()),
            channel3: Channel3(()),
            channel4: Channel4(()),
            channel5: Channel5(()),
            channel6: Channel6(()),
            channel7: Channel7(()),
        }
    }
}

} // verus!
