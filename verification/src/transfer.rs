//! A transfer: a target, a channel and a buffer on their way through the
//! engine.

use vstd::prelude::*;
use crate::buffer::{address_of, bytes_of};
use crate::channel::Channel;
use crate::handle::Handle;
use crate::peripheral::Phase;
use crate::registers::{Direction, CHANNEL_COUNT, MAX_TRANSFER_LEN};
use crate::target::Target;

verus! {

/// Indicates that a DMA transfer is ready.
pub struct Ready;

/// Indicates that a DMA transfer has been started.
pub struct Started;

/// The engine has reported a transfer error.
#[derive(Debug)]
pub struct Error;

/// What a transfer holds while it lasts and gives back when it ends.
pub struct TransferResources<T, C, B> {
    pub target: T,
    pub channel: C,
    pub buffer: B,
}

/// `core::fmt::Formatter`, which `fmt` below writes to. Nothing is said of
/// what it holds.
#[verifier::external_type_specification]
#[verifier::external_body]
pub struct ExFormatter<'a>(core::fmt::Formatter<'a>);

/// `core::fmt::Error`, which `fmt` below may return. Nothing is said of it.
#[verifier::external_type_specification]
#[verifier::external_body]
pub struct ExFmtError(core::fmt::Error);

/// The resources print as a fixed text, so that a result which holds them
/// can be unwrapped whatever the target, the channel and the buffer are.
impl<T, C, B> core::fmt::Debug for TransferResources<T, C, B> {
    /// Writes the text with `write!`, which goes to
    /// `core::fmt::Formatter::write_fmt`. The contract claims nothing of
    /// what was written or of the result.
    #[verifier::external_body]
    fn fmt(&self, f: &mut core::fmt::Formatter<'_>) -> core::fmt::Result {
        write!(f, "TransferResources {{ ... }}")
    }
}

/// A transfer in the state `State`, which is `Ready` or `Started`.
///
/// The transfer owns its channel and its buffer and hands neither out
/// before it has ended: nothing can claim the channel a second time, and
/// nothing can touch the buffer while the engine may.
pub struct Transfer<T, C, B, State> {
    res: TransferResources<T, C, B>,
    _state: State,
}

impl<T, C, B, State> Transfer<T, C, B, State> {
    /// The target, the channel and the buffer that the transfer holds.
    pub closed spec fn resources(&self) -> TransferResources<T, C, B> {
        self.res
    }
}

impl<T, C, B> Transfer<T, C, B, Ready> {
    /// The ready transfer that holds `res`.
    pub closed spec fn holding(res: TransferResources<T, C, B>) -> Self {
        Transfer { res: res, _state: Ready }
    }

    /// This transfer once it is started.
    pub closed spec fn started(self) -> Transfer<T, C, B, Started> {
        Transfer { res: self.res, _state: Started }
    }

    /// A transfer holds what it was built from.
    pub proof fn lemma_holding(res: TransferResources<T, C, B>)
        ensures
            Self::holding(res).resources() == res,
    {
    }

    /// Starting a transfer changes nothing of what it holds.
    pub proof fn lemma_started(self)
        ensures
            self.started().resources() == self.resources(),
    {
    }
}

impl<T, C> Transfer<T, C, Box<[u8]>, Ready> where T: Target<C>, C: Channel {
    /// Prepares a transfer that reads `buffer` and writes the peripheral at
    /// `address`.
    pub fn memory_to_peripheral(
        handle: &mut Handle,
        target: T,
        channel: C,
        buffer: Box<[u8]>,
        address: u32,
    ) -> (transfer: Self)
        requires
            old(handle)@.phase(C::INDEX as int) == Phase::Free,
            buffer@.len() <= MAX_TRANSFER_LEN,
        ensures
            transfer == Self::holding(TransferResources { target, channel, buffer }),
            transfer.resources() == (TransferResources { target, channel, buffer }),
            final(handle)@ == old(handle)@.prepare(
                C::INDEX as int,
                T::REQUEST,
                address,
                final(handle)@.channels[C::INDEX as int].memory_address,
                buffer@.len() as u16,
                Direction::FromMemory,
            ),
    {
        Self::new(handle, target, channel, buffer, address, Direction::FromMemory)
    }

    /// Prepares a transfer that reads the peripheral at `address` and writes
    /// `buffer`.
    pub fn peripheral_to_memory(
        handle: &mut Handle,
        target: T,
        channel: C,
        buffer: Box<[u8]>,
        address: u32,
    ) -> (transfer: Self)
        requires
            old(handle)@.phase(C::INDEX as int) == Phase::Free,
            buffer@.len() <= MAX_TRANSFER_LEN,
        ensures
            transfer == Self::holding(TransferResources { target, channel, buffer }),
            transfer.resources() == (TransferResources { target, channel, buffer }),
            final(handle)@ == old(handle)@.prepare(
                C::INDEX as int,
                T::REQUEST,
                address,
                final(handle)@.channels[C::INDEX as int].memory_address,
                buffer@.len() as u16,
                Direction::FromPeripheral,
            ),
    {
        Self::new(handle, target, channel, buffer, address, Direction::FromPeripheral)
    }

    /// Prepares a transfer between `buffer` and the peripheral at `address`
    /// in direction `dir`.
    ///
    /// The memory address that is programmed is the address of the buffer's
    /// first byte, whatever it is; every other register is as `prepare`
    /// says.
    pub fn new(
        handle: &mut Handle,
        target: T,
        channel: C,
        buffer: Box<[u8]>,
        address: u32,
        dir: Direction,
    ) -> (transfer: Self)
        requires
            old(handle)@.phase(C::INDEX as int) == Phase::Free,
            buffer@.len() <= MAX_TRANSFER_LEN,
        ensures
            transfer == Self::holding(TransferResources { target, channel, buffer }),
            transfer.resources() == (TransferResources { target, channel, buffer }),
            final(handle)@ == old(handle)@.prepare(
                C::INDEX as int,
                T::REQUEST,
                address,
                final(handle)@.channels[C::INDEX as int].memory_address,
                buffer@.len() as u16,
                dir,
            ),
    {
        let memory_address = address_of(bytes_of(&buffer));
        proof {
            C::index_in_range();
            handle.lemma_wf();
        }
        Self::with_memory_address(handle, target, channel, buffer, address, memory_address, dir)
    }

    /// Prepares a transfer between `buffer`, whose first byte lies at
    /// `memory_address`, and the peripheral at `address`.
    ///
    /// The channel is programmed register by register: request selector,
    /// peripheral address, memory address, length, control register.
    pub fn with_memory_address(
        handle: &mut Handle,
        target: T,
        channel: C,
        buffer: Box<[u8]>,
        address: u32,
        memory_address: u32,
        dir: Direction,
    ) -> (transfer: Self)
        requires
            old(handle)@.phase(C::INDEX as int) == Phase::Free,
            buffer@.len() <= MAX_TRANSFER_LEN,
        ensures
            transfer == Self::holding(TransferResources { target, channel, buffer }),
            transfer.resources() == (TransferResources { target, channel, buffer }),
            final(handle)@ == old(handle)@.prepare(
                C::INDEX as int,
                T::REQUEST,
                address,
                memory_address,
                buffer@.len() as u16,
                dir,
            ),
    {
        let len = bytes_of(&buffer).len();
        proof {
            C::index_in_range();
        }
        channel.select_target(handle, &target);
        channel.set_peripheral_address(handle, address);
        channel.set_memory_address(handle, memory_address);
        channel.set_transfer_len(handle, len as u16);
        channel.configure(handle, dir);
        handle.enter(C::INDEX, Phase::Ready);
        Transfer { res: TransferResources { target, channel, buffer }, _state: Ready }
    }
}

impl<T, C, B> Transfer<T, C, B, Ready> where C: Channel {
    /// Engages the engine: a memory barrier, so that whatever software wrote
    /// into the buffer is in memory before the engine reads it, then the
    /// enable bit.
    pub fn start(self, handle: &mut Handle) -> (started: Transfer<T, C, B, Started>)
        requires
            old(handle)@.phase(C::INDEX as int) == Phase::Ready,
        ensures
            started == self.started(),
            started.resources() == self.resources(),
            final(handle)@ == old(handle)@.start(C::INDEX as int),
    {
        proof {
            C::index_in_range();
        }
        handle.fence();
        self.res.channel.start(handle);
        handle.enter(C::INDEX, Phase::Started);
        Transfer { res: self.res, _state: Started }
    }
}

impl<T, C, B> Transfer<T, C, B, Started> {
    /// What the wait returns: the resources in either case, beside the
    /// error where the transfer failed.
    pub open spec fn outcome(&self, failed: bool) -> Result<
        TransferResources<T, C, B>,
        (TransferResources<T, C, B>, Error),
    > {
        if failed {
            Err((self.resources(), Error))
        } else {
            Ok(self.resources())
        }
    }
}

impl<T, C, B> Transfer<T, C, B, Started> where C: Channel {
    /// Indicates whether the transfer is still ongoing.
    ///
    /// The first call that finds the transfer complete clears the completion
    /// flag and disables the channel.
    pub fn is_active(&self, handle: &mut Handle) -> (active: bool)
        requires
            old(handle)@.phase(C::INDEX as int) == Phase::Started,
        ensures
            active == old(handle)@.is_running(C::INDEX as int),
            final(handle)@ == old(handle)@.poll_complete(C::INDEX as int),
    {
        self.res.channel.is_active(handle)
    }

    /// Says whether the transfer has come to an end, so that it can be
    /// waited for. Nothing is changed.
    pub fn is_resolved(&self, handle: &Handle) -> (resolved: bool)
        ensures
            resolved == handle@.resolved(C::INDEX as int),
    {
        proof {
            C::index_in_range();
        }
        !handle.enabled(C::INDEX) || handle.complete(C::INDEX) || handle.error(C::INDEX)
    }

    /// Waits for the transfer to finish and returns the owned resources.
    ///
    /// The flags of the controller change only through the handle, so a
    /// transfer that has not come to an end when this is called never would:
    /// the call is for a transfer of which the engine has reported
    /// completion or an error, or whose completion was observed before.
    ///
    /// An error flag that is up gives `Err`, whether or not the transfer has
    /// completed as well. The resources come back with either outcome.
    pub fn wait(self, handle: &mut Handle) -> (outcome: Result<
        TransferResources<T, C, B>,
        (TransferResources<T, C, B>, Error),
    >)
        requires
            old(handle)@.phase(C::INDEX as int) == Phase::Started,
            old(handle)@.resolved(C::INDEX as int),
        ensures
            final(handle)@ == old(handle)@.wait(C::INDEX as int),
            outcome == self.outcome(old(handle)@.failed(C::INDEX as int)),
    {
        proof {
            C::index_in_range();
            handle.lemma_wf();
        }
        // A transfer that has come to an end and still runs has met an
        // error: the first turn of the loop returns.
        while self.is_active(handle)
            invariant
                C::INDEX < CHANNEL_COUNT,
                handle@ == old(handle)@,
                handle@.wf(),
                handle@.phase(C::INDEX as int) == Phase::Started,
                handle@.resolved(C::INDEX as int),
            decreases 1int,
        {
            if self.res.channel.error_occured(handle) {
                handle.enter(C::INDEX, Phase::Free);
                return Err((self.res, Error));
            }
        }
        handle.fence();
        let failed = self.res.channel.error_occured(handle);
        handle.enter(C::INDEX, Phase::Free);
        if failed {
            return Err((self.res, Error));
        }
        Ok(self.res)
    }
}

} // verus!
