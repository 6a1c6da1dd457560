//! What holds of the driver whatever is done with it.
//!
//! The operations that change the state of the controller are gathered as
//! steps: what a transfer does, and what the engine reports. The laws below
//! speak of every step that the state admits.

use vstd::prelude::*;
use crate::peripheral::{Access, Peripheral, Phase};
use crate::registers::{ChannelRegisters, Control, Direction, CHANNEL_COUNT};
use crate::transfer::{Error, Ready, Transfer, TransferResources};

verus! {

/// One operation on the controller.
pub enum Step {
    /// A transfer is built on a channel.
    Prepare {
        channel: int,
        request: u8,
        peripheral_address: u32,
        memory_address: u32,
        len: u16,
        direction: Direction,
    },
    /// A ready transfer is started.
    Start { channel: int },
    /// A started transfer is asked whether it is still active.
    Poll { channel: int },
    /// A started transfer is waited for.
    Wait { channel: int },
    /// The engine reports completion.
    Complete { channel: int },
    /// The engine reports an error.
    Fail { channel: int },
}

impl Step {
    /// The channel that the step works on.
    pub open spec fn channel(self) -> int {
        match self {
            Step::Prepare { channel, .. } => channel,
            Step::Start { channel } => channel,
            Step::Poll { channel } => channel,
            Step::Wait { channel } => channel,
            Step::Complete { channel } => channel,
            Step::Fail { channel } => channel,
        }
    }
}

impl Peripheral {
    /// Whether the step can be taken: its channel exists and, where a
    /// transfer takes the step, is in the phase that the operation asks for.
    pub open spec fn admits(self, step: Step) -> bool {
        &&& 0 <= step.channel() < CHANNEL_COUNT
        &&& match step {
            Step::Prepare { channel, .. } => self.phase(channel) == Phase::Free,
            Step::Start { channel } => self.phase(channel) == Phase::Ready,
            Step::Poll { channel } => self.phase(channel) == Phase::Started,
            Step::Wait { channel } => self.phase(channel) == Phase::Started && self.resolved(
                channel,
            ),
            Step::Complete { .. } => true,
            Step::Fail { .. } => true,
        }
    }

    /// The state after the step.
    pub open spec fn after(self, step: Step) -> Peripheral {
        match step {
            Step::Prepare {
                channel,
                request,
                peripheral_address,
                memory_address,
                len,
                direction,
            } => self.prepare(channel, request, peripheral_address, memory_address, len, direction),
            Step::Start { channel } => self.start(channel),
            Step::Poll { channel } => self.poll_complete(channel),
            Step::Wait { channel } => self.wait(channel),
            Step::Complete { channel } => self.raise_complete(channel),
            Step::Fail { channel } => self.raise_error(channel),
        }
    }
}

/// Every step leaves the state well formed.
pub proof fn lemma_step_keeps_wf(p: Peripheral, step: Step)
    requires
        p.wf(),
        p.admits(step),
    ensures
        p.after(step).wf(),
{
}

/// A step touches one channel only: the registers and the phase of every
/// other channel stay as they are.
pub proof fn lemma_channels_independent(p: Peripheral, step: Step, other: int)
    requires
        p.wf(),
        p.admits(step),
        0 <= other < CHANNEL_COUNT,
        other != step.channel(),
    ensures
        p.after(step).channels[other] == p.channels[other],
        p.after(step).phase(other) == p.phase(other),
{
}

/// A channel that a transfer holds cannot be claimed again: no step but the
/// wait on that very channel frees it, and while it is not free no second
/// transfer can be built on it. The wait does free it.
pub proof fn lemma_channel_exclusive(p: Peripheral, step: Step, i: int, claim: Step)
    requires
        p.wf(),
        p.admits(step),
        0 <= i < CHANNEL_COUNT,
        p.phase(i) != Phase::Free,
        claim is Prepare,
        claim.channel() == i,
    ensures
        !p.admits(claim),
        step != (Step::Wait { channel: i }) ==> p.after(step).phase(i) != Phase::Free
            && !p.after(step).admits(claim),
        step == (Step::Wait { channel: i }) ==> p.after(step).phase(i) == Phase::Free
            && p.after(step).admits(claim),
{
}

/// The phases of a channel follow one another in one direction: a ready
/// channel stays ready until it is started, and nothing else makes it
/// started; a started channel stays started until it is waited for, which
/// frees it, and never becomes ready again.
pub proof fn lemma_phases_advance(p: Peripheral, step: Step, i: int)
    requires
        p.wf(),
        p.admits(step),
        0 <= i < CHANNEL_COUNT,
    ensures
        p.phase(i) == Phase::Ready ==> p.after(step).phase(i) == (if step == (Step::Start {
            channel: i,
        }) {
            Phase::Started
        } else {
            Phase::Ready
        }),
        p.phase(i) == Phase::Started ==> p.after(step).phase(i) == (if step == (Step::Wait {
            channel: i,
        }) {
            Phase::Free
        } else {
            Phase::Started
        }),
        p.after(step).phase(i) == Phase::Started && p.phase(i) != Phase::Started ==> step == (
        Step::Start { channel: i }),
{
}

/// A transfer is programmed in one order: request selector, peripheral
/// address, memory address, length, control register. The last write
/// leaves the channel disabled.
pub proof fn lemma_prepare_order(
    p: Peripheral,
    i: int,
    request: u8,
    peripheral_address: u32,
    memory_address: u32,
    len: u16,
    direction: Direction,
)
    requires
        p.wf(),
        0 <= i < CHANNEL_COUNT,
    ensures
        p.prepare(i, request, peripheral_address, memory_address, len, direction).log == p.log.push(
            Access::SelectTarget { channel: i, request: request },
        ).push(Access::PeripheralAddress { channel: i, address: peripheral_address }).push(
            Access::MemoryAddress { channel: i, address: memory_address },
        ).push(Access::TransferLen { channel: i, len: len }).push(
            Access::Configure { channel: i, direction: direction },
        ),
        p.prepare(i, request, peripheral_address, memory_address, len, direction).channels[i] == (
        ChannelRegisters {
            request: request,
            peripheral_address: peripheral_address,
            memory_address: memory_address,
            transfer_len: len,
            control: Control::spec_polled(direction),
            transfer_complete: p.channels[i].transfer_complete,
            transfer_error: p.channels[i].transfer_error,
        }),
{
}

/// The engine is engaged behind a memory barrier: the barrier is issued
/// first, the enable bit is set second, and nothing else is done.
pub proof fn lemma_start_order(p: Peripheral, i: int)
    requires
        p.wf(),
        0 <= i < CHANNEL_COUNT,
    ensures
        p.start(i).log == p.log.push(Access::Fence).push(Access::Enable { channel: i }),
        p.start(i).channels[i] == (ChannelRegisters {
            control: Control { enabled: true, ..p.channels[i].control },
            ..p.channels[i]
        }),
{
}

/// Polling for completion: while the channel is enabled and the flag is
/// down the poll answers that the transfer runs and changes nothing; the
/// poll that finds the flag up clears it and disables the channel; and once
/// a poll has answered that nothing runs, every later poll says the same
/// and changes nothing.
pub proof fn lemma_poll_settles(p: Peripheral, i: int)
    requires
        p.wf(),
        0 <= i < CHANNEL_COUNT,
    ensures
        p.is_running(i) ==> p.poll_complete(i) == p,
        p.channels[i].control.enabled && p.channels[i].transfer_complete ==> {
            &&& !p.poll_complete(i).channels[i].control.enabled
            &&& !p.poll_complete(i).channels[i].transfer_complete
        },
        !p.is_running(i) ==> {
            &&& !p.poll_complete(i).channels[i].control.enabled
            &&& !p.poll_complete(i).is_running(i)
            &&& p.poll_complete(i).poll_complete(i) == p.poll_complete(i)
        },
{
}

/// A disabled channel stays disabled, so that a poll on it keeps answering
/// that nothing runs, until a transfer is started on it.
pub proof fn lemma_inactive_until_started(p: Peripheral, step: Step, i: int)
    requires
        p.wf(),
        p.admits(step),
        0 <= i < CHANNEL_COUNT,
        !p.channels[i].control.enabled,
        step != (Step::Start { channel: i }),
    ensures
        !p.after(step).channels[i].control.enabled,
        !p.after(step).is_running(i),
{
}

/// An error takes precedence: where the error flag is up the wait fails,
/// whether the engine reports completion as well or not, before or after.
/// The wait leaves the error flag down.
pub proof fn lemma_error_precedence(p: Peripheral, i: int)
    requires
        p.wf(),
        0 <= i < CHANNEL_COUNT,
        p.channels[i].transfer_error,
    ensures
        p.resolved(i),
        p.failed(i),
        p.raise_complete(i).failed(i),
        !p.wait(i).channels[i].transfer_error,
        !p.raise_complete(i).wait(i).channels[i].transfer_error,
{
}

/// A transfer that completed without an error leaves its channel disabled
/// and both flags down, and a memory barrier stands between the last access
/// to the completion flag and the return.
pub proof fn lemma_completion_observed(p: Peripheral, i: int)
    requires
        p.wf(),
        0 <= i < CHANNEL_COUNT,
        p.channels[i].control.enabled,
        p.channels[i].transfer_complete,
        !p.channels[i].transfer_error,
    ensures
        !p.failed(i),
        !p.wait(i).channels[i].control.enabled,
        !p.wait(i).channels[i].transfer_complete,
        !p.wait(i).channels[i].transfer_error,
        p.wait(i).log == p.log.push(Access::ClearComplete { channel: i }).push(
            Access::Disable { channel: i },
        ).push(Access::Fence),
{
}

/// A whole transfer that the engine completes. On a free channel with both
/// flags down, a transfer can be built and started; it then runs until the
/// engine reports completion; after that it can be waited for, the wait
/// succeeds, and the channel is left free and disabled, with both flags
/// down and the registers as they were programmed.
pub proof fn lemma_transfer_completes(
    p: Peripheral,
    i: int,
    request: u8,
    peripheral_address: u32,
    memory_address: u32,
    len: u16,
    direction: Direction,
)
    requires
        p.wf(),
        0 <= i < CHANNEL_COUNT,
        p.phase(i) == Phase::Free,
        !p.channels[i].transfer_complete,
        !p.channels[i].transfer_error,
    ensures
        ({
            let build = Step::Prepare {
                channel: i,
                request,
                peripheral_address,
                memory_address,
                len,
                direction,
            };
            let started = p.after(build).after(Step::Start { channel: i });
            let complete = started.after(Step::Complete { channel: i });
            &&& p.admits(build)
            &&& p.after(build).admits(Step::Start { channel: i })
            &&& started.is_running(i)
            &&& !started.resolved(i)
            &&& complete.admits(Step::Wait { channel: i })
            &&& !complete.failed(i)
            &&& complete.wait(i).phase(i) == Phase::Free
            &&& complete.wait(i).channels[i] == (ChannelRegisters {
                request: request,
                peripheral_address: peripheral_address,
                memory_address: memory_address,
                transfer_len: len,
                control: Control::spec_polled(direction),
                transfer_complete: false,
                transfer_error: false,
            })
        }),
{
}

/// A whole transfer that the engine fails. As before, but the engine
/// reports an error: the wait fails and leaves the error flag down and the
/// channel free. The channel is still enabled: building the next transfer
/// on it writes the whole control register and so disables it.
pub proof fn lemma_transfer_fails(
    p: Peripheral,
    i: int,
    request: u8,
    peripheral_address: u32,
    memory_address: u32,
    len: u16,
    direction: Direction,
)
    requires
        p.wf(),
        0 <= i < CHANNEL_COUNT,
        p.phase(i) == Phase::Free,
        !p.channels[i].transfer_complete,
        !p.channels[i].transfer_error,
    ensures
        ({
            let build = Step::Prepare {
                channel: i,
                request,
                peripheral_address,
                memory_address,
                len,
                direction,
            };
            let started = p.after(build).after(Step::Start { channel: i });
            let broken = started.after(Step::Fail { channel: i });
            &&& broken.admits(Step::Wait { channel: i })
            &&& broken.failed(i)
            &&& broken.wait(i).phase(i) == Phase::Free
            &&& broken.wait(i).channels[i] == (ChannelRegisters {
                request: request,
                peripheral_address: peripheral_address,
                memory_address: memory_address,
                transfer_len: len,
                control: Control { enabled: true, ..Control::spec_polled(direction) },
                transfer_complete: false,
                transfer_error: false,
            })
            &&& broken.wait(i).admits(build)
            &&& !broken.wait(i).after(build).channels[i].control.enabled
        }),
{
}

/// The resources make the round trip: what the wait gives back, with
/// either outcome, is the target, the channel and the buffer that the
/// transfer was built from, and the outcome is a failure exactly where the
/// transfer failed.
pub proof fn lemma_round_trip<T, C, B>(target: T, channel: C, buffer: B, failed: bool)
    ensures
        Transfer::holding(TransferResources { target, channel, buffer }).started().outcome(failed)
            == (if failed {
            Err::<TransferResources<T, C, B>, (TransferResources<T, C, B>, Error)>(
                (TransferResources { target, channel, buffer }, Error),
            )
        } else {
            Ok(TransferResources { target, channel, buffer })
        }),
{
    let res = TransferResources { target, channel, buffer };
    Transfer::<T, C, B, Ready>::lemma_holding(res);
    Transfer::<T, C, B, Ready>::holding(res).lemma_started();
}

} // verus!
