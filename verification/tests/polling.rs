use dma_transfer::channel::{Channel, Channel1, Channel3, Channels};
use dma_transfer::dma::DMA;
use dma_transfer::handle::Handle;
use dma_transfer::peripheral::Phase;
use dma_transfer::rcc::Rcc;
use dma_transfer::registers::{ChannelRegisters, Control, Direction, Dma1};
use dma_transfer::target::Target;
use dma_transfer::transfer::{Started, Transfer};

struct Spi;

impl Target<Channel1> for Spi {
    const REQUEST: u8 = 1;
}

impl Target<Channel3> for Spi {
    const REQUEST: u8 = 7;
}

fn bring_up() -> (Handle, Channels) {
    let mut rcc = Rcc::new();
    let dma = DMA::new(Dma1::new(), &mut rcc);
    (dma.handle, dma.channels)
}

fn bytes() -> Box<[u8]> {
    vec![1u8, 2, 3, 4, 5, 6, 7, 8].into_boxed_slice()
}

fn started_on_third(
    handle: &mut Handle,
    channel: Channel3,
) -> Transfer<Spi, Channel3, Box<[u8]>, Started> {
    Transfer::peripheral_to_memory(handle, Spi, channel, bytes(), 0x4001_300C).start(handle)
}

#[test]
fn active_while_the_completion_flag_is_down() {
    let (mut handle, channels) = bring_up();
    let started = started_on_third(&mut handle, channels.channel3);
    let before = *handle.registers();

    for _ in 0..5 {
        assert!(started.is_active(&mut handle));
        assert_eq!(*handle.registers(), before);
    }
}

#[test]
fn first_poll_after_completion_clears_and_disables() {
    let (mut handle, channels) = bring_up();
    let started = started_on_third(&mut handle, channels.channel3);

    handle.signal_complete(2);
    assert!(handle.registers().channels[2].transfer_complete);
    assert!(handle.registers().channels[2].control.enabled);

    assert!(!started.is_active(&mut handle));
    let regs = handle.registers().channels[2];
    assert!(!regs.transfer_complete);
    assert!(!regs.control.enabled);
    assert_eq!(handle.phase(2), Some(Phase::Started));
}

#[test]
fn later_polls_keep_saying_inactive() {
    let (mut handle, channels) = bring_up();
    let started = started_on_third(&mut handle, channels.channel3);
    handle.signal_complete(2);
    assert!(!started.is_active(&mut handle));
    let after_first = *handle.registers();

    for _ in 0..5 {
        assert!(!started.is_active(&mut handle));
        assert_eq!(*handle.registers(), after_first);
    }
}

#[test]
fn wait_after_completion_was_observed_succeeds() {
    let (mut handle, channels) = bring_up();
    let started = started_on_third(&mut handle, channels.channel3);
    handle.signal_complete(2);
    assert!(!started.is_active(&mut handle));

    let res = started.wait(&mut handle).unwrap();
    assert_eq!(res.buffer, bytes());
    assert_eq!(handle.phase(2), Some(Phase::Free));
}

#[test]
fn error_before_completion_fails_the_wait() {
    let (mut handle, channels) = bring_up();
    let started = started_on_third(&mut handle, channels.channel3);

    handle.signal_error(2);
    handle.signal_complete(2);
    let outcome = started.wait(&mut handle);

    let (res, _) = outcome.unwrap_err();
    assert_eq!(res.buffer, bytes());
    let regs = handle.registers().channels[2];
    assert!(!regs.transfer_error);
    assert!(!regs.transfer_complete);
    assert!(!regs.control.enabled);
}

#[test]
fn error_at_completion_fails_the_wait() {
    let (mut handle, channels) = bring_up();
    let started = started_on_third(&mut handle, channels.channel3);

    handle.signal_complete(2);
    handle.signal_error(2);
    assert!(started.wait(&mut handle).is_err());
    assert!(!handle.registers().channels[2].transfer_error);
}

#[test]
fn error_behind_an_observed_completion_fails_the_wait() {
    let (mut handle, channels) = bring_up();
    let started = started_on_third(&mut handle, channels.channel3);

    handle.signal_complete(2);
    assert!(!started.is_active(&mut handle));
    handle.signal_error(2);

    let (res, _) = started.wait(&mut handle).unwrap_err();
    assert_eq!(res.buffer, bytes());
    assert!(!handle.registers().channels[2].transfer_error);
}

#[test]
fn error_alone_leaves_the_channel_enabled() {
    let (mut handle, channels) = bring_up();
    let started = started_on_third(&mut handle, channels.channel3);

    handle.signal_error(2);
    assert!(started.wait(&mut handle).is_err());

    let regs = handle.registers().channels[2];
    assert!(!regs.transfer_error);
    assert!(regs.control.enabled);
    assert_eq!(
        regs,
        ChannelRegisters {
            control: Control { enabled: true, ..Control::polled(Direction::FromPeripheral) },
            transfer_error: false,
            ..regs
        }
    );
}

#[test]
fn flags_of_another_channel_do_not_count() {
    let (mut handle, channels) = bring_up();
    let started = started_on_third(&mut handle, channels.channel3);

    handle.signal_complete(0);
    handle.signal_error(1);
    assert!(started.is_active(&mut handle));
    assert!(handle.registers().channels[0].transfer_complete);
    assert!(handle.registers().channels[1].transfer_error);

    handle.signal_complete(2);
    assert!(started.wait(&mut handle).is_ok());
    assert!(handle.registers().channels[0].transfer_complete);
    assert!(handle.registers().channels[1].transfer_error);
}

#[test]
fn signals_for_no_channel_change_nothing() {
    let (mut handle, _channels) = bring_up();
    let before = *handle.registers();
    handle.signal_complete(7);
    handle.signal_error(7);
    handle.signal_complete(usize::MAX);
    handle.signal_error(usize::MAX);
    assert_eq!(*handle.registers(), before);
}

#[test]
fn signals_raise_one_flag_each() {
    let (mut handle, _channels) = bring_up();
    handle.signal_complete(4);
    handle.signal_error(6);
    let mut expected = Dma1::new();
    expected.channels[4].transfer_complete = true;
    expected.channels[6].transfer_error = true;
    assert_eq!(*handle.registers(), expected);
}

#[test]
fn channel_operations_reach_their_own_registers() {
    let (mut handle, channels) = bring_up();
    let channel = channels.channel1;
    assert_eq!(Channel1::INDEX, 0);
    assert_eq!(Channel3::INDEX, 2);

    channel.select_target(&mut handle, &Spi);
    channel.set_peripheral_address(&mut handle, 0x4001_300C);
    channel.set_memory_address(&mut handle, 0x2000_0000);
    channel.set_transfer_len(&mut handle, 512);
    channel.configure(&mut handle, Direction::FromMemory);
    let mut expected = Dma1::new();
    expected.channels[0] = ChannelRegisters {
        request: 1,
        peripheral_address: 0x4001_300C,
        memory_address: 0x2000_0000,
        transfer_len: 512,
        control: Control::polled(Direction::FromMemory),
        transfer_complete: false,
        transfer_error: false,
    };
    assert_eq!(*handle.registers(), expected);

    channel.start(&mut handle);
    expected.channels[0].control.enabled = true;
    assert_eq!(*handle.registers(), expected);

    assert!(channel.is_active(&mut handle));
    assert!(!channel.error_occured(&mut handle));
    assert_eq!(*handle.registers(), expected);

    handle.signal_error(0);
    assert!(channel.error_occured(&mut handle));
    assert!(!channel.error_occured(&mut handle));
    assert_eq!(*handle.registers(), expected);

    handle.signal_complete(0);
    assert!(!channel.is_active(&mut handle));
    expected.channels[0].control.enabled = false;
    assert_eq!(*handle.registers(), expected);
}

#[test]
fn a_disabled_channel_is_not_active() {
    let (mut handle, channels) = bring_up();
    let channel = channels.channel1;
    let before = *handle.registers();
    assert!(!channel.is_active(&mut handle));
    handle.signal_complete(0);
    assert!(!channel.is_active(&mut handle));
    assert!(handle.registers().channels[0].transfer_complete);
    assert_ne!(*handle.registers(), before);
}

#[test]
fn resolved_once_a_flag_is_up_or_the_channel_is_disabled() {
    let (mut handle, channels) = bring_up();
    let started = started_on_third(&mut handle, channels.channel3);
    assert!(!started.is_resolved(&handle));

    let before = *handle.registers();
    assert!(!started.is_resolved(&handle));
    assert_eq!(*handle.registers(), before);

    handle.signal_error(2);
    assert!(started.is_resolved(&handle));
    assert!(started.wait(&mut handle).is_err());

    let (mut handle, channels) = bring_up();
    let started = started_on_third(&mut handle, channels.channel3);
    handle.signal_complete(2);
    assert!(started.is_resolved(&handle));
    assert!(!started.is_active(&mut handle));
    assert!(started.is_resolved(&handle));
    assert!(started.wait(&mut handle).is_ok());
}
