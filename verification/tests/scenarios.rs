use dma_transfer::channel::Channel1;
use dma_transfer::dma::DMA;
use dma_transfer::peripheral::Phase;
use dma_transfer::rcc::Rcc;
use dma_transfer::registers::{Control, Direction, Dma1};
use dma_transfer::target::Target;
use dma_transfer::transfer::Transfer;

struct Serial;

impl Target<Channel1> for Serial {
    const REQUEST: u8 = 4;
}

fn sixteen_bytes() -> Box<[u8]> {
    (0u8..16).collect::<Vec<u8>>().into_boxed_slice()
}

#[test]
fn completed_transfer_returns_the_buffer() {
    let mut rcc = Rcc::new();
    let dma = DMA::new(Dma1::new(), &mut rcc);
    let mut handle = dma.handle;
    let channel = dma.channels.channel1;

    let ready =
        Transfer::memory_to_peripheral(&mut handle, Serial, channel, sixteen_bytes(), 0x4000_0000);
    let regs = handle.registers().channels[0];
    assert_eq!(regs.request, 4);
    assert_eq!(regs.peripheral_address, 0x4000_0000);
    assert_eq!(regs.transfer_len, 16);
    assert_eq!(regs.control, Control::polled(Direction::FromMemory));
    assert!(!regs.control.enabled);

    let started = ready.start(&mut handle);
    assert!(handle.registers().channels[0].control.enabled);

    handle.signal_complete(0);
    let res = started.wait(&mut handle).unwrap();

    assert_eq!(res.buffer, sixteen_bytes());
    assert_eq!(res.buffer.len(), 16);
    assert_eq!(res.buffer[0], 0x00);
    assert_eq!(res.buffer[15], 0x0F);
    let regs = handle.registers().channels[0];
    assert!(!regs.control.enabled);
    assert!(!regs.transfer_complete);
    assert!(!regs.transfer_error);
    assert_eq!(handle.phase(0), Some(Phase::Free));
}

#[test]
fn failed_transfer_returns_the_resources() {
    let mut rcc = Rcc::new();
    let dma = DMA::new(Dma1::new(), &mut rcc);
    let mut handle = dma.handle;
    let channel = dma.channels.channel1;

    let ready =
        Transfer::memory_to_peripheral(&mut handle, Serial, channel, sixteen_bytes(), 0x4000_0000);
    let started = ready.start(&mut handle);

    handle.signal_error(0);
    let outcome = started.wait(&mut handle);

    match outcome {
        Ok(_) => panic!("an error was flagged"),
        Err((res, _error)) => {
            assert_eq!(res.buffer, sixteen_bytes());
            let _target: Serial = res.target;
            let _channel: Channel1 = res.channel;
        }
    }
    let regs = handle.registers().channels[0];
    assert!(!regs.transfer_error);
    assert!(!regs.transfer_complete);
    assert_eq!(handle.phase(0), Some(Phase::Free));
}

#[test]
fn resources_print_without_their_contents() {
    let mut rcc = Rcc::new();
    let dma = DMA::new(Dma1::new(), &mut rcc);
    let mut handle = dma.handle;

    let ready = Transfer::peripheral_to_memory(
        &mut handle,
        Serial,
        dma.channels.channel1,
        sixteen_bytes(),
        0x4000_0000,
    );
    let started = ready.start(&mut handle);
    handle.signal_error(0);
    let (res, error) = started.wait(&mut handle).unwrap_err();

    assert_eq!(format!("{:?}", res), "TransferResources { ... }");
    assert_eq!(format!("{:?}", error), "Error");
}
