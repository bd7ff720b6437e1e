use ch32v103_hal::afio::AfioExt;
use ch32v103_hal::gpio::GpioExt;
use ch32v103_hal::i2c::{poll, BusStatus, I2c, I2cError, I2cMode, I2cStep, SclPin, SdaPin};
use ch32v103_hal::rcc::{Clocks, PllClkSrc, CFGR};
use ch32v103_hal::regs::{Reg, RegOp};
use ch32v103_hal::serial::{RxPin, RxStatus, Serial, TxPin, UsartError};
use ch32v103_hal::spi::{baud_divider, MisoPin, MosiPin, SckPin, Spi, SpiMode};
use ch32v103_hal::time::U32Ext;

fn modify(reg: Reg, clear: u32, set: u32) -> RegOp {
    RegOp::Modify { reg, clear, set }
}

fn write(reg: Reg, value: u32) -> RegOp {
    RegOp::Write { reg, value }
}

fn op(reg: Reg, clear: u32, set: u32) -> I2cStep {
    I2cStep::Op(modify(reg, clear, set))
}

fn default_clocks() -> Clocks {
    CFGR::new().try_freeze().unwrap().clocks
}

fn fast_clocks() -> Clocks {
    CFGR::new()
        .use_pll(48.mhz(), PllClkSrc::Hsi)
        .hclk(24.mhz())
        .pclk2(6.mhz())
        .try_freeze()
        .unwrap()
        .clocks
}

#[test]
fn remap_clocks_the_block_first() {
    let peripherals = ch32v1::ch32v103::Peripherals::take().unwrap();
    assert_eq!(
        peripherals.AFIO.remap_usart1(),
        vec![modify(Reg::RccApb2Pcenr, 0, 0x1), modify(Reg::AfioPcfr, 0, 0x4)]
    );
}

#[test]
fn serial_on_default_pins() {
    let peripherals = ch32v1::ch32v103::Peripherals::take().unwrap();
    let a = peripherals.GPIOA.split();
    let tx = a.pa9.into_multiplex_push_pull_output().pin;
    let rx = a.pa10.into_floating_input().pin;
    assert!(!tx.remap());
    assert!(!rx.remap());
    let (serial, ops) = Serial::usart1(peripherals.USART1, (tx, rx), 115_200.bps(), &default_clocks());
    assert_eq!(
        ops,
        vec![
            modify(Reg::RccApb2Pcenr, 0, 0x4000),
            write(Reg::Usart1Brr, 69),
            modify(Reg::Usart1Ctlr3, 0x300, 0),
            modify(Reg::Usart1Ctlr1, 0, 0x200c),
        ]
    );
    let (mut tx, mut rx) = serial.split();
    assert_eq!(tx.write(0x80, b'A'), Some(write(Reg::Usart1Datar, 0x41)));
    assert_eq!(tx.write(0x7f, b'A'), None);
    assert!(tx.flush(0x40));
    assert!(!tx.flush(0xbf));
    assert_eq!(rx.read(0x20), RxStatus::Ready);
    assert_eq!(rx.read(0x2f), RxStatus::Ready);
    assert_eq!(rx.read(0x0f), RxStatus::Fault(UsartError::Overrun));
    assert_eq!(rx.read(0x07), RxStatus::Fault(UsartError::Noise));
    assert_eq!(rx.read(0x03), RxStatus::Fault(UsartError::Framing));
    assert_eq!(rx.read(0x01), RxStatus::Fault(UsartError::Parity));
    assert_eq!(rx.read(0xd0), RxStatus::WouldBlock);
    assert_eq!(rx.read(0), RxStatus::WouldBlock);
    assert_eq!(rx.received(0x1c3), 0xc3);
    assert_eq!(rx.received(0x41), 0x41);
}

#[test]
fn serial_on_remapped_pins() {
    let peripherals = ch32v1::ch32v103::Peripherals::take().unwrap();
    let b = peripherals.GPIOB.split();
    let tx = b.pb6.into_multiplex_push_pull_output().pin;
    let rx = b.pb7.into_pull_up_input().pin;
    assert!(tx.remap());
    assert!(rx.remap());
    let (_serial, ops) = Serial::usart1(peripherals.USART1, (tx, rx), 9_600.bps(), &fast_clocks());
    assert_eq!(
        ops,
        vec![
            modify(Reg::RccApb2Pcenr, 0, 0x1),
            modify(Reg::AfioPcfr, 0, 0x4),
            modify(Reg::RccApb2Pcenr, 0, 0x4000),
            write(Reg::Usart1Brr, 625),
            modify(Reg::Usart1Ctlr3, 0x300, 0),
            modify(Reg::Usart1Ctlr1, 0, 0x200c),
        ]
    );
}

#[test]
fn serial_receive_pins_in_either_input_mode() {
    let peripherals = ch32v1::ch32v103::Peripherals::take().unwrap();
    let a = peripherals.GPIOA.split();
    let b = peripherals.GPIOB.split();
    assert!(!a.pa10.remap());
    assert!(b.pb7.remap());
    let pulled = a.pa10.into_pull_up_input().pin;
    assert!(!pulled.remap());
}

#[test]
fn spi_setup_by_mode_and_speed() {
    let peripherals = ch32v1::ch32v103::Peripherals::take().unwrap();
    let a = peripherals.GPIOA.split();
    let sck = a.pa5.into_multiplex_push_pull_output().pin;
    let miso = a.pa6.into_floating_input().pin;
    let mosi = a.pa7.into_multiplex_push_pull_output().pin;
    assert!(!sck.remap());
    assert!(!miso.remap());
    assert!(!mosi.remap());
    let (mut spi, ops) =
        Spi::spi1(peripherals.SPI1, (sck, miso, mosi), SpiMode::Mode3, 100.khz(), &fast_clocks());
    assert_eq!(
        ops,
        vec![
            modify(Reg::RccApb2Pcenr, 0, 0x1000),
            modify(Reg::Spi1Ctlr1, 0x38, 5 << 3),
            modify(Reg::Spi1Ctlr1, 0, 0x2),
            modify(Reg::Spi1Ctlr1, 0, 0x1),
            modify(Reg::Spi1Ctlr1, 0, 0x300),
            modify(Reg::Spi1Ctlr1, 0, 0x44),
        ]
    );
    assert_eq!(spi.enable(), modify(Reg::Spi1Ctlr1, 0, 0x40));
    assert_eq!(spi.disable(), modify(Reg::Spi1Ctlr1, 0x40, 0));
    assert!(spi.read(0x01));
    assert!(!spi.read(0x81));
    assert!(!spi.read(0x02));
    assert_eq!(spi.send(0x02, 0xa5), Some(write(Reg::Spi1Datar, 0xa5)));
    assert_eq!(spi.send(0x01, 0xa5), None);
}

#[test]
fn spi_polarity_and_phase_of_each_mode() {
    let peripherals = ch32v1::ch32v103::Peripherals::take().unwrap();
    let a = peripherals.GPIOA.split();
    let sck = a.pa5.into_multiplex_push_pull_output().pin;
    let miso = a.pa6.into_floating_input().pin;
    let mosi = a.pa7.into_multiplex_push_pull_output().pin;
    let (_spi, ops) =
        Spi::spi1(peripherals.SPI1, (sck, miso, mosi), SpiMode::Mode1, 8.mhz(), &default_clocks());
    assert_eq!(ops[1], modify(Reg::Spi1Ctlr1, 0x38, 0));
    assert_eq!(ops[2], modify(Reg::Spi1Ctlr1, 0x2, 0));
    assert_eq!(ops[3], modify(Reg::Spi1Ctlr1, 0, 0x1));
}

#[test]
fn spi_divider_ladder() {
    let p = 72_000_000;
    assert_eq!(baud_divider(p, p), 0);
    assert_eq!(baud_divider(p, 36_000_000), 0);
    assert_eq!(baud_divider(p, 24_000_000), 1);
    assert_eq!(baud_divider(p, 12_000_001), 1);
    assert_eq!(baud_divider(p, 12_000_000), 2);
    assert_eq!(baud_divider(p, 6_000_000), 3);
    assert_eq!(baud_divider(p, 3_000_000), 4);
    assert_eq!(baud_divider(p, 1_500_000), 5);
    assert_eq!(baud_divider(p, 750_000), 6);
    assert_eq!(baud_divider(p, 376_964), 6);
    assert_eq!(baud_divider(p, 375_000), 7);
    assert_eq!(baud_divider(p, 1), 7);
}

#[test]
fn i2c_setup_by_mode_and_bus_clock() {
    let peripherals = ch32v1::ch32v103::Peripherals::take().unwrap();
    let b = peripherals.GPIOB.split();
    let scl = b.pb6.into_multiplex_open_drain_output().pin;
    let sda = b.pb7.into_multiplex_open_drain_output().pin;
    assert!(!scl.remap());
    assert!(!sda.remap());
    let (i2c, ops) = I2c::i2c1(peripherals.I2C1, (scl, sda), I2cMode::Standard, &default_clocks());
    assert_eq!(
        ops,
        vec![
            modify(Reg::RccApb1Pcenr, 0, 0x0020_0000),
            modify(Reg::I2c1Ctlr2, 0x3f, 8),
            modify(Reg::I2c1Ckcfgr, 0x8fff, 40),
            modify(Reg::I2c1Ctlr1, 0, 0x1),
        ]
    );
    assert_eq!(i2c.status(0x0001_8083), 0x8083);
}

#[test]
fn i2c_fast_mode_below_ten_megahertz() {
    let peripherals = ch32v1::ch32v103::Peripherals::take().unwrap();
    let b = peripherals.GPIOB.split();
    let scl = b.pb6.into_multiplex_open_drain_output().pin;
    let sda = b.pb7.into_multiplex_open_drain_output().pin;
    let (_i2c, ops) = I2c::i2c1(peripherals.I2C1, (scl, sda), I2cMode::Fast, &default_clocks());
    assert_eq!(
        ops[2..4].to_vec(),
        vec![modify(Reg::I2c1Ckcfgr, 0x4000, 0), modify(Reg::I2c1Ckcfgr, 0x0fff, 0x8000 | 6)]
    );
}

#[test]
fn i2c_fast_mode_from_ten_megahertz() {
    let peripherals = ch32v1::ch32v103::Peripherals::take().unwrap();
    let b = peripherals.GPIOB.split();
    let scl = b.pb6.into_multiplex_open_drain_output().pin;
    let sda = b.pb7.into_multiplex_open_drain_output().pin;
    let clocks = CFGR::new().use_pll(72.mhz(), PllClkSrc::Hsi).pclk1(36.mhz()).try_freeze().unwrap().clocks;
    assert_eq!(clocks.pclk1().0, 36_000_000);
    let (_i2c, ops) = I2c::i2c1(peripherals.I2C1, (scl, sda), I2cMode::Fast, &clocks);
    assert_eq!(ops[1], modify(Reg::I2c1Ctlr2, 0x3f, 36));
    assert_eq!(
        ops[2..4].to_vec(),
        vec![modify(Reg::I2c1Ckcfgr, 0, 0x4000), modify(Reg::I2c1Ckcfgr, 0x0fff, 0x8000 | 3)]
    );
}

#[test]
fn i2c_status_word_by_rank() {
    assert_eq!(poll(0x0001, 0x0001), BusStatus::Ready);
    assert_eq!(poll(0x1f01, 0x0001), BusStatus::Ready);
    assert_eq!(poll(0x0000, 0x0001), BusStatus::Pending);
    assert_eq!(poll(0x00fe, 0x0001), BusStatus::Pending);
    assert_eq!(poll(0x1f00, 0x0002), BusStatus::Fault(I2cError::CrcError));
    assert_eq!(poll(0x0f00, 0x0002), BusStatus::Fault(I2cError::OverrunError));
    assert_eq!(poll(0x0700, 0x0002), BusStatus::Fault(I2cError::Nak));
    assert_eq!(poll(0x0300, 0x0002), BusStatus::Fault(I2cError::ArbitrationError));
    assert_eq!(poll(0x0100, 0x0002), BusStatus::Fault(I2cError::BusError));
    assert_eq!(poll(0x0400, 0x0080), BusStatus::Fault(I2cError::Nak));
}

#[test]
fn i2c_transfers_step_by_step() {
    let peripherals = ch32v1::ch32v103::Peripherals::take().unwrap();
    let b = peripherals.GPIOB.split();
    let scl = b.pb6.into_multiplex_open_drain_output().pin;
    let sda = b.pb7.into_multiplex_open_drain_output().pin;
    let (mut i2c, _) = I2c::i2c1(peripherals.I2C1, (scl, sda), I2cMode::Standard, &default_clocks());
    let ctlr1 = Reg::I2c1Ctlr1;
    let datar = Reg::I2c1Datar;
    let address = |word: u32| {
        vec![
            op(ctlr1, 0, 0x100),
            I2cStep::Await { flag: 0x1 },
            I2cStep::Op(write(datar, word)),
            I2cStep::Await { flag: 0x2 },
            I2cStep::ReadStar2,
        ]
    };
    let reset = I2cStep::Op(write(Reg::I2c1Star1, 0));
    let stop = op(ctlr1, 0, 0x200);

    let mut expected = vec![reset];
    expected.extend(address(0x90));
    expected.extend(vec![
        I2cStep::Await { flag: 0x80 },
        I2cStep::Op(write(datar, 0x03)),
        I2cStep::Await { flag: 0x80 },
        I2cStep::Op(write(datar, 0xff)),
        I2cStep::Await { flag: 0x4 },
        stop,
    ]);
    assert_eq!(i2c.write(0x48, &[0x03, 0xff]), expected);

    let mut expected = vec![reset];
    expected.extend(address(0x90));
    expected.extend(vec![I2cStep::Await { flag: 0x4 }, stop]);
    assert_eq!(i2c.write(0x48, &[]), expected);

    let mut expected = vec![reset];
    expected.extend(address(0x91));
    expected.extend(vec![
        op(ctlr1, 0, 0x400),
        I2cStep::Await { flag: 0x40 },
        I2cStep::Receive { index: 0 },
        op(ctlr1, 0x400, 0),
        I2cStep::Await { flag: 0x40 },
        I2cStep::Receive { index: 1 },
        stop,
    ]);
    assert_eq!(i2c.read(0x48, 2), expected);

    let mut expected = vec![reset];
    expected.extend(address(0x1ff));
    expected.extend(vec![op(ctlr1, 0, 0x400), stop]);
    assert_eq!(i2c.read(0xff, 0), expected);

    let mut expected = vec![reset];
    expected.extend(address(0x00));
    expected.extend(vec![
        I2cStep::Await { flag: 0x80 },
        I2cStep::Op(write(datar, 0x07)),
        I2cStep::Await { flag: 0x80 },
    ]);
    expected.extend(address(0x01));
    expected.extend(vec![
        op(ctlr1, 0, 0x400),
        op(ctlr1, 0x400, 0),
        I2cStep::Await { flag: 0x40 },
        I2cStep::Receive { index: 0 },
        stop,
    ]);
    assert_eq!(i2c.write_read(0x00, &[0x07], 1), expected);
}
