//! Pins as capability tokens whose type carries their electrical mode.
//!
//! A mode transition consumes the token and returns one of the new type,
//! together with the register operations that put the pin into that mode.

use crate::regs::{field, field_update, Port, PortReg, Reg, RegOp};
use core::marker::PhantomData;
use vstd::prelude::*;

pub mod gpioa;
pub mod gpiob;
pub mod laws;

verus! {

/// Splits a GPIO bank into its pins.
pub trait GpioExt {
    type Parts;

    fn split(self) -> Self::Parts;
}

/// Input mode, of the given kind.
pub struct Input<MODE> {
    _mode: PhantomData<MODE>,
}

/// Analog input.
pub struct Analog;

/// Floating input.
pub struct Floating;

/// Input with pull-down.
pub struct PullDown;

/// Input with pull-up.
pub struct PullUp;

/// Output mode driven by the output-data register, of the given kind.
pub struct Output<MODE> {
    _mode: PhantomData<MODE>,
}

/// Output mode driven by a peripheral, of the given kind.
pub struct AltOutput<MODE> {
    _mode: PhantomData<MODE>,
}

/// Push-pull output stage.
pub struct PushPull;

/// Open-drain output stage.
pub struct OpenDrain;

/// The eight electrical modes, as values.
#[derive(Clone, Copy, PartialEq, Eq, Debug, Structural)]
pub enum PinMode {
    AnalogInput,
    FloatingInput,
    PullUpInput,
    PullDownInput,
    PushPullOutput,
    OpenDrainOutput,
    AltPushPullOutput,
    AltOpenDrainOutput,
}

/// A type that stands for one electrical mode.
pub trait Mode {
    /// The mode that the type stands for.
    spec fn mode() -> PinMode;

    /// The mode that the type stands for.
    fn tag() -> (r: PinMode)
        ensures
            r == Self::mode(),
    ;
}

impl Mode for Input<Analog> {
    open spec fn mode() -> PinMode {
        PinMode::AnalogInput
    }

    fn tag() -> (r: PinMode) {
        PinMode::AnalogInput
    }
}

impl Mode for Input<Floating> {
    open spec fn mode() -> PinMode {
        PinMode::FloatingInput
    }

    fn tag() -> (r: PinMode) {
        PinMode::FloatingInput
    }
}

impl Mode for Input<PullUp> {
    open spec fn mode() -> PinMode {
        PinMode::PullUpInput
    }

    fn tag() -> (r: PinMode) {
        PinMode::PullUpInput
    }
}

impl Mode for Input<PullDown> {
    open spec fn mode() -> PinMode {
        PinMode::PullDownInput
    }

    fn tag() -> (r: PinMode) {
        PinMode::PullDownInput
    }
}

impl Mode for Output<PushPull> {
    open spec fn mode() -> PinMode {
        PinMode::PushPullOutput
    }

    fn tag() -> (r: PinMode) {
        PinMode::PushPullOutput
    }
}

impl Mode for Output<OpenDrain> {
    open spec fn mode() -> PinMode {
        PinMode::OpenDrainOutput
    }

    fn tag() -> (r: PinMode) {
        PinMode::OpenDrainOutput
    }
}

impl Mode for AltOutput<PushPull> {
    open spec fn mode() -> PinMode {
        PinMode::AltPushPullOutput
    }

    fn tag() -> (r: PinMode) {
        PinMode::AltPushPullOutput
    }
}

impl Mode for AltOutput<OpenDrain> {
    open spec fn mode() -> PinMode {
        PinMode::AltOpenDrainOutput
    }

    fn tag() -> (r: PinMode) {
        PinMode::AltOpenDrainOutput
    }
}

impl PinMode {
    /// The four configuration bits of the mode: the two mode bits below
    /// the two configuration bits.
    pub open spec fn nibble(self) -> u32 {
        match self {
            PinMode::AnalogInput => 0b0000,
            PinMode::FloatingInput => 0b0100,
            PinMode::PullUpInput => 0b1000,
            PinMode::PullDownInput => 0b1000,
            PinMode::PushPullOutput => 0b0011,
            PinMode::OpenDrainOutput => 0b0111,
            PinMode::AltPushPullOutput => 0b1011,
            PinMode::AltOpenDrainOutput => 0b1111,
        }
    }

    /// The level that the output-data bit is forced to on entering the
    /// mode: high for pull-up, low for pull-down, none otherwise.
    pub open spec fn forced_level(self) -> Option<bool> {
        match self {
            PinMode::PullUpInput => Some(true),
            PinMode::PullDownInput => Some(false),
            _ => None,
        }
    }

    /// The four configuration bits of the mode.
    pub fn bits(self) -> (r: u32)
        ensures
            r == self.nibble(),
            r <= 0xf,
    {
        match self {
            PinMode::AnalogInput => 0b0000,
            PinMode::FloatingInput => 0b0100,
            PinMode::PullUpInput => 0b1000,
            PinMode::PullDownInput => 0b1000,
            PinMode::PushPullOutput => 0b0011,
            PinMode::OpenDrainOutput => 0b0111,
            PinMode::AltPushPullOutput => 0b1011,
            PinMode::AltOpenDrainOutput => 0b1111,
        }
    }
}

/// The configuration register that holds the bits of pin `index`.
pub open spec fn config_reg(index: u8) -> PortReg {
    if index < 8 {
        PortReg::Cfglr
    } else {
        PortReg::Cfghr
    }
}

/// The offset of the configuration bits of pin `index` in its register.
pub open spec fn config_offset(index: u8) -> u32 {
    (4 * (index % 8)) as u32
}

/// The configuration bits of pin `index` in a word of its register.
pub open spec fn config_nibble(word: u32, index: u8) -> u32 {
    field(word, config_offset(index), 4)
}

/// The read-modify-write that puts pin `index` of `port` into `mode`.
pub open spec fn config_op(port: Port, index: u8, mode: PinMode) -> RegOp {
    field_update(Reg::Gpio(port, config_reg(index)), config_offset(index), 4, mode.nibble())
}

/// The write that drives pin `index` of `port` to `high`.
pub open spec fn drive_op(port: Port, index: u8, high: bool) -> RegOp {
    RegOp::Write {
        reg: Reg::Gpio(
            port,
            if high {
                PortReg::Bshr
            } else {
                PortReg::Bcr
            },
        ),
        value: 1u32 << (index as u32),
    }
}

/// The write that forces the output-data bit of a pin entering `mode`, if
/// the mode forces one.
pub open spec fn level_op(port: Port, index: u8, mode: PinMode) -> Option<RegOp> {
    match mode.forced_level() {
        Some(high) => Some(drive_op(port, index, high)),
        None => None,
    }
}

/// Bit `index` of a port's data word.
pub open spec fn level(word: u32, index: u8) -> bool {
    word & (1u32 << (index as u32)) != 0
}

/// The token of pin `INDEX` of bank `PORT` (0 for A, 1 for B) in mode
/// `MODE`. Only a split of the bank makes one; a transition consumes it.
pub struct Pin<const PORT: u8, const INDEX: u8, MODE> {
    _mode: PhantomData<MODE>,
}

/// What a mode transition hands back: the token in its new mode and the
/// operations that make the hardware follow, `config` first.
pub struct Transition<P> {
    pub pin: P,
    pub config: RegOp,
    pub level: Option<RegOp>,
}

/// The bank with the given number.
pub open spec fn port_of(number: u8) -> Port {
    if number == 0 {
        Port::A
    } else {
        Port::B
    }
}

impl<const PORT: u8, const INDEX: u8, MODE> Pin<PORT, INDEX, MODE> {
    #[verifier::type_invariant]
    spec fn in_bank(self) -> bool {
        PORT < 2 && INDEX < 16
    }

    /// The bank of the pin.
    pub fn port(&self) -> (r: Port)
        ensures
            r == port_of(PORT),
    {
        if PORT == 0 {
            Port::A
        } else {
            Port::B
        }
    }

    /// The number of the pin in its bank, below 16.
    pub fn index(&self) -> (r: u8)
        ensures
            r == INDEX,
            r < 16,
    {
        proof {
            use_type_invariant(self);
        }
        INDEX
    }

    /// Puts the pin into the mode that `NEW` stands for.
    pub fn into_mode<NEW: Mode>(self) -> (r: Transition<Pin<PORT, INDEX, NEW>>)
        ensures
            r.config == config_op(port_of(PORT), INDEX, NEW::mode()),
            r.level == level_op(port_of(PORT), INDEX, NEW::mode()),
    {
        proof {
            use_type_invariant(&self);
            crate::regs::lemma_low_bits();
        }
        let port = self.port();
        let mode = NEW::tag();
        let reg = if INDEX < 8 {
            PortReg::Cfglr
        } else {
            PortReg::Cfghr
        };
        let offset: u32 = 4 * ((INDEX % 8) as u32);
        let config = RegOp::set_field(Reg::Gpio(port, reg), offset, 4, mode.bits());
        let level = match mode {
            PinMode::PullUpInput => Some(
                RegOp::Write { reg: Reg::Gpio(port, PortReg::Bshr), value: 1u32 << (INDEX as u32) },
            ),
            PinMode::PullDownInput => Some(
                RegOp::Write { reg: Reg::Gpio(port, PortReg::Bcr), value: 1u32 << (INDEX as u32) },
            ),
            _ => None,
        };
        Transition { pin: Pin { _mode: PhantomData }, config, level }
    }

    /// Makes the pin an analog input.
    pub fn into_analog_input(self) -> (r: Transition<Pin<PORT, INDEX, Input<Analog>>>)
        ensures
            r.config == config_op(port_of(PORT), INDEX, PinMode::AnalogInput),
            r.level is None,
    {
        self.into_mode::<Input<Analog>>()
    }

    /// Makes the pin a floating input.
    pub fn into_floating_input(self) -> (r: Transition<Pin<PORT, INDEX, Input<Floating>>>)
        ensures
            r.config == config_op(port_of(PORT), INDEX, PinMode::FloatingInput),
            r.level is None,
    {
        self.into_mode::<Input<Floating>>()
    }

    /// Makes the pin an input with pull-up: the output-data bit is forced
    /// high, which selects the pull direction.
    pub fn into_pull_up_input(self) -> (r: Transition<Pin<PORT, INDEX, Input<PullUp>>>)
        ensures
            r.config == config_op(port_of(PORT), INDEX, PinMode::PullUpInput),
            r.level == Some(drive_op(port_of(PORT), INDEX, true)),
    {
        self.into_mode::<Input<PullUp>>()
    }

    /// Makes the pin an input with pull-down: the output-data bit is forced
    /// low, which selects the pull direction.
    pub fn into_pull_down_input(self) -> (r: Transition<Pin<PORT, INDEX, Input<PullDown>>>)
        ensures
            r.config == config_op(port_of(PORT), INDEX, PinMode::PullDownInput),
            r.level == Some(drive_op(port_of(PORT), INDEX, false)),
    {
        self.into_mode::<Input<PullDown>>()
    }

    /// Makes the pin an open-drain output.
    pub fn into_open_drain_output(self) -> (r: Transition<Pin<PORT, INDEX, Output<OpenDrain>>>)
        ensures
            r.config == config_op(port_of(PORT), INDEX, PinMode::OpenDrainOutput),
            r.level is None,
    {
        self.into_mode::<Output<OpenDrain>>()
    }

    /// Makes the pin a push-pull output.
    pub fn into_push_pull_output(self) -> (r: Transition<Pin<PORT, INDEX, Output<PushPull>>>)
        ensures
            r.config == config_op(port_of(PORT), INDEX, PinMode::PushPullOutput),
            r.level is None,
    {
        self.into_mode::<Output<PushPull>>()
    }

    /// Makes the pin a push-pull output driven by a peripheral.
    pub fn into_multiplex_push_pull_output(self) -> (r: Transition<
        Pin<PORT, INDEX, AltOutput<PushPull>>,
    >)
        ensures
            r.config == config_op(port_of(PORT), INDEX, PinMode::AltPushPullOutput),
            r.level is None,
    {
        self.into_mode::<AltOutput<PushPull>>()
    }

    /// Makes the pin an open-drain output driven by a peripheral.
    pub fn into_multiplex_open_drain_output(self) -> (r: Transition<
        Pin<PORT, INDEX, AltOutput<OpenDrain>>,
    >)
        ensures
            r.config == config_op(port_of(PORT), INDEX, PinMode::AltOpenDrainOutput),
            r.level is None,
    {
        self.into_mode::<AltOutput<OpenDrain>>()
    }
}

impl<const PORT: u8, const INDEX: u8, MODE: Mode> Pin<PORT, INDEX, MODE> {
    /// The mode that the token's type carries.
    pub fn mode(&self) -> (r: PinMode)
        ensures
            r == MODE::mode(),
    {
        MODE::tag()
    }
}

impl<const PORT: u8, const INDEX: u8, MODE> Pin<PORT, INDEX, Input<MODE>> {
    /// True if the pin reads high in `indr`, the bank's input-data word.
    pub fn is_high(&self, indr: u32) -> (r: bool)
        ensures
            r == level(indr, INDEX),
    {
        proof {
            use_type_invariant(self);
        }
        indr & (1u32 << (INDEX as u32)) != 0
    }

    /// True if the pin reads low in `indr`, the bank's input-data word.
    pub fn is_low(&self, indr: u32) -> (r: bool)
        ensures
            r == !level(indr, INDEX),
    {
        proof {
            use_type_invariant(self);
        }
        indr & (1u32 << (INDEX as u32)) == 0
    }
}

impl<const PORT: u8, const INDEX: u8, MODE> Pin<PORT, INDEX, Output<MODE>> {
    /// The write that drives the pin high.
    pub fn set_high(&mut self) -> (op: RegOp)
        ensures
            op == drive_op(port_of(PORT), INDEX, true),
    {
        proof {
            use_type_invariant(&*self);
        }
        RegOp::Write { reg: Reg::Gpio(self.port(), PortReg::Bshr), value: 1u32 << (INDEX as u32) }
    }

    /// The write that drives the pin low.
    pub fn set_low(&mut self) -> (op: RegOp)
        ensures
            op == drive_op(port_of(PORT), INDEX, false),
    {
        proof {
            use_type_invariant(&*self);
        }
        RegOp::Write { reg: Reg::Gpio(self.port(), PortReg::Bcr), value: 1u32 << (INDEX as u32) }
    }

    /// True if the pin was last driven high, by `outdr`, the bank's
    /// output-data word. This is the level commanded, not the level on the
    /// wire.
    pub fn is_set_high(&self, outdr: u32) -> (r: bool)
        ensures
            r == level(outdr, INDEX),
    {
        proof {
            use_type_invariant(self);
        }
        outdr & (1u32 << (INDEX as u32)) != 0
    }

    /// True if the pin was last driven low, by `outdr`, the bank's
    /// output-data word.
    pub fn is_set_low(&self, outdr: u32) -> (r: bool)
        ensures
            r == !level(outdr, INDEX),
    {
        proof {
            use_type_invariant(self);
        }
        outdr & (1u32 << (INDEX as u32)) == 0
    }

    /// The write that drives the pin to the opposite of the level last
    /// commanded, by `outdr`. Reading `outdr` and carrying out the write
    /// are two steps: an interrupt handler that drives the same pin between
    /// them is overwritten.
    pub fn toggle(&mut self, outdr: u32) -> (op: RegOp)
        ensures
            op == drive_op(port_of(PORT), INDEX, !level(outdr, INDEX)),
    {
        if self.is_set_high(outdr) {
            self.set_low()
        } else {
            self.set_high()
        }
    }
}

} // verus!
