//! Clock-tree configuration and type-state pin handling for the CH32V103
//! family, with every register effect expressed as a value and proved.

pub mod adc;
pub mod afio;
pub mod delay;
pub mod gpio;
pub mod i2c;
pub mod i2c_transfer;
pub mod interrupt;
pub mod pac;
pub mod rcc;
pub mod rcc_effect;
pub mod rcc_laws;
pub mod rcc_model;
pub mod rcc_program;
pub mod regs;
pub mod serial;
pub mod spi;
pub mod systick;
pub mod time;
pub mod timer;
