//! The peripheral singletons of the device crate, as far as the drivers
//! take them: each is an opaque token that proves ownership of one
//! peripheral.

use vstd::prelude::*;

verus! {

/// `ch32v1::ch32v103::RCC`, the owner of the clock-control block. Nothing
/// is claimed of it.
#[verifier::external_type_specification]
#[verifier::external_body]
pub struct ExRcc(ch32v1::ch32v103::RCC);

/// `ch32v1::ch32v103::GPIOA`, the owner of GPIO bank A. Nothing is claimed
/// of it.
#[verifier::external_type_specification]
#[verifier::external_body]
pub struct ExGpioa(ch32v1::ch32v103::GPIOA);

/// `ch32v1::ch32v103::GPIOB`, the owner of GPIO bank B. Nothing is claimed
/// of it.
#[verifier::external_type_specification]
#[verifier::external_body]
pub struct ExGpiob(ch32v1::ch32v103::GPIOB);

/// `ch32v1::ch32v103::AFIO`, the owner of the alternate-function block. Nothing is
/// claimed of it.
#[verifier::external_type_specification]
#[verifier::external_body]
pub struct ExAfio(ch32v1::ch32v103::AFIO);

/// `ch32v1::ch32v103::USART1`, the owner of the first serial port. Nothing is
/// claimed of it.
#[verifier::external_type_specification]
#[verifier::external_body]
pub struct ExUsart1(ch32v1::ch32v103::USART1);

/// `ch32v1::ch32v103::SPI1`, the owner of the first SPI port. Nothing is
/// claimed of it.
#[verifier::external_type_specification]
#[verifier::external_body]
pub struct ExSpi1(ch32v1::ch32v103::SPI1);

/// `ch32v1::ch32v103::I2C1`, the owner of the first I2C port. Nothing is
/// claimed of it.
#[verifier::external_type_specification]
#[verifier::external_body]
pub struct ExI2c1(ch32v1::ch32v103::I2C1);

} // verus!
