//! Register model and boot-time support for Cortex-M4 microcontrollers.
//!
//! A register word is a plain unsigned integer; its meaning lies in the bit fields that a
//! register type declares over it. `register` holds the field arithmetic, `cell` the storage
//! cells and the read-modify-write proxy, the peripheral modules the register types of each
//! block, and `boot` and `vectors` the boot sequence and the exception vector table.
pub mod boot;
pub mod cell;
pub mod fpu;
pub mod mpu;
pub mod ppb;
pub mod register;
pub mod scb;
pub mod systick;
pub mod vectors;
pub mod volatile;
