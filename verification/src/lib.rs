//! Boot-time privilege transition and address-translation setup for a 64-bit
//! Arm core, with every decision stated as a contract and proved.
//!
//! The library never touches hardware. Each step takes the register values
//! that the platform layer has read and hands back the values and operations
//! that the platform layer is to perform.
#![allow(non_snake_case)]
#![allow(non_camel_case_types)]

pub mod bits;
pub mod boot;
pub mod cpu;
pub mod descriptor;
pub mod leds;
pub mod mmu;
pub mod ops;
pub mod page_table;
pub mod uart;
