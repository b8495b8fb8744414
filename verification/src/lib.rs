//! The logic of a Nintendo 64 emulator front end around its C core: the
//! hardware's register files and instruction fields, the launch options, the
//! choice of a cartridge's save memory, and the start-up and shut-down of a run
//! as a state machine.
#![allow(non_camel_case_types)]

pub mod ai;
pub mod allocator;
pub mod cart_db;
pub mod dd;
pub mod options;
pub mod pi;
pub mod rdp;
pub mod ri;
pub mod rsp;
pub mod si;
pub mod startup;
pub mod vi;
pub mod vr4300;
