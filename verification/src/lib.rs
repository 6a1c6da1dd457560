//! A driver for a multi-channel DMA controller, over a value model of its
//! registers.
//!
//! A transfer takes a target, a channel and a buffer, programs the channel,
//! engages the engine behind a memory barrier, and gives the three back when
//! the engine has reported completion or an error.
//!
//! - `registers` holds the register file as plain values.
//! - `peripheral` holds the abstract state of the controller, and what each
//!   operation does to it.
//! - `rcc` is the part of reset and clock control that brings the controller
//!   up.
//! - `dma` is the entry point: it hands out the handle and the channels.
//! - `handle` owns the register block; every register access goes through it.
//! - `channel` and `target` say what a channel can do and which endpoint it
//!   can serve.
//! - `transfer` holds the life of a transfer: ready, started, ended.
//! - `laws` states what holds of every use of the driver.

mod barrier;
mod buffer;
pub mod channel;
pub mod dma;
pub mod handle;
pub mod laws;
pub mod peripheral;
pub mod rcc;
pub mod registers;
pub mod target;
pub mod transfer;
