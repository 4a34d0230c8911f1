//! Core of a cycle-driven emulator for the SM83-based handheld console and its colour
//! variant: instruction decoder and executor, address space with cartridge mappers,
//! picture unit, timer, joypad and interrupt controller.

pub mod alu;
pub mod cpu;
pub mod cram;
pub mod error;
pub mod gameboy;
pub mod handlers;
pub mod irq;
pub mod joypad;
pub mod mapper;
pub mod mmu;
pub mod palette;
pub mod ppu;
pub mod registers;
pub mod sm83;
pub mod sprite;
pub mod state;
pub mod tile;
pub mod timer;
