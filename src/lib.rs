//! A CHIP-8 virtual machine: memory with its font table, registers, call stack,
//! timers, a packed monochrome display and the fetch-decode-execute engine.
//! Every operation states its effect over a mathematical model of the machine.

pub mod display;
pub mod fault;
pub mod memory;
pub mod keypad;
pub mod registers;
pub mod stack;
pub mod timers;
pub mod instruction;
pub mod engine;
