//! A model of a minimal blinking-LED firmware for a 32-bit microcontroller:
//! the memory-mapped port register block, the exception vector table, and
//! the control flow of the handlers that the table points at.
pub mod control;
pub mod registers;
pub mod vectors;
