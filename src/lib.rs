//! Register file of an 8-bit CPU with paired 16-bit registers and a flags byte.
pub mod bits;
pub mod register;
