//! A CHIP-8 virtual machine with machine-checked contracts.
//!
//! The machine state is modelled as plain sequences and integers in
//! [`model`]; [`semantics`] and [`display`] say what each instruction does
//! to that model. [`machine`] holds the state in fixed arrays, [`decode`]
//! turns instruction words into instructions and [`cpu`] runs the
//! fetch-decode-execute cycle, each function proved against the model.
//! [`laws`] states properties that follow. [`console`], [`keypad`],
//! [`history`] and [`text`] are what a host needs around the machine.

pub mod fault;
pub mod font;
pub mod model;
pub mod decode;
pub mod display;
pub mod semantics;
pub mod machine;
pub mod random;
pub mod cpu;
pub mod laws;
pub mod keypad;
pub mod history;
pub mod console;
pub mod text;
