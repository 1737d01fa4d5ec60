//! Client library for a Vim practice-exercise service.
//!
//! The heart of the crate is the keystroke-log decoder: it reinterprets the
//! raw byte recording produced by Vim's `-W` key-logging flag as a sequence
//! of human-readable key tokens (`<Esc>`, `<C-C>`, `<F5>`, literal
//! characters). The remaining modules hold the pure parts of the
//! surrounding client: request paths and bodies for the exercise server and
//! the construction of the editor command line. All file, network and
//! process I/O is left to the binary built on top of this crate.

pub mod editor;
pub mod keycodes;
pub mod keylog;
pub mod protocol;
