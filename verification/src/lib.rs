//! A modal line-editor engine: a line buffer with character-level edit
//! operations, a cursor/viewport tracker, a mode state machine, a command
//! parser, and an instruction executor. Terminal, file and process I/O live
//! outside this crate; the engine works on plain values and is verified.

pub mod buffer;
pub mod instr;
pub mod parser;
pub mod session;
pub mod viewport;
