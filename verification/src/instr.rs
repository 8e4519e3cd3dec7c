//! The editing modes, the key events that drive them, the structured
//! instructions the parser and the key handlers emit, and the mode
//! transition rules.

use vstd::prelude::*;

verus! {

/// The editing modes: exactly one is active at a time.
#[derive(Copy, Clone, PartialEq, Eq, Structural, Debug)]
pub enum Mode {
    /// Accumulating a `:`-prefixed command line.
    Command,
    /// Typing directly into the buffer.
    Insert,
    /// Showing the captured output of a shell command.
    RunningOutput,
}

/// A discrete key event from the terminal: a printable character or a
/// named key.
#[derive(Copy, Clone, PartialEq, Eq, Structural, Debug)]
pub enum KeyEvent {
    Char(char),
    Esc,
    Enter,
    Backspace,
    Delete,
    Up,
    Down,
    Left,
    Right,
    /// Any key the editor does not react to.
    Other,
}

/// A structured directive produced by the command parser or a key handler
/// and consumed, left to right, by the instruction executor.
#[derive(PartialEq, Eq, Debug)]
pub enum Instr {
    /// Replace the buffer with the content of this file.
    LoadFile(Vec<char>),
    /// Write the buffer to the current file.
    SaveFile,
    /// Stop the outer loop.
    Quit,
    /// Remember this shell command for the running-output screen.
    RunShell(Vec<char>),
    EnterCommandMode,
    EnterInsertMode,
    EnterRunningMode,
}

/// The mathematical model of an instruction: paths and commands as
/// character sequences.
pub enum InstrView {
    LoadFile(Seq<char>),
    SaveFile,
    Quit,
    RunShell(Seq<char>),
    EnterCommandMode,
    EnterInsertMode,
    EnterRunningMode,
}

impl View for Instr {
    type V = InstrView;

    open spec fn view(&self) -> InstrView {
        match self {
            Instr::LoadFile(p) => InstrView::LoadFile(p@),
            Instr::SaveFile => InstrView::SaveFile,
            Instr::Quit => InstrView::Quit,
            Instr::RunShell(c) => InstrView::RunShell(c@),
            Instr::EnterCommandMode => InstrView::EnterCommandMode,
            Instr::EnterInsertMode => InstrView::EnterInsertMode,
            Instr::EnterRunningMode => InstrView::EnterRunningMode,
        }
    }
}

impl DeepView for Instr {
    type V = InstrView;

    open spec fn deep_view(&self) -> InstrView {
        self@
    }
}

/// The mode transition relation, driven by instructions alone: entering
/// insert or running-output mode is possible only from command mode, and
/// both return to command mode. Any other instruction leaves the mode as
/// it is; `Quit` stops the outer loop and is not a mode change.
pub open spec fn spec_mode_step(m: Mode, i: InstrView) -> Mode {
    match (m, i) {
        (Mode::Command, InstrView::EnterInsertMode) => Mode::Insert,
        (Mode::Command, InstrView::EnterRunningMode) => Mode::RunningOutput,
        (Mode::Insert, InstrView::EnterCommandMode) => Mode::Command,
        (Mode::RunningOutput, InstrView::EnterCommandMode) => Mode::Command,
        _ => m,
    }
}

/// Applies one instruction to the mode state machine.
pub fn mode_step(m: Mode, i: &Instr) -> (r: Mode)
    ensures
        r == spec_mode_step(m, i@),
{
    match (m, i) {
        (Mode::Command, Instr::EnterInsertMode) => Mode::Insert,
        (Mode::Command, Instr::EnterRunningMode) => Mode::RunningOutput,
        (Mode::Insert, Instr::EnterCommandMode) => Mode::Command,
        (Mode::RunningOutput, Instr::EnterCommandMode) => Mode::Command,
        _ => m,
    }
}

} // verus!
