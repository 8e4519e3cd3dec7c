//! The editing session and the per-event decision logic: one key handler
//! per mode, and the instruction executor. The outer loop lives outside
//! the crate: it feeds key events in, performs the returned actions (file
//! reads and writes, shell commands) and hands their results back.

use vstd::prelude::*;
use crate::buffer::{LineBuffer, lines_of_text, text_of_lines, spec_split_line, spec_merge_prev};
use crate::instr::{Instr, InstrView, KeyEvent, Mode, mode_step, spec_mode_step};
use crate::parser::{copy_chars, parse_command, spec_parse_command};
use crate::viewport::{Cursor, scroll_into_view, spec_clamp_cursor};

verus! {

/// The user-visible status of the last file operation, shown on the
/// status row; each variant carries the path it speaks of.
#[derive(PartialEq, Eq, Debug)]
pub enum Status {
    Idle,
    Loaded(Vec<char>),
    LoadFailed(Vec<char>),
    Saved(Vec<char>),
    SaveFailed(Vec<char>),
}

/// The mathematical model of a status message.
pub enum StatusView {
    Idle,
    Loaded(Seq<char>),
    LoadFailed(Seq<char>),
    Saved(Seq<char>),
    SaveFailed(Seq<char>),
}

impl View for Status {
    type V = StatusView;

    open spec fn view(&self) -> StatusView {
        match self {
            Status::Idle => StatusView::Idle,
            Status::Loaded(p) => StatusView::Loaded(p@),
            Status::LoadFailed(p) => StatusView::LoadFailed(p@),
            Status::Saved(p) => StatusView::Saved(p@),
            Status::SaveFailed(p) => StatusView::SaveFailed(p@),
        }
    }
}

/// What the executor asks the outside collaborators to do: nothing, read
/// a file, or write a text to a file.
pub enum Action {
    Nothing,
    /// Read this path, then hand the outcome to `finish_load`.
    Load(Vec<char>),
    /// Write this text to this path, then hand the outcome to
    /// `finish_save`.
    Save(Vec<char>, Vec<char>),
}

/// The mathematical model of an action.
pub enum ActionView {
    Nothing,
    Load(Seq<char>),
    Save(Seq<char>, Seq<char>),
}

impl View for Action {
    type V = ActionView;

    open spec fn view(&self) -> ActionView {
        match self {
            Action::Nothing => ActionView::Nothing,
            Action::Load(p) => ActionView::Load(p@),
            Action::Save(p, t) => ActionView::Save(p@, t@),
        }
    }
}

/// `n + 1`, held at the largest representable index; the guard never
/// bites on a buffer that fits in memory.
pub open spec fn sat_add1(n: int) -> usize {
    if n + 1 > usize::MAX {
        usize::MAX
    } else {
        (n + 1) as usize
    }
}

/// The column `col` clamped to the insertion points of the 1-based line
/// `line` of `b`.
pub open spec fn clamp_col(b: Seq<Seq<char>>, line: usize, col: usize) -> usize {
    if col > b[line - 1].len() + 1 {
        (b[line - 1].len() + 1) as usize
    } else {
        col
    }
}

/// What one key event does in insert mode to the buffer and the cursor,
/// and which instructions it emits: printable characters are inserted at
/// the cursor, `Enter` splits the line, `Backspace` deletes backwards or
/// merges at column one, `Delete` clears the line, the arrows move within
/// bounds, and `Esc` returns to command mode.
pub open spec fn spec_insert_key(b: Seq<Seq<char>>, cur: Cursor, key: KeyEvent) -> (
    Seq<Seq<char>>,
    Cursor,
    Option<Seq<InstrView>>,
) {
    match key {
        KeyEvent::Esc => (b, cur, Some(seq![InstrView::EnterCommandMode])),
        KeyEvent::Left => (
            b,
            Cursor {
                line: cur.line,
                col: if cur.col > 1 {
                    (cur.col - 1) as usize
                } else {
                    cur.col
                },
            },
            None,
        ),
        KeyEvent::Right => (
            b,
            Cursor {
                line: cur.line,
                col: if cur.col <= b[cur.line - 1].len() {
                    sat_add1(cur.col as int)
                } else {
                    cur.col
                },
            },
            None,
        ),
        KeyEvent::Up => if cur.line > 1 {
            let l = (cur.line - 1) as usize;
            (b, Cursor { line: l, col: clamp_col(b, l, cur.col) }, None)
        } else {
            (b, cur, None)
        },
        KeyEvent::Down => if cur.line < b.len() {
            let l = (cur.line + 1) as usize;
            (b, Cursor { line: l, col: clamp_col(b, l, cur.col) }, None)
        } else {
            (b, cur, None)
        },
        KeyEvent::Enter => (
            spec_split_line(b, cur.line as int, cur.col as int),
            Cursor { line: sat_add1(cur.line as int), col: 1 },
            None,
        ),
        KeyEvent::Delete => (b.update(cur.line - 1, Seq::empty()), Cursor { line: cur.line, col: 1 }, None),
        KeyEvent::Backspace => if cur.col > 1 {
            (
                b.update(cur.line - 1, b[cur.line - 1].remove(cur.col - 2)),
                Cursor { line: cur.line, col: (cur.col - 1) as usize },
                None,
            )
        } else if cur.line > 1 {
            (
                spec_merge_prev(b, cur.line as int),
                Cursor { line: (cur.line - 1) as usize, col: sat_add1(b[cur.line - 2].len() as int) },
                None,
            )
        } else {
            (b, cur, None)
        },
        KeyEvent::Char(c) => if c == '\n' {
            (
                spec_split_line(b, cur.line as int, cur.col as int),
                Cursor { line: sat_add1(cur.line as int), col: 1 },
                None,
            )
        } else {
            (
                b.update(cur.line - 1, b[cur.line - 1].insert(cur.col - 1, c)),
                Cursor { line: cur.line, col: sat_add1(cur.col as int) },
                None,
            )
        },
        KeyEvent::Other => (b, cur, None),
    }
}

/// What one key event does in command mode to the accumulated command
/// line, and which instructions end the mode's key loop: characters are
/// appended, `Backspace` removes the last one, `i` on an empty line
/// enters insert mode at once, and `Enter` parses the line.
pub open spec fn spec_command_key(cmd0: Seq<char>, key: KeyEvent) -> (
    Seq<char>,
    Option<Seq<InstrView>>,
) {
    match key {
        KeyEvent::Char(c) => if c == 'i' && cmd0.len() == 0 {
            (cmd0, Some(seq![InstrView::EnterInsertMode]))
        } else {
            (cmd0.push(c), None)
        },
        KeyEvent::Backspace => (
            if cmd0.len() > 0 {
                cmd0.drop_last()
            } else {
                cmd0
            },
            None,
        ),
        KeyEvent::Enter => (Seq::empty(), Some(spec_parse_command(cmd0))),
        _ => (cmd0, None),
    }
}

/// Applies one key event to the command line being accumulated; a
/// returned batch of instructions ends command mode's key loop.
pub fn handle_command_key(cmd: &mut Vec<char>, key: KeyEvent) -> (r: Option<Vec<Instr>>)
    ensures
        final(cmd)@ == spec_command_key(old(cmd)@, key).0,
        r.deep_view() == spec_command_key(old(cmd)@, key).1,
{
    match key {
        KeyEvent::Char(c) => {
            if c == 'i' && cmd.len() == 0 {
                let mut v: Vec<Instr> = Vec::new();
                v.push(Instr::EnterInsertMode);
                proof {
                    assert(v.deep_view() =~= seq![InstrView::EnterInsertMode]);
                }
                Some(v)
            } else {
                cmd.push(c);
                None
            }
        },
        KeyEvent::Backspace => {
            if cmd.len() > 0 {
                cmd.pop();
            }
            None
        },
        KeyEvent::Enter => {
            let r = parse_command(cmd);
            cmd.clear();
            Some(r)
        },
        _ => None,
    }
}

/// Applies one key event to the running-output screen: `Enter` returns
/// to command mode, every other key is ignored.
pub fn handle_running_key(key: KeyEvent) -> (r: Option<Vec<Instr>>)
    ensures
        key == KeyEvent::Enter ==> r.deep_view() == Some(seq![InstrView::EnterCommandMode]),
        key != KeyEvent::Enter ==> r is None,
{
    match key {
        KeyEvent::Enter => {
            let mut v: Vec<Instr> = Vec::new();
            v.push(Instr::EnterCommandMode);
            proof {
                assert(v.deep_view() =~= seq![InstrView::EnterCommandMode]);
            }
            Some(v)
        },
        _ => None,
    }
}

/// One editing session: the document, the cursor and scroll position, the
/// active mode, the file path, the pending shell command, the run flag of
/// the outer loop, and the status message.
pub struct Session {
    pub buffer: LineBuffer,
    pub cursor: Cursor,
    /// The 0-based index of the first visible buffer line.
    pub offset: usize,
    pub mode: Mode,
    /// The path the buffer is saved to and loaded from.
    pub path: Vec<char>,
    /// The shell command the running-output screen shows.
    pub cmd: Vec<char>,
    /// False once a `Quit` instruction was executed.
    pub running: bool,
    pub status: Status,
}

impl Session {
    /// The session invariant: the buffer is well formed and the cursor
    /// points at an insertion point inside it.
    pub open spec fn wf(&self) -> bool {
        &&& self.buffer.wf()
        &&& self.cursor.ok(self.buffer@)
    }

    /// The document parts (buffer, cursor, scroll offset, path) of `a`
    /// and `b` are the same.
    pub open spec fn same_doc(a: Session, b: Session) -> bool {
        &&& a.buffer@ == b.buffer@
        &&& a.cursor == b.cursor
        &&& a.offset == b.offset
        &&& a.path@ == b.path@
    }

    /// A fresh session on a single empty line, in command mode.
    pub fn new(path: Vec<char>) -> (s: Session)
        ensures
            s.wf(),
            s.buffer@ == seq![Seq::<char>::empty()],
            s.cursor == (Cursor { line: 1usize, col: 1usize }),
            s.offset == 0,
            s.mode == Mode::Command,
            s.path@ == path@,
            s.cmd@.len() == 0,
            s.running,
            s.status@ is Idle,
    {
        Session {
            buffer: LineBuffer::new(),
            cursor: Cursor::new(1, 1),
            offset: 0,
            mode: Mode::Command,
            path,
            cmd: Vec::new(),
            running: true,
            status: Status::Idle,
        }
    }

    /// A fresh session on the lines of `text`, in command mode: what
    /// opening a readable file at startup yields.
    pub fn with_text(path: Vec<char>, text: &Vec<char>) -> (s: Session)
        ensures
            s.wf(),
            s.buffer@ == lines_of_text(text@),
            s.cursor == (Cursor { line: 1usize, col: 1usize }),
            s.offset == 0,
            s.mode == Mode::Command,
            s.path@ == path@,
            s.cmd@.len() == 0,
            s.running,
            s.status@ is Idle,
    {
        Session {
            buffer: LineBuffer::load_from_text(text),
            cursor: Cursor::new(1, 1),
            offset: 0,
            mode: Mode::Command,
            path,
            cmd: Vec::new(),
            running: true,
            status: Status::Idle,
        }
    }

    /// Executes one instruction: `Quit` clears the run flag, `RunShell`
    /// stores the pending command, the mode changes go through the mode
    /// state machine, and the file instructions return the action the
    /// outside collaborator must perform; its outcome comes back through
    /// `finish_load` or `finish_save`.
    pub fn apply_instr(&mut self, i: &Instr) -> (a: Action)
        ensures
            old(self).wf() ==> final(self).wf(),
            i@ is Quit ==> {
                &&& Self::same_doc(*final(self), *old(self))
                &&& final(self).mode == old(self).mode
                &&& final(self).cmd@ == old(self).cmd@
                &&& final(self).status == old(self).status
                &&& !final(self).running
                &&& a@ is Nothing
            },
            i@ matches InstrView::RunShell(c) ==> {
                &&& Self::same_doc(*final(self), *old(self))
                &&& final(self).mode == old(self).mode
                &&& final(self).cmd@ == c
                &&& final(self).status == old(self).status
                &&& final(self).running == old(self).running
                &&& a@ is Nothing
            },
            i@ matches InstrView::LoadFile(p) ==> {
                &&& Self::same_doc(*final(self), *old(self))
                &&& final(self).mode == old(self).mode
                &&& final(self).cmd@ == old(self).cmd@
                &&& final(self).status == old(self).status
                &&& final(self).running == old(self).running
                &&& a@ == ActionView::Load(p)
            },
            i@ is SaveFile ==> {
                &&& Self::same_doc(*final(self), *old(self))
                &&& final(self).mode == old(self).mode
                &&& final(self).cmd@ == old(self).cmd@
                &&& final(self).status == old(self).status
                &&& final(self).running == old(self).running
                &&& a@ == ActionView::Save(old(self).path@, text_of_lines(old(self).buffer@))
            },
            (i@ is EnterCommandMode || i@ is EnterInsertMode || i@ is EnterRunningMode) ==> {
                &&& Self::same_doc(*final(self), *old(self))
                &&& final(self).mode == spec_mode_step(old(self).mode, i@)
                &&& final(self).cmd@ == old(self).cmd@
                &&& final(self).status == old(self).status
                &&& final(self).running == old(self).running
                &&& a@ is Nothing
            },
    {
        match i {
            Instr::Quit => {
                self.running = false;
                Action::Nothing
            },
            Instr::RunShell(c) => {
                self.cmd = copy_chars(c);
                Action::Nothing
            },
            Instr::LoadFile(p) => Action::Load(copy_chars(p)),
            Instr::SaveFile => Action::Save(copy_chars(&self.path), self.buffer.to_text()),
            Instr::EnterCommandMode | Instr::EnterInsertMode | Instr::EnterRunningMode => {
                self.mode = mode_step(self.mode, i);
                Action::Nothing
            },
        }
    }

    /// Takes in what the persistence collaborator returned for a load of
    /// `path`: on success the buffer is replaced by the file's lines, the
    /// cursor returns to the top, the viewport to the first line, and the
    /// path is adopted; on failure the buffer is a single empty line and
    /// the path stays as it was. Either way the status message says what
    /// happened to which path.
    pub fn finish_load(&mut self, path: Vec<char>, text: Option<&Vec<char>>)
        ensures
            final(self).wf(),
            final(self).cursor == (Cursor { line: 1usize, col: 1usize }),
            final(self).offset == 0,
            final(self).mode == old(self).mode,
            final(self).cmd@ == old(self).cmd@,
            final(self).running == old(self).running,
            text matches Some(t) ==> {
                &&& final(self).buffer@ == lines_of_text(t@)
                &&& final(self).path@ == path@
                &&& final(self).status@ == StatusView::Loaded(path@)
            },
            text is None ==> {
                &&& final(self).buffer@ == seq![Seq::<char>::empty()]
                &&& final(self).path@ == old(self).path@
                &&& final(self).status@ == StatusView::LoadFailed(path@)
            },
    {
        self.cursor = Cursor::new(1, 1);
        self.offset = 0;
        match text {
            Some(t) => {
                self.buffer = LineBuffer::load_from_text(t);
                self.path = copy_chars(&path);
                self.status = Status::Loaded(path);
            },
            None => {
                self.buffer = LineBuffer::new();
                self.status = Status::LoadFailed(path);
            },
        }
    }

    /// Takes in whether the persistence collaborator managed to write the
    /// buffer: only the status message changes, naming the current path.
    pub fn finish_save(&mut self, ok: bool)
        ensures
            old(self).wf() ==> final(self).wf(),
            Self::same_doc(*final(self), *old(self)),
            final(self).mode == old(self).mode,
            final(self).cmd@ == old(self).cmd@,
            final(self).running == old(self).running,
            ok ==> final(self).status@ == StatusView::Saved(old(self).path@),
            !ok ==> final(self).status@ == StatusView::SaveFailed(old(self).path@),
    {
        let p = copy_chars(&self.path);
        self.status = if ok {
            Status::Saved(p)
        } else {
            Status::SaveFailed(p)
        };
    }

    /// Forgets the status message, as the renderer does once it has shown
    /// it for a frame.
    pub fn clear_status(&mut self)
        ensures
            Self::same_doc(*final(self), *old(self)),
            final(self).mode == old(self).mode,
            final(self).cmd@ == old(self).cmd@,
            final(self).running == old(self).running,
            final(self).status@ is Idle,
            old(self).wf() ==> final(self).wf(),
    {
        self.status = Status::Idle;
    }

    /// Applies one key event in insert mode; a returned batch ends insert
    /// mode's key loop. The buffer stays well formed and the cursor stays
    /// on an insertion point.
    pub fn handle_insert_key(&mut self, key: KeyEvent) -> (r: Option<Vec<Instr>>)
        requires
            old(self).wf(),
        ensures
            final(self).wf(),
            final(self).buffer@ == spec_insert_key(old(self).buffer@, old(self).cursor, key).0,
            final(self).cursor == spec_insert_key(old(self).buffer@, old(self).cursor, key).1,
            r.deep_view() == spec_insert_key(old(self).buffer@, old(self).cursor, key).2,
            final(self).offset == old(self).offset,
            final(self).mode == old(self).mode,
            final(self).path@ == old(self).path@,
            final(self).cmd@ == old(self).cmd@,
            final(self).running == old(self).running,
            final(self).status == old(self).status,
    {
        match key {
            KeyEvent::Esc => {
                let mut v: Vec<Instr> = Vec::new();
                v.push(Instr::EnterCommandMode);
                proof {
                    assert(v.deep_view() =~= seq![InstrView::EnterCommandMode]);
                }
                Some(v)
            },
            KeyEvent::Left => {
                if self.cursor.col > 1 {
                    self.cursor.col = self.cursor.col - 1;
                }
                None
            },
            KeyEvent::Right => {
                let ll = self.buffer.line_len(self.cursor.line);
                if self.cursor.col <= ll && self.cursor.col < usize::MAX {
                    self.cursor.col = self.cursor.col + 1;
                }
                None
            },
            KeyEvent::Up => {
                if self.cursor.line > 1 {
                    self.cursor.line = self.cursor.line - 1;
                    let ll = self.buffer.line_len(self.cursor.line);
                    if self.cursor.col > ll {
                        self.cursor.col = ll + 1;
                    }
                }
                None
            },
            KeyEvent::Down => {
                if self.cursor.line < self.buffer.line_count() {
                    self.cursor.line = self.cursor.line + 1;
                    let ll = self.buffer.line_len(self.cursor.line);
                    if self.cursor.col > ll {
                        self.cursor.col = ll + 1;
                    }
                }
                None
            },
            KeyEvent::Enter => {
                self.split_at_cursor();
                None
            },
            KeyEvent::Delete => {
                self.buffer.clear_line(self.cursor.line);
                self.cursor.col = 1;
                None
            },
            KeyEvent::Backspace => {
                if self.cursor.col > 1 {
                    self.buffer.delete_char(self.cursor.line, self.cursor.col);
                    self.cursor.col = self.cursor.col - 1;
                } else if self.cursor.line > 1 {
                    let pl = self.buffer.line_len(self.cursor.line - 1);
                    self.buffer.merge_with_previous(self.cursor.line);
                    self.cursor.line = self.cursor.line - 1;
                    self.cursor.col = if pl < usize::MAX {
                        pl + 1
                    } else {
                        pl
                    };
                }
                None
            },
            KeyEvent::Char(c) => {
                if c == '\n' {
                    self.split_at_cursor();
                } else {
                    self.buffer.insert_char(self.cursor.line, self.cursor.col, c);
                    if self.cursor.col < usize::MAX {
                        self.cursor.col = self.cursor.col + 1;
                    }
                }
                None
            },
            KeyEvent::Other => None,
        }
    }

    /// Splits the current line at the cursor and puts the cursor at the
    /// start of the new line below.
    fn split_at_cursor(&mut self)
        requires
            old(self).wf(),
        ensures
            final(self).wf(),
            final(self).buffer@ == spec_split_line(
                old(self).buffer@,
                old(self).cursor.line as int,
                old(self).cursor.col as int,
            ),
            final(self).cursor == (Cursor {
                line: sat_add1(old(self).cursor.line as int),
                col: 1usize,
            }),
            final(self).offset == old(self).offset,
            final(self).mode == old(self).mode,
            final(self).path@ == old(self).path@,
            final(self).cmd@ == old(self).cmd@,
            final(self).running == old(self).running,
            final(self).status == old(self).status,
    {
        self.buffer.split_line(self.cursor.line, self.cursor.col);
        if self.cursor.line < usize::MAX {
            self.cursor.line = self.cursor.line + 1;
        }
        self.cursor.col = 1;
    }

    /// Runs the viewport tracker: re-clamps the cursor to the buffer,
    /// then scrolls the minimum amount needed so the cursor line is
    /// visible among the `visible_rows` lines shown from the scroll
    /// offset on, which stays within `[0, max(0, line_count -
    /// visible_rows)]`. A cursor already legal is not moved.
    pub fn track_viewport(&mut self, visible_rows: usize)
        requires
            old(self).buffer.wf(),
            visible_rows >= 1,
        ensures
            final(self).wf(),
            final(self).buffer@ == old(self).buffer@,
            final(self).cursor == spec_clamp_cursor(old(self).buffer@, old(self).cursor),
            old(self).cursor.ok(old(self).buffer@) ==> final(self).cursor == old(self).cursor,
            final(self).mode == old(self).mode,
            final(self).path@ == old(self).path@,
            final(self).cmd@ == old(self).cmd@,
            final(self).running == old(self).running,
            final(self).status == old(self).status,
            final(self).offset <= final(self).cursor.line - 1,
            final(self).cursor.line <= final(self).offset + visible_rows,
            final(self).offset <= if final(self).buffer@.len() > visible_rows {
                final(self).buffer@.len() - visible_rows
            } else {
                0int
            },
    {
        let mut c = self.cursor;
        c.clamp_to(&self.buffer);
        self.cursor = c;
        let count = self.buffer.line_count();
        let mut o = self.offset;
        scroll_into_view(&mut o, self.cursor.line, count, visible_rows);
        self.offset = o;
    }
}

} // verus!
