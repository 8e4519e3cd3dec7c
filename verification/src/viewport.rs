//! Terminal geometry, the cursor, and the viewport tracker that keeps the
//! cursor position and the scroll offset legal relative to the buffer size
//! and the terminal height.

use vstd::prelude::*;
use crate::buffer::LineBuffer;

verus! {

/// A pair of terminal dimensions: `x` columns and `y` rows.
#[derive(Copy, Clone)]
pub struct Size2 {
    pub x: u16,
    pub y: u16,
}

impl Size2 {
    pub fn new(x: u16, y: u16) -> (r: Self)
        ensures
            r.x == x,
            r.y == y,
    {
        Self { x, y }
    }
}

/// How many buffer lines fit on a terminal of `term` dimensions: all rows
/// but the separator and status rows, and at least one.
pub fn text_rows(term: Size2) -> (r: u16)
    ensures
        r == if term.y >= 3 { term.y - 2 } else { 1int },
        r >= 1,
{
    if term.y >= 3 {
        term.y - 2
    } else {
        1
    }
}

/// How many lines of captured shell output a terminal of `term` dimensions
/// shows; further lines are truncated.
pub fn output_rows(term: Size2) -> (r: u16)
    ensures
        r == if term.y >= 3 { term.y - 3 } else { 0int },
{
    if term.y >= 3 {
        term.y - 3
    } else {
        0
    }
}

/// How many buffer lines the renderer draws: the lines from the scroll
/// offset on, up to the height of the visible window.
pub fn lines_to_draw(offset: usize, line_count: usize, visible_rows: usize) -> (n: usize)
    requires
        offset <= line_count,
    ensures
        n == if line_count - offset < visible_rows {
            line_count - offset
        } else {
            visible_rows as int
        },
        offset + n <= line_count,
        n <= visible_rows,
{
    if line_count - offset < visible_rows {
        line_count - offset
    } else {
        visible_rows
    }
}

/// A 1-based cursor position: line index and column index, the column
/// being an insertion point, so column `len + 1` means after the last
/// character of the line.
#[derive(Copy, Clone)]
pub struct Cursor {
    pub line: usize,
    pub col: usize,
}

/// The cursor with its line clamped to `[1, line_count]` and its column
/// clamped to the insertion points of that line.
pub open spec fn spec_clamp_cursor(b: Seq<Seq<char>>, cur: Cursor) -> Cursor {
    let l = if cur.line < 1 {
        1int
    } else if cur.line > b.len() {
        b.len() as int
    } else {
        cur.line as int
    };
    let c = if cur.col < 1 {
        1int
    } else if cur.col > b[l - 1].len() + 1 {
        b[l - 1].len() + 1int
    } else {
        cur.col as int
    };
    Cursor { line: l as usize, col: c as usize }
}

impl Cursor {
    /// The cursor invariant relative to a buffer: the line exists and the
    /// column is an insertion point within it.
    pub open spec fn ok(&self, b: Seq<Seq<char>>) -> bool {
        &&& 1 <= self.line <= b.len()
        &&& 1 <= self.col <= b[self.line - 1].len() + 1
    }

    pub fn new(line: usize, col: usize) -> (r: Self)
        ensures
            r.line == line,
            r.col == col,
    {
        Self { line, col }
    }

    /// Re-establishes the cursor invariant after a buffer mutation: the
    /// line is clamped to `[1, line_count]`, then the column to
    /// `[1, current_line.length + 1]`. A position already legal is kept.
    pub fn clamp_to(&mut self, buf: &LineBuffer)
        requires
            buf.wf(),
        ensures
            *final(self) == spec_clamp_cursor(buf@, *old(self)),
            final(self).ok(buf@),
            old(self).ok(buf@) ==> *final(self) == *old(self),
    {
        let count = buf.line_count();
        if self.line < 1 {
            self.line = 1;
        } else if self.line > count {
            self.line = count;
        }
        let ll = buf.line_len(self.line);
        if self.col < 1 {
            self.col = 1;
        } else if self.col - 1 > ll {
            self.col = ll + 1;
        }
    }
}

/// Scrolls the viewport the minimum amount needed so that the cursor line
/// `cursor_line` falls within the `visible_rows` lines starting after the
/// 0-based scroll offset, keeping the offset within
/// `[0, max(0, line_count - visible_rows)]`.
pub fn scroll_into_view(
    offset: &mut usize,
    cursor_line: usize,
    line_count: usize,
    visible_rows: usize,
)
    requires
        visible_rows >= 1,
        1 <= cursor_line <= line_count,
    ensures
        *final(offset) == ({
            let maxo = if line_count > visible_rows {
                (line_count - visible_rows) as int
            } else {
                0int
            };
            let base = if *old(offset) > maxo {
                maxo
            } else {
                *old(offset) as int
            };
            if cursor_line <= base {
                cursor_line - 1
            } else if cursor_line > base + visible_rows {
                cursor_line - visible_rows
            } else {
                base
            }
        }),
        *final(offset) <= cursor_line - 1,
        cursor_line <= *final(offset) + visible_rows,
        *final(offset) <= if line_count > visible_rows {
            (line_count - visible_rows) as int
        } else {
            0int
        },
{
    let maxo = if line_count > visible_rows {
        line_count - visible_rows
    } else {
        0
    };
    if *offset > maxo {
        *offset = maxo;
    }
    if cursor_line <= *offset {
        *offset = cursor_line - 1;
    } else if cursor_line > *offset + visible_rows {
        *offset = cursor_line - visible_rows;
    }
}

} // verus!
