//! The line buffer: an ordered sequence of text lines with character-level
//! insert, split, merge, delete and clear operations, and conversion to and
//! from a flat text with line terminators.

use vstd::prelude::*;

verus! {

/// Splits `s` on line terminators; `cur` accumulates the characters of the
/// segment being read. Always yields at least one segment.
pub open spec fn split_acc(s: Seq<char>, cur: Seq<char>) -> Seq<Seq<char>>
    decreases s.len(),
{
    if s.len() == 0 {
        seq![cur]
    } else if s[0] == '\n' {
        seq![cur] + split_acc(s.skip(1), Seq::empty())
    } else {
        split_acc(s.skip(1), cur.push(s[0]))
    }
}

/// The segments of `s` between line terminators.
pub open spec fn split_text(s: Seq<char>) -> Seq<Seq<char>> {
    split_acc(s, Seq::empty())
}

/// The line sequence a loaded text yields: its segments, without the empty
/// segment a trailing terminator produces, and never fewer than one line.
pub open spec fn lines_of_text(s: Seq<char>) -> Seq<Seq<char>> {
    let segs = split_text(s);
    if segs.len() > 1 && segs.last().len() == 0 {
        segs.drop_last()
    } else {
        segs
    }
}

/// The flat text a line sequence is saved as: every line followed by a
/// line terminator, the last included.
pub open spec fn text_of_lines(lines: Seq<Seq<char>>) -> Seq<char>
    decreases lines.len(),
{
    if lines.len() == 0 {
        Seq::empty()
    } else {
        lines[0] + seq!['\n'] + text_of_lines(lines.skip(1))
    }
}

/// The buffer after the 1-based line `line` is split at the 1-based
/// column `col`.
pub open spec fn spec_split_line(b: Seq<Seq<char>>, line: int, col: int) -> Seq<Seq<char>> {
    b.subrange(0, line - 1) + seq![b[line - 1].take(col - 1), b[line - 1].skip(col - 1)]
        + b.skip(line)
}

/// The buffer after the 1-based line `line` is appended to the line above
/// it and removed.
pub open spec fn spec_merge_prev(b: Seq<Seq<char>>, line: int) -> Seq<Seq<char>> {
    b.subrange(0, line - 2) + seq![b[line - 2] + b[line - 1]] + b.skip(line)
}

/// Law: splitting a line anywhere and then merging the resulting second
/// line back into the first restores the original buffer exactly.
pub proof fn lemma_split_merge_round_trip(b: Seq<Seq<char>>, line: int, col: int)
    requires
        1 <= line <= b.len(),
        1 <= col <= b[line - 1].len() + 1,
    ensures
        spec_merge_prev(spec_split_line(b, line, col), line + 1) == b,
{
    assert(b[line - 1].take(col - 1) + b[line - 1].skip(col - 1) =~= b[line - 1]);
    assert(spec_merge_prev(spec_split_line(b, line, col), line + 1) =~~= b);
}

/// An ordered sequence of text lines. Each line is a vector of characters
/// holding no line terminator, and the buffer always holds at least one
/// line, even for an empty document.
pub struct LineBuffer {
    lines: Vec<Vec<char>>,
}

impl View for LineBuffer {
    type V = Seq<Seq<char>>;

    closed spec fn view(&self) -> Seq<Seq<char>> {
        Seq::new(self.lines@.len(), |i: int| self.lines@[i]@)
    }
}

impl LineBuffer {
    /// The buffer invariant: at least one line, no embedded line terminator.
    pub open spec fn wf(&self) -> bool {
        &&& self@.len() >= 1
        &&& forall|i: int| 0 <= i < self@.len() ==> !self@[i].contains('\n')
    }

    /// A fresh buffer holding a single empty line.
    pub fn new() -> (r: LineBuffer)
        ensures
            r@ =~= seq![Seq::<char>::empty()],
            r.wf(),
    {
        let mut lines: Vec<Vec<char>> = Vec::new();
        lines.push(Vec::new());
        let r = LineBuffer { lines };
        proof {
            assert(r@ =~~= seq![Seq::<char>::empty()]);
        }
        r
    }

    /// How many lines the buffer holds.
    pub fn line_count(&self) -> (n: usize)
        ensures
            n == self@.len(),
    {
        self.lines.len()
    }

    /// The length of the 1-based line `line`.
    pub fn line_len(&self, line: usize) -> (n: usize)
        requires
            1 <= line <= self@.len(),
        ensures
            n == self@[line - 1].len(),
    {
        self.lines[line - 1].len()
    }

    /// A copy of the characters of the 1-based line `line`.
    pub fn line(&self, line: usize) -> (r: Vec<char>)
        requires
            1 <= line <= self@.len(),
        ensures
            r@ == self@[line - 1],
    {
        crate::parser::copy_chars(&self.lines[line - 1])
    }

    /// Inserts `ch` before the 1-based column `col` on the 1-based line
    /// `line`. A position out of bounds, or a line terminator, leaves the
    /// buffer unchanged: callers are expected to clamp first.
    pub fn insert_char(&mut self, line: usize, col: usize, ch: char)
        ensures
            (1 <= line <= old(self)@.len() && 1 <= col <= old(self)@[line - 1].len() + 1
                && ch != '\n') ==> final(self)@ == old(self)@.update(
                line - 1,
                old(self)@[line - 1].insert(col - 1, ch),
            ),
            !(1 <= line <= old(self)@.len() && 1 <= col <= old(self)@[line - 1].len() + 1
                && ch != '\n') ==> final(self)@ == old(self)@,
            old(self).wf() ==> final(self).wf(),
            final(self)@.len() == old(self)@.len(),
    {
        if 1 <= line && line <= self.lines.len() {
            let idx = line - 1;
            if 1 <= col && col - 1 <= self.lines[idx].len() && ch != '\n' {
                let mut l = self.lines.remove(idx);
                l.insert(col - 1, ch);
                self.lines.insert(idx, l);
                proof {
                    assert(self@ =~~= old(self)@.update(
                        line - 1,
                        old(self)@[line - 1].insert(col - 1, ch),
                    ));
                }
            } else {
                proof {
                    assert(self@ =~~= old(self)@);
                }
            }
        } else {
            proof {
                assert(self@ =~~= old(self)@);
            }
        }
    }

    /// Replaces the 1-based line `line` with two lines: the characters
    /// before the 1-based column `col`, and the characters from `col` on.
    /// No characters are lost or duplicated; the line count grows by one.
    pub fn split_line(&mut self, line: usize, col: usize)
        requires
            1 <= line <= old(self)@.len(),
            1 <= col <= old(self)@[line - 1].len() + 1,
        ensures
            final(self)@ == spec_split_line(old(self)@, line as int, col as int),
            final(self)@.len() == old(self)@.len() + 1,
            old(self).wf() ==> final(self).wf(),
    {
        let idx = line - 1;
        let mut prefix = self.lines.remove(idx);
        let suffix = prefix.split_off(col - 1);
        self.lines.insert(idx, suffix);
        self.lines.insert(idx, prefix);
        proof {
            assert(self@ =~~= spec_split_line(old(self)@, line as int, col as int));
        }
    }

    /// Appends the content of the 1-based line `line` to the line above it
    /// and removes line `line`. Leaves the buffer unchanged when `line` is
    /// the first line; otherwise the line count shrinks by one.
    pub fn merge_with_previous(&mut self, line: usize)
        requires
            1 <= line <= old(self)@.len(),
        ensures
            line > 1 ==> final(self)@ == spec_merge_prev(old(self)@, line as int),
            line > 1 ==> final(self)@.len() == old(self)@.len() - 1,
            line == 1 ==> final(self)@ == old(self)@,
            old(self).wf() ==> final(self).wf(),
    {
        if line >= 2 {
            let idx = line - 1;
            let cur = self.lines.remove(idx);
            let mut prev = self.lines.remove(idx - 1);
            let mut k: usize = 0;
            while k < cur.len()
                invariant
                    k <= cur@.len(),
                    prev@ == old(self)@[line - 2] + cur@.take(k as int),
                decreases cur@.len() - k,
            {
                prev.push(cur[k]);
                k += 1;
                proof {
                    assert(prev@ =~= old(self)@[line - 2] + cur@.take(k as int));
                }
            }
            proof {
                assert(prev@ =~= old(self)@[line - 2] + old(self)@[line - 1]);
            }
            self.lines.insert(idx - 1, prev);
            proof {
                assert(self@ =~~= spec_merge_prev(old(self)@, line as int));
            }
        } else {
            proof {
                assert(self@ =~~= old(self)@);
            }
        }
    }

    /// Removes the character immediately before the 1-based column `col` on
    /// line `line` when `col > 1` (backspace); at column 1 this is a merge
    /// with the previous line instead.
    pub fn delete_char(&mut self, line: usize, col: usize)
        requires
            1 <= line <= old(self)@.len(),
            1 <= col <= old(self)@[line - 1].len() + 1,
        ensures
            col > 1 ==> final(self)@ == old(self)@.update(
                line - 1,
                old(self)@[line - 1].remove(col - 2),
            ),
            col == 1 && line > 1 ==> final(self)@ == spec_merge_prev(old(self)@, line as int),
            col == 1 && line == 1 ==> final(self)@ == old(self)@,
            old(self).wf() ==> final(self).wf(),
    {
        if col > 1 {
            let idx = line - 1;
            let mut l = self.lines.remove(idx);
            l.remove(col - 2);
            self.lines.insert(idx, l);
            proof {
                assert(self@ =~~= old(self)@.update(
                    line - 1,
                    old(self)@[line - 1].remove(col - 2),
                ));
            }
        } else {
            self.merge_with_previous(line);
        }
    }

    /// Builds a buffer from a flat text by splitting it on line
    /// terminators. The empty segment after a trailing terminator is not a
    /// line of its own, and an empty text still yields one empty line.
    pub fn load_from_text(text: &Vec<char>) -> (r: LineBuffer)
        ensures
            r@ == lines_of_text(text@),
            r.wf(),
    {
        let mut lines: Vec<Vec<char>> = Vec::new();
        let mut cur: Vec<char> = Vec::new();
        let mut i: usize = 0;
        proof {
            assert(text@.skip(0) =~= text@);
            assert(Seq::new(lines@.len(), |j: int| lines@[j]@) + split_acc(text@.skip(0), cur@)
                =~~= split_text(text@));
        }
        while i < text.len()
            invariant
                i <= text@.len(),
                Seq::new(lines@.len(), |j: int| lines@[j]@) + split_acc(
                    text@.skip(i as int),
                    cur@,
                ) == split_text(text@),
                forall|j: int| 0 <= j < lines@.len() ==> !lines@[j]@.contains('\n'),
                !cur@.contains('\n'),
            decreases text@.len() - i,
        {
            let ghost done = Seq::new(lines@.len(), |j: int| lines@[j]@);
            let ghost rest = text@.skip(i as int);
            let c = text[i];
            let ghost cur0 = cur@;
            proof {
                assert(rest[0] == text@[i as int]);
                assert(rest.skip(1) =~= text@.skip(i + 1));
            }
            if c == '\n' {
                lines.push(cur);
                cur = Vec::new();
                proof {
                    assert(Seq::new(lines@.len(), |j: int| lines@[j]@) =~~= done + seq![cur0]);
                    assert(split_acc(rest, cur0) == seq![cur0] + split_acc(
                        text@.skip(i + 1),
                        Seq::empty(),
                    ));
                    assert((done + seq![cur0]) + split_acc(text@.skip(i + 1), Seq::empty())
                        =~~= done + (seq![cur0] + split_acc(text@.skip(i + 1), Seq::empty())));
                }
            } else {
                cur.push(c);
                proof {
                    assert(split_acc(rest, cur0) == split_acc(text@.skip(i + 1), cur@));
                }
            }
            i += 1;
        }
        proof {
            assert(text@.skip(i as int) =~= Seq::<char>::empty());
        }
        let ghost done = Seq::new(lines@.len(), |j: int| lines@[j]@);
        lines.push(cur);
        proof {
            assert(Seq::new(lines@.len(), |j: int| lines@[j]@) =~~= done + seq![cur@]);
            assert(done + seq![cur@] == split_text(text@));
        }
        if lines.len() > 1 && lines[lines.len() - 1].len() == 0 {
            let ghost whole = Seq::new(lines@.len(), |j: int| lines@[j]@);
            lines.pop();
            proof {
                assert(Seq::new(lines@.len(), |j: int| lines@[j]@) =~~= whole.drop_last());
            }
        }
        let r = LineBuffer { lines };
        proof {
            assert(r@ =~~= lines_of_text(text@));
        }
        r
    }

    /// The flat text of the whole buffer: every line followed by a line
    /// terminator, the last included, ready for persistence.
    pub fn to_text(&self) -> (t: Vec<char>)
        ensures
            t@ == text_of_lines(self@),
    {
        let mut out: Vec<char> = Vec::new();
        let mut i: usize = 0;
        proof {
            assert(self@.skip(0) =~= self@);
            assert(out@ + text_of_lines(self@.skip(0)) =~= text_of_lines(self@));
        }
        while i < self.lines.len()
            invariant
                i <= self.lines@.len(),
                self.lines@.len() == self@.len(),
                forall|j: int| 0 <= j < self@.len() ==> self@[j] == self.lines@[j]@,
                out@ + text_of_lines(self@.skip(i as int)) == text_of_lines(self@),
            decreases self.lines@.len() - i,
        {
            let ghost out0 = out@;
            let ghost rest = self@.skip(i as int);
            let mut k: usize = 0;
            let n = self.lines[i].len();
            while k < n
                invariant
                    k <= n,
                    n == self.lines@[i as int]@.len(),
                    i < self.lines@.len(),
                    out@ == out0 + self.lines@[i as int]@.take(k as int),
                decreases n - k,
            {
                let c = self.lines[i][k];
                out.push(c);
                k += 1;
                proof {
                    assert(out@ =~= out0 + self.lines@[i as int]@.take(k as int));
                }
            }
            proof {
                assert(self.lines@[i as int]@.take(n as int) =~= self.lines@[i as int]@);
            }
            out.push('\n');
            i += 1;
            proof {
                assert(rest[0] == self@[i - 1]);
                assert(rest.skip(1) =~= self@.skip(i as int));
                assert(out@ =~= (out0 + self@[i - 1] + seq!['\n']));
                assert(out0 + (self@[i - 1] + seq!['\n'] + text_of_lines(self@.skip(i as int)))
                    =~= (out0 + self@[i - 1] + seq!['\n']) + text_of_lines(self@.skip(i as int)));
            }
        }
        proof {
            assert(self@.skip(i as int) =~= Seq::<Seq<char>>::empty());
        }
        out
    }

    /// Replaces the content of the 1-based line `line` with an empty line.
    pub fn clear_line(&mut self, line: usize)
        requires
            1 <= line <= old(self)@.len(),
        ensures
            final(self)@ == old(self)@.update(line - 1, Seq::<char>::empty()),
            old(self).wf() ==> final(self).wf(),
    {
        let idx = line - 1;
        self.lines.remove(idx);
        self.lines.insert(idx, Vec::new());
        proof {
            assert(self@ =~~= old(self)@.update(line - 1, Seq::<char>::empty()));
        }
    }
}

} // verus!
