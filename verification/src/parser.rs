//! The command parser: turns a typed `:`-prefixed command line into a
//! sequence of structured instructions. Unknown characters are discarded
//! one at a time; a line without the `:` prefix yields nothing.

use vstd::prelude::*;
use crate::instr::{Instr, InstrView};

verus! {

/// `s` without its leading spaces.
pub open spec fn trim_spaces(s: Seq<char>) -> Seq<char>
    decreases s.len(),
{
    if s.len() > 0 && s[0] == ' ' {
        trim_spaces(s.skip(1))
    } else {
        s
    }
}

/// The instructions a command line yields once the `:` prefix is gone.
/// The longest keyword at the front wins (`quit` before `q`); `run` and
/// `o` consume the rest of the line as a free-form argument and stop the
/// parse; anything unrecognized is skipped one character at a time.
pub open spec fn parse_body(s: Seq<char>) -> Seq<InstrView>
    decreases s.len(),
{
    if s.len() == 0 {
        Seq::empty()
    } else if s.len() >= 4 && s[0] == 'q' && s[1] == 'u' && s[2] == 'i' && s[3] == 't' {
        seq![InstrView::Quit] + parse_body(s.skip(4))
    } else if s.len() >= 3 && s[0] == 'r' && s[1] == 'u' && s[2] == 'n' {
        seq![InstrView::EnterRunningMode, InstrView::RunShell(trim_spaces(s.skip(3)))]
    } else if s[0] == 'q' {
        seq![InstrView::Quit] + parse_body(s.skip(1))
    } else if s[0] == 'w' {
        seq![InstrView::SaveFile] + parse_body(s.skip(1))
    } else if s[0] == 'o' {
        seq![InstrView::LoadFile(trim_spaces(s.skip(1)))]
    } else {
        parse_body(s.skip(1))
    }
}

/// What a raw typed line parses to: nothing unless it starts with `:`,
/// and the instructions of its body otherwise.
pub open spec fn spec_parse_command(s: Seq<char>) -> Seq<InstrView> {
    if s.len() >= 1 && s[0] == ':' {
        parse_body(s.skip(1))
    } else {
        Seq::empty()
    }
}

/// An exact copy of a character vector.
pub fn copy_chars(v: &Vec<char>) -> (r: Vec<char>)
    ensures
        r@ == v@,
{
    let mut r: Vec<char> = Vec::new();
    let mut i: usize = 0;
    while i < v.len()
        invariant
            i <= v@.len(),
            r@ == v@.take(i as int),
        decreases v@.len() - i,
    {
        r.push(v[i]);
        i += 1;
        proof {
            assert(r@ =~= v@.take(i as int));
        }
    }
    proof {
        assert(v@.take(i as int) =~= v@);
    }
    r
}

/// Removes the first `n` characters of `stri`.
pub fn remove(stri: &mut Vec<char>, n: u16)
    requires
        n <= old(stri)@.len(),
    ensures
        final(stri)@ == old(stri)@.skip(n as int),
{
    let mut i: u16 = 0;
    while i < n
        invariant
            i <= n,
            n <= old(stri)@.len(),
            stri@ == old(stri)@.skip(i as int),
        decreases n - i,
    {
        stri.remove(0);
        i += 1;
        proof {
            assert(old(stri)@.skip(i - 1).remove(0) =~= old(stri)@.skip(i as int));
        }
    }
}

/// Removes the leading spaces of `stri`.
pub fn trim(stri: &mut Vec<char>)
    ensures
        final(stri)@ == trim_spaces(old(stri)@),
        final(stri)@.len() <= old(stri)@.len(),
{
    while stri.len() > 0 && stri[0] == ' '
        invariant
            trim_spaces(stri@) == trim_spaces(old(stri)@),
            stri@.len() <= old(stri)@.len(),
        decreases stri@.len(),
    {
        let ghost before = stri@;
        stri.remove(0);
        proof {
            assert(stri@ =~= before.skip(1));
        }
    }
}

/// Parses a typed command line into instructions, consuming it. Only a
/// line starting with `:` yields instructions; within it, `quit` and `q`
/// quit, `w` saves, `o` takes the rest of the line (leading spaces
/// trimmed) as a path to open, and `run` takes the rest of the line as a
/// shell command; unknown characters are silently skipped.
pub fn parse_command(cmd: &mut Vec<char>) -> (r: Vec<Instr>)
    ensures
        r.deep_view() == spec_parse_command(old(cmd)@),
{
    let mut ret: Vec<Instr> = Vec::new();
    if cmd.len() >= 1 && cmd[0] == ':' {
        cmd.remove(0);
        let ghost start = cmd@;
        proof {
            assert(start =~= old(cmd)@.skip(1));
            assert(ret.deep_view() + parse_body(cmd@) =~= parse_body(start));
        }
        let mut done = false;
        while !done && cmd.len() > 0
            invariant
                done ==> ret.deep_view() == parse_body(start),
                !done ==> ret.deep_view() + parse_body(cmd@) == parse_body(start),
            decreases cmd@.len() + (if done { 0int } else { 1int }),
        {
            let ghost ret0 = ret.deep_view();
            let ghost cur = cmd@;
            if cmd.len() >= 4 && cmd[0] == 'q' && cmd[1] == 'u' && cmd[2] == 'i' && cmd[3] == 't' {
                ret.push(Instr::Quit);
                remove(cmd, 4);
                proof {
                    assert(ret.deep_view() =~= ret0 + seq![InstrView::Quit]);
                    assert(ret.deep_view() + parse_body(cmd@) =~= parse_body(start));
                }
            } else if cmd.len() >= 3 && cmd[0] == 'r' && cmd[1] == 'u' && cmd[2] == 'n' {
                remove(cmd, 3);
                trim(cmd);
                ret.push(Instr::EnterRunningMode);
                ret.push(Instr::RunShell(copy_chars(cmd)));
                done = true;
                proof {
                    assert(ret.deep_view() =~= ret0 + seq![
                        InstrView::EnterRunningMode,
                        InstrView::RunShell(trim_spaces(cur.skip(3))),
                    ]);
                    assert(ret.deep_view() =~= parse_body(start));
                }
            } else if cmd[0] == 'q' {
                ret.push(Instr::Quit);
                remove(cmd, 1);
                proof {
                    assert(ret.deep_view() =~= ret0 + seq![InstrView::Quit]);
                    assert(ret.deep_view() + parse_body(cmd@) =~= parse_body(start));
                }
            } else if cmd[0] == 'w' {
                ret.push(Instr::SaveFile);
                remove(cmd, 1);
                proof {
                    assert(ret.deep_view() =~= ret0 + seq![InstrView::SaveFile]);
                    assert(ret.deep_view() + parse_body(cmd@) =~= parse_body(start));
                }
            } else if cmd[0] == 'o' {
                remove(cmd, 1);
                trim(cmd);
                ret.push(Instr::LoadFile(copy_chars(cmd)));
                done = true;
                proof {
                    assert(ret.deep_view() =~= ret0 + seq![
                        InstrView::LoadFile(trim_spaces(cur.skip(1))),
                    ]);
                    assert(ret.deep_view() =~= parse_body(start));
                }
            } else {
                remove(cmd, 1);
                proof {
                    assert(ret.deep_view() + parse_body(cmd@) =~= parse_body(start));
                }
            }
        }
        proof {
            if !done {
                assert(parse_body(cmd@) =~= Seq::<InstrView>::empty());
                assert(ret.deep_view() =~= ret.deep_view() + parse_body(cmd@));
            }
        }
    } else {
        proof {
            assert(ret.deep_view() =~= Seq::<InstrView>::empty());
        }
    }
    ret
}

} // verus!
