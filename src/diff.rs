use vstd::prelude::*;
use vstd::string::*;
use crate::index::{ChangeKind, ChangeRecord};

verus! {

/// One line of a textual diff as the diff provider reports it: its origin
/// marker (`'+'` added, `'-'` removed, anything else context or header), its
/// numbers in the old and new file, and its text.
#[derive(Clone, Debug)]
pub struct DiffLine {
    pub origin: char,
    pub old_lineno: Option<u32>,
    pub new_lineno: Option<u32>,
    pub content: String,
}

/// `s` without one trailing line break, `"\n"` or `"\r\n"`.
pub open spec fn strip_line_end(s: Seq<char>) -> Seq<char> {
    if s.len() > 0 && s.last() == '\n' {
        let t = s.drop_last();
        if t.len() > 0 && t.last() == '\r' {
            t.drop_last()
        } else {
            t
        }
    } else {
        s
    }
}

/// The line number and kind of the change a diff line stands for: an added
/// line at its new number, a removed line at its old number. Other lines,
/// and lines without a positive number on their side, stand for none.
pub open spec fn line_change(l: DiffLine) -> Option<(nat, ChangeKind)> {
    if l.origin == '+' {
        match l.new_lineno {
            Some(n) => if n > 0 {
                Some((n as nat, ChangeKind::Addition))
            } else {
                None
            },
            None => None,
        }
    } else if l.origin == '-' {
        match l.old_lineno {
            Some(n) => if n > 0 {
                Some((n as nat, ChangeKind::Deletion))
            } else {
                None
            },
            None => None,
        }
    } else {
        None
    }
}

/// `c` is the record of diff line `l`.
pub open spec fn records_line(c: ChangeRecord, l: DiffLine) -> bool {
    &&& line_change(l) == Some((c.line_number as nat, c.kind))
    &&& c.content@ == strip_line_end(l.content@)
}

/// The diff lines that stand for a change, in order.
pub open spec fn changed_lines(lines: Seq<DiffLine>) -> Seq<DiffLine>
    decreases lines.len(),
{
    if lines.len() == 0 {
        seq![]
    } else {
        let prev = changed_lines(lines.drop_last());
        if line_change(lines.last()) is Some {
            prev.push(lines.last())
        } else {
            prev
        }
    }
}

/// Removes one trailing line break.
pub fn trim_line_end(s: &str) -> (r: String)
    ensures
        r@ == strip_line_end(s@),
{
    let n = s.unicode_len();
    if n > 0 && s.get_char(n - 1) == '\n' {
        if n > 1 && s.get_char(n - 2) == '\r' {
            let r = String::from_str(s.substring_char(0, n - 2));
            assert(r@ =~= strip_line_end(s@));
            r
        } else {
            let r = String::from_str(s.substring_char(0, n - 1));
            assert(r@ =~= strip_line_end(s@));
            r
        }
    } else {
        String::from_str(s)
    }
}

/// The change record of one diff line, if it stands for a change.
pub fn change_from_diff_line(l: &DiffLine) -> (r: Option<ChangeRecord>)
    ensures
        match r {
            Some(c) => records_line(c, *l),
            None => line_change(*l) is None,
        },
{
    let found: Option<(u32, ChangeKind)> = if l.origin == '+' {
        match l.new_lineno {
            Some(n) => if n > 0 {
                Some((n, ChangeKind::Addition))
            } else {
                None
            },
            None => None,
        }
    } else if l.origin == '-' {
        match l.old_lineno {
            Some(n) => if n > 0 {
                Some((n, ChangeKind::Deletion))
            } else {
                None
            },
            None => None,
        }
    } else {
        None
    };
    match found {
        Some((n, kind)) => Some(
            ChangeRecord {
                line_number: n as usize,
                content: trim_line_end(l.content.as_str()),
                kind,
            },
        ),
        None => None,
    }
}

/// The change records of a diff, one per added or removed line, in the
/// diff's order.
pub fn changes_from_diff(lines: &Vec<DiffLine>) -> (r: Vec<ChangeRecord>)
    ensures
        r.len() == changed_lines(lines@).len(),
        forall|i: int| 0 <= i < r.len() ==> records_line(#[trigger] r@[i], changed_lines(lines@)[i]),
{
    let mut out: Vec<ChangeRecord> = Vec::new();
    let mut i: usize = 0;
    while i < lines.len()
        invariant
            0 <= i <= lines.len(),
            out.len() == changed_lines(lines@.take(i as int)).len(),
            forall|j: int|
                0 <= j < out.len() ==> records_line(
                    #[trigger] out@[j],
                    changed_lines(lines@.take(i as int))[j],
                ),
        decreases lines.len() - i,
    {
        assert(lines@.take(i + 1).drop_last() =~= lines@.take(i as int));
        assert(lines@.take(i + 1).last() == lines@[i as int]);
        match change_from_diff_line(&lines[i]) {
            Some(c) => {
                out.push(c);
            },
            None => {},
        }
        i += 1;
    }
    assert(lines@.take(lines.len() as int) =~= lines@);
    out
}

} // verus!
