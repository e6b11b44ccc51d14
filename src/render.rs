use vstd::prelude::*;
use vstd::string::*;
use crate::index::{ChangeRecord, FileEntry, SectionKind, SectionState};

verus! {

/// The character of a decimal digit.
pub open spec fn digit_char(d: nat) -> char {
    seq!['0', '1', '2', '3', '4', '5', '6', '7', '8', '9'][d as int]
}

/// The decimal digits of `n`, most significant first, without leading zeros.
pub open spec fn decimal(n: nat) -> Seq<char>
    decreases n,
{
    if n < 10 {
        seq![digit_char(n)]
    } else {
        decimal(n / 10).push(digit_char(n % 10))
    }
}

/// The display line of one change: `"{line_number}: {content}"`.
pub open spec fn change_text(c: ChangeRecord) -> Seq<char> {
    decimal(c.line_number as nat) + seq![':', ' '] + c.content@
}

/// The lines shown for a file: its path when collapsed, one line per change
/// in stored order when expanded.
pub open spec fn flattened(f: FileEntry) -> Seq<Seq<char>> {
    if f.expanded {
        f.changes@.map_values(|c: ChangeRecord| change_text(c))
    } else {
        seq![f.path@]
    }
}

/// The views of a sequence of strings.
pub open spec fn texts(v: Seq<String>) -> Seq<Seq<char>> {
    v.map_values(|s: String| s@)
}

/// The name of a section, as its header shows it.
pub open spec fn section_name(kind: SectionKind) -> Seq<char> {
    match kind {
        SectionKind::Untracked => "untracked files"@,
        SectionKind::Unstaged => "unstaged files"@,
        SectionKind::Staged => "staged files"@,
    }
}

/// The marker before a section's name: pointing down when expanded.
pub open spec fn indicator(expanded: bool) -> Seq<char> {
    if expanded {
        "\u{25bc} "@
    } else {
        "\u{25b6} "@
    }
}

/// Relies on std's `ToString` for `usize` (its `Display`): plain decimal
/// digits, no sign, no padding, no separators.
#[verifier::external_body]
fn decimal_text(n: usize) -> (r: String)
    ensures
        r@ == decimal(n as nat),
{
    n.to_string()
}

/// Formats one change as `"{line_number}: {content}"`.
pub fn change_line(c: &ChangeRecord) -> (r: String)
    ensures
        r@ == change_text(*c),
{
    let s = decimal_text(c.line_number);
    let s = s.concat(": ");
    proof {
        reveal_strlit(": ");
    }
    let r = s.concat(c.content.as_str());
    assert(r@ =~= change_text(*c));
    r
}

impl FileEntry {
    /// The lines to display for this file; the same state gives the same
    /// lines on every call.
    pub fn flatten(&self) -> (r: Vec<String>)
        ensures
            texts(r@) == flattened(*self),
    {
        let mut out: Vec<String> = Vec::new();
        if !self.expanded {
            out.push(self.path.clone());
            assert(texts(out@) =~= flattened(*self));
            return out;
        }
        let mut i: usize = 0;
        while i < self.changes.len()
            invariant
                0 <= i <= self.changes.len(),
                self.expanded,
                texts(out@) =~= self.changes@.take(i as int).map_values(
                    |c: ChangeRecord| change_text(c),
                ),
            decreases self.changes.len() - i,
        {
            let line = change_line(&self.changes[i]);
            let ghost prev = out@;
            out.push(line);
            assert(texts(out@) =~= texts(prev).push(change_text(self.changes@[i as int])));
            assert(self.changes@.take(i + 1) =~= self.changes@.take(i as int).push(
                self.changes@[i as int],
            ));
            i += 1;
        }
        assert(self.changes@.take(self.changes.len() as int) =~= self.changes@);
        out
    }
}

/// The header of a section, derived from its flag at each call.
pub fn section_title(kind: SectionKind, expanded: bool) -> (r: String)
    ensures
        r@ == indicator(expanded) + section_name(kind),
{
    let mark = if expanded {
        "\u{25bc} "
    } else {
        "\u{25b6} "
    };
    let name = match kind {
        SectionKind::Untracked => "untracked files",
        SectionKind::Unstaged => "unstaged files",
        SectionKind::Staged => "staged files",
    };
    String::from_str(mark).concat(name)
}

impl SectionState {
    /// The header of this section for its current flag.
    pub fn construct_title(&self) -> (r: String)
        ensures
            r@ == indicator(self.expanded) + section_name(self.kind),
    {
        section_title(self.kind, self.expanded)
    }

    /// Flips the section's expansion flag; its files and their flags stay.
    pub fn toggle_section(&mut self)
        ensures
            final(self).expanded == !old(self).expanded,
            final(self).kind == old(self).kind,
            final(self).files@ == old(self).files@,
    {
        self.expanded = !self.expanded;
    }
}

} // verus!
