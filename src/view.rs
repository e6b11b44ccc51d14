use vstd::prelude::*;
use crate::index::{path_seq, ChangeRecord, FileEntry, RepositoryIndex, SectionKind, SectionState};

verus! {

/// The identity of a file across rebuilds: its section and its path.
#[derive(Clone, Debug)]
pub struct FileKey {
    pub kind: SectionKind,
    pub path: String,
}

/// The mathematical identity of a file.
pub type Key = (SectionKind, Seq<char>);

pub open spec fn key_of(k: FileKey) -> Key {
    (k.kind, k.path@)
}

/// The identities of a sequence of file keys.
pub open spec fn key_seq(v: Seq<FileKey>) -> Seq<Key> {
    v.map_values(|k: FileKey| key_of(k))
}

/// What a user action on a file asks of the surroundings.
#[derive(Clone, Copy, Debug, PartialEq, Eq, Structural)]
pub enum FileToggle {
    /// No file was focused in an expanded section.
    Unchanged,
    Collapsed,
    /// The file was expanded; `load` asks for its changes to be fetched.
    Expanded { load: bool },
}

/// Expansion and focus state that outlives every rebuild of the index.
#[derive(Clone, Debug)]
pub struct ViewModel {
    pub untracked_expanded: bool,
    pub unstaged_expanded: bool,
    pub staged_expanded: bool,
    /// The identities of the expanded files, each once; absent means collapsed.
    pub expanded_files: Vec<FileKey>,
    pub focused_section: SectionKind,
    pub focused_file_index: Option<usize>,
}

/// The section after `k`, wrapping around.
pub open spec fn next_kind(k: SectionKind) -> SectionKind {
    match k {
        SectionKind::Untracked => SectionKind::Unstaged,
        SectionKind::Unstaged => SectionKind::Staged,
        SectionKind::Staged => SectionKind::Untracked,
    }
}

/// The section before `k`, wrapping around.
pub open spec fn prev_kind(k: SectionKind) -> SectionKind {
    match k {
        SectionKind::Untracked => SectionKind::Staged,
        SectionKind::Unstaged => SectionKind::Untracked,
        SectionKind::Staged => SectionKind::Unstaged,
    }
}

/// The focus on entering a section: its first file if it shows any.
pub open spec fn entry_focus(open: bool, len: nat) -> Option<usize> {
    if open && len > 0 {
        Some(0usize)
    } else {
        None
    }
}

/// `g` is `f` with its expansion flag set to `on`.
pub open spec fn shown_as(g: FileEntry, f: FileEntry, on: bool) -> bool {
    g.path == f.path && g.changes@ == f.changes@ && g.load_failed == f.load_failed && g.expanded
        == on
}

/// The expanded set with the flag of `key` set to `on`.
pub open spec fn set_flag(s: Set<Key>, key: Key, on: bool) -> Set<Key> {
    if on {
        s.insert(key)
    } else {
        s.remove(key)
    }
}

/// Whether `idx` lists the file of identity `key`.
pub open spec fn present_in(idx: RepositoryIndex, key: Key) -> bool {
    path_seq(idx.sec(key.0).files@).contains(key.1)
}

/// The expanded set without the identities that `idx` no longer lists.
pub open spec fn pruned_set(s: Set<Key>, idx: RepositoryIndex) -> Set<Key> {
    s.filter(|k: Key| present_in(idx, k))
}

pub fn next_section(k: SectionKind) -> (r: SectionKind)
    ensures
        r == next_kind(k),
{
    match k {
        SectionKind::Untracked => SectionKind::Unstaged,
        SectionKind::Unstaged => SectionKind::Staged,
        SectionKind::Staged => SectionKind::Untracked,
    }
}

pub fn previous_section(k: SectionKind) -> (r: SectionKind)
    ensures
        r == prev_kind(k),
{
    match k {
        SectionKind::Untracked => SectionKind::Staged,
        SectionKind::Unstaged => SectionKind::Untracked,
        SectionKind::Staged => SectionKind::Unstaged,
    }
}

impl ViewModel {
    pub open spec fn keys(&self) -> Seq<Key> {
        key_seq(self.expanded_files@)
    }

    /// The identities of the expanded files.
    pub open spec fn expanded_set(&self) -> Set<Key> {
        Set::new(|k: Key| self.keys().contains(k))
    }

    pub open spec fn section_open(&self, kind: SectionKind) -> bool {
        match kind {
            SectionKind::Untracked => self.untracked_expanded,
            SectionKind::Unstaged => self.unstaged_expanded,
            SectionKind::Staged => self.staged_expanded,
        }
    }

    /// The focus points at a file exactly when the focused section is
    /// expanded and not empty, and then within its bounds.
    pub open spec fn focus_ok(&self, idx: RepositoryIndex) -> bool {
        match self.focused_file_index {
            Some(i) => self.section_open(self.focused_section) && i < idx.len_of(
                self.focused_section,
            ),
            None => !(self.section_open(self.focused_section) && idx.len_of(self.focused_section)
                > 0),
        }
    }

    pub open spec fn wf(&self, idx: RepositoryIndex) -> bool {
        self.keys().no_duplicates() && self.focus_ok(idx)
    }

    /// The state that only focus changes leave alone.
    pub open spec fn same_flags(&self, other: ViewModel) -> bool {
        self.untracked_expanded == other.untracked_expanded && self.unstaged_expanded
            == other.unstaged_expanded && self.staged_expanded == other.staged_expanded
            && self.expanded_files@ == other.expanded_files@
    }

    /// All sections collapsed, no file expanded, focus on the first section.
    pub fn new() -> (r: ViewModel)
        ensures
            !r.section_open(SectionKind::Untracked),
            !r.section_open(SectionKind::Unstaged),
            !r.section_open(SectionKind::Staged),
            r.expanded_set() == Set::<Key>::empty(),
            r.keys().len() == 0,
            r.focused_section == SectionKind::Untracked,
            r.focused_file_index == None::<usize>,
    {
        let r = ViewModel {
            untracked_expanded: false,
            unstaged_expanded: false,
            staged_expanded: false,
            expanded_files: Vec::new(),
            focused_section: SectionKind::Untracked,
            focused_file_index: None,
        };
        assert(r.expanded_set() =~= Set::<Key>::empty());
        r
    }

    pub fn is_section_expanded(&self, kind: SectionKind) -> (r: bool)
        ensures
            r == self.section_open(kind),
    {
        match kind {
            SectionKind::Untracked => self.untracked_expanded,
            SectionKind::Unstaged => self.unstaged_expanded,
            SectionKind::Staged => self.staged_expanded,
        }
    }

    fn set_section_expanded(&mut self, kind: SectionKind, on: bool)
        ensures
            final(self).section_open(kind) == on,
            forall|k: SectionKind|
                k != kind ==> final(self).section_open(k) == old(self).section_open(k),
            final(self).expanded_files@ == old(self).expanded_files@,
            final(self).focused_section == old(self).focused_section,
            final(self).focused_file_index == old(self).focused_file_index,
    {
        match kind {
            SectionKind::Untracked => self.untracked_expanded = on,
            SectionKind::Unstaged => self.unstaged_expanded = on,
            SectionKind::Staged => self.staged_expanded = on,
        }
    }

    /// The position of `(kind, path)` among the expanded identities.
    fn find_key(&self, kind: SectionKind, path: &String) -> (r: Option<usize>)
        ensures
            match r {
                Some(j) => j < self.keys().len() && self.keys()[j as int] == (kind, path@),
                None => !self.keys().contains((kind, path@)),
            },
    {
        let mut j: usize = 0;
        while j < self.expanded_files.len()
            invariant
                0 <= j <= self.expanded_files.len(),
                forall|m: int| 0 <= m < j ==> self.keys()[m] != (kind, path@),
            decreases self.expanded_files.len() - j,
        {
            if self.expanded_files[j].kind == kind && self.expanded_files[j].path == *path {
                return Some(j);
            }
            j += 1;
        }
        None
    }

    /// Whether the file of identity `(kind, path)` is expanded.
    pub fn is_file_expanded(&self, kind: SectionKind, path: &String) -> (r: bool)
        ensures
            r == self.expanded_set().contains((kind, path@)),
    {
        self.find_key(kind, path).is_some()
    }

    /// Sets the expansion flag of the file of identity `(kind, path)`.
    pub fn set_file_expanded(&mut self, kind: SectionKind, path: &String, on: bool)
        requires
            old(self).keys().no_duplicates(),
        ensures
            final(self).keys().no_duplicates(),
            final(self).expanded_set() == set_flag(old(self).expanded_set(), (kind, path@), on),
            final(self).untracked_expanded == old(self).untracked_expanded,
            final(self).unstaged_expanded == old(self).unstaged_expanded,
            final(self).staged_expanded == old(self).staged_expanded,
            final(self).focused_section == old(self).focused_section,
            final(self).focused_file_index == old(self).focused_file_index,
    {
        let ghost key: Key = (kind, path@);
        let found = self.find_key(kind, path);
        match found {
            Some(j) => {
                if !on {
                    let ghost before = self.keys();
                    self.expanded_files.remove(j);
                    assert(self.keys() =~= before.remove(j as int));
                    assert forall|x: Key| #[trigger]
                        self.expanded_set().contains(x) == set_flag(
                            old(self).expanded_set(),
                            key,
                            on,
                        ).contains(x) by {
                        if self.keys().contains(x) {
                            let m = choose|m: int| 0 <= m < self.keys().len() && self.keys()[m] == x;
                            if m < j {
                                assert(before[m] == x);
                            } else {
                                assert(before[m + 1] == x);
                            }
                        }
                        if x != key && before.contains(x) {
                            let m = choose|m: int| 0 <= m < before.len() && before[m] == x;
                            if m < j {
                                assert(self.keys()[m] == x);
                            } else {
                                assert(self.keys()[m - 1] == x);
                            }
                        }
                    }
                    assert(self.expanded_set() =~= set_flag(old(self).expanded_set(), key, on));
                } else {
                    assert(old(self).expanded_set().contains(key));
                    assert(self.expanded_set() =~= set_flag(old(self).expanded_set(), key, on));
                }
            },
            None => {
                if on {
                    let ghost before = self.keys();
                    self.expanded_files.push(FileKey { kind, path: path.clone() });
                    assert(self.keys() =~= before.push(key));
                    assert forall|x: Key| #[trigger]
                        self.expanded_set().contains(x) == set_flag(
                            old(self).expanded_set(),
                            key,
                            on,
                        ).contains(x) by {
                        if self.keys().contains(x) && x != key {
                            let m = choose|m: int| 0 <= m < self.keys().len() && self.keys()[m] == x;
                            assert(before[m] == x);
                        }
                        if before.contains(x) {
                            let m = choose|m: int| 0 <= m < before.len() && before[m] == x;
                            assert(self.keys()[m] == x);
                        }
                        if x == key {
                            assert(self.keys()[before.len() as int] == x);
                        }
                    }
                    assert(self.expanded_set() =~= set_flag(old(self).expanded_set(), key, on));
                } else {
                    assert(self.expanded_set() =~= set_flag(old(self).expanded_set(), key, on));
                }
            },
        }
    }

    /// The focus on entering the section of `kind`.
    fn entry_focus_for(&self, idx: &RepositoryIndex, kind: SectionKind) -> (r: Option<usize>)
        ensures
            r == entry_focus(self.section_open(kind), idx.len_of(kind)),
    {
        if self.is_section_expanded(kind) && idx.section(kind).files.len() > 0 {
            Some(0)
        } else {
            None
        }
    }

    /// Moves the focus to the next section, wrapping around, onto its first
    /// file if it shows any.
    pub fn focus_next_section(&mut self, idx: &RepositoryIndex)
        requires
            old(self).wf(*idx),
        ensures
            final(self).wf(*idx),
            final(self).same_flags(*old(self)),
            final(self).focused_section == next_kind(old(self).focused_section),
            final(self).focused_file_index == entry_focus(
                old(self).section_open(final(self).focused_section),
                idx.len_of(final(self).focused_section),
            ),
    {
        let k = next_section(self.focused_section);
        self.focused_file_index = self.entry_focus_for(idx, k);
        self.focused_section = k;
    }

    /// Moves the focus to the previous section, wrapping around, onto its
    /// first file if it shows any.
    pub fn focus_previous_section(&mut self, idx: &RepositoryIndex)
        requires
            old(self).wf(*idx),
        ensures
            final(self).wf(*idx),
            final(self).same_flags(*old(self)),
            final(self).focused_section == prev_kind(old(self).focused_section),
            final(self).focused_file_index == entry_focus(
                old(self).section_open(final(self).focused_section),
                idx.len_of(final(self).focused_section),
            ),
    {
        let k = previous_section(self.focused_section);
        self.focused_file_index = self.entry_focus_for(idx, k);
        self.focused_section = k;
    }

    /// Moves the focus one file down; at the last file it stays.
    pub fn move_focus_down(&mut self, idx: &RepositoryIndex)
        requires
            old(self).wf(*idx),
        ensures
            final(self).wf(*idx),
            final(self).same_flags(*old(self)),
            final(self).focused_section == old(self).focused_section,
            final(self).focused_file_index == match old(self).focused_file_index {
                Some(i) => if i + 1 < idx.len_of(old(self).focused_section) {
                    Some((i + 1) as usize)
                } else {
                    Some(i)
                },
                None => None,
            },
    {
        if let Some(i) = self.focused_file_index {
            if i < idx.section(self.focused_section).files.len() - 1 {
                self.focused_file_index = Some(i + 1);
            }
        }
    }

    /// Moves the focus one file up; at the first file it stays.
    pub fn move_focus_up(&mut self, idx: &RepositoryIndex)
        requires
            old(self).wf(*idx),
        ensures
            final(self).wf(*idx),
            final(self).same_flags(*old(self)),
            final(self).focused_section == old(self).focused_section,
            final(self).focused_file_index == match old(self).focused_file_index {
                Some(i) => if i > 0 {
                    Some((i - 1) as usize)
                } else {
                    Some(i)
                },
                None => None,
            },
    {
        if let Some(i) = self.focused_file_index {
            if i > 0 {
                self.focused_file_index = Some(i - 1);
            }
        }
    }

    /// Flips the focused section's expansion flag. Collapsing drops the file
    /// focus; expanding a non-empty section focuses its first file. The
    /// flags of the files are kept.
    pub fn toggle_focused_section(&mut self, idx: &RepositoryIndex)
        requires
            old(self).wf(*idx),
        ensures
            final(self).wf(*idx),
            final(self).focused_section == old(self).focused_section,
            final(self).section_open(old(self).focused_section) == !old(self).section_open(
                old(self).focused_section,
            ),
            forall|k: SectionKind|
                k != old(self).focused_section ==> final(self).section_open(k) == old(
                    self,
                ).section_open(k),
            final(self).expanded_files@ == old(self).expanded_files@,
            final(self).focused_file_index == entry_focus(
                !old(self).section_open(old(self).focused_section),
                idx.len_of(old(self).focused_section),
            ),
    {
        let k = self.focused_section;
        let on = !self.is_section_expanded(k);
        self.set_section_expanded(k, on);
        self.focused_file_index = self.entry_focus_for(idx, k);
    }

    /// Flips the expansion flag of the focused file, if a file is focused.
    /// Expanding a file whose changes are not loaded asks for them.
    pub fn toggle_focused_file(&mut self, idx: &RepositoryIndex) -> (r: FileToggle)
        requires
            old(self).wf(*idx),
        ensures
            final(self).wf(*idx),
            final(self).untracked_expanded == old(self).untracked_expanded,
            final(self).unstaged_expanded == old(self).unstaged_expanded,
            final(self).staged_expanded == old(self).staged_expanded,
            final(self).focused_section == old(self).focused_section,
            final(self).focused_file_index == old(self).focused_file_index,
            match old(self).focused_file_index {
                None => r == FileToggle::Unchanged && final(self).expanded_set() == old(
                    self,
                ).expanded_set(),
                Some(i) => {
                    let f = idx.sec(old(self).focused_section).files@[i as int];
                    let key = (old(self).focused_section, f.path@);
                    let was = old(self).expanded_set().contains(key);
                    &&& final(self).expanded_set() == set_flag(old(self).expanded_set(), key, !was)
                    &&& r == if was {
                        FileToggle::Collapsed
                    } else {
                        FileToggle::Expanded { load: f.changes@.len() == 0 }
                    }
                },
            },
    {
        match self.focused_file_index {
            None => FileToggle::Unchanged,
            Some(i) => {
                let kind = self.focused_section;
                let f: &FileEntry = &idx.section(kind).files[i];
                let was = self.is_file_expanded(kind, &f.path);
                self.set_file_expanded(kind, &f.path, !was);
                if was {
                    FileToggle::Collapsed
                } else {
                    FileToggle::Expanded { load: f.changes.len() == 0 }
                }
            },
        }
    }

    /// Re-syncs against a rebuilt index: forgets the expanded files that it no
    /// longer lists, keeps the rest, and repairs the focus.
    pub fn prune(&mut self, idx: &RepositoryIndex)
        requires
            old(self).keys().no_duplicates(),
        ensures
            final(self).wf(*idx),
            final(self).expanded_set() == pruned_set(old(self).expanded_set(), *idx),
            final(self).untracked_expanded == old(self).untracked_expanded,
            final(self).unstaged_expanded == old(self).unstaged_expanded,
            final(self).staged_expanded == old(self).staged_expanded,
            final(self).focused_section == old(self).focused_section,
            final(self).focused_file_index == match old(self).focused_file_index {
                Some(i) => if old(self).section_open(old(self).focused_section) && i < idx.len_of(
                    old(self).focused_section,
                ) {
                    Some(i)
                } else {
                    entry_focus(
                        old(self).section_open(old(self).focused_section),
                        idx.len_of(old(self).focused_section),
                    )
                },
                None => entry_focus(
                    old(self).section_open(old(self).focused_section),
                    idx.len_of(old(self).focused_section),
                ),
            },
    {
        let ghost before = self.keys();
        let mut kept: Vec<FileKey> = Vec::new();
        let mut j: usize = 0;
        while j < self.expanded_files.len()
            invariant
                0 <= j <= self.expanded_files.len(),
                self.keys() == before,
                before.no_duplicates(),
                key_seq(kept@).no_duplicates(),
                forall|x: Key|
                    #![trigger key_seq(kept@).contains(x)]
                    key_seq(kept@).contains(x) <==> (
                    before.take(j as int).contains(x) && present_in(*idx, x)),
            decreases self.expanded_files.len() - j,
        {
            let fk = &self.expanded_files[j];
            let ghost x = before[j as int];
            let ghost cur = before.take(j as int);
            let ghost nxt = before.take(j + 1);
            assert(nxt =~= cur.push(x));
            if idx.lists(fk.kind, &fk.path) {
                let ghost kb = key_seq(kept@);
                kept.push(FileKey { kind: fk.kind, path: fk.path.clone() });
                let ghost ka = key_seq(kept@);
                assert(ka =~= kb.push(x));
                assert(!cur.contains(x)) by {
                    if cur.contains(x) {
                        let m = choose|m: int| 0 <= m < cur.len() && cur[m] == x;
                        assert(before[m] == before[j as int]);
                    }
                }
                assert(!kb.contains(x));
                assert forall|y: Key| #[trigger] ka.contains(y) <==> (nxt.contains(y)
                    && present_in(*idx, y)) by {
                    if ka.contains(y) && y != x {
                        let m = choose|m: int| 0 <= m < ka.len() && ka[m] == y;
                        assert(kb[m] == y);
                    }
                    if kb.contains(y) {
                        let m = choose|m: int| 0 <= m < kb.len() && kb[m] == y;
                        assert(ka[m] == y);
                    }
                    if nxt.contains(y) && y != x {
                        let m = choose|m: int| 0 <= m < nxt.len() && nxt[m] == y;
                        assert(cur[m] == y);
                    }
                    if y == x {
                        assert(ka[kb.len() as int] == y);
                        assert(nxt[j as int] == y);
                    }
                }
                assert forall|a: int, b: int|
                    0 <= a < ka.len() && 0 <= b < ka.len() && a != b implies ka[a] != ka[b] by {
                    if a == kb.len() {
                        assert(kb.contains(ka[b]) || b == kb.len());
                    } else if b == kb.len() {
                        assert(kb[a] == ka[a]);
                    }
                }
            } else {
                let ghost kb = key_seq(kept@);
                assert forall|y: Key| #[trigger] kb.contains(y) <==> (nxt.contains(y)
                    && present_in(*idx, y)) by {
                    if nxt.contains(y) && y != x {
                        let m = choose|m: int| 0 <= m < nxt.len() && nxt[m] == y;
                        assert(cur[m] == y);
                    }
                    if cur.contains(y) {
                        let m = choose|m: int| 0 <= m < cur.len() && cur[m] == y;
                        assert(nxt[m] == y);
                    }
                }
            }
            j += 1;
        }
        assert(before.take(before.len() as int) =~= before);
        self.expanded_files = kept;
        assert(self.expanded_set() =~= pruned_set(old(self).expanded_set(), *idx));
        let k = self.focused_section;
        let keep = match self.focused_file_index {
            Some(i) => self.is_section_expanded(k) && i < idx.section(k).files.len(),
            None => false,
        };
        if !keep {
            self.focused_file_index = self.entry_focus_for(idx, k);
        }
    }

    /// Writes the view's flags into one section of an index.
    fn apply_to_section(&self, sec: &mut SectionState)
        ensures
            final(sec).kind == old(sec).kind,
            final(sec).expanded == self.section_open(old(sec).kind),
            final(sec).files.len() == old(sec).files.len(),
            forall|i: int|
                0 <= i < old(sec).files.len() ==> shown_as(
                    #[trigger] final(sec).files@[i],
                    old(sec).files@[i],
                    self.expanded_set().contains((old(sec).kind, old(sec).files@[i].path@)),
                ),
    {
        sec.expanded = self.is_section_expanded(sec.kind);
        let mut i: usize = 0;
        while i < sec.files.len()
            invariant
                0 <= i <= sec.files.len(),
                sec.files.len() == old(sec).files.len(),
                sec.kind == old(sec).kind,
                sec.expanded == self.section_open(old(sec).kind),
                forall|j: int|
                    0 <= j < i ==> shown_as(
                        #[trigger] sec.files@[j],
                        old(sec).files@[j],
                        self.expanded_set().contains((old(sec).kind, old(sec).files@[j].path@)),
                    ),
                forall|j: int| i <= j < sec.files.len() ==> #[trigger] sec.files@[j] == old(
                    sec,
                ).files@[j],
            decreases sec.files.len() - i,
        {
            let on = self.is_file_expanded(sec.kind, &sec.files[i].path);
            sec.files[i].expanded = on;
            i += 1;
        }
    }

    /// Writes the view's flags into a rebuilt index, so that what is rendered
    /// and flattened follows the identity-keyed state.
    pub fn apply_to(&self, idx: &mut RepositoryIndex)
        ensures
            old(idx).wf() ==> final(idx).wf(),
            forall|k: SectionKind| #[trigger] final(idx).sec(k).kind == old(idx).sec(k).kind,
            forall|k: SectionKind| #[trigger]
                final(idx).sec(k).expanded == self.section_open(old(idx).sec(k).kind),
            forall|k: SectionKind| #[trigger]
                final(idx).sec(k).files.len() == old(idx).sec(k).files.len(),
            forall|k: SectionKind, i: int|
                0 <= i < old(idx).sec(k).files.len() ==> shown_as(
                    #[trigger] final(idx).sec(k).files@[i],
                    old(idx).sec(k).files@[i],
                    self.expanded_set().contains((old(idx).sec(k).kind, old(idx).sec(k).files@[i].path@)),
                ),
    {
        self.apply_to_section(&mut idx.untracked);
        self.apply_to_section(&mut idx.unstaged);
        self.apply_to_section(&mut idx.staged);
        assert forall|k: SectionKind, i: int|
            0 <= i < old(idx).sec(k).files.len() implies shown_as(
                #[trigger] final(idx).sec(k).files@[i],
                old(idx).sec(k).files@[i],
                self.expanded_set().contains((old(idx).sec(k).kind, old(idx).sec(k).files@[i].path@)),
            ) by {
            match k {
                SectionKind::Untracked => {},
                SectionKind::Unstaged => {},
                SectionKind::Staged => {},
            }
        }
        assert forall|k: SectionKind| old(idx).wf() implies #[trigger] idx.sec(k).kind == k
            && idx.sec(k).wf() by {
            assert forall|i: int| 0 <= i < idx.sec(k).files.len() implies path_seq(
                idx.sec(k).files@,
            )[i] == path_seq(old(idx).sec(k).files@)[i] by {
                assert(shown_as(
                    idx.sec(k).files@[i],
                    old(idx).sec(k).files@[i],
                    self.expanded_set().contains((old(idx).sec(k).kind, old(idx).sec(k).files@[i].path@)),
                ));
            }
            assert(path_seq(idx.sec(k).files@) =~= path_seq(old(idx).sec(k).files@));
        }
    }

    /// Completes the lazy load of the file at `i` of the section of `kind`:
    /// fetched changes are stored; a failed fetch collapses the file and marks
    /// it, leaving its changes as they were.
    pub fn finish_load(
        &mut self,
        idx: &mut RepositoryIndex,
        kind: SectionKind,
        i: usize,
        fetched: Option<Vec<ChangeRecord>>,
    )
        requires
            old(self).keys().no_duplicates(),
            old(idx).wf(),
            i < old(idx).len_of(kind),
        ensures
            final(self).keys().no_duplicates(),
            final(idx).wf(),
            final(self).untracked_expanded == old(self).untracked_expanded,
            final(self).unstaged_expanded == old(self).unstaged_expanded,
            final(self).staged_expanded == old(self).staged_expanded,
            final(self).focused_section == old(self).focused_section,
            final(self).focused_file_index == old(self).focused_file_index,
            forall|k: SectionKind| k != kind ==> #[trigger] final(idx).sec(k) == old(idx).sec(k),
            final(idx).sec(kind).kind == old(idx).sec(kind).kind,
            final(idx).sec(kind).expanded == old(idx).sec(kind).expanded,
            final(idx).sec(kind).files.len() == old(idx).sec(kind).files.len(),
            forall|j: int|
                0 <= j < old(idx).sec(kind).files.len() && j != i ==> #[trigger] final(idx).sec(
                    kind,
                ).files@[j] == old(idx).sec(kind).files@[j],
            ({
                let f = old(idx).sec(kind).files@[i as int];
                let g = final(idx).sec(kind).files@[i as int];
                let key = (kind, f.path@);
                &&& g.path == f.path
                &&& match fetched {
                    Some(cs) => {
                        &&& g.changes@ == cs@
                        &&& !g.load_failed
                        &&& g.expanded == f.expanded
                        &&& final(self).expanded_set() == old(self).expanded_set()
                    },
                    None => {
                        &&& g.changes@ == f.changes@
                        &&& g.load_failed
                        &&& !g.expanded
                        &&& final(self).expanded_set() == old(self).expanded_set().remove(key)
                    },
                }
            }),
    {
        match kind {
            SectionKind::Untracked => self.finish_load_in(&mut idx.untracked, i, fetched),
            SectionKind::Unstaged => self.finish_load_in(&mut idx.unstaged, i, fetched),
            SectionKind::Staged => self.finish_load_in(&mut idx.staged, i, fetched),
        }
        assert(path_seq(idx.sec(kind).files@) =~= path_seq(old(idx).sec(kind).files@));
        assert forall|k: SectionKind| #[trigger] idx.sec(k).kind == k && idx.sec(k).wf() by {
            if k != kind {
                assert(idx.sec(k) == old(idx).sec(k));
            }
        }
    }

    fn finish_load_in(&mut self, sec: &mut SectionState, i: usize, fetched: Option<Vec<ChangeRecord>>)
        requires
            old(self).keys().no_duplicates(),
            i < old(sec).files.len(),
        ensures
            final(self).keys().no_duplicates(),
            final(self).untracked_expanded == old(self).untracked_expanded,
            final(self).unstaged_expanded == old(self).unstaged_expanded,
            final(self).staged_expanded == old(self).staged_expanded,
            final(self).focused_section == old(self).focused_section,
            final(self).focused_file_index == old(self).focused_file_index,
            final(sec).kind == old(sec).kind,
            final(sec).expanded == old(sec).expanded,
            final(sec).files.len() == old(sec).files.len(),
            forall|j: int|
                0 <= j < old(sec).files.len() && j != i ==> #[trigger] final(sec).files@[j]
                    == old(sec).files@[j],
            ({
                let f = old(sec).files@[i as int];
                let g = final(sec).files@[i as int];
                let key = (old(sec).kind, f.path@);
                &&& g.path == f.path
                &&& match fetched {
                    Some(cs) => {
                        &&& g.changes@ == cs@
                        &&& !g.load_failed
                        &&& g.expanded == f.expanded
                        &&& final(self).expanded_set() == old(self).expanded_set()
                    },
                    None => {
                        &&& g.changes@ == f.changes@
                        &&& g.load_failed
                        &&& !g.expanded
                        &&& final(self).expanded_set() == old(self).expanded_set().remove(key)
                    },
                }
            }),
    {
        match fetched {
            Some(cs) => {
                sec.files[i].changes = cs;
                sec.files[i].load_failed = false;
            },
            None => {
                sec.files[i].load_failed = true;
                sec.files[i].expanded = false;
                let kind = sec.kind;
                self.set_file_expanded(kind, &sec.files[i].path, false);
            },
        }
    }
}

} // verus!
