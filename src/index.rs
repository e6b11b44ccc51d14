use vstd::prelude::*;

verus! {

/// The three fixed groups of file entries, in navigation order.
#[derive(Clone, Copy, Debug, PartialEq, Eq, Structural)]
pub enum SectionKind {
    Untracked,
    Unstaged,
    Staged,
}

/// Whether a line was added or removed.
#[derive(Clone, Copy, Debug, PartialEq, Eq, Structural)]
pub enum ChangeKind {
    Addition,
    Deletion,
}

/// One line-level change of a file.
#[derive(Clone, Debug)]
pub struct ChangeRecord {
    pub line_number: usize,
    pub content: String,
    pub kind: ChangeKind,
}

/// One file of a section, with its lazily loaded changes.
#[derive(Clone, Debug)]
pub struct FileEntry {
    pub path: String,
    pub expanded: bool,
    pub changes: Vec<ChangeRecord>,
    /// Set when loading the changes failed; the file is then shown collapsed.
    pub load_failed: bool,
}

/// One section: its kind, whether it is expanded, and its files.
#[derive(Clone, Debug)]
pub struct SectionState {
    pub kind: SectionKind,
    pub expanded: bool,
    pub files: Vec<FileEntry>,
}

/// The three sections built from one status snapshot.
#[derive(Clone, Debug)]
pub struct RepositoryIndex {
    pub untracked: SectionState,
    pub unstaged: SectionState,
    pub staged: SectionState,
}

/// A raw entry of the status provider. An entry without a path is skipped.
#[derive(Clone, Debug)]
pub struct StatusEntry {
    pub path: Option<String>,
    pub staged: bool,
    pub unstaged: bool,
    pub untracked: bool,
}

/// The status bits of one working-tree entry, one flag each: the index side
/// (staged) and the working-tree side.
#[derive(Clone, Copy, Debug, PartialEq, Eq, Structural)]
pub struct StatusFlags {
    pub index_new: bool,
    pub index_modified: bool,
    pub index_deleted: bool,
    pub index_renamed: bool,
    pub index_typechange: bool,
    pub wt_new: bool,
    pub wt_modified: bool,
    pub wt_deleted: bool,
    pub wt_renamed: bool,
    pub wt_typechange: bool,
}

/// The paths of a sequence of files, in order.
pub open spec fn path_seq(files: Seq<FileEntry>) -> Seq<Seq<char>> {
    files.map_values(|f: FileEntry| f.path@)
}

/// `paths` with `p` appended, unless it is already there.
pub open spec fn with_path(paths: Seq<Seq<char>>, p: Seq<char>) -> Seq<Seq<char>> {
    if paths.contains(p) {
        paths
    } else {
        paths.push(p)
    }
}

/// Whether a status entry's flags place it in the section of `kind`.
pub open spec fn flagged(e: StatusEntry, kind: SectionKind) -> bool {
    match kind {
        SectionKind::Untracked => e.untracked,
        SectionKind::Unstaged => e.unstaged,
        SectionKind::Staged => e.staged,
    }
}

/// The paths that the section of `kind` lists after classifying `entries`:
/// first occurrences, in the order the provider reported them.
pub open spec fn classified(entries: Seq<StatusEntry>, kind: SectionKind) -> Seq<Seq<char>>
    decreases entries.len(),
{
    if entries.len() == 0 {
        seq![]
    } else {
        let prev = classified(entries.drop_last(), kind);
        let e = entries.last();
        match e.path {
            Some(p) => if flagged(e, kind) {
                with_path(prev, p@)
            } else {
                prev
            },
            None => prev,
        }
    }
}

/// A file as classification creates it: collapsed, nothing loaded.
pub open spec fn is_fresh(f: FileEntry) -> bool {
    !f.expanded && f.changes@.len() == 0 && !f.load_failed
}

pub open spec fn all_fresh(files: Seq<FileEntry>) -> bool {
    forall|i: int| 0 <= i < files.len() ==> is_fresh(#[trigger] files[i])
}

impl StatusEntry {
    /// Classifies status bits: any index-side change stages the path, a new
    /// working-tree file is untracked, any other working-tree change is
    /// unstaged.
    pub fn from_flags(path: Option<String>, f: &StatusFlags) -> (r: StatusEntry)
        ensures
            r.path == path,
            r.staged == (f.index_new || f.index_modified || f.index_deleted || f.index_renamed
                || f.index_typechange),
            r.untracked == f.wt_new,
            r.unstaged == (f.wt_modified || f.wt_deleted || f.wt_renamed || f.wt_typechange),
    {
        StatusEntry {
            path,
            staged: f.index_new || f.index_modified || f.index_deleted || f.index_renamed
                || f.index_typechange,
            unstaged: f.wt_modified || f.wt_deleted || f.wt_renamed || f.wt_typechange,
            untracked: f.wt_new,
        }
    }

    pub fn is_flagged(&self, kind: SectionKind) -> (r: bool)
        ensures
            r == flagged(*self, kind),
    {
        match kind {
            SectionKind::Untracked => self.untracked,
            SectionKind::Unstaged => self.unstaged,
            SectionKind::Staged => self.staged,
        }
    }
}

impl FileEntry {
    /// A collapsed file with no changes loaded.
    pub fn new(path: String) -> (r: FileEntry)
        ensures
            r.path == path,
            is_fresh(r),
    {
        FileEntry { path, expanded: false, changes: Vec::new(), load_failed: false }
    }
}

/// Adds a fresh entry for `path` unless `files` already holds one; an existing
/// entry is left as it is.
pub fn update_file_states(files: &mut Vec<FileEntry>, path: String)
    ensures
        path_seq(final(files)@) == with_path(path_seq(old(files)@), path@),
        final(files).len() >= old(files).len(),
        forall|i: int| 0 <= i < old(files).len() ==> final(files)@[i] == old(files)@[i],
        forall|i: int|
            old(files).len() <= i < final(files).len() ==> is_fresh(#[trigger] final(files)@[i]),
{
    let mut i: usize = 0;
    while i < files.len()
        invariant
            0 <= i <= files.len(),
            files@ == old(files)@,
            forall|j: int| 0 <= j < i ==> files@[j].path@ != path@,
        decreases files.len() - i,
    {
        if files[i].path == path {
            assert(path_seq(files@)[i as int] == path@);
            return ;
        }
        i += 1;
    }
    assert(!path_seq(files@).contains(path@)) by {
        assert forall|j: int| 0 <= j < path_seq(files@).len() implies path_seq(files@)[j]
            != path@ by {
            assert(files@[j].path@ != path@);
        }
    }
    files.push(FileEntry::new(path));
    assert(path_seq(final(files)@) =~= path_seq(old(files)@).push(path@));
}


/// Every path occurs once in a sequence of paths.
pub open spec fn unique_paths(paths: Seq<Seq<char>>) -> bool {
    paths.no_duplicates()
}

/// Classification never lists a path twice in one section, whatever the
/// entries, repeated paths included.
pub proof fn lemma_classified_unique(entries: Seq<StatusEntry>, kind: SectionKind)
    ensures
        unique_paths(classified(entries, kind)),
    decreases entries.len(),
{
    if entries.len() > 0 {
        lemma_classified_unique(entries.drop_last(), kind);
        let prev = classified(entries.drop_last(), kind);
        let e = entries.last();
        if e.path is Some && flagged(e, kind) {
            let p = e.path->0@;
            if !prev.contains(p) {
                let q = prev.push(p);
                assert forall|i: int, j: int|
                    0 <= i < q.len() && 0 <= j < q.len() && i != j implies q[i] != q[j] by {
                    if i == prev.len() {
                        assert(prev[j] != p);
                    } else if j == prev.len() {
                        assert(prev[i] != p);
                    }
                }
            }
        }
    }
}

impl SectionState {
    /// An empty, collapsed section.
    pub fn new(kind: SectionKind) -> (r: SectionState)
        ensures
            r.kind == kind,
            !r.expanded,
            r.files@.len() == 0,
    {
        SectionState { kind, expanded: false, files: Vec::new() }
    }

    /// The section's paths are unique.
    pub open spec fn wf(&self) -> bool {
        unique_paths(path_seq(self.files@))
    }
}

impl RepositoryIndex {
    /// The section of `kind`.
    pub open spec fn sec(&self, kind: SectionKind) -> SectionState {
        match kind {
            SectionKind::Untracked => self.untracked,
            SectionKind::Unstaged => self.unstaged,
            SectionKind::Staged => self.staged,
        }
    }

    /// Each section has its own kind and unique paths.
    pub open spec fn wf(&self) -> bool {
        forall|k: SectionKind| #[trigger] self.sec(k).kind == k && self.sec(k).wf()
    }

    /// The number of files in the section of `kind`.
    pub open spec fn len_of(&self, kind: SectionKind) -> nat {
        self.sec(kind).files@.len()
    }

    pub fn section(&self, kind: SectionKind) -> (r: &SectionState)
        ensures
            *r == self.sec(kind),
    {
        match kind {
            SectionKind::Untracked => &self.untracked,
            SectionKind::Unstaged => &self.unstaged,
            SectionKind::Staged => &self.staged,
        }
    }

    /// Classifies status entries: a path goes to each section whose flag it
    /// carries, once, in the order reported; entries without a path are
    /// skipped. Sections start collapsed and files fresh.
    pub fn from_statuses(entries: &Vec<StatusEntry>) -> (r: RepositoryIndex)
        ensures
            r.wf(),
            forall|k: SectionKind|
                path_seq(#[trigger] r.sec(k).files@) == classified(entries@, k) && !r.sec(
                    k,
                ).expanded && all_fresh(r.sec(k).files@),
    {
        let mut untracked: Vec<FileEntry> = Vec::new();
        let mut unstaged: Vec<FileEntry> = Vec::new();
        let mut staged: Vec<FileEntry> = Vec::new();
        let mut i: usize = 0;
        while i < entries.len()
            invariant
                0 <= i <= entries.len(),
                path_seq(untracked@) == classified(entries@.take(i as int), SectionKind::Untracked),
                path_seq(unstaged@) == classified(entries@.take(i as int), SectionKind::Unstaged),
                path_seq(staged@) == classified(entries@.take(i as int), SectionKind::Staged),
                all_fresh(untracked@),
                all_fresh(unstaged@),
                all_fresh(staged@),
            decreases entries.len() - i,
        {
            let e = &entries[i];
            assert(entries@.take(i + 1).drop_last() =~= entries@.take(i as int));
            assert(entries@.take(i + 1).last() == *e);
            if let Some(p) = &e.path {
                if e.is_flagged(SectionKind::Untracked) {
                    update_file_states(&mut untracked, p.clone());
                }
                if e.is_flagged(SectionKind::Unstaged) {
                    update_file_states(&mut unstaged, p.clone());
                }
                if e.is_flagged(SectionKind::Staged) {
                    update_file_states(&mut staged, p.clone());
                }
            }
            i += 1;
        }
        assert(entries@.take(entries.len() as int) =~= entries@);
        proof {
            lemma_classified_unique(entries@, SectionKind::Untracked);
            lemma_classified_unique(entries@, SectionKind::Unstaged);
            lemma_classified_unique(entries@, SectionKind::Staged);
        }
        let r = RepositoryIndex {
            untracked: SectionState { kind: SectionKind::Untracked, expanded: false, files: untracked },
            unstaged: SectionState { kind: SectionKind::Unstaged, expanded: false, files: unstaged },
            staged: SectionState { kind: SectionKind::Staged, expanded: false, files: staged },
        };
        assert forall|k: SectionKind| #[trigger] r.sec(k).kind == k && r.sec(k).wf() by {
            match k {
                SectionKind::Untracked => {},
                SectionKind::Unstaged => {},
                SectionKind::Staged => {},
            }
        }
        r
    }

    /// Whether the section of `kind` lists `path`.
    pub fn lists(&self, kind: SectionKind, path: &String) -> (r: bool)
        ensures
            r == path_seq(self.sec(kind).files@).contains(path@),
    {
        let files = &self.section(kind).files;
        let mut i: usize = 0;
        while i < files.len()
            invariant
                0 <= i <= files.len(),
                files@ == self.sec(kind).files@,
                forall|j: int| 0 <= j < i ==> files@[j].path@ != path@,
            decreases files.len() - i,
        {
            if files[i].path == *path {
                assert(path_seq(files@)[i as int] == path@);
                return true;
            }
            i += 1;
        }
        assert forall|j: int| 0 <= j < path_seq(files@).len() implies path_seq(files@)[j]
            != path@ by {
            assert(files@[j].path@ != path@);
        }
        false
    }
}

} // verus!
