use vstd::prelude::*;
use crate::index::{classified, path_seq, RepositoryIndex, SectionKind, StatusEntry};
use crate::view::{present_in, pruned_set, set_flag, Key};

verus! {

/// Setting a file's flag to true and then to false, done twice, ends where
/// doing it once ends; for a file that was collapsed, that is the state it
/// started from.
pub proof fn lemma_expand_collapse_twice(s: Set<Key>, key: Key)
    ensures
        set_flag(set_flag(set_flag(set_flag(s, key, true), key, false), key, true), key, false)
            == set_flag(set_flag(s, key, true), key, false),
        !s.contains(key) ==> set_flag(
            set_flag(set_flag(set_flag(s, key, true), key, false), key, true),
            key,
            false,
        ) == s,
{
    assert(set_flag(set_flag(set_flag(set_flag(s, key, true), key, false), key, true), key, false)
        =~= set_flag(set_flag(s, key, true), key, false));
    if !s.contains(key) {
        assert(set_flag(set_flag(s, key, true), key, false) =~= s);
    }
}

/// An index built from `entries`: each section lists the classified paths.
pub open spec fn built_from(idx: RepositoryIndex, entries: Seq<StatusEntry>) -> bool {
    forall|k: SectionKind| #[trigger] path_seq(idx.sec(k).files@) == classified(entries, k)
}

/// Rebuilding from an unchanged status set keeps every expansion flag: once
/// the view was pruned against one build, pruning it against the next build
/// of the same entries changes nothing.
pub proof fn lemma_rebuild_keeps_flags(
    s: Set<Key>,
    entries: Seq<StatusEntry>,
    before: RepositoryIndex,
    after: RepositoryIndex,
)
    requires
        built_from(before, entries),
        built_from(after, entries),
    ensures
        pruned_set(pruned_set(s, before), after) == pruned_set(s, before),
{
    assert forall|k: Key| #[trigger] present_in(after, k) == present_in(before, k) by {
        assert(path_seq(after.sec(k.0).files@) == classified(entries, k.0));
        assert(path_seq(before.sec(k.0).files@) == classified(entries, k.0));
    }
    assert(pruned_set(pruned_set(s, before), after) =~= pruned_set(s, before));
}

/// A path that leaves the status set loses its flag at the rebuild, and when
/// a later rebuild lists it again it starts collapsed.
pub proof fn lemma_removed_path_forgotten(
    s: Set<Key>,
    key: Key,
    without: Seq<StatusEntry>,
    pruned_against: RepositoryIndex,
    again: RepositoryIndex,
)
    requires
        built_from(pruned_against, without),
        !classified(without, key.0).contains(key.1),
    ensures
        !pruned_set(s, pruned_against).contains(key),
        !pruned_set(pruned_set(s, pruned_against), again).contains(key),
{
    assert(path_seq(pruned_against.sec(key.0).files@) == classified(without, key.0));
}

} // verus!
