//! Directory entries and their display order.

use vstd::prelude::*;
use crate::order::{lemma_lex_le_total, lemma_lex_le_trans, lower_of, name_le, name_le_exec};
use crate::path::DirPath;

verus! {

/// One filesystem object shown in the listing: a file, a directory, or
/// the synthetic ".." parent row. `path` is where activating the entry
/// navigates to; `size` is the byte count, used only for visual scaling.
pub struct DirEntry {
    pub name: String,
    pub path: DirPath,
    pub is_dir: bool,
    pub size: u64,
}

/// The display order on entries: every directory before every file;
/// within one group, case-insensitive lexicographic by name.
pub open spec fn entry_le(a: DirEntry, b: DirEntry) -> bool {
    if a.is_dir && !b.is_dir {
        true
    } else if !a.is_dir && b.is_dir {
        false
    } else {
        name_le(a.name@, b.name@)
    }
}

/// The sequence is sorted under the display order.
pub open spec fn entries_ordered(s: Seq<DirEntry>) -> bool {
    forall|i: int, j: int| 0 <= i < j < s.len() ==> #[trigger] entry_le(s[i], s[j])
}

/// Any two entries are comparable under the display order.
pub proof fn lemma_entry_le_total(a: DirEntry, b: DirEntry)
    ensures
        entry_le(a, b) || entry_le(b, a),
{
    lemma_lex_le_total(lower_of(a.name@), lower_of(b.name@));
}

/// The display order is transitive.
pub proof fn lemma_entry_le_trans(a: DirEntry, b: DirEntry, c: DirEntry)
    requires
        entry_le(a, b),
        entry_le(b, c),
    ensures
        entry_le(a, c),
{
    if a.is_dir == b.is_dir && b.is_dir == c.is_dir {
        lemma_lex_le_trans(lower_of(a.name@), lower_of(b.name@), lower_of(c.name@));
    }
}

/// In an ordered listing every directory stands before every file, and
/// within each group the names ascend case-insensitively.
pub proof fn lemma_ordered_groups(s: Seq<DirEntry>)
    requires
        entries_ordered(s),
    ensures
        forall|i: int, j: int|
            #![trigger s[i], s[j]]
            0 <= i < j < s.len() && s[j].is_dir ==> s[i].is_dir,
        forall|i: int, j: int|
            #![trigger s[i], s[j]]
            0 <= i < j < s.len() && s[i].is_dir == s[j].is_dir ==> name_le(s[i].name@, s[j].name@),
{
    assert forall|i: int, j: int|
        #![trigger s[i], s[j]]
        0 <= i < j < s.len() && s[j].is_dir implies s[i].is_dir by {
        assert(entry_le(s[i], s[j]));
    }
    assert forall|i: int, j: int|
        #![trigger s[i], s[j]]
        0 <= i < j < s.len() && s[i].is_dir == s[j].is_dir implies name_le(
        s[i].name@,
        s[j].name@,
    ) by {
        assert(entry_le(s[i], s[j]));
    }
}

/// Decides the display order between two entries.
fn le_entry(a: &DirEntry, b: &DirEntry) -> (r: bool)
    ensures
        r == entry_le(*a, *b),
{
    if a.is_dir != b.is_dir {
        a.is_dir
    } else {
        name_le_exec(&a.name, &b.name)
    }
}

/// Sorts the entries into the display order. The result holds exactly
/// the entries that were given, as a multiset.
pub fn sort_entries(v: &mut Vec<DirEntry>)
    ensures
        entries_ordered(final(v)@),
        final(v)@.to_multiset() == old(v)@.to_multiset(),
        final(v)@.len() == old(v)@.len(),
{
    let ghost orig = v@;
    let mut i: usize = 1;
    while i < v.len()
        invariant
            1 <= i,
            v@.len() == orig.len(),
            v@.to_multiset() == orig.to_multiset(),
            forall|k: int, l: int|
                0 <= k < l < i && l < v@.len() ==> #[trigger] entry_le(v@[k], v@[l]),
        decreases v@.len() - i,
    {
        let ghost before = v@;
        let x = v.remove(i);
        let mut j: usize = i;
        while j > 0 && !le_entry(&v[j - 1], &x)
            invariant
                j <= i,
                i < before.len(),
                x == before[i as int],
                v@ == before.remove(i as int),
                forall|k: int, l: int| 0 <= k < l < i ==> #[trigger] entry_le(v@[k], v@[l]),
                forall|k: int| j <= k < i ==> #[trigger] entry_le(x, v@[k]),
            decreases j,
        {
            proof {
                lemma_entry_le_total(v@[j - 1], x);
            }
            j = j - 1;
        }
        proof {
            assert forall|k: int| 0 <= k < j implies #[trigger] entry_le(v@[k], x) by {
                if k < j - 1 {
                    lemma_entry_le_trans(v@[k], v@[j - 1], x);
                }
            }
        }
        let ghost removed = v@;
        v.insert(j, x);
        proof {
            broadcast use vstd::seq_lib::to_multiset_remove;
            broadcast use vstd::seq_lib::to_multiset_insert;
            broadcast use vstd::seq_lib::group_to_multiset_ensures;
            broadcast use vstd::multiset::group_multiset_axioms;

            assert(before.contains(x));
            assert(before.to_multiset().count(x) > 0);
            assert(v@.to_multiset() =~= before.to_multiset());
            assert forall|k: int, l: int|
                0 <= k < l < i + 1 && l < v@.len() implies #[trigger] entry_le(v@[k], v@[l]) by {
                if l < j {
                    assert(v@[k] == removed[k] && v@[l] == removed[l]);
                } else if l == j {
                    assert(v@[k] == removed[k] && v@[l] == x);
                } else if k < j {
                    assert(v@[k] == removed[k] && v@[l] == removed[l - 1]);
                } else if k == j {
                    assert(v@[k] == x && v@[l] == removed[l - 1]);
                } else {
                    assert(v@[k] == removed[k - 1] && v@[l] == removed[l - 1]);
                }
            }
        }
        i = i + 1;
    }
}

} // verus!
