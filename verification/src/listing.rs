use vstd::prelude::*;

use crate::models::{FileInfo, FileKind};
use crate::strings::{lemma_lex_le_total, lemma_lex_le_trans, lex_le, lex_le_exec, lower_of,
    lowercase};

verus! {

/// The listing order: directories precede files, and entries of the same
/// kind are ordered case-insensitively by name.
pub open spec fn entry_le(a: FileInfo, b: FileInfo) -> bool {
    if a.kind == b.kind {
        lex_le(lower_of(a.name@), lower_of(b.name@))
    } else {
        a.kind is Directory
    }
}

/// A listing in which every entry precedes the later ones.
pub open spec fn entries_sorted(s: Seq<FileInfo>) -> bool {
    forall|x: int, y: int| 0 <= x < y < s.len() ==> entry_le(s[x], s[y])
}

/// The listing order is total: of any two entries, one precedes the other.
pub proof fn lemma_entry_le_total(a: FileInfo, b: FileInfo)
    ensures
        entry_le(a, b) || entry_le(b, a),
{
    if a.kind == b.kind {
        lemma_lex_le_total(lower_of(a.name@), lower_of(b.name@));
    }
}

/// The listing order is transitive.
pub proof fn lemma_entry_le_trans(a: FileInfo, b: FileInfo, c: FileInfo)
    requires
        entry_le(a, b),
        entry_le(b, c),
    ensures
        entry_le(a, c),
{
    if a.kind == b.kind && b.kind == c.kind {
        lemma_lex_le_trans(
            lower_of(a.name@),
            lower_of(b.name@),
            lower_of(c.name@),
        );
    }
}

/// Decides the listing order on two entries.
fn entry_le_exec(a: &FileInfo, b: &FileInfo) -> (r: bool)
    ensures
        r == entry_le(*a, *b),
{
    if a.kind == b.kind {
        let la = lowercase(a.name.as_str());
        let lb = lowercase(b.name.as_str());
        lex_le_exec(la.as_str(), lb.as_str())
    } else {
        match a.kind {
            FileKind::Directory => true,
            FileKind::File => false,
        }
    }
}

/// Sorts a directory listing into the order shown to the caller: the same
/// entries, with every directory before every file and each kind ordered
/// case-insensitively by name.
pub fn sort_entries(entries: &mut Vec<FileInfo>)
    ensures
        final(entries)@.to_multiset() == old(entries)@.to_multiset(),
        entries_sorted(final(entries)@),
        forall|x: int, y: int|
            0 <= x < y < final(entries)@.len() && final(entries)@[y].kind is Directory
                ==> final(entries)@[x].kind is Directory,
        forall|x: int, y: int|
            0 <= x < y < final(entries)@.len()
                && final(entries)@[x].kind == final(entries)@[y].kind
                ==> lex_le(
                    lower_of(final(entries)@[x].name@),
                    lower_of(final(entries)@[y].name@),
                ),
{
    let mut i: usize = 1;
    while i < entries.len()
        invariant
            entries@.to_multiset() == old(entries)@.to_multiset(),
            1 <= i,
            forall|x: int, y: int|
                0 <= x < y < i && y < entries@.len() ==> entry_le(entries@[x], entries@[y]),
        decreases entries@.len() - i,
    {
        let mut j: usize = 0;
        while j < i && entry_le_exec(&entries[j], &entries[i])
            invariant
                j <= i,
                i < entries@.len(),
                forall|k: int| 0 <= k < j ==> entry_le(entries@[k], entries@[i as int]),
            decreases i - j,
        {
            j = j + 1;
        }
        let ghost s = entries@;
        let ghost moved = entries@[i as int];
        proof {
            broadcast use vstd::seq_lib::group_to_multiset_ensures;
            broadcast use vstd::multiset::group_multiset_axioms;

            if j < i {
                lemma_entry_le_total(s[j as int], s[i as int]);
            }
            assert(s[i as int] == moved);
            assert(s.contains(moved));
            assert(s.to_multiset().count(moved) > 0);
        }
        let x = entries.remove(i);
        entries.insert(j, x);
        proof {
            broadcast use vstd::seq_lib::group_to_multiset_ensures;
            broadcast use vstd::multiset::group_multiset_axioms;

            let t = entries@;
            assert(t == s.remove(i as int).insert(j as int, moved));
            assert(t.to_multiset() =~= s.to_multiset());
            assert forall|p: int, q: int|
                0 <= p < q < i + 1 && q < t.len() implies entry_le(t[p], t[q]) by {
                let ji = j as int;
                if q < ji {
                    assert(t[p] == s[p] && t[q] == s[q]);
                } else if q == ji {
                    assert(t[p] == s[p] && t[q] == moved);
                } else {
                    // q > j, so t[q] == s[q - 1]
                    assert(t[q] == s[q - 1]);
                    if p < ji {
                        assert(t[p] == s[p]);
                        if p < q - 1 {
                            assert(entry_le(s[p], s[q - 1]));
                        }
                    } else if p == ji {
                        assert(t[p] == moved);
                        assert(entry_le(moved, s[ji]));
                        if ji < q - 1 {
                            lemma_entry_le_trans(moved, s[ji], s[q - 1]);
                        }
                    } else {
                        assert(t[p] == s[p - 1]);
                        assert(entry_le(s[p - 1], s[q - 1]));
                    }
                }
            }
        }
        i = i + 1;
    }
    proof {
        let t = entries@;
        assert forall|x: int, y: int|
            0 <= x < y < t.len() && t[y].kind is Directory implies t[x].kind is Directory by {
            assert(entry_le(t[x], t[y]));
        }
        assert forall|x: int, y: int|
            0 <= x < y < t.len() && t[x].kind == t[y].kind implies lex_le(
            lower_of(t[x].name@),
            lower_of(t[y].name@),
        ) by {
            assert(entry_le(t[x], t[y]));
        }
    }
}

} // verus!
