use vstd::prelude::*;

verus! {

/// How an explicitly tabulated range of code points is displayed.
#[derive(Clone, Copy, Debug, PartialEq, Eq, Structural)]
pub enum RangeKind {
    /// Takes no column (combining marks, format characters).
    Zero,
    /// Takes one column in every context.
    Narrow,
    /// Takes two columns in every context (East Asian Wide and Fullwidth).
    Wide,
    /// East Asian Ambiguous: one column outside CJK contexts, two inside.
    Ambiguous,
}

/// An inclusive range of code points with its kind: `(low, high, kind)`.
pub type RangeEntry = (u32, u32, RangeKind);

/// Entry `i` and every later one are non-empty and each ends before the next
/// one starts. Stated entry by entry, so that a concrete table can be checked
/// by unfolding.
pub open spec fn sorted_from(s: Seq<RangeEntry>, i: nat) -> bool
    decreases s.len() - i,
{
    if i >= s.len() {
        true
    } else if i + 1 == s.len() {
        s[i as int].0 <= s[i as int].1
    } else {
        s[i as int].0 <= s[i as int].1 && s[i as int].1 < s[(i + 1) as int].0 && sorted_from(
            s,
            i + 1,
        )
    }
}

/// A well-formed range table: every entry is non-empty, and entries are
/// strictly increasing and pairwise disjoint.
pub open spec fn table_wf(s: Seq<RangeEntry>) -> bool {
    &&& forall|i: int| 0 <= i < s.len() ==> #[trigger] s[i].0 <= s[i].1
    &&& forall|i: int, j: int| 0 <= i < j < s.len() ==> #[trigger] s[i].1 < #[trigger] s[j].0
}

/// Entry `i` of the table holds code point `cp`.
pub open spec fn entry_contains(s: Seq<RangeEntry>, i: int, cp: u32) -> bool {
    0 <= i < s.len() && s[i].0 <= cp <= s[i].1
}

/// Some entry of the table holds `cp`.
pub open spec fn table_covers(s: Seq<RangeEntry>, cp: u32) -> bool {
    exists|i: int| entry_contains(s, i, cp)
}

/// The kind of the entry that holds `cp`, or `None` where `cp` falls in a gap.
pub open spec fn spec_lookup(s: Seq<RangeEntry>, cp: u32) -> Option<RangeKind> {
    if table_covers(s, cp) {
        Some(s[choose|i: int| entry_contains(s, i, cp)].2)
    } else {
        None
    }
}

/// In a well-formed table at most one entry holds a given code point.
pub proof fn lemma_entry_unique(s: Seq<RangeEntry>, i: int, j: int, cp: u32)
    requires
        table_wf(s),
        entry_contains(s, i, cp),
        entry_contains(s, j, cp),
    ensures
        i == j,
{
    if i < j {
        assert(s[i].1 < s[j].0);
    } else if j < i {
        assert(s[j].1 < s[i].0);
    }
}

/// The entry-by-entry ordering implies well-formedness.
pub proof fn lemma_sorted_from_wf(s: Seq<RangeEntry>)
    requires
        sorted_from(s, 0),
    ensures
        table_wf(s),
{
    lemma_sorted_from_suffix(s, 0);
}

proof fn lemma_sorted_from_suffix(s: Seq<RangeEntry>, k: nat)
    requires
        sorted_from(s, k),
    ensures
        forall|i: int| k <= i < s.len() ==> #[trigger] s[i].0 <= s[i].1,
        forall|i: int, j: int| k <= i < j < s.len() ==> #[trigger] s[i].1 < #[trigger] s[j].0,
    decreases s.len() - k,
{
    if k + 1 < s.len() {
        lemma_sorted_from_suffix(s, k + 1);
        assert forall|i: int, j: int| k <= i < j < s.len() implies #[trigger] s[i].1
            < #[trigger] s[j].0 by {
            if i == k && j > k + 1 {
                assert(s[(k + 1) as int].0 <= s[(k + 1) as int].1);
                assert(s[(k + 1) as int].1 < s[j].0);
            }
        }
    }
}

/// Tells whether a table is well formed: every entry non-empty, and each
/// ending before the next one starts.
pub fn is_well_formed(table: &[RangeEntry]) -> (r: bool)
    ensures
        r == table_wf(table@),
{
    let mut i: usize = 0;
    while i < table.len()
        invariant
            i <= table@.len(),
            forall|k: int| 0 <= k < i ==> #[trigger] table@[k].0 <= table@[k].1,
            forall|k: int, j: int| 0 <= k < j < i ==> #[trigger] table@[k].1 < #[trigger] table@[j].0,
        decreases table.len() - i,
    {
        if table[i].0 > table[i].1 {
            assert(!(table@[i as int].0 <= table@[i as int].1));
            return false;
        }
        if i > 0 && table[i - 1].1 >= table[i].0 {
            assert(!(table@[i - 1].1 < table@[i as int].0));
            return false;
        }
        assert forall|k: int| 0 <= k < i implies #[trigger] table@[k].1 < table@[i as int].0 by {
            if k < i - 1 {
                assert(table@[k].1 < table@[i - 1].0);
                assert(table@[i - 1].0 <= table@[i - 1].1);
            }
        }
        i = i + 1;
    }
    true
}

/// Finds the kind of the entry that holds `cp`, by binary search.
pub fn lookup(table: &[RangeEntry], cp: u32) -> (r: Option<RangeKind>)
    requires
        table_wf(table@),
    ensures
        r == spec_lookup(table@, cp),
{
    let mut lo: usize = 0;
    let mut hi: usize = table.len();
    while lo < hi
        invariant
            table_wf(table@),
            lo <= hi <= table@.len(),
            forall|i: int| 0 <= i < lo ==> #[trigger] table@[i].1 < cp,
            forall|i: int| hi <= i < table@.len() ==> cp < #[trigger] table@[i].0,
        decreases hi - lo,
    {
        let mid: usize = lo + (hi - lo) / 2;
        let (low, high, kind) = table[mid];
        if cp < low {
            assert forall|i: int| mid <= i < table@.len() implies cp < #[trigger] table@[i].0 by {
                if i > mid {
                    assert(table@[mid as int].1 < table@[i].0);
                }
            }
            hi = mid;
        } else if high < cp {
            assert forall|i: int| 0 <= i < mid + 1 implies #[trigger] table@[i].1 < cp by {
                if i < mid {
                    assert(table@[i].1 < table@[mid as int].0);
                }
            }
            lo = mid + 1;
        } else {
            proof {
                assert(entry_contains(table@, mid as int, cp));
                let j = choose|j: int| entry_contains(table@, j, cp);
                lemma_entry_unique(table@, mid as int, j, cp);
            }
            return Some(kind);
        }
    }
    assert(!table_covers(table@, cp)) by {
        if table_covers(table@, cp) {
            let j = choose|j: int| entry_contains(table@, j, cp);
            if j < lo {
                assert(table@[j].1 < cp);
            } else {
                assert(cp < table@[j].0);
            }
        }
    }
    None
}

} // verus!
