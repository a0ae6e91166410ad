use vstd::prelude::*;
use crate::range_table::{
    entry_contains, lookup, lemma_sorted_from_wf, spec_lookup, table_covers, RangeEntry, RangeKind,
};
use crate::tables::{lemma_width_ranges_sorted, WIDTH_RANGES};

verus! {

/// The display class of a single code point.
#[derive(Clone, Copy, Debug, PartialEq, Eq, Structural)]
pub enum WidthClass {
    /// No column.
    Zero,
    /// One column.
    One,
    /// Two columns.
    Two,
    /// No defined width: a control character other than U+0000.
    Unprintable,
}

/// A control character (general category Cc) other than U+0000.
pub open spec fn is_control(cp: u32) -> bool {
    (0x01 <= cp <= 0x1F) || (0x7F <= cp <= 0x9F)
}

/// How a tabulated kind is displayed in the given context.
pub open spec fn spec_kind_class(kind: RangeKind, is_cjk: bool) -> WidthClass {
    match kind {
        RangeKind::Zero => WidthClass::Zero,
        RangeKind::Narrow => WidthClass::One,
        RangeKind::Wide => WidthClass::Two,
        RangeKind::Ambiguous => if is_cjk {
            WidthClass::Two
        } else {
            WidthClass::One
        },
    }
}

/// Code point `cp` lies in a range of the built-in table marked ambiguous.
pub open spec fn in_ambiguous_range(cp: u32) -> bool {
    spec_lookup(WIDTH_RANGES@, cp) == Some(RangeKind::Ambiguous)
}

/// The class of a code point: U+0000 is zero width, other control characters
/// are unprintable, a tabulated code point takes its range's class in the
/// context, and every other code point is narrow.
pub open spec fn spec_classify(cp: u32, is_cjk: bool) -> WidthClass {
    if cp == 0 {
        WidthClass::Zero
    } else if is_control(cp) {
        WidthClass::Unprintable
    } else {
        match spec_lookup(WIDTH_RANGES@, cp) {
            Some(kind) => spec_kind_class(kind, is_cjk),
            None => WidthClass::One,
        }
    }
}

/// The number of columns of a class; `None` for an unprintable one.
pub open spec fn spec_class_width(class: WidthClass) -> Option<usize> {
    match class {
        WidthClass::Zero => Some(0),
        WidthClass::One => Some(1),
        WidthClass::Two => Some(2),
        WidthClass::Unprintable => None,
    }
}

/// The displayed width of a character, or `None` where it has none.
pub open spec fn spec_char_width(c: char, is_cjk: bool) -> Option<usize> {
    spec_class_width(spec_classify(c as u32, is_cjk))
}

/// The columns that a character adds to a string: its width, or 0 where it has
/// none.
pub open spec fn spec_char_columns(c: char, is_cjk: bool) -> nat {
    match spec_char_width(c, is_cjk) {
        Some(w) => w as nat,
        None => 0,
    }
}

/// The displayed width of a character sequence: the sum of its characters'
/// columns, in order.
pub open spec fn spec_str_width(s: Seq<char>, is_cjk: bool) -> nat
    decreases s.len(),
{
    if s.len() == 0 {
        0
    } else {
        spec_str_width(s.drop_last(), is_cjk) + spec_char_columns(s.last(), is_cjk)
    }
}

/// The class of a tabulated kind in the given context.
pub fn kind_class(kind: RangeKind, is_cjk: bool) -> (r: WidthClass)
    ensures
        r == spec_kind_class(kind, is_cjk),
{
    match kind {
        RangeKind::Zero => WidthClass::Zero,
        RangeKind::Narrow => WidthClass::One,
        RangeKind::Wide => WidthClass::Two,
        RangeKind::Ambiguous => if is_cjk {
            WidthClass::Two
        } else {
            WidthClass::One
        },
    }
}

/// The number of columns of a class, or `None` for an unprintable one.
pub fn class_width(class: WidthClass) -> (r: Option<usize>)
    ensures
        r == spec_class_width(class),
{
    match class {
        WidthClass::Zero => Some(0),
        WidthClass::One => Some(1),
        WidthClass::Two => Some(2),
        WidthClass::Unprintable => None,
    }
}

/// Classifies a character for the given context, searching the built-in table.
pub fn classify(c: char, is_cjk: bool) -> (r: WidthClass)
    ensures
        r == spec_classify(c as u32, is_cjk),
{
    let cp = c as u32;
    if cp == 0 {
        WidthClass::Zero
    } else if (0x01 <= cp && cp <= 0x1F) || (0x7F <= cp && cp <= 0x9F) {
        WidthClass::Unprintable
    } else {
        proof {
            lemma_width_ranges_sorted();
            lemma_sorted_from_wf(WIDTH_RANGES@);
        }
        let table: &[RangeEntry] = WIDTH_RANGES.as_slice();
        match lookup(table, cp) {
            Some(kind) => kind_class(kind, is_cjk),
            None => WidthClass::One,
        }
    }
}

/// The displayed width of a character in columns, or `None` for a control
/// character other than U+0000. `is_cjk` selects two columns for East Asian
/// Ambiguous characters instead of one.
pub fn char_width(c: char, is_cjk: bool) -> (r: Option<usize>)
    ensures
        r == spec_char_width(c, is_cjk),
        c as u32 == 0 ==> r == Some(0usize),
        is_control(c as u32) ==> r is None,
{
    class_width(classify(c, is_cjk))
}

/// A string's width never exceeds two columns per character.
pub proof fn lemma_str_width_bound(s: Seq<char>, is_cjk: bool)
    ensures
        spec_str_width(s, is_cjk) <= 2 * s.len(),
    decreases s.len(),
{
    if s.len() > 0 {
        lemma_str_width_bound(s.drop_last(), is_cjk);
    }
}

/// The displayed width of a string in columns: the sum of its characters'
/// widths, with control characters counted as zero. `is_cjk` selects two
/// columns for East Asian Ambiguous characters instead of one.
pub fn str_width(s: &str, is_cjk: bool) -> (r: usize)
    requires
        s@.len() <= usize::MAX / 2,
    ensures
        r == spec_str_width(s@, is_cjk),
        s@.len() == 0 ==> r == 0,
{
    broadcast use vstd::string::axiom_spec_iter;

    let mut total: usize = 0;
    for c in it: s.chars()
        invariant
            it.seq() == s@,
            s@.len() <= usize::MAX / 2,
            total == spec_str_width(s@.take(it.index() as int), is_cjk),
    {
        let ghost k = it.index() as int;
        proof {
            assert(s@.take(k + 1).drop_last() =~= s@.take(k));
            lemma_str_width_bound(s@.take(k + 1), is_cjk);
        }
        let w = match char_width(c, is_cjk) {
            Some(w) => w,
            None => 0,
        };
        total = total + w;
    }
    assert(s@.take(s@.len() as int) =~= s@);
    total
}

/// Every code point of the built-in table lies above the C1 control block.
proof fn lemma_tabulated_above_controls(cp: u32)
    requires
        table_covers(WIDTH_RANGES@, cp),
    ensures
        cp >= 0xA0,
{
    lemma_width_ranges_sorted();
    lemma_sorted_from_wf(WIDTH_RANGES@);
    let i = choose|i: int| entry_contains(WIDTH_RANGES@, i, cp);
    if i > 0 {
        assert(WIDTH_RANGES@[0].1 < WIDTH_RANGES@[i].0);
    }
    assert(WIDTH_RANGES@[0].0 >= 0xA0);
}

/// The two contexts agree on every character but those in an ambiguous range,
/// which are one column wide outside CJK contexts and two columns wide inside
/// them.
pub proof fn lemma_contexts_differ_only_on_ambiguous(c: char)
    ensures
        in_ambiguous_range(c as u32) ==> {
            &&& spec_char_width(c, false) == Some(1usize)
            &&& spec_char_width(c, true) == Some(2usize)
        },
        !in_ambiguous_range(c as u32) ==> spec_char_width(c, false) == spec_char_width(c, true),
{
    if in_ambiguous_range(c as u32) {
        lemma_tabulated_above_controls(c as u32);
    }
}

/// Lookups are deterministic: two results for the same character and context
/// are equal.
pub proof fn lemma_char_width_deterministic(c: char, is_cjk: bool, r1: Option<usize>, r2: Option<usize>)
    requires
        r1 == spec_char_width(c, is_cjk),
        r2 == spec_char_width(c, is_cjk),
    ensures
        r1 == r2,
{
}

/// String widths are deterministic: two results for the same string and
/// context are equal.
pub proof fn lemma_str_width_deterministic(s: Seq<char>, is_cjk: bool, r1: usize, r2: usize)
    requires
        r1 == spec_str_width(s, is_cjk),
        r2 == spec_str_width(s, is_cjk),
    ensures
        r1 == r2,
{
}

/// The width of a concatenation is the sum of the widths of its parts.
pub proof fn lemma_str_width_concat(a: Seq<char>, b: Seq<char>, is_cjk: bool)
    ensures
        spec_str_width(a + b, is_cjk) == spec_str_width(a, is_cjk) + spec_str_width(b, is_cjk),
    decreases b.len(),
{
    if b.len() == 0 {
        assert(a + b =~= a);
    } else {
        assert((a + b).drop_last() =~= a + b.drop_last());
        lemma_str_width_concat(a, b.drop_last(), is_cjk);
    }
}

} // verus!
