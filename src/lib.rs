//! Displayed width of characters and strings in terminal columns, following
//! the East Asian Width rules of Unicode Standard Annex #11.
//!
//! A character takes zero, one or two columns, or has no width at all when it
//! is a control character other than U+0000. Characters of the East Asian
//! Ambiguous category take one column, or two in CJK contexts.
use vstd::prelude::*;
use crate::width::{char_width, spec_char_width, spec_str_width, str_width};

pub mod range_table;
pub mod tables;
pub mod width;

pub use crate::tables::UNICODE_VERSION;

verus! {

/// Displayed width of Unicode characters.
pub trait UnicodeWidthChar: Sized {
    /// The width in columns in the given context, `None` where there is none.
    spec fn spec_width(self, is_cjk: bool) -> Option<usize>;

    /// The width in columns, Ambiguous characters counted as one column;
    /// `None` for a control character other than U+0000.
    fn width(self) -> (r: Option<usize>)
        ensures
            r == self.spec_width(false),
    ;

    /// The width in columns, Ambiguous characters counted as two columns;
    /// `None` for a control character other than U+0000.
    fn width_cjk(self) -> (r: Option<usize>)
        ensures
            r == self.spec_width(true),
    ;
}

impl UnicodeWidthChar for char {
    open spec fn spec_width(self, is_cjk: bool) -> Option<usize> {
        spec_char_width(self, is_cjk)
    }

    fn width(self) -> (r: Option<usize>) {
        char_width(self, false)
    }

    fn width_cjk(self) -> (r: Option<usize>) {
        char_width(self, true)
    }
}

/// Displayed width of Unicode strings.
pub trait UnicodeWidthStr {
    /// The number of characters.
    spec fn spec_char_count(&self) -> nat;

    /// The width in columns in the given context.
    spec fn spec_width(&self, is_cjk: bool) -> nat;

    /// The width in columns, control characters counted as zero and
    /// Ambiguous characters as one column.
    fn width(&self) -> (r: usize)
        requires
            self.spec_char_count() <= usize::MAX / 2,
        ensures
            r == self.spec_width(false),
    ;

    /// The width in columns, control characters counted as zero and
    /// Ambiguous characters as two columns.
    fn width_cjk(&self) -> (r: usize)
        requires
            self.spec_char_count() <= usize::MAX / 2,
        ensures
            r == self.spec_width(true),
    ;
}

impl UnicodeWidthStr for str {
    open spec fn spec_char_count(&self) -> nat {
        self@.len()
    }

    open spec fn spec_width(&self, is_cjk: bool) -> nat {
        spec_str_width(self@, is_cjk)
    }

    fn width(&self) -> (r: usize) {
        str_width(self, false)
    }

    fn width_cjk(&self) -> (r: usize) {
        str_width(self, true)
    }
}

} // verus!
