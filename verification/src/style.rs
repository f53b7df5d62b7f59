//! The injected lookup tables: terminal styles and fixed glyph tokens.

use vstd::prelude::*;
use vstd::string::StringExecFns;

verus! {

/// A terminal style: an opening escape written before the text and a closing
/// escape written after it. The exact escape encoding is the theme's concern
/// and is carried through unchanged.
pub struct Style {
    pub prefix: String,
    pub suffix: String,
}

impl Style {
    /// The text `s` wrapped in this style's opening and closing escapes.
    pub open spec fn spec_paint(self, s: Seq<char>) -> Seq<char> {
        self.prefix@ + s + self.suffix@
    }

    /// Wrap `s` in this style and return the decorated string.
    pub fn paint(&self, s: &str) -> (r: String)
        ensures
            r@ == self.spec_paint(s@),
    {
        let mut out = self.prefix.clone();
        out.append(s);
        out.append(self.suffix.as_str());
        proof {
            assert(out@ =~= self.spec_paint(s@));
        }
        out
    }
}

/// The colour theme, owned by the caller and read only: one style per
/// semantic element that the formatter distinguishes.
pub struct ColorTheme {
    pub dir: Style,
    pub unrecognized_file: Style,
    pub link: Style,
    pub hour_old: Style,
    pub day_old: Style,
    pub older: Style,
    pub user: Style,
    pub group: Style,
    pub file_small: Style,
    pub file_medium: Style,
    pub file_large: Style,
}

/// The precomputed token table, owned by the caller and read only: the three
/// entry-type glyphs and the four permission tokens.
pub struct PrecomputedElems {
    pub file: String,
    pub dir: String,
    pub symlink: String,
    pub no_access: String,
    pub read: String,
    pub write: String,
    pub execute: String,
}

impl PrecomputedElems {
    /// Every token in the table is a single character, as in a classic
    /// permission column.
    pub open spec fn single_width(self) -> bool {
        &&& self.file@.len() == 1
        &&& self.dir@.len() == 1
        &&& self.symlink@.len() == 1
        &&& self.no_access@.len() == 1
        &&& self.read@.len() == 1
        &&& self.write@.len() == 1
        &&& self.execute@.len() == 1
    }
}

} // verus!
