//! The shared alignment primitive: padding a text with spaces to a target
//! column width, on either side.

use vstd::prelude::*;
use vstd::string::StrSliceExecFns;
use vstd::string::StringExecFns;

verus! {

/// A run of `n` space characters.
pub open spec fn spaces(n: nat) -> Seq<char> {
    Seq::new(n, |i: int| ' ')
}

/// How many spaces padding adds: the shortfall of `len` against `width`,
/// clamped at zero when the text already overflows the column.
pub open spec fn pad_gap(len: nat, width: nat) -> nat {
    if len <= width {
        (width - len) as nat
    } else {
        0
    }
}

/// Append `n` spaces to `out`.
fn push_spaces(out: &mut String, n: usize)
    ensures
        final(out)@ == old(out)@ + spaces(n as nat),
{
    let mut i: usize = 0;
    while i < n
        invariant
            i <= n,
            out@ == old(out)@ + spaces(i as nat),
        decreases n - i,
    {
        out.append(" ");
        i = i + 1;
        proof {
            reveal_strlit(" ");
            assert(out@ =~= old(out)@ + spaces(i as nat));
        }
    }
    proof {
        assert(out@ =~= old(out)@ + spaces(n as nat));
    }
}

/// Left-justify `text` in a column of `width` characters: the text itself,
/// then enough spaces to reach the width. A text at or over the width comes
/// back unpadded; the result never has fewer characters than the text.
pub fn pad_left_justify(text: &str, width: usize) -> (r: String)
    ensures
        r@ == text@ + spaces(pad_gap(text@.len(), width as nat)),
        text@.len() <= width ==> r@.len() == width,
        text@.len() >= width ==> r@ == text@,
{
    let len = text.unicode_len();
    let mut out = text.to_owned();
    if len < width {
        push_spaces(&mut out, width - len);
    }
    proof {
        assert(out@ =~= text@ + spaces(pad_gap(text@.len(), width as nat)));
    }
    out
}

/// Right-justify `text` in a column of `width` characters: enough spaces to
/// reach the width, then the text itself. A text at or over the width comes
/// back unpadded.
pub fn pad_right_justify(text: &str, width: usize) -> (r: String)
    ensures
        r@ == spaces(pad_gap(text@.len(), width as nat)) + text@,
        text@.len() <= width ==> r@.len() == width,
        text@.len() >= width ==> r@ == text@,
{
    let len = text.unicode_len();
    let mut out = String::new();
    if len < width {
        push_spaces(&mut out, width - len);
    }
    out.append(text);
    proof {
        assert(out@ =~= spaces(pad_gap(text@.len(), width as nat)) + text@);
    }
    out
}

} // verus!
