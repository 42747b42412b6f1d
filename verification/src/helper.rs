//! Terminal centering support.
//!
//! A line is centered by printing spaces before it; how many is a pure
//! computation from the line's display width and the terminal's column count.
//! The display width comes from the `unicode-width` crate; reading the
//! terminal size and printing stay with the unverified runner.

use vstd::prelude::*;
use unicode_width::UnicodeWidthStr;

verus! {

/// Display width, in terminal columns, of a string: what
/// `unicode_width::UnicodeWidthStr::width` computes from the characters.
pub uninterp spec fn display_width(s: Seq<char>) -> nat;

/// Relies on `unicode_width::UnicodeWidthStr::width`: the displayed width in
/// columns, a function of the characters alone (zero for the empty string).
#[verifier::external_body]
pub fn str_display_width(s: &str) -> (r: usize)
    ensures
        r as nat == display_width(s@),
        s@.len() == 0 ==> r == 0,
{
    UnicodeWidthStr::width(s)
}

/// How many spaces to print before `msg` so that it sits centered in a
/// terminal of `cols` columns; zero when it does not fit.
pub fn center_padding(msg: &str, cols: usize) -> (r: usize)
    ensures
        display_width(msg@) < cols ==> r == (cols - display_width(msg@)) / 2,
        display_width(msg@) >= cols ==> r == 0,
{
    let w = str_display_width(msg);
    if w < cols {
        (cols - w) / 2
    } else {
        0
    }
}

} // verus!
