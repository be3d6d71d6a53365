//! Visible display width of strings that carry invisible styling spans.
//!
//! A prompt may embed terminal control sequences bracketed by sentinel marker
//! bytes. When the cursor is repositioned after a redraw, only the bytes
//! outside those marker-delimited spans occupy columns on the screen.

use vstd::prelude::*;
use vstd::slice::slice_index_get;
use vstd::string::StringSliceAdditionalSpecFns;

verus! {

/// Sentinel byte that opens an invisible span.
pub const MARKER_START: u8 = 1;

/// Sentinel byte that closes an invisible span.
pub const MARKER_END: u8 = 2;

/// Columns contributed by the bytes of `s`, scanned left to right, where
/// `in_span` says whether the scan currently stands inside an invisible span.
/// A byte inside a span contributes nothing, and the span ends once the
/// closing marker has been consumed; an opening marker outside a span opens
/// one and contributes nothing; every other byte outside a span is one column.
pub open spec fn width_from(s: Seq<u8>, in_span: bool) -> nat
    decreases s.len(),
{
    if s.len() == 0 {
        0
    } else if in_span {
        width_from(s.drop_first(), s[0] != MARKER_END)
    } else if s[0] == MARKER_START {
        width_from(s.drop_first(), true)
    } else {
        1 + width_from(s.drop_first(), false)
    }
}

/// The visible display width of a byte string: the number of its bytes that
/// stand outside marker-delimited invisible spans. An unterminated span
/// extends to the end of the string.
pub open spec fn visible_width(s: Seq<u8>) -> nat {
    width_from(s, false)
}

/// Computes the visible display width of `string`: every byte counts as one
/// column, except that each span from a marker-start byte up to and including
/// the next marker-end byte is skipped without counting. A marker-start with
/// no following marker-end consumes the rest of the string.
pub fn calculate_whitespace(string: &str) -> (width: usize)
    ensures
        width == visible_width(string.spec_bytes()),
{
    let bytes = string.as_bytes();
    let n = bytes.len();
    let mut i: usize = 0;
    let mut in_span = false;
    let mut width: usize = 0;
    proof {
        assert(bytes@.skip(0) =~= bytes@);
    }
    while i < n
        invariant
            bytes@ == string.spec_bytes(),
            n == bytes@.len(),
            i <= n,
            width <= i,
            visible_width(bytes@) == width + width_from(bytes@.skip(i as int), in_span),
        decreases n - i,
    {
        let b = *slice_index_get(bytes, i);
        proof {
            assert(bytes@.skip(i as int).drop_first() =~= bytes@.skip(i as int + 1));
        }
        if in_span {
            in_span = b != MARKER_END;
        } else if b == MARKER_START {
            in_span = true;
        } else {
            width = width + 1;
        }
        i = i + 1;
    }
    width
}

} // verus!
