//! The formatted-output rule set: a destination and a list of values expand
//! into code that renders each value in the host's debug form and ends the
//! line.  Rendering into an in-memory byte stream is what can be stated and
//! checked; the standard-stream destinations only send the same bytes on.

use crate::sets::views_of;
use std::io::Write;
use vstd::prelude::*;

verus! {

/// The bytes the host's debug formatter produces for a string; the result
/// depends on the characters alone.
pub uninterp spec fn debug_bytes_of(s: Seq<char>) -> Seq<u8>;

/// Relies on write! with the std::io::Write impl for Vec<u8>: appends the
/// `{:?}` rendering of the string to the buffer, and never fails there.
#[verifier::external_body]
fn write_debug_str(out: &mut Vec<u8>, item: &str)
    ensures
        final(out)@ == old(out)@ + debug_bytes_of(item@),
{
    let _ = write!(out, "{:?}", item);
}

/// The debug renderings of the given values, one after the other.
pub open spec fn debug_items_bytes(items: Seq<Seq<char>>) -> Seq<u8>
    decreases items.len(),
{
    if items.len() == 0 {
        Seq::empty()
    } else {
        debug_items_bytes(items.drop_last()) + debug_bytes_of(items.last())
    }
}

/// Expansion of the stream arm: appends the debug rendering of each value
/// in turn to the stream, then a newline.
pub fn print_debug(out: &mut Vec<u8>, items: &Vec<String>)
    ensures
        final(out)@ == old(out)@ + debug_items_bytes(views_of(items@)) + seq![10u8],
{
    let ghost views = views_of(items@);
    let mut i: usize = 0;
    while i < items.len()
        invariant
            i <= items@.len(),
            views == views_of(items@),
            out@ == old(out)@ + debug_items_bytes(views.take(i as int)),
        decreases items@.len() - i,
    {
        write_debug_str(out, items[i].as_str());
        proof {
            assert(views.take(i + 1).drop_last() =~= views.take(i as int));
            assert(views.take(i + 1).last() == views[i as int]);
            assert(views[i as int] == items@[i as int]@);
        }
        i = i + 1;
    }
    proof {
        assert(views.take(views.len() as int) =~= views);
    }
    out.push(10);
}

} // verus!
