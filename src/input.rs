//! Reading the user's input lines.
use vstd::prelude::*;
use vstd::string::StrSliceExecFns;

verus! {

/// Whether an input line asks to quit: it is exactly `q`; any other line,
/// the empty one included, is a tap.
pub fn is_quit(line: &str) -> (r: bool)
    ensures
        r == (line@ == seq!['q']),
{
    if line.unicode_len() != 1 {
        proof {
            assert(line@.len() != seq!['q'].len());
        }
        false
    } else {
        let c = line.get_char(0);
        if c == 'q' {
            assert(line@ =~= seq!['q']);
            true
        } else {
            assert(line@[0] != seq!['q'][0]);
            false
        }
    }
}

} // verus!
