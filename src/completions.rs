//! Text shown about the supported shells.

use vstd::prelude::*;
use vstd::string::*;

verus! {

/// One bullet line per shell, joined by line breaks.
pub open spec fn shells_text(shells: Seq<Seq<char>>) -> Seq<char>
    decreases shells.len(),
{
    if shells.len() == 0 {
        Seq::empty()
    } else if shells.len() == 1 {
        "* "@ + shells[0]
    } else {
        shells_text(shells.drop_last()) + "\n* "@ + shells.last()
    }
}

/// The supported shells as a bulleted list, one per line.
pub fn shells_as_string(shells: &[&str]) -> (r: String)
    ensures
        r@ == shells_text(shells@.map_values(|s: &str| s@)),
{
    let ghost all = shells@.map_values(|s: &str| s@);
    let mut out = String::new();
    let mut i: usize = 0;
    while i < shells.len()
        invariant
            all == shells@.map_values(|s: &str| s@),
            i <= shells@.len(),
            out@ == shells_text(all.subrange(0, i as int)),
        decreases shells.len() - i,
    {
        proof {
            assert(all.subrange(0, i + 1).drop_last() =~= all.subrange(0, i as int));
        }
        if i == 0 {
            out.append("* ");
        } else {
            out.append("\n* ");
        }
        out.append(shells[i]);
        proof {
            if i == 0 {
                assert(all.subrange(0, 1).len() == 1);
                assert(out@ =~= shells_text(all.subrange(0, 1)));
            } else {
                assert(out@ =~= shells_text(all.subrange(0, i + 1)));
            }
        }
        i = i + 1;
    }
    assert(all.subrange(0, shells@.len() as int) =~= all);
    out
}

} // verus!
