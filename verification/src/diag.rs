//! Small diagnostic helpers around the engine's progress reporting.

use vstd::prelude::*;

verus! {

/// Names the side of the migration a message speaks about.
pub fn sel_bool_str(source: bool) -> (r: String)
    ensures
        source ==> r@ == "source"@,
        !source ==> r@ == "destination"@,
{
    if source {
        "source".to_owned()
    } else {
        "destination".to_owned()
    }
}

/// Cuts the window of twenty bytes around `point` out of a payload, for a
/// caller that wants to show the surroundings of a decode failure. Returns
/// nothing when the payload is too short for a full window.
pub fn _debug_slice(slice: &[u8], point: usize) -> (r: Option<Vec<u8>>)
    requires
        point <= usize::MAX - 20,
        slice@.len() > point + 20 ==> point >= 10,
    ensures
        slice@.len() > point + 20 ==> (r matches Some(w) && w@ == slice@.subrange(
            point - 10,
            point + 10,
        )),
        slice@.len() <= point + 20 ==> r is None,
{
    if slice.len() > point + 20 {
        let mut w: Vec<u8> = Vec::new();
        let mut i: usize = point - 10;
        while i < point + 10
            invariant
                point <= usize::MAX - 20,
                point >= 10,
                point + 20 < slice@.len(),
                point - 10 <= i <= point + 10,
                w@ == slice@.subrange(point - 10, i as int),
            decreases point + 10 - i,
        {
            w.push(slice[i]);
            i = i + 1;
            proof {
                assert(w@ =~= slice@.subrange(point - 10, i as int));
            }
        }
        Some(w)
    } else {
        None
    }
}

} // verus!
