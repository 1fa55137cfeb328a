use vstd::prelude::*;

use crate::sample::Sample;
use crate::subscriber::Node;

verus! {

/// The rotation to show after one update tick: the subscriber's cached
/// sample where it has one, else the rotation shown before. It never waits.
pub fn rotate_cube(current: Sample, node: &Node) -> (r: Sample)
    ensures
        r == (match node.cached {
            Some(s) => s,
            None => current,
        }),
{
    match node.get_subscribed_data() {
        Ok(s) => s,
        Err(_) => current,
    }
}

} // verus!
