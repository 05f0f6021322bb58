//! A shuffled pack, as the screen receives it.

use vstd::prelude::*;

verus! {

/// One pack: for each pile that it draws from, the pile's name and the number
/// of cards taken from that pile. The screen shows a pack and never changes it.
#[derive(Clone, Debug, PartialEq, Eq)]
pub struct Pack {
    pub card_sources: Vec<(String, usize)>,
}

} // verus!
