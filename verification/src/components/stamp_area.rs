//! One of the ten places for a stamp on the card.

use vstd::prelude::*;

verus! {

/// What a stamp area is drawn from: whether its stamp has been earned.
#[derive(Debug, Clone, Copy, PartialEq, Eq, Structural)]
pub struct StampAreaProps {
    pub is_stamped: bool,
}

} // verus!
