//! Stable identifiers for games and circle seats.

use vstd::prelude::*;

verus! {

/// Opaque game handle (host/store key).
#[derive(Debug, Clone, Copy, PartialEq, Eq, Hash, Structural)]
pub struct GameId(pub u64);

/// Stable seat index in circle order (0..n-1). Neighbors wrap.
#[derive(Debug, Clone, Copy, PartialEq, Eq, Hash, PartialOrd, Ord, Structural)]
pub struct SeatId(pub u8);

/// Whether `ids` holds `id`.
pub fn holds_seat(ids: &Vec<SeatId>, id: SeatId) -> (r: bool)
    ensures
        r == ids@.contains(id),
{
    let mut i: usize = 0;
    while i < ids.len()
        invariant
            i <= ids.len(),
            forall|k: int| 0 <= k < i ==> ids@[k] != id,
        decreases ids.len() - i,
    {
        if ids[i] == id {
            return true;
        }
        i += 1;
    }
    false
}

} // verus!
