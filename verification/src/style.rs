//! The two colour pairs that labels are drawn with.

use vstd::prelude::*;

verus! {

/// The pair for ordinary text.
pub const REGULAR_PAIR: i16 = 0;

/// The pair for the item under the cursor, for selected items and for the
/// heading of the category in focus.
pub const HIGHLIGHT_PAIR: i16 = 1;

} // verus!
