//! Per-core view layout on Linux.
use vstd::prelude::*;
pub use crate::fmt::{format_core_display_normal, format_core_display_verbose};

verus! {

/// Cores per row in the detailed view.
pub fn cores_per_row_verbose() -> (r: usize)
    ensures
        r == 3,
{
    3
}

/// Cores per row in the compact view.
pub fn cores_per_row_normal() -> (r: usize)
    ensures
        r == 4,
{
    4
}

} // verus!
