//! One row of a register table, as the presentation layer shows it.

use vstd::prelude::*;

verus! {

/// A register with the texts that describe it.
#[derive(Clone, Copy, Debug, PartialEq, Eq)]
pub struct TreeStoreValues<'a> {
    /// The number of the read/write register.
    pub reg: usize,
    /// The range of its values.
    pub range: &'a str,
    /// The quantity that it stands for, with its unit.
    pub value: &'a str,
    /// What the value means.
    pub property: &'a str,
}

} // verus!
