//! The themes of the desktop client.

use vstd::prelude::*;

verus! {

/// A theme of the desktop client.
#[derive(Clone, Copy, Debug, PartialEq, Eq, Structural)]
pub enum Theme {
    Cosm,
}

impl Default for Theme {
    fn default() -> (r: Self)
        ensures
            r == Theme::Cosm,
    {
        Theme::Cosm
    }
}

} // verus!
