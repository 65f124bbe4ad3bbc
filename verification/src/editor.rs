//! The reusable editor widget shell. The widget itself carries no state;
//! the host renders it over an external text-area state it owns.

use vstd::prelude::*;

verus! {

/// A stateless editor widget.
pub struct Editor;

impl Editor {
    /// A fresh editor widget.
    pub fn new() -> (r: Editor)
        ensures
            r == (Editor {  }),
    {
        Editor {  }
    }
}

} // verus!
