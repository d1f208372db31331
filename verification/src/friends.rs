//! Entry points of the Love2D-like layer.
use vstd::prelude::*;

verus! {

/// Forces the layer to be linked in, so that its registered plugins are found.
pub fn link_me() {
}

/// A simple event handler for projects that are entirely or almost entirely script-controlled:
/// it loads the named module as the "main" script entrypoint and calls its hooks.
pub struct SimpleHandler {
    entrypoint: String,
}

impl SimpleHandler {
    /// The name of the module that is the script entrypoint.
    pub closed spec fn entrypoint_view(&self) -> Seq<char> {
        self.entrypoint@
    }

    /// A handler which loads the given module as its "main" script entrypoint.
    pub fn new(s: &str) -> (h: Self)
        ensures
            h.entrypoint_view() == s@,
    {
        Self { entrypoint: s.to_owned() }
    }

    /// The name of the module that is the script entrypoint.
    pub fn entrypoint(&self) -> (s: &str)
        ensures
            s@ == self.entrypoint_view(),
    {
        self.entrypoint.as_str()
    }
}

} // verus!
