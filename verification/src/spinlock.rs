use vstd::prelude::*;

verus! {

/// A named mutual-exclusion flag. On a single hart nothing contends for
/// it; it exists so that future multi-hart code has a place to hang a
/// real lock, and so diagnostics can name what was held.
pub struct Mutex {
    pub locked: bool,
    pub name: &'static str,
}

impl Mutex {
    pub fn new(name: &'static str) -> (r: Self)
        ensures
            !r.locked,
            r.name == name,
    {
        Self { locked: false, name }
    }
}

} // verus!
