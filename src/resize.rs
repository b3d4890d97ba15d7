use vstd::prelude::*;

verus! {

/// A request to resize the terminal of an existing exec session. Width and
/// height go to the engine as given: zero or odd sizes are left for the engine
/// to judge, and whether the session exists is the engine's to say too.
#[derive(Debug, Clone, PartialEq, Eq)]
pub struct ResizeRequest {
    pub exec_id: String,
    pub width: u64,
    pub height: u64,
}

impl ResizeRequest {
    pub fn new(exec_id: String, width: u64, height: u64) -> (r: ResizeRequest)
        ensures
            r.exec_id == exec_id,
            r.width == width,
            r.height == height,
    {
        ResizeRequest { exec_id, width, height }
    }
}

} // verus!
