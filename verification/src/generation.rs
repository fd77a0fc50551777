use vstd::prelude::*;

verus! {

/// Monotonic counter identifying the current stylesheet load request.
///
/// Each stylesheet-load initiation takes a fresh, strictly larger id;
/// a completion tagged with an older id is recognised as superseded and
/// discarded at install time.
#[derive(Clone, Copy, PartialEq, Eq, Structural, Debug)]
pub struct RequestGenerationId(pub u32);

impl RequestGenerationId {
    pub fn increment(self) -> (r: RequestGenerationId)
        requires
            self.0 < u32::MAX,
        ensures
            r.0 == self.0 + 1,
    {
        RequestGenerationId(self.0 + 1)
    }
}

} // verus!
