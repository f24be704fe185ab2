//! Letting a request in, or turning it away.

use vstd::prelude::*;

verus! {

/// The answer to a request that is turned away.
#[derive(Debug, Clone, Copy)]
pub struct Refusal {
    /// The HTTP status.
    pub status: u16,
    /// The body of the response.
    pub body: &'static str,
    /// Whether the connection slot that the request had acquired is to be released.
    pub release_slot: bool,
}

/// What becomes of a request: it is let in as an `S`, or turned away.
pub enum Admission<S> {
    Admitted(S),
    Refused(Refusal),
}

impl Refusal {
    /// Whether the refusal says this.
    pub open spec fn says(self, status: int, body: Seq<char>) -> bool {
        self.status == status && self.body@ == body
    }
}

impl<S> Admission<S> {
    /// The slots that a request holds once it has been decided on.
    pub open spec fn slots_held(self, acquired: bool) -> int {
        let taken: int = if acquired {
            1
        } else {
            0
        };
        match self {
            Admission::Admitted(_) => taken,
            Admission::Refused(refusal) => if refusal.release_slot {
                taken - 1
            } else {
                taken
            },
        }
    }

    /// A request that is let in holds one slot, one that is turned away holds none, and none is
    /// released that was not acquired.
    pub open spec fn settles_slots(self, acquired: bool) -> bool {
        &&& self.slots_held(acquired) == if self is Admitted {
            1int
        } else {
            0int
        }
        &&& self matches Admission::Refused(refusal) ==> refusal.release_slot ==> acquired
    }
}

/// The answer where the connection limiter had no slot to give.
pub fn limit_exceeded() -> (refusal: Refusal)
    ensures
        refusal.says(429, "Connection limit exceeded"@),
        refusal.status == 429,
        refusal.body@ == "Connection limit exceeded"@,
        !refusal.release_slot,
{
    Refusal { status: 429, body: "Connection limit exceeded", release_slot: false }
}

/// The answer where the requested stream is switched off. The slot goes back to the limiter.
pub fn stream_unavailable() -> (refusal: Refusal)
    ensures
        refusal.says(404, "Stream type not available"@),
        refusal.status == 404,
        refusal.body@ == "Stream type not available"@,
        refusal.release_slot,
{
    Refusal { status: 404, body: "Stream type not available", release_slot: true }
}

/// Slots are settled exactly where a request is let in with a slot, or turned away with its slot
/// released if it had one.
pub proof fn law_slots_are_settled<S>(admission: Admission<S>, acquired: bool)
    ensures
        admission.settles_slots(acquired) == match admission {
            Admission::Admitted(_) => acquired,
            Admission::Refused(refusal) => refusal.release_slot == acquired,
        },
{
}

} // verus!
