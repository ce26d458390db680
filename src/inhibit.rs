use vstd::prelude::*;

verus! {

/// Whether an idle inhibitor exists.
#[derive(Clone, Copy, Debug, PartialEq, Eq, Structural)]
pub enum InhibitionState {
    /// No inhibitor exists.
    Idle,
    /// Exactly one inhibitor exists, bound to the anchor surface.
    Inhibiting,
}

/// A request to the compositor, issued in the order given.
#[derive(Clone, Copy, Debug, PartialEq, Eq, Structural)]
pub enum CompositorRequest {
    /// Create an inhibitor on the anchor surface.
    CreateInhibitor,
    /// Destroy the inhibitor.
    DestroyInhibitor,
    /// Wait until the compositor has processed what was sent.
    Roundtrip,
}

/// Requests that make the session inhibited, from state `s`.
pub open spec fn inhibit_plan(s: InhibitionState) -> Seq<CompositorRequest> {
    match s {
        InhibitionState::Idle => seq![CompositorRequest::CreateInhibitor, CompositorRequest::Roundtrip],
        InhibitionState::Inhibiting => seq![],
    }
}

/// Requests that let the session idle, from state `s`.
pub open spec fn release_plan(s: InhibitionState) -> Seq<CompositorRequest> {
    match s {
        InhibitionState::Idle => seq![],
        InhibitionState::Inhibiting => seq![CompositorRequest::DestroyInhibitor, CompositorRequest::Roundtrip],
    }
}

/// Owns the decision whether the one idle inhibitor exists, and says which
/// compositor requests create or destroy it.
#[derive(Debug)]
pub struct InhibitorController {
    inhibiting: bool,
}

impl View for InhibitorController {
    type V = InhibitionState;

    closed spec fn view(&self) -> InhibitionState {
        if self.inhibiting {
            InhibitionState::Inhibiting
        } else {
            InhibitionState::Idle
        }
    }
}

impl InhibitorController {
    /// Starts with no inhibitor.
    pub fn new() -> (r: InhibitorController)
        ensures
            r@ == InhibitionState::Idle,
    {
        InhibitorController { inhibiting: false }
    }

    /// Whether an inhibitor exists.
    pub fn state(&self) -> (r: InhibitionState)
        ensures
            r == self@,
    {
        if self.inhibiting {
            InhibitionState::Inhibiting
        } else {
            InhibitionState::Idle
        }
    }

    /// Makes sure an inhibitor exists: when none does, returns the requests
    /// that create one and wait for the compositor; otherwise none.
    pub fn ensure_inhibiting(&mut self) -> (requests: Vec<CompositorRequest>)
        ensures
            requests@ == inhibit_plan(old(self)@),
            final(self)@ == InhibitionState::Inhibiting,
    {
        let mut requests: Vec<CompositorRequest> = Vec::new();
        if !self.inhibiting {
            requests.push(CompositorRequest::CreateInhibitor);
            requests.push(CompositorRequest::Roundtrip);
            self.inhibiting = true;
        }
        proof {
            assert(requests@ =~= inhibit_plan(old(self)@));
        }
        requests
    }

    /// Makes sure no inhibitor exists: when one does, returns the requests
    /// that destroy it and wait for the compositor; otherwise none.
    pub fn ensure_idle(&mut self) -> (requests: Vec<CompositorRequest>)
        ensures
            requests@ == release_plan(old(self)@),
            final(self)@ == InhibitionState::Idle,
    {
        let mut requests: Vec<CompositorRequest> = Vec::new();
        if self.inhibiting {
            requests.push(CompositorRequest::DestroyInhibitor);
            requests.push(CompositorRequest::Roundtrip);
            self.inhibiting = false;
        }
        proof {
            assert(requests@ =~= release_plan(old(self)@));
        }
        requests
    }
}

/// Asking for inhibition twice in a row issues the requests of one call:
/// from no inhibitor, one creation and one round trip.
pub proof fn lemma_inhibit_idempotent(s: InhibitionState)
    ensures
        inhibit_plan(s) + inhibit_plan(InhibitionState::Inhibiting) == inhibit_plan(s),
        inhibit_plan(InhibitionState::Idle) + inhibit_plan(InhibitionState::Inhibiting) == seq![
            CompositorRequest::CreateInhibitor,
            CompositorRequest::Roundtrip,
        ],
{
    assert(inhibit_plan(s) + inhibit_plan(InhibitionState::Inhibiting) =~= inhibit_plan(s));
    assert(inhibit_plan(InhibitionState::Idle) + inhibit_plan(InhibitionState::Inhibiting)
        =~= inhibit_plan(InhibitionState::Idle));
}

/// Releasing when no inhibitor exists sends the compositor nothing, and
/// releasing twice in a row issues the requests of one call.
pub proof fn lemma_release_idempotent(s: InhibitionState)
    ensures
        release_plan(InhibitionState::Idle).len() == 0,
        release_plan(s) + release_plan(InhibitionState::Idle) == release_plan(s),
{
    assert(release_plan(s) + release_plan(InhibitionState::Idle) =~= release_plan(s));
}

} // verus!
