use vstd::prelude::*;
use crate::inhibit::{
    inhibit_plan, release_plan, CompositorRequest, InhibitionState, InhibitorController,
};

verus! {

/// Seconds to wait before looking for a playing player again while the
/// session may idle. Idle timeouts are minutes long, so a short poll gains
/// nothing.
pub const POLL_INTERVAL_SECS: u64 = 5;

/// What the loop does once a cycle's compositor requests are sent.
#[derive(Clone, Copy, Debug, PartialEq, Eq, Structural)]
pub enum NextStep {
    /// Watch the player at this position of the listing until its watch
    /// ends, then look for players again at once.
    Watch(usize),
    /// Wait this many seconds, then look for players again.
    Sleep(u64),
}

/// The work of one cycle of the loop.
#[derive(Clone, Debug)]
pub struct Cycle {
    /// Compositor requests to issue first, in order.
    pub requests: Vec<CompositorRequest>,
    pub next: NextStep,
}

/// State after a cycle in which discovery found `found`.
pub open spec fn cycle_state(found: Option<usize>) -> InhibitionState {
    match found {
        Some(_) => InhibitionState::Inhibiting,
        None => InhibitionState::Idle,
    }
}

/// Requests of a cycle that starts in state `s` and in which discovery
/// found `found`.
pub open spec fn cycle_requests(s: InhibitionState, found: Option<usize>) -> Seq<CompositorRequest> {
    match found {
        Some(_) => inhibit_plan(s),
        None => release_plan(s),
    }
}

/// The step after a cycle in which discovery found `found`.
pub open spec fn cycle_next(found: Option<usize>) -> NextStep {
    match found {
        Some(p) => NextStep::Watch(p),
        None => NextStep::Sleep(POLL_INTERVAL_SECS),
    }
}

/// State after cycles whose discoveries found `founds`, from the start.
pub open spec fn run_state(founds: Seq<Option<usize>>) -> InhibitionState {
    if founds.len() == 0 {
        InhibitionState::Idle
    } else {
        cycle_state(founds.last())
    }
}

/// All requests issued by cycles whose discoveries found `founds`, from the
/// start.
pub open spec fn run_requests(founds: Seq<Option<usize>>) -> Seq<CompositorRequest>
    decreases founds.len(),
{
    if founds.len() == 0 {
        seq![]
    } else {
        run_requests(founds.drop_last()) + cycle_requests(
            run_state(founds.drop_last()),
            founds.last(),
        )
    }
}

/// Change in the number of inhibitors that a request makes.
pub open spec fn live_change(r: CompositorRequest) -> int {
    match r {
        CompositorRequest::CreateInhibitor => 1,
        CompositorRequest::DestroyInhibitor => -1,
        CompositorRequest::Roundtrip => 0,
    }
}

/// Number of inhibitors alive after `requests`: creations less destructions.
pub open spec fn live_inhibitors(requests: Seq<CompositorRequest>) -> int
    decreases requests.len(),
{
    if requests.len() == 0 {
        0
    } else {
        live_inhibitors(requests.drop_last()) + live_change(requests.last())
    }
}

/// The coordination loop's decisions: after each discovery, which
/// compositor requests to issue and what to do next.
#[derive(Debug)]
pub struct Coordinator {
    controller: InhibitorController,
}

impl View for Coordinator {
    type V = InhibitionState;

    closed spec fn view(&self) -> InhibitionState {
        self.controller@
    }
}

impl Coordinator {
    /// Starts idle, with no inhibitor.
    pub fn new() -> (r: Coordinator)
        ensures
            r@ == InhibitionState::Idle,
    {
        Coordinator { controller: InhibitorController::new() }
    }

    /// Whether an inhibitor exists.
    pub fn state(&self) -> (r: InhibitionState)
        ensures
            r == self@,
    {
        self.controller.state()
    }

    /// Takes what discovery found. A playing player keeps or creates the
    /// inhibitor and is watched next; no player releases the inhibitor, if
    /// any, and the loop sleeps.
    pub fn on_discovery(&mut self, found: Option<usize>) -> (c: Cycle)
        ensures
            c.requests@ == cycle_requests(old(self)@, found),
            c.next == cycle_next(found),
            final(self)@ == cycle_state(found),
    {
        match found {
            Some(p) => {
                let requests = self.controller.ensure_inhibiting();
                Cycle { requests, next: NextStep::Watch(p) }
            },
            None => {
                let requests = self.controller.ensure_idle();
                Cycle { requests, next: NextStep::Sleep(POLL_INTERVAL_SECS) }
            },
        }
    }
}

proof fn lemma_live_concat(a: Seq<CompositorRequest>, b: Seq<CompositorRequest>)
    ensures
        live_inhibitors(a + b) == live_inhibitors(a) + live_inhibitors(b),
    decreases b.len(),
{
    if b.len() > 0 {
        lemma_live_concat(a, b.drop_last());
        assert((a + b).drop_last() =~= a + b.drop_last());
    }
}

/// Over any run of the loop, the inhibitors created less those destroyed
/// number one while inhibiting and none while idle: an inhibitor is never
/// created twice nor destroyed twice.
pub proof fn lemma_single_inhibitor(founds: Seq<Option<usize>>)
    ensures
        live_inhibitors(run_requests(founds)) == if run_state(founds) == InhibitionState::Inhibiting {
            1int
        } else {
            0int
        },
    decreases founds.len(),
{
    if founds.len() > 0 {
        let before = founds.drop_last();
        lemma_single_inhibitor(before);
        let step = cycle_requests(run_state(before), founds.last());
        lemma_live_concat(run_requests(before), step);
        reveal_with_fuel(live_inhibitors, 3);
        assert(step.len() == 0 || step.drop_last().drop_last().len() == 0);
    }
}

/// From idle, a cycle that finds a playing player creates the one inhibitor;
/// a later cycle that finds none destroys it; a further cycle that finds
/// none issues nothing more.
pub proof fn lemma_play_then_release(x: usize)
    ensures
        run_state(seq![Some(x)]) == InhibitionState::Inhibiting,
        run_requests(seq![Some(x)]) == seq![
            CompositorRequest::CreateInhibitor,
            CompositorRequest::Roundtrip,
        ],
        run_state(seq![Some(x), None]) == InhibitionState::Idle,
        run_requests(seq![Some(x), None]) == seq![
            CompositorRequest::CreateInhibitor,
            CompositorRequest::Roundtrip,
            CompositorRequest::DestroyInhibitor,
            CompositorRequest::Roundtrip,
        ],
        run_state(seq![Some(x), None, None]) == InhibitionState::Idle,
        run_requests(seq![Some(x), None, None]) == run_requests(seq![Some(x), None]),
{
    let one: Seq<Option<usize>> = seq![Some(x)];
    let two: Seq<Option<usize>> = seq![Some(x), None];
    let three: Seq<Option<usize>> = seq![Some(x), None, None];
    assert(one.drop_last() =~= Seq::<Option<usize>>::empty());
    assert(two.drop_last() =~= one);
    assert(three.drop_last() =~= two);
    assert(run_requests(Seq::<Option<usize>>::empty()) == Seq::<CompositorRequest>::empty());
    assert(run_requests(one) =~= seq![CompositorRequest::CreateInhibitor, CompositorRequest::Roundtrip]);
    assert(run_requests(two) =~= seq![
        CompositorRequest::CreateInhibitor,
        CompositorRequest::Roundtrip,
        CompositorRequest::DestroyInhibitor,
        CompositorRequest::Roundtrip,
    ]);
    assert(run_requests(three) =~= run_requests(two));
}

} // verus!
