use vstd::prelude::*;
use crate::model::{MediaType, ResolveError, ResolvedMedia};
use crate::target::{build_target, target_spec};

verus! {

/// Where a resolution stands.
#[derive(Clone, Copy, Debug, PartialEq, Eq, Structural)]
pub enum Phase {
    /// The direct pipeline runs.
    Direct,
    /// The direct pipeline failed; the browser pipeline runs.
    Browser,
    /// The outcome was delivered.
    Finished,
}

/// What a pipeline reported.
#[derive(Debug)]
pub enum Event {
    DirectDone(Result<ResolvedMedia, ResolveError>),
    BrowserDone(Result<ResolvedMedia, ResolveError>),
}

/// What the resolution asks for next.
#[derive(Debug)]
pub enum Action {
    /// Run the browser pipeline on the target.
    RunBrowser,
    /// The outcome of the resolution.
    Deliver(Result<ResolvedMedia, ResolveError>),
    /// The event does not belong to this phase; nothing to do.
    Ignore,
}

/// The fallback rule: a direct success is delivered; a direct failure runs
/// the browser pipeline, whose outcome, success or error, is delivered.
pub open spec fn next(phase: Phase, event: Event) -> (Phase, Action) {
    match (phase, event) {
        (Phase::Direct, Event::DirectDone(Ok(m))) => (Phase::Finished, Action::Deliver(Ok(m))),
        (Phase::Direct, Event::DirectDone(Err(_))) => (Phase::Browser, Action::RunBrowser),
        (Phase::Browser, Event::BrowserDone(r)) => (Phase::Finished, Action::Deliver(r)),
        _ => (phase, Action::Ignore),
    }
}

/// One resolution of a title: its embed URL, and the phase it is in. It
/// starts with the direct pipeline.
pub struct Resolution {
    pub target: String,
    pub phase: Phase,
}

impl Resolution {
    /// Starts a resolution, or fails with `MalformedInput` on a malformed
    /// series id, before any pipeline runs.
    pub fn new(kind: MediaType, id: &str) -> (r: Result<Resolution, ResolveError>)
        ensures
            match target_spec(kind, id@) {
                Ok(t) => r matches Ok(res) && res.target@ == t && res.phase == Phase::Direct,
                Err(e) => r == Err::<Resolution, ResolveError>(e),
            },
    {
        match build_target(kind, id) {
            Ok(target) => Ok(Resolution { target, phase: Phase::Direct }),
            Err(e) => Err(e),
        }
    }

    /// Takes a pipeline's report and says what comes next.
    pub fn step(&mut self, event: Event) -> (a: Action)
        ensures
            (final(self).phase, a) == next(old(self).phase, event),
            final(self).target == old(self).target,
    {
        match (self.phase, event) {
            (Phase::Direct, Event::DirectDone(Ok(m))) => {
                self.phase = Phase::Finished;
                Action::Deliver(Ok(m))
            },
            (Phase::Direct, Event::DirectDone(Err(_))) => {
                self.phase = Phase::Browser;
                Action::RunBrowser
            },
            (Phase::Browser, Event::BrowserDone(r)) => {
                self.phase = Phase::Finished;
                Action::Deliver(r)
            },
            _ => Action::Ignore,
        }
    }
}

/// A direct failure runs the browser pipeline once and delivers its outcome,
/// success or error, as it is. Once the browser pipeline runs, no event runs
/// either pipeline again, and a finished resolution ignores every event.
pub proof fn lemma_fallback_runs_browser_once(e: ResolveError, outcome: Result<ResolvedMedia, ResolveError>, later: Event)
    ensures
        next(Phase::Direct, Event::DirectDone(Err(e))) == (Phase::Browser, Action::RunBrowser),
        next(Phase::Browser, Event::BrowserDone(outcome)) == (Phase::Finished, Action::Deliver(outcome)),
        !(next(Phase::Browser, later).1 is RunBrowser),
        next(Phase::Browser, later).0 != Phase::Direct,
        next(Phase::Finished, later) == (Phase::Finished, Action::Ignore),
{
}

} // verus!
