//! The rasterization session façade: the per-session state machine, the two
//! verified halves of a render — planning before the GPU pass, validation
//! after the readback — and teardown.
//!
//! A session moves `ContextReady -> (RenderTargetReady <-> rendering) ->
//! Terminated`. Rendering always returns to `RenderTargetReady`, whether it
//! succeeded or failed; only explicit teardown terminates, and nothing is
//! valid afterwards.

use vstd::prelude::*;
use crate::RenderError;
use crate::cache::{TargetAction, TargetCache, spec_aligned};
use crate::geom::{PixelSize, RenderPlan, ViewBox, plan_render, spec_plan};
use crate::readback::{PixelBuffer, ReadbackData, accept_readback, spec_accept};

verus! {

/// Where a session stands.
#[derive(Clone, Copy, Debug, PartialEq, Eq, Structural)]
pub enum SessionState {
    /// The context is current; no render target exists yet.
    ContextReady,
    /// A render target is cached; renders may proceed.
    RenderTargetReady,
    /// The connection has been released; no operation is valid.
    Terminated,
}

/// The verified model of one rasterization session: its state and its
/// render-target cache. The platform context, GPU device and readback
/// channel live with the caller, which performs each action this model
/// decides.
#[derive(Clone, Copy, Debug, PartialEq, Eq, Structural)]
pub struct Session {
    pub state: SessionState,
    pub cache: TargetCache,
}

impl Session {
    /// A render target is cached exactly when the state says so.
    pub open spec fn wf(self) -> bool {
        &&& (self.state is ContextReady ==> self.cache.slot is None)
        &&& (self.state is RenderTargetReady ==> self.cache.slot is Some)
    }

    /// A fresh session, as successful construction leaves it: context ready,
    /// no render target, nothing allocated.
    pub fn new() -> (s: Session)
        ensures
            s.wf(),
            s.state is ContextReady,
            s.cache.slot is None,
            s.cache.allocations == 0,
    {
        Session { state: SessionState::ContextReady, cache: TargetCache::new() }
    }

    /// The session after the planning half of one render.
    pub open spec fn spec_begin(self, vb: ViewBox) -> (Session, RenderPlan, TargetAction) {
        let plan = spec_plan(vb);
        let (cache, action) = self.cache.spec_request(plan.size);
        (Session { state: SessionState::RenderTargetReady, cache }, plan, action)
    }

    /// The planning half of one render: derives the render plan from the
    /// scene's view-box and decides what happens to the render target. The
    /// caller performs the decided allocation, rewrites the scene to the
    /// plan's normalized view-box, and runs the GPU pass with the plan's
    /// translation.
    pub fn begin_render(&mut self, vb: &ViewBox) -> (r: (RenderPlan, TargetAction))
        requires
            old(self).wf(),
            !(old(self).state is Terminated),
            old(self).cache.allocations < u64::MAX,
            vb.wf(),
        ensures
            (*final(self), r.0, r.1) == old(self).spec_begin(*vb),
            final(self).wf(),
            final(self).state is RenderTargetReady,
            r.0 == spec_plan(*vb),
            final(self).cache.slot == Some(spec_aligned(spec_plan(*vb).size)),
            (r.1 is Reuse <==> old(self).cache.slot == Some(spec_aligned(spec_plan(*vb).size))),
            final(self).cache.allocations == old(self).cache.allocations + (
            if r.1 is Reuse {
                0int
            } else {
                1int
            }),
    {
        let plan = plan_render(vb);
        let action = self.cache.request(plan.size);
        self.state = SessionState::RenderTargetReady;
        (plan, action)
    }

    /// The validation half of one render: accepts the GPU readback for the
    /// planned output size, or reports the per-render failure. The session
    /// state is untouched either way — rendering returns to
    /// `RenderTargetReady` on success and on failure alike.
    pub fn finish_render(&self, size: PixelSize, data: ReadbackData) -> (r: Result<
        PixelBuffer,
        RenderError,
    >)
        requires
            self.state is RenderTargetReady,
            size.wf(),
        ensures
            r == spec_accept(size, data),
    {
        accept_readback(size, data)
    }

    /// Teardown. Safe to call more than once, but the connection is released
    /// exactly once: the result says whether this call was the one that
    /// released it, so the caller lets the driver go only then. Afterwards
    /// the session is terminated for good.
    pub fn terminate(&mut self) -> (released: bool)
        ensures
            final(self).state is Terminated,
            final(self).cache == old(self).cache,
            released == !(old(self).state is Terminated),
    {
        let released = match self.state {
            SessionState::Terminated => false,
            _ => true,
        };
        self.state = SessionState::Terminated;
        released
    }
}

/// What one whole render does to a session: the cache moves as the planning
/// half decides, and the pixels are whatever validating the readback against
/// the plan's output size yields.
pub open spec fn spec_render(s: Session, vb: ViewBox, data: ReadbackData) -> (Session, Result<
    PixelBuffer,
    RenderError,
>) {
    let (after, plan, action) = s.spec_begin(vb);
    (after, spec_accept(plan.size, data))
}

/// The pixels of a render are a function of the scene's view-box and the
/// readback alone: two sessions — whatever their caches hold, including one
/// that has already rendered — produce identical buffers for the same scene
/// and the same readback. Nothing accumulates across calls.
pub proof fn lemma_render_deterministic(s1: Session, s2: Session, vb: ViewBox, data: ReadbackData)
    requires
        s1.wf(),
        s2.wf(),
        vb.wf(),
    ensures
        spec_render(s1, vb, data).1 == spec_render(s2, vb, data).1,
{
}

/// Rendering the same immutable scene twice in one session yields
/// pixel-identical output both times, and the second render changes the
/// session no further: the target is reused as it stands.
pub proof fn lemma_render_idempotent(s: Session, vb: ViewBox, data: ReadbackData)
    requires
        s.wf(),
        vb.wf(),
    ensures
        ({
            let (s1, r1) = spec_render(s, vb, data);
            let (s2, r2) = spec_render(s1, vb, data);
            &&& r2 == r1
            &&& s2 == s1
        }),
{
}

} // verus!
