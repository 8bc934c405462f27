//! The render-target cache: a lazily filled slot holding the size of the one
//! live GPU texture/framebuffer pair, and the policy that decides, per
//! request, whether that pair is created, replaced or reused.
//!
//! Requested sizes are rounded up to a multiple of 16 in both dimensions, so
//! near-identical successive sizes land on the same target and cause no
//! reallocation.

use vstd::prelude::*;
use crate::geom::PixelSize;

verus! {

/// What the cache does for one request.
#[derive(Clone, Copy, Debug, PartialEq, Eq, Structural)]
pub enum TargetAction {
    /// No target existed yet: the GPU device, texture and framebuffer are
    /// all to be allocated.
    Create,
    /// A target existed at another size: a new texture and framebuffer are
    /// to be allocated and bound, superseding the old pair.
    Resize,
    /// The cached target already has the aligned size: it is reused
    /// unchanged.
    Reuse,
}

/// `n` rounded up to the next multiple of 16.
pub open spec fn spec_align16(n: int) -> int {
    if n % 16 == 0 {
        n
    } else {
        n + 16 - n % 16
    }
}

/// Rounds one dimension up to the alignment boundary.
pub fn align16(n: u32) -> (r: u32)
    requires
        n <= 0xffff_fff0,
    ensures
        r == spec_align16(n as int),
        r % 16 == 0,
        n <= r < n + 16,
{
    let r = (n + 15) & !15u32;
    proof {
        assert(((n + 15) as u32 & !15u32) % 16 == 0 && n <= ((n + 15) as u32 & !15u32)
            && ((n + 15) as u32 & !15u32) <= n + 15) by (bit_vector)
            requires
                n <= 0xffff_fff0u32,
        ;
    }
    r
}

/// Both dimensions rounded up to the alignment boundary.
pub open spec fn spec_aligned(s: PixelSize) -> PixelSize {
    PixelSize {
        width: spec_align16(s.width as int) as u32,
        height: spec_align16(s.height as int) as u32,
    }
}

/// The caching decision: from the requested size and the current slot, the
/// action to take and the aligned size the slot holds afterwards.
pub open spec fn spec_resolve(requested: PixelSize, slot: Option<PixelSize>) -> (TargetAction,
    PixelSize) {
    let aligned = spec_aligned(requested);
    match slot {
        Option::None => (TargetAction::Create, aligned),
        Option::Some(s) => if s == aligned {
            (TargetAction::Reuse, aligned)
        } else {
            (TargetAction::Resize, aligned)
        },
    }
}

/// Decides what one request does to the cache, without touching the GPU:
/// the requested size is aligned, an empty slot means `Create`, a slot at
/// another size means `Resize`, a slot at the aligned size means `Reuse`.
pub fn resolve(requested: PixelSize, slot: Option<PixelSize>) -> (r: (TargetAction, PixelSize))
    requires
        requested.wf(),
    ensures
        r == spec_resolve(requested, slot),
        r.1 == spec_aligned(requested),
        r.1.width % 16 == 0 && r.1.height % 16 == 0,
        requested.width <= r.1.width < requested.width + 16,
        requested.height <= r.1.height < requested.height + 16,
        (r.0 is Create <==> slot is None),
        (r.0 is Reuse <==> slot == Some(spec_aligned(requested))),
        (r.0 is Resize <==> slot is Some && slot != Some(spec_aligned(requested))),
{
    let aligned = PixelSize { width: align16(requested.width), height: align16(requested.height) };
    let action = match slot {
        Option::None => TargetAction::Create,
        Option::Some(s) => if s.width == aligned.width && s.height == aligned.height {
            TargetAction::Reuse
        } else {
            TargetAction::Resize
        },
    };
    (action, aligned)
}

/// The cache itself: the size of the live render target, if one exists, and
/// a count of the GPU allocations performed so far, observable by callers.
#[derive(Clone, Copy, Debug, PartialEq, Eq, Structural)]
pub struct TargetCache {
    pub slot: Option<PixelSize>,
    pub allocations: u64,
}

impl TargetCache {
    /// An empty cache: no target yet, nothing allocated.
    pub fn new() -> (c: TargetCache)
        ensures
            c.slot is None,
            c.allocations == 0,
    {
        TargetCache { slot: Option::None, allocations: 0 }
    }

    /// The cache after one request, with the action it decides.
    pub open spec fn spec_request(self, requested: PixelSize) -> (TargetCache, TargetAction) {
        let (action, aligned) = spec_resolve(requested, self.slot);
        (TargetCache {
            slot: Option::Some(aligned),
            allocations: if action is Reuse {
                self.allocations
            } else {
                (self.allocations + 1) as u64
            },
        }, action)
    }

    /// Serves one request: aligns the size, decides the action, fills the
    /// slot with the aligned size, and counts an allocation exactly when the
    /// target is created or resized.
    pub fn request(&mut self, requested: PixelSize) -> (action: TargetAction)
        requires
            requested.wf(),
            old(self).allocations < u64::MAX,
        ensures
            (*final(self), action) == old(self).spec_request(requested),
            final(self).slot == Some(spec_aligned(requested)),
            (action is Create <==> old(self).slot is None),
            (action is Reuse <==> old(self).slot == Some(spec_aligned(requested))),
            (action is Resize <==> old(self).slot is Some && old(self).slot != Some(
                spec_aligned(requested),
            )),
            final(self).allocations == old(self).allocations + (
            if action is Reuse {
                0int
            } else {
                1int
            }),
    {
        let (action, aligned) = resolve(requested, self.slot);
        self.slot = Option::Some(aligned);
        let reuse = match action {
            TargetAction::Reuse => true,
            _ => false,
        };
        if !reuse {
            self.allocations = self.allocations + 1;
        }
        action
    }
}

/// Two renders at the same requested size hit the cache: whatever the cache
/// held before, the second of two equal requests reuses the target, performs
/// no allocation, and leaves the cache exactly as the first left it.
pub proof fn lemma_repeat_request_reuses(c: TargetCache, requested: PixelSize)
    requires
        requested.wf(),
    ensures
        ({
            let (c1, a1) = c.spec_request(requested);
            let (c2, a2) = c1.spec_request(requested);
            &&& a2 is Reuse
            &&& c2.allocations == c1.allocations
            &&& c2 == c1
        }),
{
}

/// Two renders at sizes whose aligned forms differ miss the cache: after a
/// first request, a request for the other size resizes the target — it does
/// not merely reuse it — allocates exactly once more, and leaves the slot at
/// the second size's aligned form, not the first's.
pub proof fn lemma_size_change_reallocates(c: TargetCache, first: PixelSize, second: PixelSize)
    requires
        first.wf(),
        second.wf(),
        spec_aligned(first) != spec_aligned(second),
        c.allocations + 2 <= u64::MAX,
    ensures
        ({
            let (c1, a1) = c.spec_request(first);
            let (c2, a2) = c1.spec_request(second);
            &&& a2 is Resize
            &&& c2.slot == Some(spec_aligned(second))
            &&& c2.allocations == c1.allocations + 1
        }),
{
}

} // verus!
