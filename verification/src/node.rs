//! The per-frame dispatch node: the progressive-accumulation counter, the
//! camera view-offset fallback, and the decision whether a compute dispatch
//! is recorded this frame.
use crate::types::TextureIter;
use vstd::prelude::*;

verus! {

/// Output-image width in pixels.
pub const RENDER_WIDTH: u32 = 1024;

/// Output-image height in pixels.
pub const RENDER_HEIGHT: u32 = 768;

/// Edge length of one compute workgroup tile, in pixels.
pub const WORKGROUP_SIZE: u32 = 32;

/// Once the accumulation counter exceeds this value the image is considered
/// converged and no further compute work is issued until the next reset.
pub const ITER_CEILING: u32 = 100;

/// The counter transition evaluated once per frame: a scene change
/// invalidates every accumulated sample and restarts the average at zero;
/// otherwise one more sample is accumulated.
pub open spec fn counter_next(c: nat, changed: bool) -> nat {
    if changed {
        0
    } else {
        c + 1
    }
}

/// The counter after a run of frames whose change signals are `changes`,
/// starting from `c`.
pub open spec fn counter_after(c: nat, changes: Seq<bool>) -> nat
    decreases changes.len(),
{
    if changes.len() == 0 {
        c
    } else {
        counter_after(counter_next(c, changes[0]), changes.drop_first())
    }
}

/// Advances the accumulation counter for this frame: increment, then reset
/// to zero if any transform, mesh or material change was detected.
pub fn reset_iter(iter: &mut TextureIter, changed: bool)
    requires
        old(iter).0 < u32::MAX,
    ensures
        final(iter).0 == counter_next(old(iter).0 as nat, changed),
{
    iter.0 = iter.0 + 1;
    if changed {
        iter.0 = 0;
    }
}

/// Accumulation sequence: with no change events across `n` consecutive
/// frames the counter counts `c, c+1, ..., c+n`.
pub proof fn lemma_accumulation_sequence(c: nat, changes: Seq<bool>)
    requires
        forall|i: int| 0 <= i < changes.len() ==> !changes[i],
    ensures
        counter_after(c, changes) == c + changes.len(),
    decreases changes.len(),
{
    if changes.len() > 0 {
        lemma_accumulation_sequence(counter_next(c, changes[0]), changes.drop_first());
    }
}

/// A change event resets the count to zero on exactly that frame, and the
/// run after it counts up from zero again.
pub proof fn lemma_reset_restarts(c: nat, changes: Seq<bool>, j: int)
    requires
        0 <= j < changes.len(),
        changes[j],
        forall|i: int| j < i < changes.len() ==> !changes[i],
    ensures
        counter_after(c, changes) == changes.len() - 1 - j,
    decreases changes.len(),
{
    if j == 0 {
        lemma_accumulation_sequence(0, changes.drop_first());
    } else {
        lemma_reset_restarts(counter_next(c, changes[0]), changes.drop_first(), j - 1);
    }
}

/// Ceiling gating is stable: past the ceiling, every further no-change frame
/// stays past the ceiling, so no dispatch is issued until the next reset.
pub proof fn lemma_ceiling_gating(c: nat, changes: Seq<bool>)
    requires
        c > ITER_CEILING,
        forall|i: int| 0 <= i < changes.len() ==> !changes[i],
    ensures
        counter_after(c, changes) > ITER_CEILING,
    decreases changes.len(),
{
    if changes.len() > 0 {
        lemma_ceiling_gating(counter_next(c, changes[0]), changes.drop_first());
    }
}

/// One recorded compute dispatch: workgroup counts and the dynamic
/// view-uniform offset the pass is bound with.
#[derive(Clone, Copy, PartialEq, Eq, Structural, Debug)]
pub struct DispatchCall {
    pub x: u32,
    pub y: u32,
    pub z: u32,
    pub view_offset: u32,
}

/// The render-graph node that records the compute dispatch. It remembers the
/// camera's view-uniform offset across frames so a frame on which the view
/// is not yet published can reuse the previous offset.
#[derive(Clone, Copy, PartialEq, Eq, Structural, Debug)]
pub struct RayTraceNode {
    pub view: Option<u32>,
}

impl RayTraceNode {
    /// Fetches the per-view uniform offset at graph-update time. A freshly
    /// published offset replaces the remembered one; an unavailable offset
    /// leaves the previous frame's value in place rather than failing.
    pub fn update(&mut self, fetched: Option<u32>)
        ensures
            final(self).view == if fetched is Some {
                fetched
            } else {
                old(self).view
            },
    {
        self.view = match fetched {
            Some(v) => Some(v),
            None => self.view,
        };
    }

    /// Decides this frame's compute work. Past the accumulation ceiling the
    /// dispatch is skipped entirely; otherwise, once the pipeline is
    /// compiled, one dispatch covers the output image in 32x32 tiles, bound
    /// at the remembered view offset.
    pub fn run(&self, iter: &TextureIter, pipeline_ready: bool) -> (r: Option<DispatchCall>)
        requires
            iter.0 <= ITER_CEILING ==> self.view is Some,
        ensures
            iter.0 > ITER_CEILING ==> r is None,
            iter.0 <= ITER_CEILING && !pipeline_ready ==> r is None,
            iter.0 <= ITER_CEILING && pipeline_ready ==> r == Some(
                DispatchCall {
                    x: RENDER_WIDTH / WORKGROUP_SIZE,
                    y: RENDER_HEIGHT / WORKGROUP_SIZE,
                    z: 1,
                    view_offset: self.view->0,
                },
            ),
    {
        if iter.0 > ITER_CEILING {
            return None;
        }
        let view_offset = match self.view {
            Some(v) => v,
            None => {
                return None;
            },
        };
        if pipeline_ready {
            Some(
                DispatchCall {
                    x: RENDER_WIDTH / WORKGROUP_SIZE,
                    y: RENDER_HEIGHT / WORKGROUP_SIZE,
                    z: 1,
                    view_offset,
                },
            )
        } else {
            None
        }
    }
}

/// When the output-image dimensions are exact multiples of the tile size —
/// as the configured 1024x768 image is — the dispatch bounds cover every
/// pixel exactly.
pub proof fn lemma_dispatch_covers_image()
    ensures
        (RENDER_WIDTH / WORKGROUP_SIZE) * WORKGROUP_SIZE == RENDER_WIDTH,
        (RENDER_HEIGHT / WORKGROUP_SIZE) * WORKGROUP_SIZE == RENDER_HEIGHT,
{
}

} // verus!
