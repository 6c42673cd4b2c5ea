//! The frame renderer: turns one frame's texture deltas and tessellated draw
//! batches into an ordered render plan, keeping the invariant that every
//! texture a draw batch references is applied before the draws execute.

use vstd::prelude::*;

verus! {

/// One tessellated batch of draw primitives; it samples from exactly one
/// texture of the atlas, named by its identifier.
#[derive(PartialEq, Eq, Structural, Clone, Copy, Debug)]
pub struct DrawBatch {
    pub texture: u64,
}

/// One step of a frame's render plan, in execution order.
#[derive(PartialEq, Eq, Structural, Clone, Copy, Debug)]
pub enum RenderStep {
    /// Upload a new or changed texture of the atlas.
    UploadTexture(u64),
    /// Free a texture the UI no longer uses.
    FreeTexture(u64),
    /// Upload the frame's tessellated vertex and index buffers, for every
    /// batch at once; it stands after all texture work and before any draw.
    UploadBuffers,
    /// Issue the draw calls of one batch.
    Draw(DrawBatch),
}

/// A failure to plan a frame.
#[derive(PartialEq, Eq, Structural, Clone, Copy, Debug)]
pub enum RenderError {
    /// A draw batch references a texture that is neither resident nor
    /// uploaded by this frame's deltas, or that this frame's deltas free.
    MissingTexture(u64),
}

/// The steps of one frame, to be executed in order.
#[derive(Debug)]
pub struct RenderPlan {
    pub steps: Vec<RenderStep>,
}

/// The frame renderer; it tracks which textures of the atlas are resident on
/// the GPU across frames.
#[derive(Debug)]
pub struct FrameRenderer {
    pub resident: Vec<u64>,
}

/// Texture `t` may be drawn from at step `i` of the plan: it was uploaded by
/// an earlier step, or it was already resident and no earlier step freed it.
pub open spec fn available_at(resident: Seq<u64>, steps: Seq<RenderStep>, i: int, t: u64) -> bool {
    ||| exists|j: int| 0 <= j < i && steps[j] == RenderStep::UploadTexture(t)
    ||| (resident.contains(t) && !(exists|j: int|
        0 <= j < i && steps[j] == RenderStep::FreeTexture(t)))
}

/// Texture `t` can be referenced by this frame's batches: it is resident or
/// among the frame's uploads, and the frame does not free it.
pub open spec fn texture_available(resident: Seq<u64>, set: Seq<u64>, free: Seq<u64>, t: u64) -> bool {
    (resident.contains(t) || set.contains(t)) && !free.contains(t)
}

/// The texture is not freed by this frame's deltas.
pub open spec fn not_freed(free: Seq<u64>) -> spec_fn(u64) -> bool {
    |t: u64| !free.contains(t)
}

/// The textures resident after a frame: what was resident or uploaded, less
/// what the frame freed, in that order.
pub open spec fn surviving(resident: Seq<u64>, set: Seq<u64>, free: Seq<u64>) -> Seq<u64> {
    (resident + set).filter(not_freed(free))
}

/// Everything one frame's planning guarantees: on success the plan holds the
/// texture uploads, then the removals, then one upload of the frame's vertex
/// and index buffers, and only then the draw batches, in their given order;
/// every draw's texture is available when its step executes, the buffers are
/// uploaded before every draw, and the resident set is carried forward. On
/// failure nothing changes and the error names a referenced texture that is
/// not available.
pub open spec fn plan_frame_post(
    pre: FrameRenderer,
    post: FrameRenderer,
    set: Seq<u64>,
    free: Seq<u64>,
    batches: Seq<DrawBatch>,
    r: Result<RenderPlan, RenderError>,
) -> bool {
    &&& (r is Ok <==> (forall|k: int|
        0 <= k < batches.len() ==> texture_available(
            pre.resident@,
            set,
            free,
            #[trigger] batches[k].texture,
        )))
    &&& match r {
        Ok(plan) => {
            &&& plan.steps@.len() == set.len() + free.len() + 1 + batches.len()
            &&& forall|j: int|
                0 <= j < set.len() ==> plan.steps@[j] == RenderStep::UploadTexture(set[j])
            &&& forall|j: int|
                0 <= j < free.len() ==> plan.steps@[set.len() + j] == RenderStep::FreeTexture(
                    free[j],
                )
            &&& plan.steps@[set.len() + free.len() as int] == RenderStep::UploadBuffers
            &&& forall|j: int|
                0 <= j < batches.len() ==> plan.steps@[set.len() + free.len() + 1 + j]
                    == RenderStep::Draw(batches[j])
            &&& forall|i: int|
                0 <= i < plan.steps@.len() && (#[trigger] plan.steps@[i]) is Draw
                    ==> available_at(pre.resident@, plan.steps@, i, plan.steps@[i]->Draw_0.texture)
            &&& post.resident@ == surviving(pre.resident@, set, free)
        },
        Err(e) => {
            &&& post == pre
            &&& match e {
                RenderError::MissingTexture(t) => {
                    &&& exists|k: int|
                        0 <= k < batches.len() && (#[trigger] batches[k].texture) == t
                    &&& !texture_available(pre.resident@, set, free, t)
                },
            }
        },
    }
}

/// Whether `t` occurs among `ids`.
fn contains_id(ids: &Vec<u64>, t: u64) -> (r: bool)
    ensures
        r == ids@.contains(t),
{
    let mut i: usize = 0;
    while i < ids.len()
        invariant
            i <= ids@.len(),
            forall|j: int| 0 <= j < i ==> ids@[j] != t,
        decreases ids@.len() - i,
    {
        if ids[i] == t {
            return true;
        }
        i = i + 1;
    }
    false
}

/// Appends to `acc` the elements of `ids` that this frame's deltas do not
/// free.
fn push_surviving(acc: &mut Vec<u64>, ids: &Vec<u64>, free: &Vec<u64>)
    ensures
        final(acc)@ == old(acc)@ + ids@.filter(not_freed(free@)),
{
    proof {
        reveal(Seq::filter);
        assert(old(acc)@ + ids@.take(0).filter(not_freed(free@)) =~= old(acc)@);
    }
    let mut i: usize = 0;
    while i < ids.len()
        invariant
            i <= ids@.len(),
            acc@ == old(acc)@ + ids@.take(i as int).filter(not_freed(free@)),
        decreases ids@.len() - i,
    {
        let t = ids[i];
        let freed = contains_id(free, t);
        if !freed {
            acc.push(t);
            proof {
                reveal(Seq::filter);
                assert(ids@.take(i as int + 1).drop_last() =~= ids@.take(i as int));
                assert(ids@.take(i as int + 1).last() == ids@[i as int]);
                assert(acc@ =~= old(acc)@ + ids@.take(i as int + 1).filter(not_freed(free@)));
            }
        } else {
            proof {
                reveal(Seq::filter);
                assert(ids@.take(i as int + 1).drop_last() =~= ids@.take(i as int));
                assert(ids@.take(i as int + 1).last() == ids@[i as int]);
                assert(acc@ =~= old(acc)@ + ids@.take(i as int + 1).filter(not_freed(free@)));
            }
        }
        i = i + 1;
    }
    proof {
        assert(ids@.take(ids@.len() as int) =~= ids@);
    }
}

impl FrameRenderer {
    /// A fresh renderer; no texture is resident yet.
    pub fn new() -> (r: FrameRenderer)
        ensures
            r.resident@ == Seq::<u64>::empty(),
    {
        FrameRenderer { resident: Vec::new() }
    }

    /// Plans one frame: the frame's texture deltas are applied first — the
    /// uploads, then the removals — then the tessellated vertex and index
    /// buffers are uploaded, and only then do the draw batches execute, in
    /// their given order. Fails without changing anything when a
    /// batch references a texture that is neither resident nor uploaded this
    /// frame, or one this frame frees; on success the resident set is
    /// carried forward to the next frame.
    pub fn plan_frame(
        &mut self,
        set_deltas: &Vec<u64>,
        free_deltas: &Vec<u64>,
        batches: &Vec<DrawBatch>,
    ) -> (r: Result<RenderPlan, RenderError>)
        ensures
            plan_frame_post(*old(self), *final(self), set_deltas@, free_deltas@, batches@, r),
    {
        let mut k: usize = 0;
        while k < batches.len()
            invariant
                k <= batches@.len(),
                forall|j: int|
                    0 <= j < k ==> texture_available(
                        self.resident@,
                        set_deltas@,
                        free_deltas@,
                        #[trigger] batches@[j].texture,
                    ),
                *self == *old(self),
            decreases batches@.len() - k,
        {
            let t = batches[k].texture;
            let available = (contains_id(&self.resident, t) || contains_id(set_deltas, t))
                && !contains_id(free_deltas, t);
            if !available {
                proof {
                    assert(batches@[k as int].texture == t);
                    assert(!texture_available(
                        old(self).resident@,
                        set_deltas@,
                        free_deltas@,
                        batches@[k as int].texture,
                    ));
                }
                return Err(RenderError::MissingTexture(t));
            }
            k = k + 1;
        }

        let mut steps: Vec<RenderStep> = Vec::new();
        let mut i: usize = 0;
        while i < set_deltas.len()
            invariant
                i <= set_deltas@.len(),
                steps@.len() == i,
                forall|j: int|
                    0 <= j < i ==> steps@[j] == RenderStep::UploadTexture(set_deltas@[j]),
            decreases set_deltas@.len() - i,
        {
            steps.push(RenderStep::UploadTexture(set_deltas[i]));
            i = i + 1;
        }
        let mut f: usize = 0;
        while f < free_deltas.len()
            invariant
                f <= free_deltas@.len(),
                steps@.len() == set_deltas@.len() + f,
                forall|j: int|
                    0 <= j < set_deltas@.len() ==> steps@[j] == RenderStep::UploadTexture(
                        set_deltas@[j],
                    ),
                forall|j: int|
                    0 <= j < f ==> steps@[set_deltas@.len() + j] == RenderStep::FreeTexture(
                        free_deltas@[j],
                    ),
            decreases free_deltas@.len() - f,
        {
            steps.push(RenderStep::FreeTexture(free_deltas[f]));
            f = f + 1;
        }
        steps.push(RenderStep::UploadBuffers);
        let mut d: usize = 0;
        while d < batches.len()
            invariant
                d <= batches@.len(),
                steps@.len() == set_deltas@.len() + free_deltas@.len() + 1 + d,
                forall|j: int|
                    0 <= j < set_deltas@.len() ==> steps@[j] == RenderStep::UploadTexture(
                        set_deltas@[j],
                    ),
                forall|j: int|
                    0 <= j < free_deltas@.len() ==> steps@[set_deltas@.len() + j]
                        == RenderStep::FreeTexture(free_deltas@[j]),
                steps@[set_deltas@.len() + free_deltas@.len() as int] == RenderStep::UploadBuffers,
                forall|j: int|
                    0 <= j < d ==> steps@[set_deltas@.len() + free_deltas@.len() + 1 + j]
                        == RenderStep::Draw(batches@[j]),
            decreases batches@.len() - d,
        {
            steps.push(RenderStep::Draw(batches[d]));
            d = d + 1;
        }

        proof {
            let resident0 = old(self).resident@;
            let set0 = set_deltas@;
            let free0 = free_deltas@;
            let nset = set0.len() as int;
            let nfree = free0.len() as int;
            assert forall|i0: int|
                0 <= i0 < steps@.len() && (#[trigger] steps@[i0]) is Draw implies available_at(
                resident0,
                steps@,
                i0,
                steps@[i0]->Draw_0.texture,
            ) by {
                let b = steps@[i0]->Draw_0;
                if i0 < nset {
                    assert(steps@[i0] == RenderStep::UploadTexture(set0[i0]));
                } else if i0 < nset + nfree {
                    assert(steps@[set0.len() + (i0 - nset)] == RenderStep::FreeTexture(
                        free0[i0 - nset],
                    ));
                } else if i0 == nset + nfree {
                    assert(steps@[set0.len() + free0.len() as int] == RenderStep::UploadBuffers);
                }
                let bi = i0 - nset - nfree - 1;
                assert(0 <= bi < batches@.len());
                assert(steps@[set0.len() + free0.len() + 1 + bi] == RenderStep::Draw(batches@[bi]));
                assert(b == batches@[bi]);
                let t = b.texture;
                assert(texture_available(resident0, set0, free0, t));
                if set0.contains(t) {
                    let j = choose|j: int| 0 <= j < set0.len() && set0[j] == t;
                    assert(steps@[j] == RenderStep::UploadTexture(t));
                    assert(0 <= j < i0);
                } else {
                    assert(resident0.contains(t));
                    assert forall|j: int| 0 <= j < i0 implies steps@[j] != RenderStep::FreeTexture(
                        t,
                    ) by {
                        if j < nset {
                            assert(steps@[j] == RenderStep::UploadTexture(set0[j]));
                        } else if j < nset + nfree {
                            assert(steps@[set0.len() + (j - nset)] == RenderStep::FreeTexture(
                                free0[j - nset],
                            ));
                            assert(free0[j - nset] != t) by {
                                if free0[j - nset] == t {
                                    assert(free0.contains(t));
                                }
                            }
                        } else if j == nset + nfree {
                            assert(steps@[set0.len() + free0.len() as int] == RenderStep::UploadBuffers);
                        } else {
                            assert(steps@[set0.len() + free0.len() + 1 + (j - nset - nfree - 1)]
                                == RenderStep::Draw(batches@[j - nset - nfree - 1]));
                        }
                    }
                }
            }
        }

        let mut resident: Vec<u64> = Vec::new();
        push_surviving(&mut resident, &self.resident, free_deltas);
        push_surviving(&mut resident, set_deltas, free_deltas);
        proof {
            Seq::filter_distributes_over_add(
                old(self).resident@,
                set_deltas@,
                not_freed(free_deltas@),
            );
            assert(resident@ =~= surviving(old(self).resident@, set_deltas@, free_deltas@));
        }
        self.resident = resident;
        Ok(RenderPlan { steps })
    }
}

} // verus!
