use vstd::prelude::*;
use crate::context::{
    clip_model, clip_of, restore_model, save_model, state_record, transform_model,
    FrameModel, StackModel, WgpuRenderContext,
};
use crate::geom::{compose, Affine, AffineModel, Rect};

verus! {

/// A state-changing call on the context: `save`, `restore`, `transform` or a
/// rectangle `clip`.
pub enum StateOp {
    Save,
    Restore,
    Transform(AffineModel),
    Clip(Rect),
}

pub open spec fn apply_op(s: StackModel, op: StateOp) -> StackModel {
    match op {
        StateOp::Save => save_model(s),
        StateOp::Restore => restore_model(s),
        StateOp::Transform(t) => transform_model(s, t),
        StateOp::Clip(r) => clip_model(s, r),
    }
}

/// The state after the calls, in order.
pub open spec fn run(s: StackModel, ops: Seq<StateOp>) -> StackModel
    decreases ops.len(),
{
    if ops.len() == 0 {
        s
    } else {
        apply_op(run(s, ops.drop_last()), ops.last())
    }
}

/// Saves minus restores.
pub open spec fn depth(ops: Seq<StateOp>) -> int
    decreases ops.len(),
{
    if ops.len() == 0 {
        0
    } else {
        depth(ops.drop_last()) + match ops.last() {
            StateOp::Save => 1int,
            StateOp::Restore => -1int,
            _ => 0int,
        }
    }
}

/// No prefix restores more than it saved, and every transform and clip happens
/// inside a scope opened by the sequence itself.
pub open spec fn nested(ops: Seq<StateOp>) -> bool {
    &&& forall|i: int| 0 <= i <= ops.len() ==> depth(#[trigger] ops.take(i)) >= 0
    &&& forall|i: int|
        0 <= i < ops.len() ==> (ops[i] is Transform || ops[i] is Clip) ==> depth(
            #[trigger] ops.take(i),
        ) >= 1
}

/// Every save is matched by a later restore, and nothing changes outside them.
pub open spec fn balanced(ops: Seq<StateOp>) -> bool {
    nested(ops) && depth(ops) == 0
}

/// Clips counted by the frames from index `k` up.
pub open spec fn clip_sum(frames: Seq<FrameModel>, k: int) -> nat
    decreases frames.len(),
{
    if frames.len() == 0 || frames.len() <= k {
        0
    } else {
        clip_sum(frames.drop_last(), k) + frames.last().n_clip
    }
}

spec fn inside(s0: StackModel, s: StackModel, d: int) -> bool {
    &&& d >= 0
    &&& s.frames.len() == s0.frames.len() + d
    &&& s.frames.take(s0.frames.len() as int) == s0.frames
    &&& s.clips.len() == s0.clips.len() + clip_sum(s.frames, s0.frames.len() as int)
    &&& s.clips.take(s0.clips.len() as int) == s0.clips
    &&& d == 0 ==> s.cur == s0.cur
    &&& d > 0 ==> s.frames[s0.frames.len() as int].transform == s0.cur
}

proof fn lemma_clip_sum_update(frames: Seq<FrameModel>, k: int, f: FrameModel)
    requires
        frames.len() > k >= 0,
    ensures
        clip_sum(frames.update(frames.len() - 1, f), k) == clip_sum(frames, k)
            - frames.last().n_clip + f.n_clip,
{
    assert(frames.update(frames.len() - 1, f).drop_last() =~= frames.drop_last());
}

proof fn lemma_step(s0: StackModel, s: StackModel, d: int, op: StateOp)
    requires
        inside(s0, s, d),
        op is Restore ==> d >= 1,
        (op is Transform || op is Clip) ==> d >= 1,
    ensures
        inside(
            s0,
            apply_op(s, op),
            d + match op {
                StateOp::Save => 1int,
                StateOp::Restore => -1int,
                _ => 0int,
            },
        ),
{
    let k = s0.frames.len() as int;
    let n = apply_op(s, op);
    match op {
        StateOp::Save => {
            assert(n.frames.drop_last() =~= s.frames);
            assert(n.frames.take(k) =~= s.frames.take(k));
            if d == 0 {
                assert(s.frames.len() == k);
            }
        },
        StateOp::Restore => {
            assert(s.frames.take(k) =~= n.frames.take(k));
            assert(n.clips.take(s0.clips.len() as int) =~= s.clips.take(s0.clips.len() as int));
            if d > 1 {
                assert(n.frames[k] == s.frames[k]);
            }
        },
        StateOp::Transform(t) => {
            let last = s.frames.last();
            lemma_clip_sum_update(s.frames, k, FrameModel { rel: compose(last.rel, t), ..last });
            assert(n.frames.take(k) =~= s.frames.take(k));
            if d == 1 {
                assert(n.frames[k].transform == s.frames[k].transform);
            } else {
                assert(n.frames[k] == s.frames[k]);
            }
        },
        StateOp::Clip(r) => {
            let last = s.frames.last();
            lemma_clip_sum_update(s.frames, k, FrameModel { n_clip: last.n_clip + 1, ..last });
            assert(n.frames.take(k) =~= s.frames.take(k));
            assert(n.clips.take(s0.clips.len() as int) =~= s.clips.take(s0.clips.len() as int));
            if d == 1 {
                assert(n.frames[k].transform == s.frames[k].transform);
            } else {
                assert(n.frames[k] == s.frames[k]);
            }
        },
    }
}

proof fn lemma_run_inside(s0: StackModel, ops: Seq<StateOp>)
    requires
        nested(ops),
    ensures
        inside(s0, run(s0, ops), depth(ops)),
    decreases ops.len(),
{
    if ops.len() == 0 {
        assert(s0.frames.take(s0.frames.len() as int) =~= s0.frames);
        assert(s0.clips.take(s0.clips.len() as int) =~= s0.clips);
    } else {
        let init = ops.drop_last();
        assert forall|i: int| 0 <= i <= init.len() implies #[trigger] init.take(i) == ops.take(i) by {
            assert(init.take(i) =~= ops.take(i));
        }
        assert(nested(init)) by {
            assert forall|i: int| 0 <= i <= init.len() implies depth(#[trigger] init.take(i)) >= 0 by {
                assert(init.take(i) == ops.take(i));
            }
            assert forall|i: int|
                0 <= i < init.len() && (init[i] is Transform || init[i] is Clip) implies depth(
                #[trigger] init.take(i),
            ) >= 1 by {
                assert(init.take(i) == ops.take(i));
                assert(init[i] == ops[i]);
            }
        }
        lemma_run_inside(s0, init);
        assert(ops.take(ops.len() as int) =~= ops);
        assert(init.take(init.len() as int) =~= init);
        assert(ops.take(init.len() as int) == init);
        lemma_step(s0, run(s0, init), depth(init), ops.last());
    }
}

/// A balanced sequence of saves, restores, transforms and clips leaves the
/// transform, the saved scopes and the clip stack (so its depth) as they were.
pub proof fn law_balanced_round_trip(s: StackModel, ops: Seq<StateOp>)
    requires
        balanced(ops),
    ensures
        run(s, ops).cur == s.cur,
        run(s, ops).frames == s.frames,
        run(s, ops).clips == s.clips,
        run(s, ops).clips.len() == s.clips.len(),
{
    lemma_run_inside(s, ops);
    let e = run(s, ops);
    assert(e.frames =~= e.frames.take(s.frames.len() as int));
    assert(e.clips =~= e.clips.take(s.clips.len() as int));
}

/// For a context reached from `c0` by calls whose effect on the state is the
/// balanced sequence `ops` (draw calls leave the state as it is), the transform,
/// the saved scopes and the clip stack are those of `c0`.
pub proof fn law_context_round_trip(
    c0: WgpuRenderContext,
    c1: WgpuRenderContext,
    ops: Seq<StateOp>,
)
    requires
        balanced(ops),
        c1.model() == run(c0.model(), ops),
    ensures
        c1.model().cur == c0.model().cur,
        c1.model().frames == c0.model().frames,
        c1.model().clips == c0.model().clips,
{
    law_balanced_round_trip(c0.model(), ops);
}

/// After two clips, the record of the state carries the second rectangle,
/// mapped by the current transform, and not any combination with the first.
pub proof fn law_last_clip_wins(s: StackModel, a: Rect, b: Rect)
    ensures
        state_record(clip_model(clip_model(s, a), b)).clip,
        state_record(clip_model(clip_model(s, a), b)).clip_rect == clip_of(b, s.cur),
{
}

/// Reading the transform twice with no change between gives the same value.
pub proof fn law_current_transform_stable(c: WgpuRenderContext, t1: Affine, t2: Affine)
    requires
        t1@ == c.model().cur,
        t2@ == c.model().cur,
    ensures
        t1 == t2,
{
}

} // verus!
