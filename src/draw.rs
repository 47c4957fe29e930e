use vstd::prelude::*;

verus! {

/// One instanced draw: the shared mesh of a batch, drawn once per instance.
#[derive(Clone, Copy, Debug, PartialEq, Eq, Structural)]
pub struct DrawCall {
    /// Position of the batch among the frame's batches.
    pub batch: usize,
    /// Number of instances drawn, the length of that batch.
    pub instance_count: usize,
}

/// The lengths of the frame's batches, in order.
pub open spec fn batch_lengths<T>(batches: Seq<Vec<T>>) -> Seq<usize> {
    batches.map_values(|b: Vec<T>| b@.len() as usize)
}

/// The draws of a frame: one per non-empty batch, in batch order. An empty
/// batch needs no draw call.
pub open spec fn draw_plan(lengths: Seq<usize>) -> Seq<DrawCall>
    decreases lengths.len(),
{
    if lengths.len() == 0 {
        Seq::empty()
    } else {
        let last = lengths.len() - 1;
        let earlier = draw_plan(lengths.drop_last());
        if lengths[last] == 0 {
            earlier
        } else {
            earlier.push(DrawCall { batch: last as usize, instance_count: lengths[last] })
        }
    }
}

/// How many instances of batch `b` the draws of `plan` draw in all.
pub open spec fn instances_drawn(plan: Seq<DrawCall>, b: int) -> int
    decreases plan.len(),
{
    if plan.len() == 0 {
        0
    } else {
        let c = plan.last();
        instances_drawn(plan.drop_last(), b) + if c.batch == b { c.instance_count as int } else { 0 }
    }
}

/// Records the draws for one frame: one draw call per non-empty batch, each
/// with the batch's length as its instance count.
pub fn plan_draws<T>(batches: &Vec<Vec<T>>) -> (r: Vec<DrawCall>)
    ensures
        r@ == draw_plan(batch_lengths(batches@)),
{
    let mut out: Vec<DrawCall> = Vec::new();
    let mut k: usize = 0;
    while k < batches.len()
        invariant
            k <= batches@.len(),
            out@ == draw_plan(batch_lengths(batches@.take(k as int))),
        decreases batches@.len() - k,
    {
        let n = batches[k].len();
        proof {
            let next = batches@.take(k as int + 1);
            assert(next.drop_last() == batches@.take(k as int));
            assert(batch_lengths(next).drop_last() == batch_lengths(batches@.take(k as int)));
            assert(batch_lengths(next)[k as int] == n);
        }
        if n > 0 {
            out.push(DrawCall { batch: k, instance_count: n });
        }
        k = k + 1;
    }
    proof {
        assert(batches@.take(k as int) == batches@);
    }
    out
}

/// Every draw of a plan names one of the plan's batches.
pub proof fn lemma_draws_name_batches(lengths: Seq<usize>)
    requires
        lengths.len() <= usize::MAX,
    ensures
        forall|k: int| 0 <= k < draw_plan(lengths).len() ==> (draw_plan(lengths)[k].batch as int) < lengths.len(),
    decreases lengths.len(),
{
    if lengths.len() > 0 {
        let earlier = lengths.drop_last();
        lemma_draws_name_batches(earlier);
        let p = draw_plan(earlier);
        let last = lengths.len() - 1;
        if lengths[last] != 0 {
            let c = DrawCall { batch: last as usize, instance_count: lengths[last] };
            assert forall|k: int| 0 <= k < p.push(c).len() implies (p.push(c)[k].batch as int) < lengths.len() by {
                if k < p.len() {
                    assert(p.push(c)[k] == p[k]);
                }
            }
        }
    }
}

/// Draws for batches at or past `n` add nothing to what is drawn of a batch
/// before `n`.
proof fn lemma_instances_unaffected(plan: Seq<DrawCall>, b: int)
    requires
        forall|k: int| 0 <= k < plan.len() ==> (plan[k].batch as int) < b,
    ensures
        instances_drawn(plan, b) == 0,
    decreases plan.len(),
{
    if plan.len() > 0 {
        lemma_instances_unaffected(plan.drop_last(), b);
    }
}

/// Each batch is drawn with exactly as many instances as it holds; an empty
/// batch is drawn with none.
pub proof fn lemma_instances_match_batches(lengths: Seq<usize>, b: int)
    requires
        lengths.len() <= usize::MAX,
        0 <= b < lengths.len(),
    ensures
        instances_drawn(draw_plan(lengths), b) == lengths[b] as int,
    decreases lengths.len(),
{
    let last = lengths.len() - 1;
    let earlier = lengths.drop_last();
    lemma_draws_name_batches(earlier);
    let p = draw_plan(earlier);
    if b < last {
        lemma_instances_match_batches(earlier, b);
        if lengths[last] != 0 {
            let c = DrawCall { batch: last as usize, instance_count: lengths[last] };
            assert(p.push(c).drop_last() == p);
        }
    } else {
        lemma_instances_unaffected(p, b);
        if lengths[last] != 0 {
            let c = DrawCall { batch: last as usize, instance_count: lengths[last] };
            assert(p.push(c).drop_last() == p);
        }
    }
}

} // verus!
