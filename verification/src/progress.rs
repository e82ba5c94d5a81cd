//! Progress reporting.
//!
//! A workload reports its progress through an abstract sink so that the
//! engine stays free of any particular transport. Progress is measured in
//! hundredths of a percent: 0 is "just started" and [`PROGRESS_DONE`]
//! (10000, that is 100.00%) is "complete". Every reported value is within
//! that range by construction: the sink's precondition refuses anything
//! larger.

use vstd::prelude::*;

verus! {

/// Progress value meaning 100.00%.
pub const PROGRESS_DONE: u32 = 10000;

/// A capability that receives `(progress, message)` updates.
///
/// `reports` is the abstract history of all progress values received, in
/// order. A conforming sink may do anything with the message, but must
/// remember exactly the progress values it was handed.
pub trait ProgressSink: Sized {
    spec fn reports(&self) -> Seq<u32>;

    fn report(&mut self, progress: u32, message: &str)
        requires
            progress <= PROGRESS_DONE,
        ensures
            final(self).reports() == old(self).reports().push(progress),
    ;
}

/// The history `post` extends the history `pre` and every added value is a
/// valid progress value.
pub open spec fn extends_in_range(pre: Seq<u32>, post: Seq<u32>) -> bool {
    &&& pre.is_prefix_of(post)
    &&& forall|i: int| pre.len() <= i < post.len() ==> #[trigger] post[i] <= PROGRESS_DONE
}

/// Extension in range is transitive across successive reporting phases.
pub proof fn lemma_extends_in_range_trans(a: Seq<u32>, b: Seq<u32>, c: Seq<u32>)
    requires
        extends_in_range(a, b),
        extends_in_range(b, c),
    ensures
        extends_in_range(a, c),
{
    assert forall|i: int| a.len() <= i < c.len() implies #[trigger] c[i] <= PROGRESS_DONE by {
        if i < b.len() {
            assert(b[i] <= PROGRESS_DONE);
            assert(c[i] == b[i]);
        }
    }
}

/// Values already in the history never change as it extends.
pub proof fn lemma_extends_preserves_index(pre: Seq<u32>, post: Seq<u32>, i: int)
    requires
        extends_in_range(pre, post),
        0 <= i < pre.len(),
    ensures
        post[i] == pre[i],
{
    assert(pre =~= post.subrange(0, pre.len() as int));
    assert(post.subrange(0, pre.len() as int)[i] == post[i]);
}

/// Appending one valid progress value extends a history in range.
pub proof fn lemma_push_extends_in_range(pre: Seq<u32>, v: u32)
    requires
        v <= PROGRESS_DONE,
    ensures
        extends_in_range(pre, pre.push(v)),
{
    assert(pre.push(v).take(pre.len() as int) =~= pre);
}

/// A sink that records every progress value it receives.
pub struct RecordingSink {
    pub values: Vec<u32>,
}

impl RecordingSink {
    pub fn new() -> (r: RecordingSink)
        ensures
            r.reports() == Seq::<u32>::empty(),
    {
        RecordingSink { values: Vec::new() }
    }
}

impl ProgressSink for RecordingSink {
    open spec fn reports(&self) -> Seq<u32> {
        self.values@
    }

    fn report(&mut self, progress: u32, message: &str) {
        self.values.push(progress);
    }
}

/// A sink that discards every update; its history is kept only in ghost
/// state.
pub struct NullSink {
    pub history: Ghost<Seq<u32>>,
}

impl NullSink {
    pub fn new() -> (r: NullSink)
        ensures
            r.reports() == Seq::<u32>::empty(),
    {
        NullSink { history: Ghost(Seq::empty()) }
    }
}

impl ProgressSink for NullSink {
    open spec fn reports(&self) -> Seq<u32> {
        self.history@
    }

    fn report(&mut self, progress: u32, message: &str) {
        self.history = Ghost(self.history@.push(progress));
    }
}

} // verus!
