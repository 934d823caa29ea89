//! The queue of `FunctionMarshaller`: calls submitted from any thread, run
//! later on the marshaller's own thread.

use vstd::prelude::*;
use std::collections::HashMap;

verus! {

/// The asynchronous calls of a `FunctionMarshaller` and whether a message
/// announcing them is already posted to its window.
pub struct AsyncQueue<J> {
    calls: Vec<J>,
    posted: bool,
}

/// A queue as plain values: the waiting calls, oldest first, and whether a
/// message for them is posted and not yet handled.
pub type QueueView<J> = (Seq<J>, bool);

impl<J> View for AsyncQueue<J> {
    type V = QueueView<J>;

    closed spec fn view(&self) -> QueueView<J> {
        (self.calls@, self.posted)
    }
}

/// What submitting a call does: the job joins the end of the
/// queue, and a message is to be posted (the second component) exactly when
/// none was.
pub open spec fn spec_submit<J>(q: QueueView<J>, job: J) -> (QueueView<J>, bool) {
    ((q.0.push(job), true), !q.1)
}

impl<J> AsyncQueue<J> {
    /// No calls waiting, no message posted.
    pub fn new() -> (r: AsyncQueue<J>)
        ensures
            r@ == (Seq::<J>::empty(), false),
    {
        AsyncQueue { calls: Vec::new(), posted: false }
    }

    /// Queues `job`; returns whether a message
    /// is to be posted to the window.
    pub fn submit(&mut self, job: J) -> (r: bool)
        ensures
            (final(self)@, r) == spec_submit(old(self)@, job),
    {
        self.calls.push(job);
        let was_posted = self.posted;
        self.posted = true;
        !was_posted
    }

    /// Hands out every waiting call, oldest
    /// first, and clears the posted message.
    pub fn drain(&mut self) -> (r: Vec<J>)
        ensures
            r@ == old(self)@.0,
            final(self)@ == (Seq::<J>::empty(), false),
    {
        self.posted = false;
        let mut jobs: Vec<J> = Vec::new();
        std::mem::swap(&mut jobs, &mut self.calls);
        jobs
    }
}

/// Between two drains at most one message is posted: after one submission,
/// the next asks for none; and the calls wait in the order they came.
pub proof fn lemma_one_post_per_drain<J>(q: QueueView<J>, a: J, b: J)
    ensures
        !spec_submit(spec_submit(q, a).0, b).1,
        spec_submit(spec_submit(q, a).0, b).0.0 == q.0 + seq![a, b],
{
    assert(spec_submit(spec_submit(q, a).0, b).0.0 =~= q.0 + seq![a, b]);
}

/// How many holders each thread's marshaller has, by thread id: a thread
/// shares one marshaller, made on its first request and destroyed when its
/// last holder lets go.
pub struct MarshallerRegistry {
    counts: HashMap<u32, usize>,
}

/// Every registered marshaller has at least one holder.
pub open spec fn counts_positive(m: Map<u32, usize>) -> bool {
    forall|t: u32| #[trigger] m.contains_key(t) ==> m[t] >= 1
}

/// What asking for thread `t`'s marshaller does to the counts, and whether a
/// new marshaller is made.
pub open spec fn spec_get_window(m: Map<u32, usize>, t: u32) -> (Map<u32, usize>, bool) {
    if m.contains_key(t) {
        (m.insert(t, (m[t] + 1) as usize), false)
    } else {
        (m.insert(t, 1), true)
    }
}

/// What letting go of thread `t`'s marshaller does to the counts, and
/// whether the marshaller is destroyed.
pub open spec fn spec_release_window(m: Map<u32, usize>, t: u32) -> (Map<u32, usize>, bool) {
    if m[t] <= 1 {
        (m.remove(t), true)
    } else {
        (m.insert(t, (m[t] - 1) as usize), false)
    }
}

impl View for MarshallerRegistry {
    type V = Map<u32, usize>;

    closed spec fn view(&self) -> Map<u32, usize> {
        self.counts@
    }
}

impl MarshallerRegistry {
    /// No marshallers.
    pub fn new() -> (r: MarshallerRegistry)
        ensures
            r@ == Map::<u32, usize>::empty(),
    {
        MarshallerRegistry { counts: HashMap::new() }
    }

    /// `GetWindow` for thread `t`: one more holder of its marshaller; returns
    /// whether the marshaller is to be made now.
    pub fn get_window(&mut self, t: u32) -> (created: bool)
        requires
            old(self)@.contains_key(t) ==> old(self)@[t] < usize::MAX,
        ensures
            (final(self)@, created) == spec_get_window(old(self)@, t),
            counts_positive(old(self)@) ==> counts_positive(final(self)@),
    {
        broadcast use vstd::std_specs::hash::group_hash_axioms;
        let current = match self.counts.get(&t) {
            Some(c) => Some(*c),
            None => None,
        };
        match current {
            None => {
                self.counts.insert(t, 1);
                true
            },
            Some(c) => {
                self.counts.insert(t, c + 1);
                false
            },
        }
    }

    /// `ReleaseWindow` for thread `t`: one holder less; returns whether the
    /// marshaller is to be destroyed, which is when it had one holder left.
    pub fn release_window(&mut self, t: u32) -> (destroyed: bool)
        requires
            old(self)@.contains_key(t),
            counts_positive(old(self)@),
        ensures
            (final(self)@, destroyed) == spec_release_window(old(self)@, t),
            counts_positive(final(self)@),
    {
        broadcast use vstd::std_specs::hash::group_hash_axioms;
        let current = match self.counts.get(&t) {
            Some(c) => *c,
            None => 0,
        };
        if current <= 1 {
            self.counts.remove(&t);
            true
        } else {
            self.counts.insert(t, current - 1);
            false
        }
    }
}

/// Asking for a thread's marshaller and letting go of it again leaves the
/// counts as they were, and destroys the marshaller only if it was made.
pub proof fn lemma_get_then_release(m: Map<u32, usize>, t: u32)
    requires
        counts_positive(m),
        m.contains_key(t) ==> m[t] < usize::MAX,
    ensures
        spec_release_window(spec_get_window(m, t).0, t).0 == m,
        spec_release_window(spec_get_window(m, t).0, t).1 == spec_get_window(m, t).1,
{
    assert(spec_release_window(spec_get_window(m, t).0, t).0 =~= m);
}

/// Each thread has its own marshaller: a second request on a thread shares
/// the marshaller of the first, which then has two holders more than
/// before; and a request on another thread neither makes nor counts for the
/// first thread's marshaller, whatever that other thread holds.
pub proof fn lemma_one_marshaller_per_thread(m: Map<u32, usize>, t: u32, u: u32)
    requires
        counts_positive(m),
        m.contains_key(t) ==> m[t] + 2 <= usize::MAX,
        t != u,
    ensures
        !spec_get_window(spec_get_window(m, t).0, t).1,
        spec_get_window(spec_get_window(m, t).0, t).0[t] == (if m.contains_key(t) {
            m[t] + 2
        } else {
            2
        }),
        spec_get_window(m, u).1 == !m.contains_key(u),
        spec_get_window(m, u).0.contains_key(t) == m.contains_key(t),
        m.contains_key(t) ==> spec_get_window(m, u).0[t] == m[t],
        spec_get_window(spec_get_window(m, t).0, u).1 == !m.contains_key(u),
        spec_get_window(spec_get_window(m, t).0, u).0[t] == spec_get_window(m, t).0[t],
{
}

} // verus!
