use vstd::prelude::*;

use crate::stage::Stage;
use crate::task::{has_thread_pool, run_batch, LocalTask, ParallelTask};
use legion::systems::Resources;
use legion::world::World;

verus! {

/// The mathematical content of a [`Dispatcher`]: one ordered sequence of
/// parallel tasks per parallel stage, and the ordered sequence of
/// thread-local tasks.
#[verifier::ext_equal]
pub ghost struct DispatcherView {
    pub begin: Seq<ParallelTask>,
    pub logic: Seq<ParallelTask>,
    pub render: Seq<ParallelTask>,
    pub locals: Seq<LocalTask>,
}

/// The parallel bucket a view assigns to a stage. `ThreadLocal` owns no
/// parallel bucket and is mapped to the empty sequence.
pub open spec fn stage_seq(v: DispatcherView, stage: Stage) -> Seq<ParallelTask> {
    match stage {
        Stage::Begin => v.begin,
        Stage::Logic => v.logic,
        Stage::Render => v.render,
        Stage::ThreadLocal => Seq::empty(),
    }
}

/// The view of a dispatcher whose buckets are all present and empty.
pub open spec fn empty_view() -> DispatcherView {
    DispatcherView {
        begin: Seq::empty(),
        logic: Seq::empty(),
        render: Seq::empty(),
        locals: Seq::empty(),
    }
}

/// Per stage, the left view's tasks immediately followed by the right view's,
/// each side in its original relative order; likewise for thread-locals.
pub open spec fn merge_view(a: DispatcherView, b: DispatcherView) -> DispatcherView {
    DispatcherView {
        begin: a.begin + b.begin,
        logic: a.logic + b.logic,
        render: a.render + b.render,
        locals: a.locals + b.locals,
    }
}

/// How many parallel tasks a view holds across all three parallel stages.
pub open spec fn total_parallel(v: DispatcherView) -> nat {
    v.begin.len() + v.logic.len() + v.render.len()
}

/// The realized, executable schedule: per parallel stage an ordered bucket of
/// tasks for legion's executor, plus the ordered thread-local tasks. All
/// buckets exist from construction on; there is no missing-stage state.
pub struct Dispatcher {
    begin: Vec<ParallelTask>,
    logic: Vec<ParallelTask>,
    render: Vec<ParallelTask>,
    thread_locals: Vec<LocalTask>,
}

impl View for Dispatcher {
    type V = DispatcherView;

    closed spec fn view(&self) -> DispatcherView {
        DispatcherView {
            begin: self.begin@,
            logic: self.logic@,
            render: self.render@,
            locals: self.thread_locals@,
        }
    }
}

impl Default for Dispatcher {
    /// A dispatcher with all three parallel buckets present and empty, and an
    /// empty thread-local sequence.
    fn default() -> (r: Dispatcher)
        ensures
            r@ == empty_view(),
    {
        let r = Dispatcher {
            begin: Vec::new(),
            logic: Vec::new(),
            render: Vec::new(),
            thread_locals: Vec::new(),
        };
        proof {
            assert(r@ =~= empty_view());
        }
        r
    }
}

impl Dispatcher {
    /// Appends one parallel task to the bucket for `stage`, leaving every
    /// other bucket and the thread-local sequence untouched.
    pub fn push_task(&mut self, stage: Stage, task: ParallelTask)
        requires
            stage != Stage::ThreadLocal,
        ensures
            stage_seq(final(self)@, stage) == stage_seq(old(self)@, stage).push(task),
            forall|s: Stage|
                s != stage ==> #[trigger] stage_seq(final(self)@, s) == stage_seq(old(self)@, s),
            final(self)@.locals == old(self)@.locals,
    {
        match stage {
            Stage::Begin => self.begin.push(task),
            Stage::Logic => self.logic.push(task),
            Stage::Render => self.render.push(task),
            Stage::ThreadLocal => {
                proof {
                    assert(false);
                }
            },
        }
    }

    /// Appends one thread-local task after the existing ones, leaving every
    /// parallel bucket untouched.
    pub fn push_local(&mut self, task: LocalTask)
        ensures
            final(self)@.locals == old(self)@.locals.push(task),
            forall|s: Stage| #[trigger] stage_seq(final(self)@, s) == stage_seq(old(self)@, s),
    {
        self.thread_locals.push(task);
    }

    /// Consumes both dispatchers and returns their combination: per stage,
    /// `self`'s tasks immediately followed by `other`'s, and `other`'s
    /// thread-locals after `self`'s, all in original relative order.
    pub fn merge(self, other: Dispatcher) -> (r: Dispatcher)
        ensures
            r@ == merge_view(self@, other@),
    {
        let ghost va = self@;
        let ghost vb = other@;
        let mut a = self;
        let mut b = other;
        a.begin.append(&mut b.begin);
        a.logic.append(&mut b.logic);
        a.render.append(&mut b.render);
        a.thread_locals.append(&mut b.thread_locals);
        proof {
            assert(a@ =~= merge_view(va, vb));
        }
        a
    }

    /// Runs one stage to completion.
    ///
    /// For `ThreadLocal`, every thread-local task runs once, in registration
    /// order, synchronously and sequentially; no parallel bucket is touched.
    /// For any other stage, exactly that stage's bucket is handed as one
    /// batch to legion's executor, driven by the shared thread pool found in
    /// `resources`; every other bucket and the thread-local sequence stay
    /// untouched. The pool must be present for a parallel stage; its absence
    /// is a configuration fault, not a recoverable condition.
    pub fn run(&mut self, stage: Stage, world: &mut World, resources: &mut Resources)
        requires
            stage != Stage::ThreadLocal ==> has_thread_pool(*old(resources)),
        ensures
            stage_seq(final(self)@, stage).len() == stage_seq(old(self)@, stage).len(),
            forall|s: Stage|
                s != stage ==> #[trigger] stage_seq(final(self)@, s) == stage_seq(old(self)@, s),
            final(self)@.locals.len() == old(self)@.locals.len(),
            stage != Stage::ThreadLocal ==> final(self)@.locals == old(self)@.locals,
    {
        match stage {
            Stage::ThreadLocal => {
                let ghost pre = self@;
                let n = self.thread_locals.len();
                let mut i: usize = 0;
                while i < n
                    invariant
                        i <= n,
                        self.thread_locals@.len() == n,
                        self@.begin == pre.begin,
                        self@.logic == pre.logic,
                        self@.render == pre.render,
                    decreases n - i,
                {
                    let task: &mut LocalTask = &mut self.thread_locals[i];
                    task.run(world, resources);
                    i += 1;
                }
            },
            Stage::Begin => run_batch(&mut self.begin, world, resources),
            Stage::Logic => run_batch(&mut self.logic, world, resources),
            Stage::Render => run_batch(&mut self.render, world, resources),
        }
    }

    /// How many parallel tasks the bucket for `stage` holds; zero for the
    /// thread-local stage, which owns no parallel bucket.
    pub fn parallel_count(&self, stage: Stage) -> (r: usize)
        ensures
            r == stage_seq(self@, stage).len(),
    {
        match stage {
            Stage::Begin => self.begin.len(),
            Stage::Logic => self.logic.len(),
            Stage::Render => self.render.len(),
            Stage::ThreadLocal => 0,
        }
    }

    /// How many thread-local tasks are queued.
    pub fn thread_local_count(&self) -> (r: usize)
        ensures
            r == self@.locals.len(),
    {
        self.thread_locals.len()
    }
}

} // verus!
