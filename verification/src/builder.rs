use vstd::prelude::*;

use crate::descriptor::{ConsumeDesc, LocalEntry, SystemEntry};
use crate::dispatcher::{stage_seq, total_parallel, Dispatcher};
use crate::stage::Stage;
use crate::task::{
    BuildError, BundleEntry, LocalFactory, LocalTask, ParallelTask, SystemBundle, SystemDesc,
    SystemFactory, ThreadLocal, ThreadLocalDesc,
};
use legion::systems::{ParallelRunnable, Resources};
use legion::world::World;

verus! {

/// How many resolution passes `build` grants bundle expansion before it gives
/// up with [`BuildError::ExpansionLimit`]. Every pass drains one generation
/// of descriptors, so only a chain of bundles nested deeper than this — or
/// a bundle that re-registers itself forever — can reach the limit.
pub const MAX_BUILD_PASSES: u64 = 64;

/// The mathematical content of a [`DispatcherBuilder`]: the three descriptor
/// queues, each in registration order.
#[verifier::ext_equal]
pub ghost struct BuilderView {
    pub systems: Seq<SystemEntry>,
    pub thread_locals: Seq<LocalEntry>,
    pub bundles: Seq<BundleEntry>,
}

/// How many queued system entries target `stage`.
pub open spec fn count_stage(entries: Seq<SystemEntry>, stage: Stage) -> nat
    decreases entries.len(),
{
    if entries.len() == 0 {
        0
    } else {
        count_stage(entries.drop_last(), stage) + if entries.last().target_stage() == stage {
            1nat
        } else {
            0nat
        }
    }
}

/// The pre-built tasks among `entries` that target `stage`, in registration
/// order. Only meaningful where every entry is pre-built; a deferred entry
/// contributes an unconstrained placeholder.
pub open spec fn ready_tasks_for(entries: Seq<SystemEntry>, stage: Stage) -> Seq<ParallelTask>
    decreases entries.len(),
{
    if entries.len() == 0 {
        Seq::empty()
    } else {
        ready_tasks_for(entries.drop_last(), stage) + if entries.last().target_stage() == stage {
            seq![entries.last().task()]
        } else {
            Seq::empty()
        }
    }
}

/// Whether every queued system entry holds a pre-built task.
pub open spec fn all_systems_ready(entries: Seq<SystemEntry>) -> bool {
    forall|i: int| 0 <= i < entries.len() ==> (#[trigger] entries[i]).is_ready()
}

/// The tasks of the queued thread-local entries, in registration order. Only
/// meaningful where every entry is pre-built; a deferred entry contributes an
/// unconstrained placeholder.
pub open spec fn local_tasks(entries: Seq<LocalEntry>) -> Seq<LocalTask>
    decreases entries.len(),
{
    if entries.len() == 0 {
        Seq::empty()
    } else {
        local_tasks(entries.drop_last()).push(entries.last().task())
    }
}

/// Whether every queued thread-local entry holds a pre-built task.
pub open spec fn all_locals_ready(entries: Seq<LocalEntry>) -> bool {
    forall|i: int| 0 <= i < entries.len() ==> (#[trigger] entries[i]).is_ready()
}

proof fn lemma_count_stage_push(entries: Seq<SystemEntry>, entry: SystemEntry, stage: Stage)
    ensures
        count_stage(entries.push(entry), stage) == count_stage(entries, stage) + (
        if entry.target_stage() == stage {
            1nat
        } else {
            0nat
        }),
{
    assert(entries.push(entry).drop_last() =~= entries);
    assert(entries.push(entry).last() == entry);
}

proof fn lemma_ready_tasks_push(entries: Seq<SystemEntry>, entry: SystemEntry, stage: Stage)
    ensures
        entry.target_stage() == stage ==> ready_tasks_for(entries.push(entry), stage) =~=
            ready_tasks_for(entries, stage).push(entry.task()),
        entry.target_stage() != stage ==> ready_tasks_for(entries.push(entry), stage) =~=
            ready_tasks_for(entries, stage),
{
    assert(entries.push(entry).drop_last() =~= entries);
    assert(entries.push(entry).last() == entry);
}

proof fn lemma_local_tasks_push(entries: Seq<LocalEntry>, entry: LocalEntry)
    ensures
        local_tasks(entries.push(entry)) =~= local_tasks(entries).push(entry.task()),
{
    assert(entries.push(entry).drop_last() =~= entries);
    assert(entries.push(entry).last() == entry);
}

proof fn lemma_prefix_extends<T>(a: Seq<T>, b: Seq<T>, c: Seq<T>)
    requires
        a.is_prefix_of(b),
    ensures
        a.is_prefix_of(b + c),
{
    assert((b + c).subrange(0, a.len() as int) =~= b.subrange(0, a.len() as int));
}

/// The accumulation and resolution engine: collects system, thread-local and
/// bundle descriptors in registration order, then `build` drains all three
/// queues — systems, then bundles, then thread-locals — into a fresh
/// [`Dispatcher`], resolving bundle registrations pass by pass.
pub struct DispatcherBuilder {
    systems: Vec<SystemEntry>,
    thread_locals: Vec<LocalEntry>,
    bundles: Vec<BundleEntry>,
}

impl View for DispatcherBuilder {
    type V = BuilderView;

    closed spec fn view(&self) -> BuilderView {
        BuilderView {
            systems: self.systems@,
            thread_locals: self.thread_locals@,
            bundles: self.bundles@,
        }
    }
}

impl Default for DispatcherBuilder {
    /// A builder with no queued descriptors; `is_empty` holds of it.
    fn default() -> (r: DispatcherBuilder)
        ensures
            r@.systems.len() == 0,
            r@.thread_locals.len() == 0,
            r@.bundles.len() == 0,
    {
        DispatcherBuilder { systems: Vec::new(), thread_locals: Vec::new(), bundles: Vec::new() }
    }
}

impl DispatcherBuilder {
    /// Queues a pre-built parallel system for `stage`, after every system
    /// registered so far. Systems never target the thread-local stage;
    /// register strictly-sequential work through `add_thread_local` instead.
    pub fn add_system<S: ParallelRunnable + 'static>(&mut self, stage: Stage, system: S)
        requires
            stage != Stage::ThreadLocal,
        ensures
            final(self)@.systems.len() == old(self)@.systems.len() + 1,
            final(self)@.systems.drop_last() == old(self)@.systems,
            final(self)@.systems.last().target_stage() == stage,
            final(self)@.systems.last().is_ready(),
            final(self)@.thread_locals == old(self)@.thread_locals,
            final(self)@.bundles == old(self)@.bundles,
    {
        self.systems.push(SystemEntry::ready(stage, ParallelTask::new(system)));
        proof {
            assert(self.systems@.drop_last() =~= old(self).systems@);
        }
    }

    /// Queues a deferred system factory for `stage`, after every system
    /// registered so far; its task is built from the world at build time.
    pub fn add_system_desc<D: SystemDesc + 'static>(&mut self, stage: Stage, desc: D)
        requires
            stage != Stage::ThreadLocal,
        ensures
            final(self)@.systems.len() == old(self)@.systems.len() + 1,
            final(self)@.systems.drop_last() == old(self)@.systems,
            final(self)@.systems.last().target_stage() == stage,
            !final(self)@.systems.last().is_ready(),
            final(self)@.thread_locals == old(self)@.thread_locals,
            final(self)@.bundles == old(self)@.bundles,
    {
        self.systems.push(SystemEntry::deferred(stage, SystemFactory::new(desc)));
        proof {
            assert(self.systems@.drop_last() =~= old(self).systems@);
        }
    }

    /// Queues a pre-built thread-local task, after every thread-local
    /// registered so far.
    pub fn add_thread_local<T: ThreadLocal + 'static>(&mut self, system: T)
        ensures
            final(self)@.thread_locals.len() == old(self)@.thread_locals.len() + 1,
            final(self)@.thread_locals.drop_last() == old(self)@.thread_locals,
            final(self)@.thread_locals.last().is_ready(),
            final(self)@.systems == old(self)@.systems,
            final(self)@.bundles == old(self)@.bundles,
    {
        self.thread_locals.push(LocalEntry::ready(LocalTask::new(system)));
        proof {
            assert(self.thread_locals@.drop_last() =~= old(self).thread_locals@);
        }
    }

    /// Queues a deferred thread-local factory, after every thread-local
    /// registered so far; its task is built from the world at build time.
    pub fn add_thread_local_desc<D: ThreadLocalDesc + 'static>(&mut self, system: D)
        ensures
            final(self)@.thread_locals.len() == old(self)@.thread_locals.len() + 1,
            final(self)@.thread_locals.drop_last() == old(self)@.thread_locals,
            !final(self)@.thread_locals.last().is_ready(),
            final(self)@.systems == old(self)@.systems,
            final(self)@.bundles == old(self)@.bundles,
    {
        self.thread_locals.push(LocalEntry::deferred(LocalFactory::new(system)));
        proof {
            assert(self.thread_locals@.drop_last() =~= old(self).thread_locals@);
        }
    }

    /// Queues a bundle, after every bundle registered so far. At build time
    /// the bundle registers further descriptors, which are resolved by the
    /// following pass.
    pub fn add_bundle<B: SystemBundle + 'static>(&mut self, bundle: B)
        ensures
            final(self)@.bundles.len() == old(self)@.bundles.len() + 1,
            final(self)@.bundles.drop_last() == old(self)@.bundles,
            final(self)@.systems == old(self)@.systems,
            final(self)@.thread_locals == old(self)@.thread_locals,
    {
        self.bundles.push(BundleEntry::new(bundle));
        proof {
            assert(self.bundles@.drop_last() =~= old(self).bundles@);
        }
    }

    /// Fluent form of [`Self::add_system`].
    pub fn with_system<S: ParallelRunnable + 'static>(self, stage: Stage, system: S) -> (r:
        DispatcherBuilder)
        requires
            stage != Stage::ThreadLocal,
        ensures
            r@.systems.len() == self@.systems.len() + 1,
            r@.systems.drop_last() == self@.systems,
            r@.systems.last().target_stage() == stage,
            r@.systems.last().is_ready(),
            r@.thread_locals == self@.thread_locals,
            r@.bundles == self@.bundles,
    {
        let mut b = self;
        b.add_system(stage, system);
        b
    }

    /// Fluent form of [`Self::add_system_desc`].
    pub fn with_system_desc<D: SystemDesc + 'static>(self, stage: Stage, desc: D) -> (r:
        DispatcherBuilder)
        requires
            stage != Stage::ThreadLocal,
        ensures
            r@.systems.len() == self@.systems.len() + 1,
            r@.systems.drop_last() == self@.systems,
            r@.systems.last().target_stage() == stage,
            !r@.systems.last().is_ready(),
            r@.thread_locals == self@.thread_locals,
            r@.bundles == self@.bundles,
    {
        let mut b = self;
        b.add_system_desc(stage, desc);
        b
    }

    /// Fluent form of [`Self::add_thread_local`].
    pub fn with_thread_local<T: ThreadLocal + 'static>(self, system: T) -> (r: DispatcherBuilder)
        ensures
            r@.thread_locals.len() == self@.thread_locals.len() + 1,
            r@.thread_locals.drop_last() == self@.thread_locals,
            r@.thread_locals.last().is_ready(),
            r@.systems == self@.systems,
            r@.bundles == self@.bundles,
    {
        let mut b = self;
        b.add_thread_local(system);
        b
    }

    /// Fluent form of [`Self::add_thread_local_desc`].
    pub fn with_thread_local_desc<D: ThreadLocalDesc + 'static>(self, system: D) -> (r:
        DispatcherBuilder)
        ensures
            r@.thread_locals.len() == self@.thread_locals.len() + 1,
            r@.thread_locals.drop_last() == self@.thread_locals,
            !r@.thread_locals.last().is_ready(),
            r@.systems == self@.systems,
            r@.bundles == self@.bundles,
    {
        let mut b = self;
        b.add_thread_local_desc(system);
        b
    }

    /// Fluent form of [`Self::add_bundle`].
    pub fn with_bundle<B: SystemBundle + 'static>(self, bundle: B) -> (r: DispatcherBuilder)
        ensures
            r@.bundles.len() == self@.bundles.len() + 1,
            r@.bundles.drop_last() == self@.bundles,
            r@.systems == self@.systems,
            r@.thread_locals == self@.thread_locals,
    {
        let mut b = self;
        b.add_bundle(bundle);
        b
    }

    /// True exactly when no descriptor of any kind is queued.
    pub fn is_empty(&self) -> (r: bool)
        ensures
            r == (self@.systems.len() == 0 && self@.thread_locals.len() == 0 && self@.bundles.len()
                == 0),
    {
        self.systems.is_empty() && self.bundles.is_empty() && self.thread_locals.is_empty()
    }

    /// One resolution pass: drains the systems queue, then the bundles queue,
    /// then the thread-locals queue, in registration order, consuming each
    /// descriptor into `dispatcher` while `recursive` collects whatever the
    /// bundles register. Fail-fast: the first descriptor failure aborts the
    /// pass with that error.
    #[verifier::loop_isolation(false)]
    fn run_pass(
        self,
        world: &mut World,
        resources: &mut Resources,
        dispatcher: &mut Dispatcher,
        recursive: &mut DispatcherBuilder,
    ) -> (r: Result<(), BuildError>)
        ensures
            self@.bundles.len() == 0 ==> *final(recursive) == *old(recursive),
            self@.bundles.len() == 0 && all_systems_ready(self@.systems) && all_locals_ready(
                self@.thread_locals,
            ) ==> r is Ok,
            r is Ok ==> final(dispatcher)@.locals.len() == old(dispatcher)@.locals.len()
                + self@.thread_locals.len(),
            r is Ok ==> total_parallel(final(dispatcher)@) == total_parallel(old(dispatcher)@)
                + self@.systems.len(),
            r is Ok ==> forall|s: Stage|
                s != Stage::ThreadLocal ==> #[trigger] stage_seq(final(dispatcher)@, s).len()
                    == stage_seq(old(dispatcher)@, s).len() + count_stage(self@.systems, s),
            r is Ok && all_systems_ready(self@.systems) ==> forall|s: Stage|
                s != Stage::ThreadLocal ==> #[trigger] stage_seq(final(dispatcher)@, s)
                    == stage_seq(old(dispatcher)@, s) + ready_tasks_for(self@.systems, s),
            r is Ok && all_locals_ready(self@.thread_locals) ==> final(dispatcher)@.locals == old(
                dispatcher,
            )@.locals + local_tasks(self@.thread_locals),
    {
        let ghost bv = self@;
        let ghost d0 = dispatcher@;
        let ghost rec0 = *recursive;
        let DispatcherBuilder { mut systems, mut thread_locals, mut bundles } = self;
        let ghost sys0 = systems@;
        let ghost loc0 = thread_locals@;
        let ghost bun0 = bundles@;
        proof {
            assert(bv.systems == sys0);
            assert(bv.thread_locals == loc0);
            assert(bv.bundles == bun0);
        }

        // Phase one, systems: each entry appends exactly one task to the
        // bucket for its stage.
        let ghost mut done_sys: Seq<SystemEntry> = Seq::empty();
        proof {
            assert(Seq::<SystemEntry>::empty() + sys0 =~= sys0);
        }
        while systems.len() > 0
            invariant
                sys0 == done_sys + systems@,
                *recursive == rec0,
                dispatcher@.locals == d0.locals,
                total_parallel(dispatcher@) == total_parallel(d0) + done_sys.len(),
                forall|s: Stage|
                    s != Stage::ThreadLocal ==> #[trigger] stage_seq(dispatcher@, s).len()
                        == stage_seq(d0, s).len() + count_stage(done_sys, s),
                all_systems_ready(sys0) ==> forall|s: Stage|
                    s != Stage::ThreadLocal ==> #[trigger] stage_seq(dispatcher@, s) == stage_seq(
                        d0,
                        s,
                    ) + ready_tasks_for(done_sys, s),
            decreases systems.len(),
        {
            let entry = systems.remove(0);
            let ghost ge = entry;
            let ghost pre_d = dispatcher@;
            let ghost pre_done = done_sys;
            proof {
                assert(sys0[done_sys.len() as int] == ge);
            }
            match entry.consume(world, resources, dispatcher, recursive) {
                Ok(()) => {},
                Err(e) => {
                    proof {
                        if all_systems_ready(sys0) {
                            assert(ge.is_ready());
                            assert(false);
                        }
                    }
                    return Err(e);
                },
            }
            proof {
                done_sys = done_sys.push(ge);
                assert(done_sys + systems@ =~= sys0);
                let tgt = ge.target_stage();
                assert(stage_seq(dispatcher@, tgt).len() == stage_seq(pre_d, tgt).len() + 1);
                assert(tgt != Stage::ThreadLocal);
                if tgt == Stage::Begin {
                    assert(stage_seq(dispatcher@, Stage::Logic) == stage_seq(pre_d, Stage::Logic));
                    assert(stage_seq(dispatcher@, Stage::Render) == stage_seq(
                        pre_d,
                        Stage::Render,
                    ));
                } else if tgt == Stage::Logic {
                    assert(stage_seq(dispatcher@, Stage::Begin) == stage_seq(pre_d, Stage::Begin));
                    assert(stage_seq(dispatcher@, Stage::Render) == stage_seq(
                        pre_d,
                        Stage::Render,
                    ));
                } else {
                    assert(tgt == Stage::Render);
                    assert(stage_seq(dispatcher@, Stage::Begin) == stage_seq(pre_d, Stage::Begin));
                    assert(stage_seq(dispatcher@, Stage::Logic) == stage_seq(pre_d, Stage::Logic));
                }
                assert(total_parallel(dispatcher@) == total_parallel(pre_d) + 1);
                assert forall|s: Stage| s != Stage::ThreadLocal implies #[trigger] stage_seq(
                    dispatcher@,
                    s,
                ).len() == stage_seq(d0, s).len() + count_stage(done_sys, s) by {
                    lemma_count_stage_push(pre_done, ge, s);
                }
                if all_systems_ready(sys0) {
                    assert(ge.is_ready());
                    assert forall|s: Stage| s != Stage::ThreadLocal implies #[trigger] stage_seq(
                        dispatcher@,
                        s,
                    ) == stage_seq(d0, s) + ready_tasks_for(done_sys, s) by {
                        lemma_ready_tasks_push(pre_done, ge, s);
                        if s == tgt {
                            assert((stage_seq(d0, s) + ready_tasks_for(pre_done, s)).push(
                                ge.task(),
                            ) =~= stage_seq(d0, s) + ready_tasks_for(done_sys, s));
                        }
                    }
                }
            }
        }
        proof {
            assert(done_sys =~= sys0);
        }
        let ghost d1 = dispatcher@;

        // Phase one, bundles: each registers into `recursive` only; the
        // dispatcher is never written.
        while bundles.len() > 0
            invariant
                dispatcher@ == d1,
                bun0.len() == 0 ==> *recursive == rec0 && bundles@ == bun0,
            decreases bundles.len(),
        {
            let entry = bundles.remove(0);
            match entry.consume(world, resources, dispatcher, recursive) {
                Ok(()) => {},
                Err(e) => {
                    return Err(e);
                },
            }
        }

        // Phase one, thread-locals: each entry appends exactly one task after
        // the existing thread-locals.
        let ghost d2 = dispatcher@;
        let ghost rec2 = *recursive;
        let ghost mut done_loc: Seq<LocalEntry> = Seq::empty();
        proof {
            assert(Seq::<LocalEntry>::empty() + loc0 =~= loc0);
        }
        while thread_locals.len() > 0
            invariant
                loc0 == done_loc + thread_locals@,
                *recursive == rec2,
                dispatcher@.locals.len() == d2.locals.len() + done_loc.len(),
                forall|s: Stage| #[trigger]
                    stage_seq(dispatcher@, s) == stage_seq(d2, s),
                all_locals_ready(loc0) ==> dispatcher@.locals == d2.locals + local_tasks(done_loc),
            decreases thread_locals.len(),
        {
            let entry = thread_locals.remove(0);
            let ghost ge = entry;
            let ghost pre_d = dispatcher@;
            let ghost pre_done = done_loc;
            proof {
                assert(loc0[done_loc.len() as int] == ge);
            }
            match entry.consume(world, resources, dispatcher, recursive) {
                Ok(()) => {},
                Err(e) => {
                    proof {
                        if all_locals_ready(loc0) {
                            assert(ge.is_ready());
                            assert(false);
                        }
                    }
                    return Err(e);
                },
            }
            proof {
                done_loc = done_loc.push(ge);
                assert(done_loc + thread_locals@ =~= loc0);
                if all_locals_ready(loc0) {
                    assert(ge.is_ready());
                    lemma_local_tasks_push(pre_done, ge);
                    assert((d2.locals + local_tasks(pre_done)).push(ge.task()) =~= d2.locals
                        + local_tasks(done_loc));
                }
            }
        }
        proof {
            assert(done_loc =~= loc0);
            assert(stage_seq(dispatcher@, Stage::Begin) == stage_seq(d1, Stage::Begin));
            assert(stage_seq(dispatcher@, Stage::Logic) == stage_seq(d1, Stage::Logic));
            assert(stage_seq(dispatcher@, Stage::Render) == stage_seq(d1, Stage::Render));
            assert(total_parallel(dispatcher@) == total_parallel(d1));
        }
        Ok(())
    }

    /// Resolves every queued descriptor into a fresh dispatcher.
    ///
    /// Build is destructive and one-shot: it drains the systems queue, then
    /// the bundles queue, then the thread-locals queue, in registration
    /// order. Descriptors that bundles registered during a pass are resolved
    /// by a further pass, whose tasks are appended after the earlier passes',
    /// until a pass registers nothing more. The first descriptor failure
    /// aborts the whole build with that descriptor's error; bundle expansion
    /// that never settles within [`MAX_BUILD_PASSES`] passes aborts with
    /// [`BuildError::ExpansionLimit`]. No partial dispatcher is ever
    /// returned.
    #[verifier::loop_isolation(false)]
    pub fn build(self, world: &mut World, resources: &mut Resources) -> (r: Result<
        Dispatcher,
        BuildError,
    >)
        ensures
            // a bundle-free, fully pre-built builder cannot fail
            self@.bundles.len() == 0 && all_systems_ready(self@.systems) && all_locals_ready(
                self@.thread_locals,
            ) ==> r is Ok,
            // bundle-free: completeness, stage by stage and in total
            self@.bundles.len() == 0 ==> (r matches Ok(d) ==> d@.locals.len()
                == self@.thread_locals.len() && total_parallel(d@) == self@.systems.len() && (
            forall|s: Stage|
                s != Stage::ThreadLocal ==> #[trigger] stage_seq(d@, s).len() == count_stage(
                    self@.systems,
                    s,
                ))),
            // bundle-free and pre-built: the very tasks, in registration order
            self@.bundles.len() == 0 && all_systems_ready(self@.systems) ==> (r matches Ok(d)
                ==> forall|s: Stage|
                s != Stage::ThreadLocal ==> #[trigger] stage_seq(d@, s) == ready_tasks_for(
                    self@.systems,
                    s,
                )),
            self@.bundles.len() == 0 && all_locals_ready(self@.thread_locals) ==> (r matches Ok(d)
                ==> d@.locals == local_tasks(self@.thread_locals)),
            // with bundles: directly registered work is resolved first, and
            // whatever bundles register is appended after it
            r matches Ok(d) ==> d@.locals.len() >= self@.thread_locals.len() && total_parallel(d@)
                >= self@.systems.len(),
            all_systems_ready(self@.systems) ==> (r matches Ok(d) ==> forall|s: Stage|
                s != Stage::ThreadLocal ==> (#[trigger] ready_tasks_for(
                    self@.systems,
                    s,
                )).is_prefix_of(stage_seq(d@, s))),
            all_locals_ready(self@.thread_locals) ==> (r matches Ok(d) ==> local_tasks(
                self@.thread_locals,
            ).is_prefix_of(d@.locals)),
    {
        let ghost b0 = self@;
        let mut dispatcher = Dispatcher::default();
        let mut recursive = DispatcherBuilder::default();
        match self.run_pass(world, resources, &mut dispatcher, &mut recursive) {
            Ok(()) => {},
            Err(e) => {
                return Err(e);
            },
        }
        let ghost dp1 = dispatcher@;
        proof {
            if all_systems_ready(b0.systems) {
                assert forall|s: Stage| s != Stage::ThreadLocal implies #[trigger] stage_seq(
                    dp1,
                    s,
                ) == ready_tasks_for(b0.systems, s) by {
                    assert(Seq::<ParallelTask>::empty() + ready_tasks_for(b0.systems, s)
                        =~= ready_tasks_for(b0.systems, s));
                }
            }
            if all_locals_ready(b0.thread_locals) {
                assert(Seq::<LocalTask>::empty() + local_tasks(b0.thread_locals) =~= local_tasks(
                    b0.thread_locals,
                ));
            }
            assert forall|s: Stage| s != Stage::ThreadLocal implies (#[trigger] stage_seq(
                dp1,
                s,
            )).is_prefix_of(stage_seq(dispatcher@, s)) by {
                assert(stage_seq(dp1, s).is_prefix_of(stage_seq(dp1, s)));
            }
            assert(dp1.locals.is_prefix_of(dispatcher@.locals));
        }
        let mut done = recursive.is_empty();
        let mut passes: u64 = 0;
        while !done && passes < MAX_BUILD_PASSES
            invariant
                b0.bundles.len() == 0 ==> dispatcher@ == dp1 && done,
                dispatcher@.locals.len() >= dp1.locals.len(),
                total_parallel(dispatcher@) >= total_parallel(dp1),
                forall|s: Stage|
                    s != Stage::ThreadLocal ==> (#[trigger] stage_seq(dp1, s)).is_prefix_of(
                        stage_seq(dispatcher@, s),
                    ),
                dp1.locals.is_prefix_of(dispatcher@.locals),
                passes <= MAX_BUILD_PASSES,
            decreases MAX_BUILD_PASSES - passes,
        {
            let current = recursive;
            recursive = DispatcherBuilder::default();
            let mut pass = Dispatcher::default();
            match current.run_pass(world, resources, &mut pass, &mut recursive) {
                Ok(()) => {},
                Err(e) => {
                    proof {
                        if b0.bundles.len() == 0 {
                            assert(done);
                            assert(false);
                        }
                    }
                    return Err(e);
                },
            }
            let ghost pre = dispatcher@;
            dispatcher = dispatcher.merge(pass);
            proof {
                assert forall|s: Stage| s != Stage::ThreadLocal implies (#[trigger] stage_seq(
                    dp1,
                    s,
                )).is_prefix_of(stage_seq(dispatcher@, s)) by {
                    lemma_prefix_extends(stage_seq(dp1, s), stage_seq(pre, s), stage_seq(pass@, s));
                }
                lemma_prefix_extends(dp1.locals, pre.locals, pass@.locals);
            }
            passes = passes + 1;
            done = recursive.is_empty();
        }
        if done {
            proof {
                if all_systems_ready(b0.systems) {
                    assert forall|s: Stage|
                        s != Stage::ThreadLocal implies (#[trigger] ready_tasks_for(
                        b0.systems,
                        s,
                    )).is_prefix_of(stage_seq(dispatcher@, s)) by {
                        assert(stage_seq(dp1, s).is_prefix_of(stage_seq(dispatcher@, s)));
                    }
                }
            }
            Ok(dispatcher)
        } else {
            Err(BuildError::ExpansionLimit)
        }
    }
}

} // verus!
