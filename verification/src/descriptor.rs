use vstd::prelude::*;

use crate::builder::DispatcherBuilder;
use crate::dispatcher::{stage_seq, Dispatcher};
use crate::stage::Stage;
use crate::task::{BuildError, BundleEntry, LocalFactory, LocalTask, ParallelTask, SystemFactory};
use legion::systems::Resources;
use legion::world::World;

verus! {

/// The deferred-construction contract shared by every descriptor shape: given
/// the world, the dispatcher under construction and the builder that collects
/// recursive registrations, a descriptor materializes itself into the
/// dispatcher, or registers further descriptors, or fails. A descriptor is
/// consumed exactly once.
pub trait ConsumeDesc {
    fn consume(
        self,
        world: &mut World,
        resources: &mut Resources,
        dispatcher: &mut Dispatcher,
        builder: &mut DispatcherBuilder,
    ) -> Result<(), BuildError>;
}

/// The two system descriptor shapes: a task ready to schedule, or a deferred
/// factory that must first build its task from the world.
enum SystemPayload {
    Ready(ParallelTask),
    Deferred(SystemFactory),
}

/// One queued system descriptor: a target stage paired with either a
/// pre-built parallel task or a deferred factory.
pub struct SystemEntry {
    stage: Stage,
    payload: SystemPayload,
}

impl SystemEntry {
    /// A system never targets the thread-local stage; that stage owns no
    /// parallel bucket.
    #[verifier::type_invariant]
    spec fn type_inv(self) -> bool {
        self.stage != Stage::ThreadLocal
    }

    /// The parallel stage this entry's task is destined for.
    pub closed spec fn target_stage(self) -> Stage {
        self.stage
    }

    /// Whether the entry holds a pre-built task.
    pub closed spec fn is_ready(self) -> bool {
        self.payload is Ready
    }

    /// The pre-built task, for entries that hold one.
    pub closed spec fn task(self) -> ParallelTask {
        match self.payload {
            SystemPayload::Ready(t) => t,
            SystemPayload::Deferred(_) => arbitrary(),
        }
    }

    /// Wraps a pre-built task destined for `stage`.
    pub fn ready(stage: Stage, task: ParallelTask) -> (r: SystemEntry)
        requires
            stage != Stage::ThreadLocal,
        ensures
            r.target_stage() == stage,
            r.is_ready(),
            r.task() == task,
    {
        SystemEntry { stage, payload: SystemPayload::Ready(task) }
    }

    /// Wraps a deferred factory destined for `stage`.
    pub fn deferred(stage: Stage, factory: SystemFactory) -> (r: SystemEntry)
        requires
            stage != Stage::ThreadLocal,
        ensures
            r.target_stage() == stage,
            !r.is_ready(),
    {
        SystemEntry { stage, payload: SystemPayload::Deferred(factory) }
    }
}

impl ConsumeDesc for SystemEntry {
    /// Appends this entry's task — building it first when deferred — to the
    /// dispatcher bucket for its stage. The recursive builder is never
    /// touched; a factory failure propagates the factory's own error and
    /// leaves the dispatcher unchanged; a pre-built task cannot fail.
    fn consume(
        self,
        world: &mut World,
        resources: &mut Resources,
        dispatcher: &mut Dispatcher,
        builder: &mut DispatcherBuilder,
    ) -> (r: Result<(), BuildError>)
        ensures
            *final(builder) == *old(builder),
            final(dispatcher)@.locals == old(dispatcher)@.locals,
            self.is_ready() ==> r is Ok,
            r is Ok ==> stage_seq(final(dispatcher)@, self.target_stage()).len() == stage_seq(
                old(dispatcher)@,
                self.target_stage(),
            ).len() + 1,
            r is Ok ==> forall|s: Stage|
                s != self.target_stage() ==> #[trigger] stage_seq(final(dispatcher)@, s)
                    == stage_seq(old(dispatcher)@, s),
            r is Ok && self.is_ready() ==> stage_seq(final(dispatcher)@, self.target_stage())
                == stage_seq(old(dispatcher)@, self.target_stage()).push(self.task()),
            r is Err ==> *final(dispatcher) == *old(dispatcher),
    {
        proof {
            use_type_invariant(&self);
        }
        let SystemEntry { stage, payload } = self;
        match payload {
            SystemPayload::Ready(task) => {
                dispatcher.push_task(stage, task);
                Ok(())
            },
            SystemPayload::Deferred(factory) => {
                match factory.call(world, resources) {
                    Ok(task) => {
                        dispatcher.push_task(stage, task);
                        Ok(())
                    },
                    Err(e) => Err(e),
                }
            },
        }
    }
}

/// The two thread-local descriptor shapes: a task ready to run, or a deferred
/// factory.
enum LocalPayload {
    Ready(LocalTask),
    Deferred(LocalFactory),
}

/// One queued thread-local descriptor.
pub struct LocalEntry {
    payload: LocalPayload,
}

impl LocalEntry {
    /// Whether the entry holds a pre-built task.
    pub closed spec fn is_ready(self) -> bool {
        self.payload is Ready
    }

    /// The pre-built task, for entries that hold one.
    pub closed spec fn task(self) -> LocalTask {
        match self.payload {
            LocalPayload::Ready(t) => t,
            LocalPayload::Deferred(_) => arbitrary(),
        }
    }

    /// Wraps a pre-built thread-local task.
    pub fn ready(task: LocalTask) -> (r: LocalEntry)
        ensures
            r.is_ready(),
            r.task() == task,
    {
        LocalEntry { payload: LocalPayload::Ready(task) }
    }

    /// Wraps a deferred thread-local factory.
    pub fn deferred(factory: LocalFactory) -> (r: LocalEntry)
        ensures
            !r.is_ready(),
    {
        LocalEntry { payload: LocalPayload::Deferred(factory) }
    }
}

impl ConsumeDesc for LocalEntry {
    /// Appends this entry's task — building it first when deferred — after
    /// the dispatcher's existing thread-locals. No parallel bucket and no
    /// recursive registration is touched; a factory failure propagates the
    /// factory's own error and leaves the dispatcher unchanged.
    fn consume(
        self,
        world: &mut World,
        resources: &mut Resources,
        dispatcher: &mut Dispatcher,
        builder: &mut DispatcherBuilder,
    ) -> (r: Result<(), BuildError>)
        ensures
            *final(builder) == *old(builder),
            forall|s: Stage| #[trigger]
                stage_seq(final(dispatcher)@, s) == stage_seq(old(dispatcher)@, s),
            self.is_ready() ==> r is Ok,
            r is Ok ==> final(dispatcher)@.locals.len() == old(dispatcher)@.locals.len() + 1,
            r is Ok && self.is_ready() ==> final(dispatcher)@.locals == old(
                dispatcher,
            )@.locals.push(self.task()),
            r is Err ==> *final(dispatcher) == *old(dispatcher),
    {
        let LocalEntry { payload } = self;
        match payload {
            LocalPayload::Ready(task) => {
                dispatcher.push_local(task);
                Ok(())
            },
            LocalPayload::Deferred(factory) => {
                match factory.call(world, resources) {
                    Ok(task) => {
                        dispatcher.push_local(task);
                        Ok(())
                    },
                    Err(e) => Err(e),
                }
            },
        }
    }
}

impl ConsumeDesc for BundleEntry {
    /// Hands the caller's bundle the builder, into which it registers further
    /// descriptors. A bundle never writes into the dispatcher; what it leaves
    /// in the builder is its own business and is resolved by the next build
    /// pass.
    fn consume(
        self,
        world: &mut World,
        resources: &mut Resources,
        dispatcher: &mut Dispatcher,
        builder: &mut DispatcherBuilder,
    ) -> (r: Result<(), BuildError>)
        ensures
            *final(dispatcher) == *old(dispatcher),
    {
        self.call(world, resources, builder)
    }
}

} // verus!
