use vstd::prelude::*;

use crate::builder::DispatcherBuilder;
use legion::systems::{Executor, ParallelRunnable, Resources, Schedule, Step};
use legion::world::World;
use std::sync::Arc;

verus! {

// ---------------------------------------------------------------------------
// legion types that appear in scheduler signatures
// ---------------------------------------------------------------------------

/// Declares legion's entity-component world so that it can stand in
/// signatures; the scheduler never looks inside it, it only hands it to tasks
/// and to legion's executor.
#[verifier::external_type_specification]
#[verifier::external_body]
pub struct ExWorld(World);

/// Declares legion's type-keyed resource container; the scheduler reads it
/// only to locate the shared rayon thread pool, and otherwise hands it
/// through to tasks.
#[verifier::external_type_specification]
#[verifier::external_body]
pub struct ExResources(Resources);

// ---------------------------------------------------------------------------
// errors
// ---------------------------------------------------------------------------

/// Why a [`DispatcherBuilder::build`] failed.
#[derive(Debug)]
pub enum BuildError {
    /// A deferred system or thread-local factory could not produce its task;
    /// carries the factory's own message. The whole build aborts on the first
    /// such failure.
    Construction(String),
    /// Bundle expansion kept registering new descriptors and never settled
    /// within the builder's pass limit.
    ExpansionLimit,
}

impl BuildError {
    /// True for a factory failure, false for the pass-limit error.
    pub fn is_construction(&self) -> (r: bool)
        ensures
            r == (self is Construction),
    {
        match self {
            BuildError::Construction(_) => true,
            BuildError::ExpansionLimit => false,
        }
    }
}

// ---------------------------------------------------------------------------
// capabilities that caller code implements
// ---------------------------------------------------------------------------

/// A strictly-sequential task: given mutable access to the world and its
/// resources, execute once, synchronously, with no parallelism.
pub trait ThreadLocal {
    fn run(&mut self, world: &mut World, resources: &mut Resources);
}

/// A deferred thread-local factory: builds its task from the fully-populated
/// world, or reports why it cannot.
pub trait ThreadLocalDesc {
    fn build_local(&mut self, world: &mut World, resources: &mut Resources) -> Result<
        LocalTask,
        BuildError,
    >;
}

/// A deferred system factory: builds a parallel task from the
/// fully-populated world, or reports why it cannot.
pub trait SystemDesc {
    fn build_system(&mut self, world: &mut World, resources: &mut Resources) -> Result<
        ParallelTask,
        BuildError,
    >;
}

/// A group of descriptors: given the world and a builder, registers zero or
/// more further systems, thread-locals and bundles into that builder. A
/// bundle never writes into a dispatcher directly.
pub trait SystemBundle {
    fn build(
        &mut self,
        world: &mut World,
        resources: &mut Resources,
        builder: &mut DispatcherBuilder,
    ) -> Result<(), BuildError>;
}

// ---------------------------------------------------------------------------
// owned, type-erased task and descriptor payloads
// ---------------------------------------------------------------------------

/// An owned parallel task, opaque to the scheduler: any value legion's
/// executor can run as part of a stage batch. Tasks have no identity beyond
/// their position in a bucket.
#[verifier::external_body]
pub struct ParallelTask {
    inner: Box<dyn ParallelRunnable>,
}

impl ParallelTask {
    /// Relies only on `Box::new`: wraps a legion system so that a dispatcher
    /// bucket can own it.
    #[verifier::external_body]
    pub fn new<S: ParallelRunnable + 'static>(system: S) -> ParallelTask {
        ParallelTask { inner: Box::new(system) }
    }
}

/// An owned thread-local task, opaque to the scheduler.
#[verifier::external_body]
pub struct LocalTask {
    inner: Box<dyn ThreadLocal>,
}

impl LocalTask {
    /// Relies only on `Box::new`: wraps a caller's [`ThreadLocal`] value so
    /// that the dispatcher's sequential list can own it.
    #[verifier::external_body]
    pub fn new<T: ThreadLocal + 'static>(task: T) -> LocalTask {
        LocalTask { inner: Box::new(task) }
    }

    /// Relies on the caller-supplied [`ThreadLocal`] impl behind the box:
    /// runs it once, synchronously, against the world. Nothing is assumed of
    /// its effect.
    #[verifier::external_body]
    pub fn run(&mut self, world: &mut World, resources: &mut Resources) {
        self.inner.run(world, resources);
    }
}

/// An owned deferred system factory, opaque to the scheduler.
#[verifier::external_body]
pub struct SystemFactory {
    inner: Box<dyn SystemDesc>,
}

impl SystemFactory {
    /// Relies only on `Box::new`: wraps a caller's [`SystemDesc`] value.
    #[verifier::external_body]
    pub fn new<D: SystemDesc + 'static>(desc: D) -> SystemFactory {
        SystemFactory { inner: Box::new(desc) }
    }

    /// Relies on the caller-supplied [`SystemDesc`] impl behind the box:
    /// either the finished task or the factory's own error comes back; which
    /// one is the factory's decision, so nothing more is stated.
    #[verifier::external_body]
    pub fn call(self, world: &mut World, resources: &mut Resources) -> Result<
        ParallelTask,
        BuildError,
    > {
        let mut inner = self.inner;
        inner.build_system(world, resources)
    }
}

/// An owned deferred thread-local factory, opaque to the scheduler.
#[verifier::external_body]
pub struct LocalFactory {
    inner: Box<dyn ThreadLocalDesc>,
}

impl LocalFactory {
    /// Relies only on `Box::new`: wraps a caller's [`ThreadLocalDesc`] value.
    #[verifier::external_body]
    pub fn new<D: ThreadLocalDesc + 'static>(desc: D) -> LocalFactory {
        LocalFactory { inner: Box::new(desc) }
    }

    /// Relies on the caller-supplied [`ThreadLocalDesc`] impl behind the box:
    /// either the finished task or the factory's own error comes back.
    #[verifier::external_body]
    pub fn call(self, world: &mut World, resources: &mut Resources) -> Result<
        LocalTask,
        BuildError,
    > {
        let mut inner = self.inner;
        inner.build_local(world, resources)
    }
}

/// An owned bundle, opaque to the scheduler: caller code that registers
/// further descriptors when consumed.
#[verifier::external_body]
pub struct BundleEntry {
    inner: Box<dyn SystemBundle>,
}

impl BundleEntry {
    /// Relies only on `Box::new`: wraps a caller's [`SystemBundle`] value.
    #[verifier::external_body]
    pub fn new<B: SystemBundle + 'static>(bundle: B) -> BundleEntry {
        BundleEntry { inner: Box::new(bundle) }
    }

    /// Relies on the caller-supplied [`SystemBundle`] impl behind the box: it
    /// registers descriptors through `builder`'s public methods, or fails.
    /// Nothing is assumed about what it leaves in `builder`.
    #[verifier::external_body]
    pub fn call(
        self,
        world: &mut World,
        resources: &mut Resources,
        builder: &mut DispatcherBuilder,
    ) -> Result<(), BuildError> {
        let mut inner = self.inner;
        inner.build(world, resources, builder)
    }
}

// ---------------------------------------------------------------------------
// the shared thread pool and legion's batch executor
// ---------------------------------------------------------------------------

/// Whether a shared `Arc<rayon::ThreadPool>` has been inserted into a
/// resource container: what legion's `Resources::contains` reports for that
/// type, a pure function of the container's contents.
pub uninterp spec fn has_thread_pool(resources: Resources) -> bool;

/// Relies on legion's `Resources::contains`: reports whether the shared
/// `Arc<rayon::ThreadPool>` resource is present.
#[verifier::external_body]
pub fn pool_is_present(resources: &Resources) -> (r: bool)
    ensures
        r == has_thread_pool(*resources),
{
    resources.contains::<Arc<rayon::ThreadPool>>()
}

/// Relies on legion's `Executor` (`new`, `into_vec`), `Schedule`
/// (`execute_in_thread_pool`, `into_vec`) and `Resources::get`: runs every
/// task of the batch to completion inside the shared `Arc<rayon::ThreadPool>`
/// taken from `resources`, flushes the tasks' command buffers, and hands the
/// same tasks back in the same order, so the batch keeps its length. The
/// tasks themselves, the world and the resources may all be mutated. The
/// thread pool must be present: `Resources::get` returns `None` exactly when
/// `contains` is false, and the lookup's failure is a configuration fault.
#[verifier::external_body]
pub fn run_batch(tasks: &mut Vec<ParallelTask>, world: &mut World, resources: &mut Resources)
    requires
        has_thread_pool(*old(resources)),
    ensures
        final(tasks)@.len() == old(tasks)@.len(),
{
    let batch: Vec<Box<dyn ParallelRunnable>> =
        std::mem::take(tasks).into_iter().map(|t| t.inner).collect();
    let pool = Arc::clone(&*resources.get::<Arc<rayon::ThreadPool>>().unwrap());
    let mut schedule =
        Schedule::from(vec![Step::Systems(Executor::new(batch)), Step::FlushCmdBuffers]);
    schedule.execute_in_thread_pool(world, resources, &pool);
    for step in schedule.into_vec() {
        if let Step::Systems(executor) = step {
            *tasks = executor.into_vec().into_iter().map(|inner| ParallelTask { inner }).collect();
        }
    }
}

} // verus!
