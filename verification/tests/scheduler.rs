use std::sync::{Arc, Mutex};

use legion::systems::{ParallelRunnable, Resources, SystemBuilder};
use legion::world::World;
use rayon::ThreadPoolBuilder;
use staged_dispatcher::builder::DispatcherBuilder;
use staged_dispatcher::task::{
    pool_is_present, LocalTask, ParallelTask, SystemBundle, SystemDesc, ThreadLocal,
    ThreadLocalDesc,
};
use staged_dispatcher::{BuildError, Stage};

/// Resource whose write access serializes the recording systems, so that the
/// executor preserves their submission order.
#[derive(Default)]
struct Gate;

type Log = Arc<Mutex<Vec<u32>>>;

fn new_env() -> (World, Resources, Log) {
    let world = World::default();
    let mut resources = Resources::default();
    resources.insert(Gate);
    resources.insert(Arc::new(ThreadPoolBuilder::new().num_threads(2).build().unwrap()));
    (world, resources, Arc::new(Mutex::new(Vec::new())))
}

fn recording_system(id: u32, log: &Log) -> impl ParallelRunnable {
    let log = log.clone();
    SystemBuilder::new("recording")
        .write_resource::<Gate>()
        .build(move |_, _, _, _| log.lock().unwrap().push(id))
}

struct RecordingLocal {
    id: u32,
    log: Log,
}

impl ThreadLocal for RecordingLocal {
    fn run(&mut self, _world: &mut World, _resources: &mut Resources) {
        self.log.lock().unwrap().push(self.id);
    }
}

struct RecordingSystemDesc {
    id: u32,
    log: Log,
}

impl SystemDesc for RecordingSystemDesc {
    fn build_system(
        &mut self,
        _world: &mut World,
        _resources: &mut Resources,
    ) -> Result<ParallelTask, BuildError> {
        Ok(ParallelTask::new(recording_system(self.id, &self.log)))
    }
}

struct FailingSystemDesc;

impl SystemDesc for FailingSystemDesc {
    fn build_system(
        &mut self,
        _world: &mut World,
        _resources: &mut Resources,
    ) -> Result<ParallelTask, BuildError> {
        Err(BuildError::Construction(String::from("pump resource missing")))
    }
}

struct RecordingLocalDesc {
    id: u32,
    log: Log,
}

impl ThreadLocalDesc for RecordingLocalDesc {
    fn build_local(
        &mut self,
        _world: &mut World,
        _resources: &mut Resources,
    ) -> Result<LocalTask, BuildError> {
        Ok(LocalTask::new(RecordingLocal { id: self.id, log: self.log.clone() }))
    }
}

struct FailingLocalDesc;

impl ThreadLocalDesc for FailingLocalDesc {
    fn build_local(
        &mut self,
        _world: &mut World,
        _resources: &mut Resources,
    ) -> Result<LocalTask, BuildError> {
        Err(BuildError::Construction(String::from("audio device missing")))
    }
}

/// Registers `ids` as systems on `stage`, then one nested bundle with
/// `nested_ids`.
struct NestingBundle {
    stage: Stage,
    ids: Vec<u32>,
    nested_ids: Vec<u32>,
    log: Log,
}

impl SystemBundle for NestingBundle {
    fn build(
        &mut self,
        _world: &mut World,
        _resources: &mut Resources,
        builder: &mut DispatcherBuilder,
    ) -> Result<(), BuildError> {
        for id in &self.ids {
            builder.add_system(self.stage, recording_system(*id, &self.log));
        }
        if !self.nested_ids.is_empty() {
            builder.add_bundle(NestingBundle {
                stage: self.stage,
                ids: self.nested_ids.clone(),
                nested_ids: Vec::new(),
                log: self.log.clone(),
            });
        }
        Ok(())
    }
}

/// A pathological bundle that re-registers itself on every pass.
struct EndlessBundle;

impl SystemBundle for EndlessBundle {
    fn build(
        &mut self,
        _world: &mut World,
        _resources: &mut Resources,
        builder: &mut DispatcherBuilder,
    ) -> Result<(), BuildError> {
        builder.add_bundle(EndlessBundle);
        Ok(())
    }
}

#[test]
fn empty_builder_yields_empty_dispatcher() {
    let (mut world, mut resources, _log) = new_env();
    let builder = DispatcherBuilder::default();
    assert!(builder.is_empty());
    let dispatcher = builder.build(&mut world, &mut resources).unwrap();
    assert_eq!(dispatcher.parallel_count(Stage::Begin), 0);
    assert_eq!(dispatcher.parallel_count(Stage::Logic), 0);
    assert_eq!(dispatcher.parallel_count(Stage::Render), 0);
    assert_eq!(dispatcher.parallel_count(Stage::ThreadLocal), 0);
    assert_eq!(dispatcher.thread_local_count(), 0);
}

#[test]
fn is_empty_false_after_registration() {
    let (_world, _resources, log) = new_env();
    let mut builder = DispatcherBuilder::default();
    assert!(builder.is_empty());
    builder.add_system(Stage::Logic, recording_system(1, &log));
    assert!(!builder.is_empty());
}

#[test]
fn build_completeness_counts() {
    let (mut world, mut resources, log) = new_env();
    let mut builder = DispatcherBuilder::default();
    builder.add_system(Stage::Begin, recording_system(1, &log));
    builder.add_system(Stage::Begin, recording_system(2, &log));
    builder.add_system(Stage::Logic, recording_system(3, &log));
    builder.add_system(Stage::Render, recording_system(4, &log));
    builder.add_thread_local(RecordingLocal { id: 10, log: log.clone() });
    builder.add_thread_local(RecordingLocal { id: 11, log: log.clone() });
    let dispatcher = builder.build(&mut world, &mut resources).unwrap();
    assert_eq!(dispatcher.parallel_count(Stage::Begin), 2);
    assert_eq!(dispatcher.parallel_count(Stage::Logic), 1);
    assert_eq!(dispatcher.parallel_count(Stage::Render), 1);
    assert_eq!(dispatcher.thread_local_count(), 2);
}

#[test]
fn run_executes_only_the_given_stage() {
    let (mut world, mut resources, log) = new_env();
    let mut builder = DispatcherBuilder::default();
    builder.add_system(Stage::Begin, recording_system(1, &log));
    builder.add_system(Stage::Begin, recording_system(2, &log));
    builder.add_system(Stage::Logic, recording_system(20, &log));
    builder.add_system(Stage::Render, recording_system(30, &log));
    builder.add_thread_local(RecordingLocal { id: 40, log: log.clone() });
    let mut dispatcher = builder.build(&mut world, &mut resources).unwrap();
    dispatcher.run(Stage::Begin, &mut world, &mut resources);
    assert_eq!(*log.lock().unwrap(), vec![1, 2]);
    dispatcher.run(Stage::Logic, &mut world, &mut resources);
    assert_eq!(*log.lock().unwrap(), vec![1, 2, 20]);
    dispatcher.run(Stage::ThreadLocal, &mut world, &mut resources);
    assert_eq!(*log.lock().unwrap(), vec![1, 2, 20, 40]);
}

#[test]
fn thread_locals_run_in_registration_order() {
    let (mut world, mut resources, log) = new_env();
    let mut builder = DispatcherBuilder::default();
    builder.add_thread_local(RecordingLocal { id: 1, log: log.clone() });
    builder.add_thread_local(RecordingLocal { id: 2, log: log.clone() });
    builder.add_thread_local(RecordingLocal { id: 3, log: log.clone() });
    let mut dispatcher = builder.build(&mut world, &mut resources).unwrap();
    dispatcher.run(Stage::ThreadLocal, &mut world, &mut resources);
    assert_eq!(*log.lock().unwrap(), vec![1, 2, 3]);
    dispatcher.run(Stage::ThreadLocal, &mut world, &mut resources);
    assert_eq!(*log.lock().unwrap(), vec![1, 2, 3, 1, 2, 3]);
}

#[test]
fn merge_appends_other_after_self() {
    let (mut world, mut resources, log) = new_env();
    let mut first = DispatcherBuilder::default();
    first.add_system(Stage::Begin, recording_system(1, &log));
    first.add_thread_local(RecordingLocal { id: 10, log: log.clone() });
    let mut second = DispatcherBuilder::default();
    second.add_system(Stage::Begin, recording_system(2, &log));
    second.add_thread_local(RecordingLocal { id: 11, log: log.clone() });
    let a = first.build(&mut world, &mut resources).unwrap();
    let b = second.build(&mut world, &mut resources).unwrap();
    let mut merged = a.merge(b);
    assert_eq!(merged.parallel_count(Stage::Begin), 2);
    assert_eq!(merged.thread_local_count(), 2);
    merged.run(Stage::Begin, &mut world, &mut resources);
    merged.run(Stage::ThreadLocal, &mut world, &mut resources);
    assert_eq!(*log.lock().unwrap(), vec![1, 2, 10, 11]);
}

#[test]
fn merge_with_empty_is_identity_on_order() {
    let (mut world, mut resources, log) = new_env();
    let mut builder = DispatcherBuilder::default();
    builder.add_system(Stage::Logic, recording_system(5, &log));
    builder.add_system(Stage::Logic, recording_system(6, &log));
    let a = builder.build(&mut world, &mut resources).unwrap();
    let empty = DispatcherBuilder::default().build(&mut world, &mut resources).unwrap();
    let mut merged = a.merge(empty);
    assert_eq!(merged.parallel_count(Stage::Logic), 2);
    merged.run(Stage::Logic, &mut world, &mut resources);
    assert_eq!(*log.lock().unwrap(), vec![5, 6]);
}

#[test]
fn merge_is_associative_on_order() {
    let (mut world, mut resources, log) = new_env();
    let mut order_left: Vec<u32> = Vec::new();
    let mut order_right: Vec<u32> = Vec::new();
    for left in [true, false] {
        log.lock().unwrap().clear();
        let mut builders = Vec::new();
        for id in [1u32, 2, 3] {
            let mut builder = DispatcherBuilder::default();
            builder.add_system(Stage::Render, recording_system(id, &log));
            builders.push(builder.build(&mut world, &mut resources).unwrap());
        }
        let c = builders.pop().unwrap();
        let b = builders.pop().unwrap();
        let a = builders.pop().unwrap();
        let mut merged = if left { a.merge(b).merge(c) } else { a.merge(b.merge(c)) };
        merged.run(Stage::Render, &mut world, &mut resources);
        if left {
            order_left = log.lock().unwrap().clone();
        } else {
            order_right = log.lock().unwrap().clone();
        }
    }
    assert_eq!(order_left, vec![1, 2, 3]);
    assert_eq!(order_right, vec![1, 2, 3]);
}

#[test]
fn bundle_expansion_appends_nested_after_first_level() {
    let (mut world, mut resources, log) = new_env();
    let mut builder = DispatcherBuilder::default();
    builder.add_bundle(NestingBundle {
        stage: Stage::Begin,
        ids: vec![1, 2],
        nested_ids: vec![3],
        log: log.clone(),
    });
    let mut dispatcher = builder.build(&mut world, &mut resources).unwrap();
    assert_eq!(dispatcher.parallel_count(Stage::Begin), 3);
    dispatcher.run(Stage::Begin, &mut world, &mut resources);
    assert_eq!(*log.lock().unwrap(), vec![1, 2, 3]);
}

#[test]
fn bundle_systems_follow_directly_registered_systems() {
    let (mut world, mut resources, log) = new_env();
    let mut builder = DispatcherBuilder::default();
    builder.add_bundle(NestingBundle {
        stage: Stage::Logic,
        ids: vec![7],
        nested_ids: Vec::new(),
        log: log.clone(),
    });
    builder.add_system(Stage::Logic, recording_system(1, &log));
    let mut dispatcher = builder.build(&mut world, &mut resources).unwrap();
    assert_eq!(dispatcher.parallel_count(Stage::Logic), 2);
    dispatcher.run(Stage::Logic, &mut world, &mut resources);
    assert_eq!(*log.lock().unwrap(), vec![1, 7]);
}

#[test]
fn deferred_system_factory_builds_at_build_time() {
    let (mut world, mut resources, log) = new_env();
    let mut builder = DispatcherBuilder::default();
    builder.add_system_desc(Stage::Begin, RecordingSystemDesc { id: 8, log: log.clone() });
    builder.add_thread_local_desc(RecordingLocalDesc { id: 9, log: log.clone() });
    let mut dispatcher = builder.build(&mut world, &mut resources).unwrap();
    assert_eq!(dispatcher.parallel_count(Stage::Begin), 1);
    assert_eq!(dispatcher.thread_local_count(), 1);
    dispatcher.run(Stage::Begin, &mut world, &mut resources);
    dispatcher.run(Stage::ThreadLocal, &mut world, &mut resources);
    assert_eq!(*log.lock().unwrap(), vec![8, 9]);
}

#[test]
fn failing_system_factory_aborts_build() {
    let (mut world, mut resources, log) = new_env();
    let mut builder = DispatcherBuilder::default();
    builder.add_system(Stage::Begin, recording_system(1, &log));
    builder.add_system_desc(Stage::Logic, FailingSystemDesc);
    builder.add_thread_local(RecordingLocal { id: 2, log: log.clone() });
    let result = builder.build(&mut world, &mut resources);
    match result {
        Err(BuildError::Construction(message)) => {
            assert_eq!(message, "pump resource missing");
        },
        _ => panic!("expected the factory's construction error"),
    }
}

#[test]
fn failing_thread_local_factory_aborts_build() {
    let (mut world, mut resources, _log) = new_env();
    let mut builder = DispatcherBuilder::default();
    builder.add_thread_local_desc(FailingLocalDesc);
    let result = builder.build(&mut world, &mut resources);
    match result {
        Err(error) => {
            assert!(error.is_construction());
        },
        Ok(_) => panic!("expected the factory's construction error"),
    }
}

#[test]
fn endless_bundle_expansion_is_reported() {
    let (mut world, mut resources, _log) = new_env();
    let mut builder = DispatcherBuilder::default();
    builder.add_bundle(EndlessBundle);
    let result = builder.build(&mut world, &mut resources);
    match result {
        Err(error) => {
            assert!(!error.is_construction());
            assert!(matches!(error, BuildError::ExpansionLimit));
        },
        Ok(_) => panic!("expected the expansion limit to be reported"),
    }
}

#[test]
fn fluent_registration_matches_add_calls() {
    let (mut world, mut resources, log) = new_env();
    let dispatcher = DispatcherBuilder::default()
        .with_system(Stage::Begin, recording_system(1, &log))
        .with_system_desc(Stage::Logic, RecordingSystemDesc { id: 2, log: log.clone() })
        .with_thread_local(RecordingLocal { id: 3, log: log.clone() })
        .with_thread_local_desc(RecordingLocalDesc { id: 4, log: log.clone() })
        .with_bundle(NestingBundle {
            stage: Stage::Render,
            ids: vec![5],
            nested_ids: Vec::new(),
            log: log.clone(),
        })
        .build(&mut world, &mut resources)
        .unwrap();
    assert_eq!(dispatcher.parallel_count(Stage::Begin), 1);
    assert_eq!(dispatcher.parallel_count(Stage::Logic), 1);
    assert_eq!(dispatcher.parallel_count(Stage::Render), 1);
    assert_eq!(dispatcher.thread_local_count(), 2);
}

#[test]
fn run_preserves_bucket_sizes() {
    let (mut world, mut resources, log) = new_env();
    let mut builder = DispatcherBuilder::default();
    builder.add_system(Stage::Begin, recording_system(1, &log));
    builder.add_thread_local(RecordingLocal { id: 2, log: log.clone() });
    let mut dispatcher = builder.build(&mut world, &mut resources).unwrap();
    dispatcher.run(Stage::Begin, &mut world, &mut resources);
    dispatcher.run(Stage::Begin, &mut world, &mut resources);
    dispatcher.run(Stage::ThreadLocal, &mut world, &mut resources);
    assert_eq!(dispatcher.parallel_count(Stage::Begin), 1);
    assert_eq!(dispatcher.thread_local_count(), 1);
    assert_eq!(*log.lock().unwrap(), vec![1, 1, 2]);
}

#[test]
fn thread_pool_presence_is_detected() {
    let (_world, resources, _log) = new_env();
    assert!(pool_is_present(&resources));
    let bare = Resources::default();
    assert!(!pool_is_present(&bare));
}
