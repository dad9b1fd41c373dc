//! A staged, composable task scheduler for a `legion` entity-component world.
//!
//! Units of per-frame work ("systems") are organized into ordered execution
//! stages; systems within a stage are handed as a batch to legion's parallel
//! executor, while a separate class of strictly-sequential work ("thread-local
//! tasks") runs one task at a time in registration order. Systems, thread-local
//! tasks and groups of either ("bundles") are described declaratively and only
//! realized into executable tasks by [`builder::DispatcherBuilder::build`],
//! which resolves bundles recursively, pass by pass.

pub mod builder;
pub mod descriptor;
pub mod dispatcher;
pub mod laws;
pub mod stage;
pub mod task;

pub use builder::DispatcherBuilder;
pub use descriptor::ConsumeDesc;
pub use dispatcher::Dispatcher;
pub use stage::Stage;
pub use task::BuildError;
