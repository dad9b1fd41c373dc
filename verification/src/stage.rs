use vstd::prelude::*;

verus! {

/// The fixed, closed set of phases that make up one frame.
///
/// The first three phases each own an ordered bucket of parallel tasks inside a
/// [`crate::dispatcher::Dispatcher`]; `ThreadLocal` is the final,
/// strictly-sequential phase and is never stored in a parallel bucket.
#[derive(Clone, Copy, Debug, PartialEq, Eq, Hash, Structural)]
pub enum Stage {
    Begin,
    Logic,
    Render,
    ThreadLocal,
}

} // verus!
