//! A context for running cells in tests, over a store of its own.
use vstd::prelude::*;
use crate::context::CellContext;
use crate::store::StoredView;

verus! {

/// A cell context whose store belongs to one test alone.
#[derive(Debug)]
pub struct TestContext {
    pub prefix: String,
    pub context: CellContext,
}

impl TestContext {
    /// A context named `prefix`, over an empty store.
    pub fn new(prefix: &str) -> (r: TestContext)
        ensures
            r.prefix@ == prefix@,
            r.context.wf(),
            r.context@ == Map::<Seq<char>, StoredView>::empty(),
    {
        TestContext { prefix: String::from_str(prefix), context: CellContext::new() }
    }
}

} // verus!
