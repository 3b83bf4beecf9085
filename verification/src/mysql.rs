//! MySQL as a database that tests can run on.

use crate::cleanup::{self, CleanupRun, CleanupStage, CleanupView, TestDbsRun, TestDbsView};
use crate::context::{self, ContextRun};
use crate::testing::{ConnectOptions, TestArgs, TestSupport};
use vstd::prelude::*;

verus! {

/// MySQL.
#[derive(Clone, Copy, Debug)]
pub struct MySql;

impl TestSupport for MySql {
    type Making = ContextRun;

    type Cleanup = CleanupRun;

    type CleanupAll = TestDbsRun;

    fn test_context(args: &TestArgs, host: ConnectOptions, templates: bool) -> (r: ContextRun)
        ensures
            r@ == context::opening(args, host@, templates),
    {
        context::test_context(args, host, templates)
    }

    fn cleanup_test(db_name: &str) -> (r: CleanupRun)
        ensures
            r@ == (CleanupView { db_name: db_name@, stage: CleanupStage::Acquiring }),
    {
        cleanup::cleanup_test(db_name)
    }

    fn cleanup_test_dbs() -> (r: TestDbsRun)
        ensures
            r@ == TestDbsView::Connecting,
    {
        cleanup::cleanup_test_dbs()
    }
}

} // verus!
