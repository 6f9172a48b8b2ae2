//! The per-case result record: four independent phase slots.

use vstd::prelude::*;

verus! {

/// The outcome of one phase of a case.
#[derive(Clone, Copy, Debug, PartialEq, Eq, Structural)]
pub enum TestResult {
    /// Skipped: the capability matrix excluded the phase, or an earlier
    /// phase failed.
    NotRun,
    Success,
    Failed,
    /// Reserved for drivers that report a phase they cannot run at all; the
    /// orchestrator itself never records it.
    Unsupported,
}

/// One result record per named case.
#[derive(Debug)]
pub struct Tests {
    pub name: String,
    pub create_allocate_external_resource: TestResult,
    pub export_memory: TestResult,
    pub import_external_resource: TestResult,
    pub data_check: TestResult,
}

impl Tests {
    /// Every slot of the record is NotRun.
    pub open spec fn all_not_run(self) -> bool {
        &&& self.create_allocate_external_resource is NotRun
        &&& self.export_memory is NotRun
        &&& self.import_external_resource is NotRun
        &&& self.data_check is NotRun
    }

    /// A fresh record: all four slots NotRun.
    pub fn new(name: String) -> (t: Tests)
        ensures
            t == (Tests {
                name,
                create_allocate_external_resource: TestResult::NotRun,
                export_memory: TestResult::NotRun,
                import_external_resource: TestResult::NotRun,
                data_check: TestResult::NotRun,
            }),
    {
        Tests {
            name,
            create_allocate_external_resource: TestResult::NotRun,
            export_memory: TestResult::NotRun,
            import_external_resource: TestResult::NotRun,
            data_check: TestResult::NotRun,
        }
    }
}

} // verus!
