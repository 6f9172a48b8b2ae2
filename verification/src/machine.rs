//! The per-case protocol machine.
//!
//! One `CaseRun` drives one case of the decision matrix. The machine makes
//! every decision of the protocol — which branch the capability matrix
//! selects, which memory type to bind, when each phase slot is recorded, and
//! what teardown owes — while the actual device calls are performed outside
//! by an unverified driver loop. The loop receives an [`Action`], performs
//! it against the device, and feeds the outcome back as an [`Event`]; a case
//! begins with the capability query, whose answer is the first event.
//!
//! The machine's invariant tracks exactly which device objects are alive, so
//! that teardown frees everything that was acquired, nothing twice, and a
//! finished case provably leaves no allocation behind.

use vstd::prelude::*;

use crate::data::DataTest;
use crate::data::PAYLOAD_LEN;
use crate::data::decode_payload;
use crate::data::decoded_payload;
use crate::data::pad_size;
use crate::data::pad_size_spec;
use crate::params::CapabilitySet;
use crate::params::CaseBranch;
use crate::params::HandleFamily;
use crate::params::HandleKind;
use crate::params::Parameters;
use crate::params::branch_spec;
use crate::params::decide_branch;
use crate::results::TestResult;
use crate::results::Tests;
use crate::select::select_memory_type;
use crate::select::selected_memory_type;

verus! {

/// Per-device constants the driver loop gathers once before the cases run.
#[derive(Clone, Copy, Debug, PartialEq, Eq, Structural)]
pub struct DeviceLimits {
    /// Bitmask of the device's host-visible (CPU-mappable) memory types.
    pub host_visible_types: u32,
    /// Bitmask of the memory types that support the case's handle kind.
    pub handle_compatible_types: u32,
    /// Minimum alignment for host-pointer import; buffer lengths are padded
    /// up to it.
    pub min_host_pointer_alignment: u64,
}

/// A condition that aborts the whole run, not just one case: it points at
/// the harness's own assumptions, not at the driver under test.
#[derive(Clone, Copy, Debug, PartialEq, Eq, Structural)]
pub enum FatalError {
    /// No memory type is admissible for the resource, host visibility and
    /// handle kind at once.
    ResourceExhaustion,
    /// A host-visible allocation failed to map for the payload transfer.
    MapFailure,
}

/// Where the protocol stands between two events.
#[derive(Clone, Copy, Debug, PartialEq, Eq, Structural)]
pub enum Phase {
    /// Waiting for the capability answer.
    QueryCaps,
    /// Waiting for the outcome of creating the exporter's resource.
    Create,
    /// Waiting for the outcome of allocating and binding export-capable
    /// memory.
    Allocate,
    /// Waiting for the payload write to finish.
    Write,
    /// Waiting for the export (or, for host pointers, the map) to finish.
    Export,
    /// Waiting for the import into a second resource to finish.
    Import,
    /// Waiting for the bytes read back through the imported view.
    Read,
    /// Waiting for the re-export from the imported memory to finish.
    ReExport,
    /// Waiting for teardown to finish.
    Teardown,
    /// The case is over; no further device call is requested.
    Done,
}

/// What the driver loop reports back after performing an action.
#[derive(Debug, PartialEq)]
pub enum Event {
    /// The capability matrix for the (shape, handle kind) pair, or `None`
    /// when the query itself errored: the combination is entirely
    /// unsupported and the case aborts with every slot NotRun.
    CapabilityAnswer(Option<CapabilitySet>),
    /// The resource was created; the device reported its admissible memory
    /// type mask and its allocation size.
    CreateDone { type_mask: u32, size: u64 },
    CreateFailed,
    AllocateDone,
    AllocateFailed,
    WriteDone,
    /// Mapping for the payload write failed: fatal, the selector chose a
    /// non-host-visible type.
    WriteMapFailed,
    ExportDone,
    ExportFailed,
    ImportDone,
    ImportFailed,
    /// The bytes read back through the imported view.
    ReadDone(Vec<u8>),
    /// Mapping for the read-back failed: fatal.
    ReadMapFailed,
    ReExportDone,
    ReExportFailed,
    /// Teardown finished: everything acquired was released.
    TeardownDone,
}

/// What the driver loop must do next.
#[derive(Clone, Copy, Debug, PartialEq, Eq, Structural)]
pub enum Action {
    /// Create the buffer or image per the case's parameters; buffer lengths
    /// use the padded length.
    CreateResource { padded_len: u64 },
    /// Allocate `size` bytes of memory of the given type, flagged
    /// exportable as the case's handle kind, and bind it at offset 0.
    AllocateBind { memory_type_index: u32, size: u64 },
    /// Map the bound memory, copy in the padded payload encoding, flush if
    /// the type is not coherent, and unmap.
    WritePayload { len: u64 },
    /// Map the bound memory for full-range CPU addressing; the mapped
    /// address becomes the handle.
    MapForExport,
    /// Ask the device to duplicate the binding as a transferable handle.
    ExportHandle,
    /// Create a second resource of the same shape and import the handle
    /// into newly bound memory; the handle is consumed.
    ImportHandle,
    /// Map the imported memory, copy out `len` bytes, and unmap.
    ReadBack { len: u64 },
    /// Map the imported memory; re-export for host pointers.
    MapImported,
    /// Ask the device to re-export the imported memory as a handle.
    ReExportHandle,
    /// Wait for the device to go idle, then release exactly what the plan
    /// names, in its field order.
    Teardown(TeardownPlan),
    /// Nothing: the case is over.
    Finish,
}

/// What teardown must release: exactly what is still acquired, in reverse
/// acquisition order — unmap still-mapped memory first, then the importer's
/// pair, then the exporter's pair.
#[derive(Clone, Copy, Debug, PartialEq, Eq, Structural)]
pub struct TeardownPlan {
    pub unmap_importer: bool,
    pub unmap_exporter: bool,
    pub destroy_importer_resource: bool,
    pub free_importer_memory: bool,
    pub destroy_exporter_resource: bool,
    pub free_exporter_memory: bool,
}

/// The state of one case.
pub struct CaseRun {
    /// The resource shape under test; immutable for the case.
    pub parameters: Parameters,
    /// The platform handle kind under test.
    pub handle_kind: HandleKind,
    /// The payload written before export and expected back after import.
    pub payload: DataTest,
    /// The device constants gathered before the run.
    pub limits: DeviceLimits,
    /// The payload length padded to the device's alignment.
    pub padded_len: u64,
    pub phase: Phase,
    /// The branch the decision table chose; `Skip` until the capability
    /// answer arrives.
    pub branch: CaseBranch,
    /// The capability matrix the device reported.
    pub caps: CapabilitySet,
    /// The four phase slots of the case's record.
    pub results: Tests,
    /// Set when the run as a whole must abort.
    pub fatal: Option<FatalError>,
    /// The exporter's resource exists and is not yet destroyed.
    pub exporter_resource_live: bool,
    /// The exporter's memory is allocated and not yet freed.
    pub exporter_memory_live: bool,
    /// The importer's resource exists and is not yet destroyed.
    pub importer_resource_live: bool,
    /// The importer's memory is allocated and not yet freed. It may share
    /// physical bytes with the exporter's, but it is an independently owned
    /// handle and is freed on its own.
    pub importer_memory_live: bool,
    /// The exporter's memory is currently mapped (host-pointer export).
    pub exporter_mapped: bool,
    /// The importer's memory is currently mapped (host-pointer re-export).
    pub importer_mapped: bool,
}

/// How many device objects the case still holds: the device's live
/// allocation count relative to the pre-case baseline.
pub open spec fn live_allocations(s: CaseRun) -> int {
    (if s.exporter_resource_live { 1int } else { 0int })
        + (if s.exporter_memory_live { 1int } else { 0int })
        + (if s.importer_resource_live { 1int } else { 0int })
        + (if s.importer_memory_live { 1int } else { 0int })
}

/// The teardown owed by a state: release exactly what is acquired.
pub open spec fn teardown_plan_spec(s: CaseRun) -> TeardownPlan {
    TeardownPlan {
        unmap_importer: s.importer_mapped,
        unmap_exporter: s.exporter_mapped,
        destroy_importer_resource: s.importer_resource_live,
        free_importer_memory: s.importer_memory_live,
        destroy_exporter_resource: s.exporter_resource_live,
        free_exporter_memory: s.exporter_memory_live,
    }
}

impl CaseRun {
    /// Nothing is allocated.
    pub open spec fn no_allocations(self) -> bool {
        &&& !self.exporter_resource_live
        &&& !self.exporter_memory_live
        &&& !self.importer_resource_live
        &&& !self.importer_memory_live
    }

    /// Nothing is mapped.
    pub open spec fn no_mappings(self) -> bool {
        &&& !self.exporter_mapped
        &&& !self.importer_mapped
    }

    /// The importer holds nothing and its slots are untouched.
    pub open spec fn import_untouched(self) -> bool {
        &&& !self.importer_resource_live
        &&& !self.importer_memory_live
        &&& !self.importer_mapped
        &&& self.results.import_external_resource is NotRun
        &&& self.results.data_check is NotRun
    }

    /// The state is well formed for its phase.
    pub open spec fn inv(self) -> bool {
        &&& self.padded_len >= PAYLOAD_LEN
        &&& (self.exporter_mapped ==> self.handle_kind.family_spec() is HostPointer)
        &&& (self.importer_mapped ==> self.handle_kind.family_spec() is HostPointer)
        &&& (self.fatal is Some ==> self.phase is Teardown || self.phase is Done)
        &&& (self.branch is ExportOnly ==> self.import_untouched())
        &&& (self.branch is ImportOnly ==> self.results.export_memory is NotRun
            && self.handle_kind.family_spec() is HostPointer)
        &&& (self.branch is Skip ==> self.results.all_not_run() && self.no_allocations()
            && self.no_mappings())
        &&& match self.phase {
            Phase::QueryCaps => self.branch is Skip && self.fatal is None,
            Phase::Create => {
                &&& self.branch !is Skip
                &&& self.no_allocations()
                &&& self.no_mappings()
                &&& self.results.all_not_run()
                &&& self.fatal is None
            },
            Phase::Allocate => {
                &&& self.branch !is Skip
                &&& self.exporter_resource_live
                &&& !self.exporter_memory_live
                &&& !self.importer_resource_live
                &&& !self.importer_memory_live
                &&& self.no_mappings()
                &&& self.results.all_not_run()
                &&& self.fatal is None
            },
            Phase::Write | Phase::Export => {
                &&& self.branch !is Skip
                &&& self.exporter_resource_live
                &&& self.exporter_memory_live
                &&& self.import_untouched()
                &&& self.no_mappings()
                &&& self.results.create_allocate_external_resource is Success
                &&& self.results.export_memory is NotRun
                &&& self.fatal is None
            },
            Phase::Import => {
                &&& (self.branch is FullRoundTrip || self.branch is ImportOnly)
                &&& self.exporter_resource_live
                &&& self.exporter_memory_live
                &&& self.import_untouched()
                &&& self.exporter_mapped == (self.handle_kind.family_spec() is HostPointer)
                &&& self.results.create_allocate_external_resource is Success
                &&& self.results.export_memory == (if self.branch is ImportOnly {
                    TestResult::NotRun
                } else {
                    TestResult::Success
                })
                &&& self.fatal is None
            },
            Phase::Read => {
                &&& (self.branch is FullRoundTrip || self.branch is ImportOnly)
                &&& self.exporter_resource_live
                &&& self.exporter_memory_live
                &&& self.importer_resource_live
                &&& self.importer_memory_live
                &&& self.exporter_mapped == (self.handle_kind.family_spec() is HostPointer)
                &&& !self.importer_mapped
                &&& self.results.create_allocate_external_resource is Success
                &&& self.results.export_memory == (if self.branch is ImportOnly {
                    TestResult::NotRun
                } else {
                    TestResult::Success
                })
                &&& self.results.import_external_resource is Success
                &&& self.results.data_check is NotRun
                &&& self.fatal is None
            },
            Phase::ReExport => {
                &&& self.branch is FullRoundTrip
                &&& self.exporter_resource_live
                &&& self.exporter_memory_live
                &&& self.importer_resource_live
                &&& self.importer_memory_live
                &&& self.exporter_mapped == (self.handle_kind.family_spec() is HostPointer)
                &&& !self.importer_mapped
                &&& self.results.create_allocate_external_resource is Success
                &&& self.results.export_memory is Success
                &&& self.results.import_external_resource is Success
                &&& (self.results.data_check is Success || self.results.data_check is Failed)
                &&& self.fatal is None
            },
            Phase::Teardown => true,
            Phase::Done => self.no_allocations() && self.no_mappings(),
        }
    }

    /// Which events answer the pending action of a phase.
    pub open spec fn accepts(self, e: Event) -> bool {
        match self.phase {
            Phase::QueryCaps => e is CapabilityAnswer,
            Phase::Create => e is CreateDone || e is CreateFailed,
            Phase::Allocate => e is AllocateDone || e is AllocateFailed,
            Phase::Write => e is WriteDone || e is WriteMapFailed,
            Phase::Export => e is ExportDone || e is ExportFailed,
            Phase::Import => e is ImportDone || e is ImportFailed,
            Phase::Read => e is ReadDone || e is ReadMapFailed,
            Phase::ReExport => e is ReExportDone || e is ReExportFailed,
            Phase::Teardown => e is TeardownDone,
            Phase::Done => false,
        }
    }
}

/// Hands the state over to teardown, owing exactly what is acquired.
pub open spec fn to_teardown(s: CaseRun) -> (CaseRun, Action) {
    let s2 = CaseRun { phase: Phase::Teardown, ..s };
    (s2, Action::Teardown(teardown_plan_spec(s2)))
}

/// The machine's transition: the state after an event, and the next action
/// the driver loop must perform.
pub open spec fn step_spec(s: CaseRun, e: Event) -> (CaseRun, Action) {
    match (s.phase, e) {
        (Phase::QueryCaps, Event::CapabilityAnswer(ans)) => match ans {
            // A hard query error: the combination is entirely unsupported;
            // the case aborts with every slot NotRun and no further call.
            None => (CaseRun { phase: Phase::Done, ..s }, Action::Finish),
            Some(c) => {
                let b = branch_spec(c, s.handle_kind.family_spec());
                if b is Skip {
                    // No capability: every slot stays NotRun and no
                    // create/export/import call is made.
                    (CaseRun { caps: c, branch: b, phase: Phase::Done, ..s }, Action::Finish)
                } else {
                    (
                        CaseRun { caps: c, branch: b, phase: Phase::Create, ..s },
                        Action::CreateResource { padded_len: s.padded_len },
                    )
                }
            },
        },
        (Phase::Create, Event::CreateFailed) => to_teardown(
            CaseRun {
                results: Tests {
                    create_allocate_external_resource: TestResult::Failed,
                    ..s.results
                },
                ..s
            },
        ),
        (Phase::Create, Event::CreateDone { type_mask, size }) => {
            let s1 = CaseRun { exporter_resource_live: true, ..s };
            match selected_memory_type(
                type_mask,
                s.limits.host_visible_types,
                s.limits.handle_compatible_types,
            ) {
                // No admissible memory type: the harness's own visibility
                // assumption is violated; abort the run, not the case.
                None => to_teardown(
                    CaseRun { fatal: Some(FatalError::ResourceExhaustion), ..s1 },
                ),
                Some(idx) => (
                    CaseRun { phase: Phase::Allocate, ..s1 },
                    Action::AllocateBind { memory_type_index: idx, size },
                ),
            }
        },
        (Phase::Allocate, Event::AllocateFailed) => to_teardown(
            CaseRun {
                results: Tests {
                    create_allocate_external_resource: TestResult::Failed,
                    ..s.results
                },
                ..s
            },
        ),
        (Phase::Allocate, Event::AllocateDone) => (
            CaseRun {
                exporter_memory_live: true,
                phase: Phase::Write,
                results: Tests {
                    create_allocate_external_resource: TestResult::Success,
                    ..s.results
                },
                ..s
            },
            Action::WritePayload { len: s.padded_len },
        ),
        (Phase::Write, Event::WriteMapFailed) => to_teardown(
            CaseRun { fatal: Some(FatalError::MapFailure), ..s },
        ),
        (Phase::Write, Event::WriteDone) => (
            CaseRun { phase: Phase::Export, ..s },
            if s.handle_kind.family_spec() is HostPointer {
                Action::MapForExport
            } else {
                Action::ExportHandle
            },
        ),
        (Phase::Export, Event::ExportFailed) => {
            if s.branch is ImportOnly {
                // The emulation map failed: host-visible memory must map,
                // so this is the harness's problem, not a test outcome.
                to_teardown(CaseRun { fatal: Some(FatalError::MapFailure), ..s })
            } else {
                to_teardown(
                    CaseRun {
                        results: Tests { export_memory: TestResult::Failed, ..s.results },
                        ..s
                    },
                )
            }
        },
        (Phase::Export, Event::ExportDone) => {
            let s1 = CaseRun {
                exporter_mapped: s.handle_kind.family_spec() is HostPointer,
                ..s
            };
            let s2 = if s.branch is ImportOnly {
                // The map only fabricates a pointer to import; exporting was
                // not under test, so its slot stays NotRun.
                s1
            } else {
                CaseRun {
                    results: Tests { export_memory: TestResult::Success, ..s1.results },
                    ..s1
                }
            };
            if s.branch is ExportOnly {
                to_teardown(s2)
            } else {
                (CaseRun { phase: Phase::Import, ..s2 }, Action::ImportHandle)
            }
        },
        (Phase::Import, Event::ImportFailed) => to_teardown(
            // A consumed descriptor or OS handle must not be retried: the
            // case goes straight to teardown.
            CaseRun {
                results: Tests { import_external_resource: TestResult::Failed, ..s.results },
                ..s
            },
        ),
        (Phase::Import, Event::ImportDone) => (
            CaseRun {
                importer_resource_live: true,
                importer_memory_live: true,
                phase: Phase::Read,
                results: Tests { import_external_resource: TestResult::Success, ..s.results },
                ..s
            },
            Action::ReadBack { len: s.padded_len },
        ),
        (Phase::Read, Event::ReadMapFailed) => to_teardown(
            CaseRun { fatal: Some(FatalError::MapFailure), ..s },
        ),
        (Phase::Read, Event::ReadDone(bytes)) => {
            let verdict = if decoded_payload(bytes@) == Some(s.payload) {
                TestResult::Success
            } else {
                TestResult::Failed
            };
            let s1 = CaseRun {
                results: Tests { data_check: verdict, ..s.results },
                ..s
            };
            if s.branch is FullRoundTrip {
                (
                    CaseRun { phase: Phase::ReExport, ..s1 },
                    if s.handle_kind.family_spec() is HostPointer {
                        Action::MapImported
                    } else {
                        Action::ReExportHandle
                    },
                )
            } else {
                to_teardown(s1)
            }
        },
        (Phase::ReExport, Event::ReExportFailed) => to_teardown(
            CaseRun {
                results: Tests { export_memory: TestResult::Failed, ..s.results },
                ..s
            },
        ),
        (Phase::ReExport, Event::ReExportDone) => to_teardown(
            CaseRun {
                importer_mapped: s.handle_kind.family_spec() is HostPointer,
                ..s
            },
        ),
        (Phase::Teardown, Event::TeardownDone) => (
            CaseRun {
                phase: Phase::Done,
                exporter_resource_live: false,
                exporter_memory_live: false,
                importer_resource_live: false,
                importer_memory_live: false,
                exporter_mapped: false,
                importer_mapped: false,
                ..s
            },
            Action::Finish,
        ),
        _ => (s, Action::Finish),
    }
}

/// Where a phase stands in the protocol's order.
pub open spec fn phase_index(p: Phase) -> int {
    match p {
        Phase::QueryCaps => 0,
        Phase::Create => 1,
        Phase::Allocate => 2,
        Phase::Write => 3,
        Phase::Export => 4,
        Phase::Import => 5,
        Phase::Read => 6,
        Phase::ReExport => 7,
        Phase::Teardown => 8,
        Phase::Done => 9,
    }
}

/// Every accepted event moves the protocol strictly forward: no phase is
/// ever revisited within a case.
pub proof fn lemma_step_spec_advances_phase(s: CaseRun, e: Event)
    requires
        s.accepts(e),
    ensures
        phase_index(step_spec(s, e).0.phase) > phase_index(s.phase),
{
}

/// Which phases can ask for an import or a teardown: an import is only ever
/// requested leaving the export phase, and a teardown request always comes
/// from before the teardown phase and enters it.
pub proof fn lemma_action_sources(s: CaseRun, e: Event)
    ensures
        step_spec(s, e).1 == Action::ImportHandle ==> s.phase is Export && step_spec(
            s,
            e,
        ).0.phase is Import,
        step_spec(s, e).1 is Teardown ==> phase_index(s.phase) < phase_index(Phase::Teardown)
            && step_spec(s, e).0.phase is Teardown,
{
}

/// An event the machine accepts never breaks its invariant.
pub proof fn lemma_step_spec_preserves_inv(s: CaseRun, e: Event)
    requires
        s.inv(),
        s.accepts(e),
    ensures
        step_spec(s, e).0.inv(),
{
}

impl CaseRun {
    /// Starts a case: the driver loop must query the capability matrix for
    /// (`parameters`, `handle_kind`) and feed the answer as the first event.
    pub fn new(
        parameters: Parameters,
        handle_kind: HandleKind,
        payload: DataTest,
        name: String,
        limits: DeviceLimits,
    ) -> (s: CaseRun)
        requires
            1 <= limits.min_host_pointer_alignment,
            PAYLOAD_LEN + limits.min_host_pointer_alignment - 1 <= u64::MAX,
        ensures
            s == init_spec(parameters, handle_kind, payload, name, limits),
            s.inv(),
    {
        let padded_len: u64 = pad_size(PAYLOAD_LEN, limits.min_host_pointer_alignment);
        CaseRun {
            parameters,
            handle_kind,
            payload,
            limits,
            padded_len,
            phase: Phase::QueryCaps,
            branch: CaseBranch::Skip,
            caps: CapabilitySet {
                exportable: false,
                importable: false,
                exportable_from_imported: false,
            },
            results: Tests::new(name),
            fatal: None,
            exporter_resource_live: false,
            exporter_memory_live: false,
            importer_resource_live: false,
            importer_memory_live: false,
            exporter_mapped: false,
            importer_mapped: false,
        }
    }

    /// Whether the case is over.
    pub fn is_done(&self) -> (r: bool)
        ensures
            r == (self.phase is Done),
    {
        match self.phase {
            Phase::Done => true,
            _ => false,
        }
    }

    /// The teardown owed right now: exactly what is acquired.
    fn current_teardown_plan(&self) -> (p: TeardownPlan)
        ensures
            p == teardown_plan_spec(*self),
    {
        TeardownPlan {
            unmap_importer: self.importer_mapped,
            unmap_exporter: self.exporter_mapped,
            destroy_importer_resource: self.importer_resource_live,
            free_importer_memory: self.importer_memory_live,
            destroy_exporter_resource: self.exporter_resource_live,
            free_exporter_memory: self.exporter_memory_live,
        }
    }

    /// Feeds the outcome of the last action back into the machine and
    /// returns the next action the driver loop must perform.
    pub fn step(&mut self, event: Event) -> (action: Action)
        requires
            old(self).inv(),
            old(self).accepts(event),
        ensures
            *final(self) == step_spec(*old(self), event).0,
            action == step_spec(*old(self), event).1,
            final(self).inv(),
    {
        proof {
            lemma_step_spec_preserves_inv(*old(self), event);
        }
        match (self.phase, event) {
            (Phase::QueryCaps, Event::CapabilityAnswer(ans)) => match ans {
                None => {
                    self.phase = Phase::Done;
                    Action::Finish
                },
                Some(c) => {
                    let family = self.handle_kind.family();
                    let b = decide_branch(&c, family);
                    self.caps = c;
                    self.branch = b;
                    match b {
                        CaseBranch::Skip => {
                            self.phase = Phase::Done;
                            Action::Finish
                        },
                        _ => {
                            self.phase = Phase::Create;
                            Action::CreateResource { padded_len: self.padded_len }
                        },
                    }
                },
            },
            (Phase::Create, Event::CreateFailed) => {
                self.results.create_allocate_external_resource = TestResult::Failed;
                self.phase = Phase::Teardown;
                Action::Teardown(self.current_teardown_plan())
            },
            (Phase::Create, Event::CreateDone { type_mask, size }) => {
                self.exporter_resource_live = true;
                match select_memory_type(
                    type_mask,
                    self.limits.host_visible_types,
                    self.limits.handle_compatible_types,
                ) {
                    None => {
                        self.fatal = Some(FatalError::ResourceExhaustion);
                        self.phase = Phase::Teardown;
                        Action::Teardown(self.current_teardown_plan())
                    },
                    Some(idx) => {
                        self.phase = Phase::Allocate;
                        Action::AllocateBind { memory_type_index: idx, size }
                    },
                }
            },
            (Phase::Allocate, Event::AllocateFailed) => {
                self.results.create_allocate_external_resource = TestResult::Failed;
                self.phase = Phase::Teardown;
                Action::Teardown(self.current_teardown_plan())
            },
            (Phase::Allocate, Event::AllocateDone) => {
                self.exporter_memory_live = true;
                self.results.create_allocate_external_resource = TestResult::Success;
                self.phase = Phase::Write;
                Action::WritePayload { len: self.padded_len }
            },
            (Phase::Write, Event::WriteMapFailed) => {
                self.fatal = Some(FatalError::MapFailure);
                self.phase = Phase::Teardown;
                Action::Teardown(self.current_teardown_plan())
            },
            (Phase::Write, Event::WriteDone) => {
                self.phase = Phase::Export;
                let family = self.handle_kind.family();
                match family {
                    HandleFamily::HostPointer => Action::MapForExport,
                    _ => Action::ExportHandle,
                }
            },
            (Phase::Export, Event::ExportFailed) => {
                match self.branch {
                    CaseBranch::ImportOnly => {
                        self.fatal = Some(FatalError::MapFailure);
                    },
                    _ => {
                        self.results.export_memory = TestResult::Failed;
                    },
                }
                self.phase = Phase::Teardown;
                Action::Teardown(self.current_teardown_plan())
            },
            (Phase::Export, Event::ExportDone) => {
                let family = self.handle_kind.family();
                self.exporter_mapped = match family {
                    HandleFamily::HostPointer => true,
                    _ => false,
                };
                match self.branch {
                    CaseBranch::ImportOnly => {},
                    _ => {
                        self.results.export_memory = TestResult::Success;
                    },
                }
                match self.branch {
                    CaseBranch::ExportOnly => {
                        self.phase = Phase::Teardown;
                        Action::Teardown(self.current_teardown_plan())
                    },
                    _ => {
                        self.phase = Phase::Import;
                        Action::ImportHandle
                    },
                }
            },
            (Phase::Import, Event::ImportFailed) => {
                self.results.import_external_resource = TestResult::Failed;
                self.phase = Phase::Teardown;
                Action::Teardown(self.current_teardown_plan())
            },
            (Phase::Import, Event::ImportDone) => {
                self.importer_resource_live = true;
                self.importer_memory_live = true;
                self.results.import_external_resource = TestResult::Success;
                self.phase = Phase::Read;
                Action::ReadBack { len: self.padded_len }
            },
            (Phase::Read, Event::ReadMapFailed) => {
                self.fatal = Some(FatalError::MapFailure);
                self.phase = Phase::Teardown;
                Action::Teardown(self.current_teardown_plan())
            },
            (Phase::Read, Event::ReadDone(bytes)) => {
                let matches_written = match decode_payload(&bytes) {
                    Some(read_back) => read_back == self.payload,
                    None => false,
                };
                self.results.data_check = if matches_written {
                    TestResult::Success
                } else {
                    TestResult::Failed
                };
                match self.branch {
                    CaseBranch::FullRoundTrip => {
                        self.phase = Phase::ReExport;
                        let family = self.handle_kind.family();
                        match family {
                            HandleFamily::HostPointer => Action::MapImported,
                            _ => Action::ReExportHandle,
                        }
                    },
                    _ => {
                        self.phase = Phase::Teardown;
                        Action::Teardown(self.current_teardown_plan())
                    },
                }
            },
            (Phase::ReExport, Event::ReExportFailed) => {
                self.results.export_memory = TestResult::Failed;
                self.phase = Phase::Teardown;
                Action::Teardown(self.current_teardown_plan())
            },
            (Phase::ReExport, Event::ReExportDone) => {
                let family = self.handle_kind.family();
                self.importer_mapped = match family {
                    HandleFamily::HostPointer => true,
                    _ => false,
                };
                self.phase = Phase::Teardown;
                Action::Teardown(self.current_teardown_plan())
            },
            (Phase::Teardown, Event::TeardownDone) => {
                self.exporter_resource_live = false;
                self.exporter_memory_live = false;
                self.importer_resource_live = false;
                self.importer_memory_live = false;
                self.exporter_mapped = false;
                self.importer_mapped = false;
                self.phase = Phase::Done;
                Action::Finish
            },
            _ => {
                proof {
                    assert(false);
                }
                Action::Finish
            },
        }
    }
}

/// The state a fresh case starts in.
pub open spec fn init_spec(
    parameters: Parameters,
    handle_kind: HandleKind,
    payload: DataTest,
    name: String,
    limits: DeviceLimits,
) -> CaseRun {
    CaseRun {
        parameters,
        handle_kind,
        payload,
        limits,
        padded_len: pad_size_spec(PAYLOAD_LEN, limits.min_host_pointer_alignment) as u64,
        phase: Phase::QueryCaps,
        branch: CaseBranch::Skip,
        caps: CapabilitySet {
            exportable: false,
            importable: false,
            exportable_from_imported: false,
        },
        results: Tests {
            name,
            create_allocate_external_resource: TestResult::NotRun,
            export_memory: TestResult::NotRun,
            import_external_resource: TestResult::NotRun,
            data_check: TestResult::NotRun,
        },
        fatal: None,
        exporter_resource_live: false,
        exporter_memory_live: false,
        importer_resource_live: false,
        importer_memory_live: false,
        exporter_mapped: false,
        importer_mapped: false,
    }
}

} // verus!
