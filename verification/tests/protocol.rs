use extmem_harness::data::{encode_padded_payload, DataTest};
use extmem_harness::machine::{Action, CaseRun, DeviceLimits, Event, FatalError};
use extmem_harness::params::{CapabilitySet, HandleKind, Parameters};
use extmem_harness::results::TestResult;

fn caps(e: bool, i: bool, x: bool) -> CapabilitySet {
    CapabilitySet { exportable: e, importable: i, exportable_from_imported: x }
}

fn limits() -> DeviceLimits {
    DeviceLimits {
        host_visible_types: 0b0111,
        handle_compatible_types: 0b0110,
        min_host_pointer_alignment: 256,
    }
}

fn vertex_buffer() -> Parameters {
    Parameters::Buffer { buffer_usage: 0x80, buffer_flags: 0 }
}

fn payload() -> DataTest {
    DataTest { data: 1, data2: 2, data3: 3 }
}

fn new_case(kind: HandleKind, name: &str) -> CaseRun {
    CaseRun::new(vertex_buffer(), kind, payload(), name.to_string(), limits())
}

// Drives a case to completion, answering success to every device action and
// handing back exactly the written bytes on read; returns the actions seen.
fn drive_happy(case: &mut CaseRun, first: Action) -> Vec<Action> {
    let mut actions = vec![first];
    let mut action = first;
    while action != Action::Finish {
        let event = match action {
            Action::CreateResource { .. } => Event::CreateDone { type_mask: 0b0110, size: 256 },
            Action::AllocateBind { .. } => Event::AllocateDone,
            Action::WritePayload { .. } => Event::WriteDone,
            Action::MapForExport | Action::ExportHandle => Event::ExportDone,
            Action::ImportHandle => Event::ImportDone,
            Action::ReadBack { len } => {
                Event::ReadDone(encode_padded_payload(&case.payload, len as usize))
            }
            Action::MapImported | Action::ReExportHandle => Event::ReExportDone,
            Action::Teardown(_) => Event::TeardownDone,
            Action::Finish => unreachable!(),
        };
        action = case.step(event);
        actions.push(action);
    }
    actions
}

#[test]
fn empty_capability_matrix_skips_everything() {
    // Scenario B: the device reports no capability for opaque descriptors;
    // only the capability query is observed.
    let mut case = new_case(HandleKind::OpaqueFd, "OPAQUE_FD");
    let action = case.step(Event::CapabilityAnswer(Some(caps(false, false, false))));
    assert_eq!(action, Action::Finish);
    assert!(case.is_done());
    assert_eq!(case.results.create_allocate_external_resource, TestResult::NotRun);
    assert_eq!(case.results.export_memory, TestResult::NotRun);
    assert_eq!(case.results.import_external_resource, TestResult::NotRun);
    assert_eq!(case.results.data_check, TestResult::NotRun);
}

#[test]
fn failed_capability_query_skips_everything() {
    let mut case = new_case(HandleKind::DmaBuf, "DMA_BUF");
    let action = case.step(Event::CapabilityAnswer(None));
    assert_eq!(action, Action::Finish);
    assert!(case.is_done());
    assert_eq!(case.results.create_allocate_external_resource, TestResult::NotRun);
    assert_eq!(case.results.data_check, TestResult::NotRun);
}

#[test]
fn undefined_capability_combination_skips_not_crashes() {
    // Exportable and importable without re-export is not a defined branch.
    let mut case = new_case(HandleKind::OpaqueFd, "OPAQUE_FD");
    let action = case.step(Event::CapabilityAnswer(Some(caps(true, true, false))));
    assert_eq!(action, Action::Finish);
    assert!(case.is_done());
    assert_eq!(case.results.create_allocate_external_resource, TestResult::NotRun);
}

#[test]
fn export_only_never_imports() {
    let mut case = new_case(HandleKind::OpaqueFd, "OPAQUE_FD");
    let mut action = case.step(Event::CapabilityAnswer(Some(caps(true, false, false))));
    assert!(matches!(action, Action::CreateResource { .. }));
    let actions = drive_happy(&mut case, action);
    assert!(actions.iter().all(|a| *a != Action::ImportHandle));
    assert!(actions.contains(&Action::ExportHandle));
    assert_eq!(case.results.create_allocate_external_resource, TestResult::Success);
    assert_eq!(case.results.export_memory, TestResult::Success);
    assert_eq!(case.results.import_external_resource, TestResult::NotRun);
    assert_eq!(case.results.data_check, TestResult::NotRun);
    action = actions[actions.len() - 1];
    assert_eq!(action, Action::Finish);
}

#[test]
fn host_allocation_buffer_full_round_trip() {
    // Scenario A: a vertex buffer shared as a host allocation; export goes
    // via map, import via pointer, and the payload survives the trip.
    let mut case = new_case(HandleKind::HostAllocation, "HOST_ALLOCATION");
    let action = case.step(Event::CapabilityAnswer(Some(caps(true, true, true))));
    let actions = drive_happy(&mut case, action);
    assert!(actions.contains(&Action::MapForExport));
    assert!(!actions.contains(&Action::ExportHandle));
    assert!(actions.contains(&Action::ImportHandle));
    assert!(actions.contains(&Action::MapImported));
    assert!(case.is_done());
    assert_eq!(case.results.create_allocate_external_resource, TestResult::Success);
    assert_eq!(case.results.export_memory, TestResult::Success);
    assert_eq!(case.results.import_external_resource, TestResult::Success);
    assert_eq!(case.results.data_check, TestResult::Success);
}

#[test]
fn opaque_fd_full_round_trip_uses_handle_export() {
    let mut case = new_case(HandleKind::OpaqueFd, "OPAQUE_FD");
    let action = case.step(Event::CapabilityAnswer(Some(caps(true, true, true))));
    let actions = drive_happy(&mut case, action);
    assert!(actions.contains(&Action::ExportHandle));
    assert!(actions.contains(&Action::ReExportHandle));
    assert!(!actions.contains(&Action::MapForExport));
    assert_eq!(case.results.data_check, TestResult::Success);
}

#[test]
fn round_trip_law_zero_payload() {
    let mut case = CaseRun::new(
        vertex_buffer(),
        HandleKind::HostAllocation,
        DataTest { data: 0, data2: 0, data3: 0 },
        "HOST_ALLOCATION".to_string(),
        limits(),
    );
    let action = case.step(Event::CapabilityAnswer(Some(caps(true, true, true))));
    drive_happy(&mut case, action);
    assert_eq!(case.results.data_check, TestResult::Success);
}

#[test]
fn corrupted_read_back_fails_data_check() {
    let mut case = new_case(HandleKind::OpaqueFd, "OPAQUE_FD");
    let mut action = case.step(Event::CapabilityAnswer(Some(caps(true, true, true))));
    loop {
        action = match action {
            Action::CreateResource { .. } => {
                case.step(Event::CreateDone { type_mask: 0b0110, size: 256 })
            }
            Action::AllocateBind { .. } => case.step(Event::AllocateDone),
            Action::WritePayload { .. } => case.step(Event::WriteDone),
            Action::ExportHandle => case.step(Event::ExportDone),
            Action::ImportHandle => case.step(Event::ImportDone),
            Action::ReadBack { len } => {
                let mut bytes = encode_padded_payload(&case.payload, len as usize);
                bytes[0] ^= 0xff;
                case.step(Event::ReadDone(bytes))
            }
            Action::ReExportHandle => case.step(Event::ReExportDone),
            Action::Teardown(_) => case.step(Event::TeardownDone),
            other => panic!("unexpected action {:?}", other),
        };
        if action == Action::Finish {
            break;
        }
    }
    assert_eq!(case.results.import_external_resource, TestResult::Success);
    assert_eq!(case.results.data_check, TestResult::Failed);
}

#[test]
fn truncated_read_back_fails_data_check() {
    let mut case = new_case(HandleKind::OpaqueFd, "OPAQUE_FD");
    let mut action = case.step(Event::CapabilityAnswer(Some(caps(true, true, true))));
    action = case.step(Event::CreateDone { type_mask: 0b0110, size: 256 });
    assert!(matches!(action, Action::AllocateBind { .. }));
    case.step(Event::AllocateDone);
    case.step(Event::WriteDone);
    case.step(Event::ExportDone);
    case.step(Event::ImportDone);
    case.step(Event::ReadDone(vec![1, 0, 0]));
    assert_eq!(case.results.data_check, TestResult::Failed);
}

#[test]
fn payload_padded_to_alignment_round_trips() {
    // Alignment boundary: the 12-byte payload padded to the device's
    // 256-byte alignment still writes and reads back correctly.
    let mut case = new_case(HandleKind::HostAllocation, "HOST_ALLOCATION");
    assert_eq!(case.padded_len, 256);
    let mut action = case.step(Event::CapabilityAnswer(Some(caps(true, true, true))));
    action = case.step(Event::CreateDone { type_mask: 0b0110, size: 256 });
    assert!(matches!(action, Action::AllocateBind { .. }));
    action = case.step(Event::AllocateDone);
    assert_eq!(action, Action::WritePayload { len: 256 });
    case.step(Event::WriteDone);
    case.step(Event::ExportDone);
    action = case.step(Event::ImportDone);
    assert_eq!(action, Action::ReadBack { len: 256 });
    let bytes = encode_padded_payload(&payload(), 256);
    assert_eq!(bytes.len(), 256);
    case.step(Event::ReadDone(bytes));
    assert_eq!(case.results.data_check, TestResult::Success);
}

#[test]
fn import_only_emulation_leaves_export_not_run() {
    let mut case = new_case(HandleKind::HostMappedForeignMemory, "HOST_MAPPED_FOREIGN_MEMORY");
    let mut action = case.step(Event::CapabilityAnswer(Some(caps(false, true, false))));
    assert!(matches!(action, Action::CreateResource { .. }));
    action = case.step(Event::CreateDone { type_mask: 0b0110, size: 256 });
    action = case.step(Event::AllocateDone);
    assert!(matches!(action, Action::WritePayload { .. }));
    action = case.step(Event::WriteDone);
    // The pointer is fabricated by a plain map; exporting is not under test.
    assert_eq!(action, Action::MapForExport);
    action = case.step(Event::ExportDone);
    assert_eq!(action, Action::ImportHandle);
    action = case.step(Event::ImportDone);
    let len = match action {
        Action::ReadBack { len } => len,
        other => panic!("unexpected action {:?}", other),
    };
    action = case.step(Event::ReadDone(encode_padded_payload(&payload(), len as usize)));
    // No re-export without the capability: straight to teardown.
    assert!(matches!(action, Action::Teardown(_)));
    case.step(Event::TeardownDone);
    assert!(case.is_done());
    assert_eq!(case.results.create_allocate_external_resource, TestResult::Success);
    assert_eq!(case.results.export_memory, TestResult::NotRun);
    assert_eq!(case.results.import_external_resource, TestResult::Success);
    assert_eq!(case.results.data_check, TestResult::Success);
}

#[test]
fn import_only_is_not_offered_to_descriptor_kinds() {
    let mut case = new_case(HandleKind::OpaqueFd, "OPAQUE_FD");
    let action = case.step(Event::CapabilityAnswer(Some(caps(false, true, false))));
    assert_eq!(action, Action::Finish);
    assert!(case.is_done());
    assert_eq!(case.results.import_external_resource, TestResult::NotRun);
}

#[test]
fn creation_failure_marks_slot_and_tears_down() {
    let mut case = new_case(HandleKind::OpaqueFd, "OPAQUE_FD");
    let mut action = case.step(Event::CapabilityAnswer(Some(caps(true, false, false))));
    assert!(matches!(action, Action::CreateResource { .. }));
    action = case.step(Event::CreateFailed);
    let plan = match action {
        Action::Teardown(plan) => plan,
        other => panic!("unexpected action {:?}", other),
    };
    // Nothing was acquired, so teardown releases nothing.
    assert!(!plan.destroy_exporter_resource);
    assert!(!plan.free_exporter_memory);
    assert!(!plan.unmap_exporter);
    assert!(!plan.destroy_importer_resource);
    assert!(!plan.free_importer_memory);
    assert!(!plan.unmap_importer);
    action = case.step(Event::TeardownDone);
    assert_eq!(action, Action::Finish);
    assert_eq!(case.results.create_allocate_external_resource, TestResult::Failed);
    assert_eq!(case.results.export_memory, TestResult::NotRun);
}

#[test]
fn allocation_failure_destroys_created_resource() {
    let mut case = new_case(HandleKind::OpaqueFd, "OPAQUE_FD");
    case.step(Event::CapabilityAnswer(Some(caps(true, false, false))));
    let action = case.step(Event::CreateDone { type_mask: 0b0110, size: 256 });
    assert!(matches!(action, Action::AllocateBind { .. }));
    let plan = match case.step(Event::AllocateFailed) {
        Action::Teardown(plan) => plan,
        other => panic!("unexpected action {:?}", other),
    };
    assert!(plan.destroy_exporter_resource);
    assert!(!plan.free_exporter_memory);
    assert_eq!(case.results.create_allocate_external_resource, TestResult::Failed);
}

#[test]
fn export_failure_cleans_up_resource_and_memory() {
    let mut case = new_case(HandleKind::OpaqueFd, "OPAQUE_FD");
    case.step(Event::CapabilityAnswer(Some(caps(true, false, false))));
    case.step(Event::CreateDone { type_mask: 0b0110, size: 256 });
    case.step(Event::AllocateDone);
    case.step(Event::WriteDone);
    let plan = match case.step(Event::ExportFailed) {
        Action::Teardown(plan) => plan,
        other => panic!("unexpected action {:?}", other),
    };
    assert!(plan.destroy_exporter_resource);
    assert!(plan.free_exporter_memory);
    assert_eq!(case.results.export_memory, TestResult::Failed);
    case.step(Event::TeardownDone);
    assert!(case.is_done());
}

#[test]
fn import_failure_short_circuits_data_check() {
    let mut case = new_case(HandleKind::OpaqueFd, "OPAQUE_FD");
    case.step(Event::CapabilityAnswer(Some(caps(true, true, true))));
    case.step(Event::CreateDone { type_mask: 0b0110, size: 256 });
    case.step(Event::AllocateDone);
    case.step(Event::WriteDone);
    case.step(Event::ExportDone);
    // A consumed descriptor must not be retried: the failed import goes
    // straight to teardown.
    let action = case.step(Event::ImportFailed);
    assert!(matches!(action, Action::Teardown(_)));
    case.step(Event::TeardownDone);
    assert_eq!(case.results.export_memory, TestResult::Success);
    assert_eq!(case.results.import_external_resource, TestResult::Failed);
    assert_eq!(case.results.data_check, TestResult::NotRun);
}

#[test]
fn re_export_failure_marks_export_slot() {
    let mut case = new_case(HandleKind::OpaqueFd, "OPAQUE_FD");
    case.step(Event::CapabilityAnswer(Some(caps(true, true, true))));
    case.step(Event::CreateDone { type_mask: 0b0110, size: 256 });
    case.step(Event::AllocateDone);
    case.step(Event::WriteDone);
    case.step(Event::ExportDone);
    case.step(Event::ImportDone);
    let action = case.step(Event::ReadDone(encode_padded_payload(&payload(), 256)));
    assert_eq!(action, Action::ReExportHandle);
    let action = case.step(Event::ReExportFailed);
    assert!(matches!(action, Action::Teardown(_)));
    case.step(Event::TeardownDone);
    assert_eq!(case.results.export_memory, TestResult::Failed);
    assert_eq!(case.results.data_check, TestResult::Success);
}

#[test]
fn no_admissible_memory_type_is_fatal() {
    let mut case = CaseRun::new(
        vertex_buffer(),
        HandleKind::OpaqueFd,
        payload(),
        "OPAQUE_FD".to_string(),
        DeviceLimits {
            host_visible_types: 0,
            handle_compatible_types: u32::MAX,
            min_host_pointer_alignment: 256,
        },
    );
    case.step(Event::CapabilityAnswer(Some(caps(true, false, false))));
    let action = case.step(Event::CreateDone { type_mask: u32::MAX, size: 256 });
    let plan = match action {
        Action::Teardown(plan) => plan,
        other => panic!("unexpected action {:?}", other),
    };
    assert!(plan.destroy_exporter_resource);
    assert_eq!(case.fatal, Some(FatalError::ResourceExhaustion));
    case.step(Event::TeardownDone);
    assert!(case.is_done());
}

#[test]
fn write_map_failure_is_fatal() {
    let mut case = new_case(HandleKind::OpaqueFd, "OPAQUE_FD");
    case.step(Event::CapabilityAnswer(Some(caps(true, false, false))));
    case.step(Event::CreateDone { type_mask: 0b0110, size: 256 });
    case.step(Event::AllocateDone);
    let action = case.step(Event::WriteMapFailed);
    assert!(matches!(action, Action::Teardown(_)));
    assert_eq!(case.fatal, Some(FatalError::MapFailure));
}

#[test]
fn host_pointer_teardown_unmaps_both_views() {
    let mut case = new_case(HandleKind::HostAllocation, "HOST_ALLOCATION");
    case.step(Event::CapabilityAnswer(Some(caps(true, true, true))));
    case.step(Event::CreateDone { type_mask: 0b0110, size: 256 });
    case.step(Event::AllocateDone);
    case.step(Event::WriteDone);
    case.step(Event::ExportDone);
    case.step(Event::ImportDone);
    case.step(Event::ReadDone(encode_padded_payload(&payload(), 256)));
    let plan = match case.step(Event::ReExportDone) {
        Action::Teardown(plan) => plan,
        other => panic!("unexpected action {:?}", other),
    };
    assert!(plan.unmap_exporter);
    assert!(plan.unmap_importer);
    assert!(plan.destroy_importer_resource);
    assert!(plan.free_importer_memory);
    assert!(plan.destroy_exporter_resource);
    assert!(plan.free_exporter_memory);
    case.step(Event::TeardownDone);
    assert!(case.is_done());
}

#[test]
fn repeated_cases_return_allocation_count_to_baseline() {
    // Leak check: a simulated live-allocation counter, starting from an
    // arbitrary pre-run baseline, returns to it after each of several cases
    // with the same handle kind.
    let baseline: i64 = 7;
    let mut live = baseline;
    for (round, answer) in [
        caps(true, true, true),
        caps(true, false, false),
        caps(false, false, false),
        caps(true, true, true),
    ]
    .into_iter()
    .enumerate()
    {
        let mut case = new_case(HandleKind::OpaqueFd, &format!("round {}", round));
        let mut action = case.step(Event::CapabilityAnswer(Some(answer)));
        while action != Action::Finish {
            action = match action {
                Action::CreateResource { .. } => {
                    live += 1;
                    case.step(Event::CreateDone { type_mask: 0b0110, size: 256 })
                }
                Action::AllocateBind { .. } => {
                    live += 1;
                    case.step(Event::AllocateDone)
                }
                Action::WritePayload { .. } => case.step(Event::WriteDone),
                Action::MapForExport | Action::ExportHandle => case.step(Event::ExportDone),
                Action::ImportHandle => {
                    live += 2;
                    case.step(Event::ImportDone)
                }
                Action::ReadBack { len } => {
                    case.step(Event::ReadDone(encode_padded_payload(&case.payload, len as usize)))
                }
                Action::MapImported | Action::ReExportHandle => case.step(Event::ReExportDone),
                Action::Teardown(plan) => {
                    if plan.destroy_importer_resource {
                        live -= 1;
                    }
                    if plan.free_importer_memory {
                        live -= 1;
                    }
                    if plan.destroy_exporter_resource {
                        live -= 1;
                    }
                    if plan.free_exporter_memory {
                        live -= 1;
                    }
                    case.step(Event::TeardownDone)
                }
                Action::Finish => unreachable!(),
            };
        }
        assert!(case.is_done());
        assert_eq!(live, baseline);
    }
}
