use extmem_harness::data::{decode_payload, encode_padded_payload, encode_payload, pad_size, DataTest};
use extmem_harness::params::{decide_branch, CapabilitySet, CaseBranch, HandleFamily, HandleKind};
use extmem_harness::select::select_memory_type;

fn caps(e: bool, i: bool, x: bool) -> CapabilitySet {
    CapabilitySet { exportable: e, importable: i, exportable_from_imported: x }
}

#[test]
fn payload_encodes_little_endian() {
    let d = DataTest { data: 1, data2: 2, data3: 3 };
    let bytes = encode_payload(&d);
    assert_eq!(bytes, vec![1, 0, 0, 0, 2, 0, 0, 0, 3, 0, 0, 0]);
}

#[test]
fn payload_encodes_all_byte_lanes() {
    let d = DataTest { data: 0x0403_0201, data2: 0x0807_0605, data3: 0xff00_00ff };
    let bytes = encode_payload(&d);
    assert_eq!(bytes, vec![1, 2, 3, 4, 5, 6, 7, 8, 0xff, 0, 0, 0xff]);
}

#[test]
fn payload_round_trips() {
    let d = DataTest { data: 0xdead_beef, data2: 0, data3: u32::MAX };
    let bytes = encode_payload(&d);
    assert_eq!(decode_payload(&bytes), Some(d));
}

#[test]
fn padded_payload_round_trips() {
    let d = DataTest { data: 1, data2: 2, data3: 3 };
    let bytes = encode_padded_payload(&d, 256);
    assert_eq!(bytes.len(), 256);
    assert_eq!(&bytes[..12], &[1, 0, 0, 0, 2, 0, 0, 0, 3, 0, 0, 0]);
    assert!(bytes[12..].iter().all(|b| *b == 0));
    assert_eq!(decode_payload(&bytes), Some(d));
}

#[test]
fn short_read_decodes_to_none() {
    let bytes = vec![1, 2, 3, 4, 5];
    assert_eq!(decode_payload(&bytes), None);
}

#[test]
fn default_payload_is_zero() {
    assert_eq!(DataTest::default(), DataTest { data: 0, data2: 0, data3: 0 });
}

#[test]
fn pad_size_rounds_up_to_alignment() {
    assert_eq!(pad_size(12, 256), 256);
    assert_eq!(pad_size(12, 1), 12);
    assert_eq!(pad_size(12, 4), 12);
    assert_eq!(pad_size(12, 8), 16);
    assert_eq!(pad_size(0, 64), 0);
    assert_eq!(pad_size(256, 256), 256);
    assert_eq!(pad_size(257, 256), 512);
}

#[test]
fn selector_returns_lowest_admissible_index() {
    assert_eq!(select_memory_type(0b1100, 0b1111, 0b1110), Some(2));
    // First fit, not best fit: bit 1 wins over bit 3 even if bit 3 is set in
    // more masks.
    assert_eq!(select_memory_type(0b1010, 0b1010, 0b1111), Some(1));
    assert_eq!(select_memory_type(u32::MAX, u32::MAX, u32::MAX), Some(0));
    assert_eq!(select_memory_type(1 << 31, u32::MAX, u32::MAX), Some(31));
}

#[test]
fn selector_needs_all_three_masks() {
    assert_eq!(select_memory_type(0b0011, 0b1100, u32::MAX), None);
    assert_eq!(select_memory_type(0b0100, u32::MAX, 0b0011), None);
    assert_eq!(select_memory_type(0, u32::MAX, u32::MAX), None);
}

#[test]
fn handle_kinds_group_into_families() {
    assert_eq!(HandleKind::OpaqueFd.family(), HandleFamily::Descriptor);
    assert_eq!(HandleKind::DmaBuf.family(), HandleFamily::Descriptor);
    assert_eq!(HandleKind::AndroidHardwareBuffer.family(), HandleFamily::Descriptor);
    assert_eq!(HandleKind::OpaqueWin32.family(), HandleFamily::OsHandle);
    assert_eq!(HandleKind::OpaqueWin32Kmt.family(), HandleFamily::OsHandle);
    assert_eq!(HandleKind::D3D11Texture.family(), HandleFamily::OsHandle);
    assert_eq!(HandleKind::D3D11TextureKmt.family(), HandleFamily::OsHandle);
    assert_eq!(HandleKind::D3D12Heap.family(), HandleFamily::OsHandle);
    assert_eq!(HandleKind::D3D12Resource.family(), HandleFamily::OsHandle);
    assert_eq!(HandleKind::HostAllocation.family(), HandleFamily::HostPointer);
    assert_eq!(HandleKind::HostMappedForeignMemory.family(), HandleFamily::HostPointer);
}

#[test]
fn decision_table_export_only() {
    assert_eq!(decide_branch(&caps(true, false, false), HandleFamily::Descriptor), CaseBranch::ExportOnly);
    assert_eq!(decide_branch(&caps(true, false, true), HandleFamily::OsHandle), CaseBranch::ExportOnly);
    assert_eq!(decide_branch(&caps(true, false, true), HandleFamily::HostPointer), CaseBranch::ExportOnly);
}

#[test]
fn decision_table_full_round_trip() {
    assert_eq!(decide_branch(&caps(true, true, true), HandleFamily::Descriptor), CaseBranch::FullRoundTrip);
    assert_eq!(decide_branch(&caps(true, true, true), HandleFamily::HostPointer), CaseBranch::FullRoundTrip);
}

#[test]
fn decision_table_import_only_is_host_pointer_only() {
    assert_eq!(decide_branch(&caps(false, true, false), HandleFamily::HostPointer), CaseBranch::ImportOnly);
    assert_eq!(decide_branch(&caps(false, true, false), HandleFamily::Descriptor), CaseBranch::Skip);
    assert_eq!(decide_branch(&caps(false, true, false), HandleFamily::OsHandle), CaseBranch::Skip);
}

#[test]
fn decision_table_skips_everything_else() {
    assert_eq!(decide_branch(&caps(false, false, false), HandleFamily::Descriptor), CaseBranch::Skip);
    assert_eq!(decide_branch(&caps(false, false, true), HandleFamily::HostPointer), CaseBranch::Skip);
    assert_eq!(decide_branch(&caps(false, true, true), HandleFamily::HostPointer), CaseBranch::Skip);
    // Exportable and importable but not re-exportable is not a defined
    // branch: skip, do not crash.
    assert_eq!(decide_branch(&caps(true, true, false), HandleFamily::Descriptor), CaseBranch::Skip);
}

#[test]
fn capability_set_none_is_empty() {
    assert_eq!(CapabilitySet::none(), caps(false, false, false));
}
