//! Resource shapes, handle kinds and the capability decision table.
//!
//! A case is described by a resource shape (buffer or image) together with a
//! platform handle kind. The device answers a capability query for the pair
//! with three flags, and an explicit decision table turns those flags into
//! the branch the case runs.

use vstd::prelude::*;

verus! {

/// A platform transport for external memory.
#[derive(Clone, Copy, Debug, PartialEq, Eq, Structural)]
pub enum HandleKind {
    OpaqueFd,
    DmaBuf,
    OpaqueWin32,
    OpaqueWin32Kmt,
    D3D11Texture,
    D3D11TextureKmt,
    D3D12Heap,
    D3D12Resource,
    AndroidHardwareBuffer,
    HostAllocation,
    HostMappedForeignMemory,
}

/// The three handle families, dispatched once at the export/import boundary.
#[derive(Clone, Copy, Debug, PartialEq, Eq, Structural)]
pub enum HandleFamily {
    /// File descriptors; single-use, consumed by import.
    Descriptor,
    /// Opaque OS handles; single-use, consumed by import.
    OsHandle,
    /// Raw host pointers obtained by mapping; re-usable.
    HostPointer,
}

impl HandleKind {
    /// The family a handle kind belongs to.
    pub open spec fn family_spec(self) -> HandleFamily {
        match self {
            HandleKind::OpaqueFd => HandleFamily::Descriptor,
            HandleKind::DmaBuf => HandleFamily::Descriptor,
            HandleKind::AndroidHardwareBuffer => HandleFamily::Descriptor,
            HandleKind::OpaqueWin32 => HandleFamily::OsHandle,
            HandleKind::OpaqueWin32Kmt => HandleFamily::OsHandle,
            HandleKind::D3D11Texture => HandleFamily::OsHandle,
            HandleKind::D3D11TextureKmt => HandleFamily::OsHandle,
            HandleKind::D3D12Heap => HandleFamily::OsHandle,
            HandleKind::D3D12Resource => HandleFamily::OsHandle,
            HandleKind::HostAllocation => HandleFamily::HostPointer,
            HandleKind::HostMappedForeignMemory => HandleFamily::HostPointer,
        }
    }

    /// The family a handle kind belongs to.
    pub fn family(&self) -> (f: HandleFamily)
        ensures
            f == self.family_spec(),
    {
        match self {
            HandleKind::OpaqueFd => HandleFamily::Descriptor,
            HandleKind::DmaBuf => HandleFamily::Descriptor,
            HandleKind::AndroidHardwareBuffer => HandleFamily::Descriptor,
            HandleKind::OpaqueWin32 => HandleFamily::OsHandle,
            HandleKind::OpaqueWin32Kmt => HandleFamily::OsHandle,
            HandleKind::D3D11Texture => HandleFamily::OsHandle,
            HandleKind::D3D11TextureKmt => HandleFamily::OsHandle,
            HandleKind::D3D12Heap => HandleFamily::OsHandle,
            HandleKind::D3D12Resource => HandleFamily::OsHandle,
            HandleKind::HostAllocation => HandleFamily::HostPointer,
            HandleKind::HostMappedForeignMemory => HandleFamily::HostPointer,
        }
    }
}

/// The dimensions of a two-dimensional image resource.
#[derive(Clone, Copy, Debug, PartialEq, Eq, Structural)]
pub struct ImageExtent {
    pub width: u32,
    pub height: u32,
    pub layers: u16,
    pub samples: u8,
}

/// The tiling of an image resource.
#[derive(Clone, Copy, Debug, PartialEq, Eq, Structural)]
pub enum Tiling {
    Linear,
    Optimal,
}

/// The shape of the resource under test; immutable, one per case.
///
/// Flag fields carry the device API's bit values as plain integers; the
/// driver loop translates them. The protocol itself reads only the variant.
#[derive(Clone, Copy, Debug, PartialEq, Eq, Structural)]
pub enum Parameters {
    Buffer {
        /// Buffer usage flag bits.
        buffer_usage: u32,
        /// Sparse memory flag bits.
        buffer_flags: u32,
    },
    Image {
        extent: ImageExtent,
        mip_levels: u8,
        /// Pixel format identifier.
        format: u32,
        tiling: Tiling,
        /// Image usage flag bits.
        usage: u32,
        /// Sparse memory flag bits.
        sparse: u32,
        /// View capability flag bits.
        view_caps: u32,
    },
}

/// The capability matrix the device reports for one (shape, handle kind)
/// pair. Fetched fresh per pair, never cached.
#[derive(Clone, Copy, Debug, PartialEq, Eq, Structural)]
pub struct CapabilitySet {
    /// Memory of this shape can produce a handle of this kind.
    pub exportable: bool,
    /// A handle of this kind can be imported into memory of this shape.
    pub importable: bool,
    /// Imported memory can produce a handle of this kind again.
    pub exportable_from_imported: bool,
}

impl CapabilitySet {
    /// The empty matrix: no capability at all.
    pub fn none() -> (c: CapabilitySet)
        ensures
            c == (CapabilitySet { exportable: false, importable: false, exportable_from_imported: false }),
    {
        CapabilitySet { exportable: false, importable: false, exportable_from_imported: false }
    }
}

/// The branch a case runs, decided once from the capability matrix.
#[derive(Clone, Copy, Debug, PartialEq, Eq, Structural)]
pub enum CaseBranch {
    /// No further device call; every phase slot stays NotRun.
    Skip,
    /// Create, write and export only; nothing is imported.
    ExportOnly,
    /// Create, write, export, import, read back, re-export, tear down.
    FullRoundTrip,
    /// Import through a freshly mapped pointer; host-pointer kinds only.
    ImportOnly,
}

/// The decision table over the capability matrix.
///
/// Export-only when exportable but not importable; the full round trip when
/// exportable, importable and re-exportable; emulated import-only when only
/// importable, without re-export, and the handle is a host pointer. Every
/// other combination skips the case rather than crash, including any a
/// future driver might report.
pub open spec fn branch_spec(caps: CapabilitySet, family: HandleFamily) -> CaseBranch {
    match (caps.exportable, caps.importable, caps.exportable_from_imported) {
        (true, false, _) => CaseBranch::ExportOnly,
        (true, true, true) => CaseBranch::FullRoundTrip,
        (false, true, false) => if family is HostPointer {
            CaseBranch::ImportOnly
        } else {
            CaseBranch::Skip
        },
        _ => CaseBranch::Skip,
    }
}

/// Decides the branch for a capability matrix and a handle family.
pub fn decide_branch(caps: &CapabilitySet, family: HandleFamily) -> (b: CaseBranch)
    ensures
        b == branch_spec(*caps, family),
{
    match (caps.exportable, caps.importable, caps.exportable_from_imported) {
        (true, false, _) => CaseBranch::ExportOnly,
        (true, true, true) => CaseBranch::FullRoundTrip,
        (false, true, false) => match family {
            HandleFamily::HostPointer => CaseBranch::ImportOnly,
            _ => CaseBranch::Skip,
        },
        _ => CaseBranch::Skip,
    }
}

} // verus!
