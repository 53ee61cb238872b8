//! A machine's hardware profile: one immutable snapshot per query.
//!
//! Probing the machine is a collaborator's job; whatever it finds is handed
//! over as the plain values below. A probe that fails should degrade to
//! `has_gpu = false`, never into an error.

use vstd::prelude::*;

verus! {

/// What the machine offers: RAM, cores, and an optional GPU.
#[derive(Debug, PartialEq)]
pub struct SystemSpecs {
    pub total_ram_mib: u64,
    pub available_ram_mib: u64,
    pub total_cpu_cores: usize,
    pub cpu_name: String,
    pub has_gpu: bool,
    /// Absent either when there is no GPU or when one was detected but its
    /// VRAM could not be sized.
    pub gpu_vram_mib: Option<u64>,
    /// GPU and CPU share one physical pool (so `gpu_vram_mib`, when present,
    /// is that shared pool, not a disjoint one). Only meaningful with a GPU.
    pub unified_memory: bool,
}

/// The shape a hardware supplier should deliver: available RAM within total,
/// at least one core, and a unified-memory claim only alongside a GPU.
/// The analysis is total and does not require this; it documents the
/// supplier's side of the contract.
pub open spec fn spec_specs_wf(s: SystemSpecs) -> bool {
    &&& s.available_ram_mib <= s.total_ram_mib
    &&& s.total_cpu_cores >= 1
    &&& s.unified_memory ==> s.has_gpu
}

} // verus!
