//! The assembly-instruction-set flags the engine may be limited to.

use vstd::prelude::*;

verus! {

/// The flag bit for MMX instructions, on x86-64 targets.
pub const EB_CPU_FLAGS_MMX: u64 = 0x1;

/// The flag bit for SSE instructions, on x86-64 targets.
pub const EB_CPU_FLAGS_SSE: u64 = 0x2;

/// The flag bit for SSE2 instructions, on x86-64 targets.
pub const EB_CPU_FLAGS_SSE2: u64 = 0x4;

/// The flag bit for SSE3 instructions, on x86-64 targets.
pub const EB_CPU_FLAGS_SSE3: u64 = 0x8;

/// The flag bit for SSSE3 instructions, on x86-64 targets.
pub const EB_CPU_FLAGS_SSSE3: u64 = 0x10;

/// The flag bit for SSE4.1 instructions, on x86-64 targets.
pub const EB_CPU_FLAGS_SSE41: u64 = 0x20;

/// The flag bit for SSE4.2 instructions, on x86-64 targets.
pub const EB_CPU_FLAGS_SSE42: u64 = 0x40;

/// The flag bit for AVX instructions, on x86-64 targets.
pub const EB_CPU_FLAGS_AVX: u64 = 0x80;

/// The flag bit for AVX2 instructions, on x86-64 targets.
pub const EB_CPU_FLAGS_AVX2: u64 = 0x100;

/// The flag bit for AVX-512 Foundation instructions, on x86-64 targets.
pub const EB_CPU_FLAGS_AVX512F: u64 = 0x200;

/// The flag bit for AVX-512 conflict-detection instructions, on x86-64
/// targets.
pub const EB_CPU_FLAGS_AVX512ICD: u64 = 0x400;

/// The flag bit for AVX-512 doubleword/quadword instructions, on x86-64
/// targets.
pub const EB_CPU_FLAGS_AVX512DQ: u64 = 0x800;

/// The flag bit for AVX-512 exponential/reciprocal instructions, on x86-64
/// targets.
pub const EB_CPU_FLAGS_AVX512ER: u64 = 0x1000;

/// The flag bit for AVX-512 prefetch instructions, on x86-64 targets.
pub const EB_CPU_FLAGS_AVX512PF: u64 = 0x2000;

/// The flag bit for AVX-512 byte/word instructions, on x86-64 targets.
pub const EB_CPU_FLAGS_AVX512BW: u64 = 0x4000;

/// The flag bit for AVX-512 vector-length instructions, on x86-64 targets.
pub const EB_CPU_FLAGS_AVX512VL: u64 = 0x8000;

/// The flag bit for NEON instructions, on AArch64 targets.
pub const EB_CPU_FLAGS_NEON: u64 = 0x1;

/// The flag bit marking an invalid flag set.
pub const EB_CPU_FLAGS_INVALID: u64 = 0x8000000000000000;

/// The flag set enabling every instruction set.
pub const EB_CPU_FLAGS_ALL: u64 = u64::MAX;

/// Enabled assembly instruction sets, as a native bit set.  Which bit
/// stands for which instruction set depends on the target architecture; the
/// flag constants in this module spell both codings out.
#[derive(Debug, Copy, Clone, PartialEq, Eq, Structural)]
pub struct CpuFlags(pub u64);

impl CpuFlags {
    /// The raw native bit set.
    pub fn bits(&self) -> (r: u64)
        ensures
            r == self.0,
    {
        self.0
    }
}

} // verus!
