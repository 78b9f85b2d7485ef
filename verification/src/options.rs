//! The enumerated build options and their canonical wire-format names: the
//! addressing width, the machine architecture, the CPU families, the math
//! library choices, and the target ISA/lane-width tiers.

use vstd::prelude::*;
use crate::text::comma_free;

verus! {

/// An addressing scheme: pointers inside the generated code are either 32-bit
/// or 64-bit.
#[allow(non_camel_case_types)]
#[derive(Copy, Clone, PartialEq, Eq, Hash, Debug)]
pub enum Addr {
    /// 32-bit addressing
    A32,
    /// 64-bit addressing
    A64,
}

/// The machine architecture to generate code for.
#[allow(non_camel_case_types)]
#[derive(Copy, Clone, PartialEq, Eq, Hash, Debug)]
pub enum Arch {
    /// x86, 32-bit
    X86,
    /// x86-64
    X86_64,
}

/// The CPU families one may generate code for.
#[allow(non_camel_case_types)]
#[derive(Copy, Clone, PartialEq, Eq, Hash, Debug)]
pub enum Cpu {
    /// generic
    Generic,
    /// atom/bonnell
    Atom,
    /// core2
    Core2,
    /// penryn
    Penryn,
    /// corei7/nehalem
    Corei7,
    /// corei7-avx/sandybridge
    Corei7_avx,
    /// core-avx-i/ivybridge
    Core_avx_i,
    /// core-avx2/haswell
    Core_avx2,
    /// broadwell
    Broadwell,
    /// slm/silvermont
    Slm,
}

impl Cpu {
    /// The name the external compiler knows this CPU family by.
    pub open spec fn spec_name(self) -> Seq<char> {
        match self {
            Cpu::Generic => "generic"@,
            Cpu::Atom => "atom"@,
            Cpu::Core2 => "core2"@,
            Cpu::Penryn => "penryn"@,
            Cpu::Corei7 => "corei7"@,
            Cpu::Corei7_avx => "corei7-avx"@,
            Cpu::Core_avx_i => "core-avx-i"@,
            Cpu::Core_avx2 => "core-avx2"@,
            Cpu::Broadwell => "broadwell"@,
            Cpu::Slm => "slm"@,
        }
    }

    /// The wire-format spelling of this CPU family.
    pub fn to_str(self) -> (r: &'static str)
        ensures
            r@ == self.spec_name(),
    {
        match self {
            Cpu::Generic => "generic",
            Cpu::Atom => "atom",
            Cpu::Core2 => "core2",
            Cpu::Penryn => "penryn",
            Cpu::Corei7 => "corei7",
            Cpu::Corei7_avx => "corei7-avx",
            Cpu::Core_avx_i => "core-avx-i",
            Cpu::Core_avx2 => "core-avx2",
            Cpu::Broadwell => "broadwell",
            Cpu::Slm => "slm",
        }
    }
}

/// Every CPU family name is non-empty and holds no comma, so a comma-joined
/// CPU list can be split back apart.
pub proof fn lemma_cpu_name_well_formed(c: Cpu)
    ensures
        c.spec_name().len() > 0,
        comma_free(c.spec_name()),
{
    reveal_strlit("generic");
    reveal_strlit("atom");
    reveal_strlit("core2");
    reveal_strlit("penryn");
    reveal_strlit("corei7");
    reveal_strlit("corei7-avx");
    reveal_strlit("core-avx-i");
    reveal_strlit("core-avx2");
    reveal_strlit("broadwell");
    reveal_strlit("slm");
}

/// Selects which math libraries the generated code calls out to.
#[allow(non_camel_case_types)]
#[derive(Copy, Clone, PartialEq, Eq, Hash, Debug)]
pub enum Math {
    /// Use the compiler's built-in math functions
    Default,
    /// Use high-performance but lower-accuracy math functions
    Fast,
    /// Use the Intel SVML math libraries
    Svml,
    /// Use the system's math libraries (may be quite slow)
    System,
}

impl Math {
    /// The name the external compiler knows this math library by.
    pub open spec fn spec_name(self) -> Seq<char> {
        match self {
            Math::Default => "default"@,
            Math::Fast => "fast"@,
            Math::Svml => "svml"@,
            Math::System => "system"@,
        }
    }

    /// The wire-format spelling of this math library choice.
    pub fn to_str(self) -> (r: &'static str)
        ensures
            r@ == self.spec_name(),
    {
        match self {
            Math::Default => "default",
            Math::Fast => "fast",
            Math::Svml => "svml",
            Math::System => "system",
        }
    }
}

/// Selects a target ISA tier and, optionally, an explicit lane width.
#[allow(non_camel_case_types)]
#[derive(Copy, Clone, PartialEq, Eq, Hash, Debug)]
pub enum Target {
    /// SSE2, auto-detect lane width
    Sse2,
    /// SSE2, x4 `i32`s processed at once
    Sse2_i32x4,
    /// SSE2, x8 `i32`s processed at once
    Sse2_i32x8,
    /// SSE4, auto-detect lane width
    Sse4,
    /// SSE4, x4 `i32`s processed at once
    Sse4_i32x4,
    /// SSE4, x8 `i32`s processed at once
    Sse4_i32x8,
    /// SSE4, x8 `i16`s processed at once
    Sse4_i16x8,
    /// SSE4, x16 `i8`s processed at once
    Sse4_i8x16,
    /// AVX 1.0, auto-detect lane width
    Avx1,
    /// AVX 1.0, x4 `i32`s processed at once
    Avx1_i32x4,
    /// AVX 1.0, x8 `i32`s processed at once
    Avx1_i32x8,
    /// AVX 1.0, x16 `i32`s processed at once
    Avx1_i32x16,
    /// AVX 1.0, x4 `i64`s processed at once
    Avx1_i64x4,
    /// AVX 1.1, auto-detect lane width
    Avx1_1,
    /// AVX 1.1, x8 `i32`s processed at once
    Avx1_1_i32x8,
    /// AVX 1.1, x16 `i32`s processed at once
    Avx1_1_i32x16,
    /// AVX 1.1, x4 `i64`s processed at once
    Avx1_1_i64x4,
    /// AVX 2.0, auto-detect lane width
    Avx2,
    /// AVX 2.0, x8 `i32`s processed at once
    Avx2_i32x8,
    /// AVX 2.0, x16 `i32`s processed at once
    Avx2_i32x16,
    /// AVX 2.0, x4 `i64`s processed at once
    Avx2_i64x4,
}

impl Target {
    /// The name the external compiler knows this ISA/width tier by.
    pub open spec fn spec_name(self) -> Seq<char> {
        match self {
            Target::Sse2 => "sse2"@,
            Target::Sse2_i32x4 => "sse2-i32x4"@,
            Target::Sse2_i32x8 => "sse2-i32x8"@,
            Target::Sse4 => "sse4"@,
            Target::Sse4_i32x4 => "sse4-i32x4"@,
            Target::Sse4_i32x8 => "sse4-i32x8"@,
            Target::Sse4_i16x8 => "sse4-i16x8"@,
            Target::Sse4_i8x16 => "sse4-i8x16"@,
            Target::Avx1 => "avx1"@,
            Target::Avx1_i32x4 => "avx1-i32x4"@,
            Target::Avx1_i32x8 => "avx1-i32x8"@,
            Target::Avx1_i32x16 => "avx1-i32x16"@,
            Target::Avx1_i64x4 => "avx1-i64x4"@,
            Target::Avx1_1 => "avx1.1"@,
            Target::Avx1_1_i32x8 => "avx1.1-i32x8"@,
            Target::Avx1_1_i32x16 => "avx1.1-i32x16"@,
            Target::Avx1_1_i64x4 => "avx1.1-i64x4"@,
            Target::Avx2 => "avx2"@,
            Target::Avx2_i32x8 => "avx2-i32x8"@,
            Target::Avx2_i32x16 => "avx2-i32x16"@,
            Target::Avx2_i64x4 => "avx2-i64x4"@,
        }
    }

    /// The wire-format spelling of this target tier.
    pub fn to_str(self) -> (r: &'static str)
        ensures
            r@ == self.spec_name(),
    {
        match self {
            Target::Sse2 => "sse2",
            Target::Sse2_i32x4 => "sse2-i32x4",
            Target::Sse2_i32x8 => "sse2-i32x8",
            Target::Sse4 => "sse4",
            Target::Sse4_i32x4 => "sse4-i32x4",
            Target::Sse4_i32x8 => "sse4-i32x8",
            Target::Sse4_i16x8 => "sse4-i16x8",
            Target::Sse4_i8x16 => "sse4-i8x16",
            Target::Avx1 => "avx1",
            Target::Avx1_i32x4 => "avx1-i32x4",
            Target::Avx1_i32x8 => "avx1-i32x8",
            Target::Avx1_i32x16 => "avx1-i32x16",
            Target::Avx1_i64x4 => "avx1-i64x4",
            Target::Avx1_1 => "avx1.1",
            Target::Avx1_1_i32x8 => "avx1.1-i32x8",
            Target::Avx1_1_i32x16 => "avx1.1-i32x16",
            Target::Avx1_1_i64x4 => "avx1.1-i64x4",
            Target::Avx2 => "avx2",
            Target::Avx2_i32x8 => "avx2-i32x8",
            Target::Avx2_i32x16 => "avx2-i32x16",
            Target::Avx2_i64x4 => "avx2-i64x4",
        }
    }
}

/// Every target tier name is non-empty and holds no comma, so a comma-joined
/// target list can be split back apart.
pub proof fn lemma_target_name_well_formed(t: Target)
    ensures
        t.spec_name().len() > 0,
        comma_free(t.spec_name()),
{
    reveal_strlit("sse2");
    reveal_strlit("sse2-i32x4");
    reveal_strlit("sse2-i32x8");
    reveal_strlit("sse4");
    reveal_strlit("sse4-i32x4");
    reveal_strlit("sse4-i32x8");
    reveal_strlit("sse4-i16x8");
    reveal_strlit("sse4-i8x16");
    reveal_strlit("avx1");
    reveal_strlit("avx1-i32x4");
    reveal_strlit("avx1-i32x8");
    reveal_strlit("avx1-i32x16");
    reveal_strlit("avx1-i64x4");
    reveal_strlit("avx1.1");
    reveal_strlit("avx1.1-i32x8");
    reveal_strlit("avx1.1-i32x16");
    reveal_strlit("avx1.1-i64x4");
    reveal_strlit("avx2");
    reveal_strlit("avx2-i32x8");
    reveal_strlit("avx2-i32x16");
    reveal_strlit("avx2-i64x4");
}

} // verus!
