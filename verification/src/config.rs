//! The build configuration: a mutable record of caller intent, filled through
//! fluent setters, resolved against a snapshot of the environment, and
//! translated into the external compiler's exact command line.

use vstd::prelude::*;
use crate::discovery::{object_candidates, spec_candidates};
use crate::errors::BuildError;
use crate::paths::{
    file_stem, join_path, spec_file_stem, spec_join, spec_with_ext_o, with_extension_o,
};
use crate::options::{
    Addr, Arch, Cpu, Math, Target, lemma_cpu_name_well_formed, lemma_target_name_well_formed,
};
use crate::text::{
    all_dec_digits, comma_free, dec_digits, dec_value, has_substring, join_commas,
    lemma_join_push, lemma_join_split_roundtrip, parse_u32, split_commas, str_eq, u32_to_dec,
};

verus! {

/// An optimization level clamped into `[0, 3]`.
pub open spec fn clamp3(l: u32) -> u32 {
    if l > 3 {
        3u32
    } else {
        l
    }
}

/// A snapshot of the environment variables the pipeline consults. The
/// unverified driver fills this once from the real process environment (and
/// logs every read); resolution then works on these plain values only.
#[derive(Clone, PartialEq, Eq, Hash, Debug)]
pub struct Env {
    /// Override for the compiler binary path (the `ISPC` variable); the
    /// default binary name is used when absent.
    pub ispc: Option<String>,
    /// The numeric optimization level (the `OPT_LEVEL` variable).
    pub opt_level: Option<String>,
    /// The build profile (the `PROFILE` variable); `debug` turns on debug
    /// info when no explicit choice was made.
    pub profile: Option<String>,
    /// The target triple (the `TARGET` variable), substring-matched to infer
    /// the architecture.
    pub target: Option<String>,
    /// The directory compiled objects are placed in (the `OUT_DIR` variable).
    pub out_dir: Option<String>,
}

/// One resolved invocation of the external compiler: the binary to run, its
/// argument list in order, and any environment overrides to apply.
#[derive(PartialEq, Eq, Hash, Debug)]
pub struct Tool {
    /// The path of the binary to spawn.
    pub path: String,
    /// The arguments, in the exact order they are to be passed.
    pub args: Vec<String>,
    /// Environment overrides for the spawned process (none are set by this
    /// pipeline; the field mirrors the invocation record handed to the
    /// driver).
    pub envs: Vec<(String, String)>,
}

impl Tool {
    /// A tool with no arguments and no environment overrides.
    pub fn new(path: String) -> (r: Tool)
        ensures
            r.path == path,
            r.args@.len() == 0,
            r.envs@.len() == 0,
    {
        Tool { path, args: Vec::new(), envs: Vec::new() }
    }

    /// Appends one argument.
    pub fn arg(&mut self, s: &str)
        ensures
            final(self).path == old(self).path,
            final(self).envs == old(self).envs,
            final(self).args.deep_view() == old(self).args.deep_view().push(s@),
    {
        self.args.push(s.to_owned());
        proof {
            assert(self.args.deep_view() =~~= old(self).args.deep_view().push(s@));
        }
    }
}

/// The full set of build options. Every field records caller intent only;
/// nothing is validated or read from the environment until resolution.
#[derive(PartialEq, Eq, Hash, Debug)]
pub struct Config {
    /// Optional addressing width of the generated code.
    pub addressing: Option<Addr>,
    /// Optional explicit architecture; inferred from the target triple when
    /// absent.
    pub architecture: Option<Arch>,
    /// Optional ordered CPU family list.
    pub cpu: Option<Vec<Cpu>>,
    /// Ordered preprocessor definitions; duplicates are allowed and kept.
    pub definitions: Vec<(String, Option<String>)>,
    /// Optional forced alignment, in bytes.
    pub force_alignment: Option<u32>,
    /// Optional explicit debug-info choice; inferred from the build profile
    /// when absent.
    pub debug: Option<bool>,
    /// The math library the generated code calls out to.
    pub math_lib: Math,
    /// The ordered source files to compile.
    pub files: Vec<String>,
    /// Optional explicit optimization level; read from the environment when
    /// absent, and clamped to 3 at resolution either way.
    pub opt_level: Option<u32>,
    /// Whether assertions are generated (on by default).
    pub assertations: bool,
    /// Whether fused multiply-add instructions are generated (on by default).
    pub fma: bool,
    /// Whether loops are unrolled (on by default).
    pub loop_unroll: bool,
    /// Whether faster masked vector loads are used (off by default).
    pub fast_masked_vload: bool,
    /// Whether non-IEEE-754-compliant math is allowed (off by default).
    pub fast_math: bool,
    /// Whether aligned vector loads and stores are forced (off by default).
    pub force_aligned_memory: bool,
    /// Optional explicit position-independent-code choice; inferred from the
    /// resolved architecture when absent.
    pub pic: Option<bool>,
    /// Optional ordered target ISA list; a fixed five-tier default applies
    /// when absent.
    pub targets: Option<Vec<Target>>,
    /// Whether warnings are treated as errors (off by default).
    pub werror: bool,
    /// Whether warnings are emitted at all (on by default).
    pub warnings: bool,
    /// Whether performance warnings are emitted (on by default).
    pub wperf: bool,
}

impl Config {
    /// A blank configuration holding only the defaults.
    pub fn new() -> (r: Config)
        ensures
            r.addressing is None,
            r.architecture is None,
            r.cpu is None,
            r.definitions@.len() == 0,
            r.force_alignment is None,
            r.debug is None,
            r.math_lib == Math::Default,
            r.files@.len() == 0,
            r.opt_level is None,
            r.assertations == true,
            r.fma == true,
            r.loop_unroll == true,
            r.fast_masked_vload == false,
            r.fast_math == false,
            r.force_aligned_memory == false,
            r.pic is None,
            r.targets is None,
            r.werror == false,
            r.warnings == true,
            r.wperf == true,
    {
        Config {
            addressing: None,
            architecture: None,
            cpu: None,
            definitions: Vec::new(),
            force_alignment: None,
            debug: None,
            math_lib: Math::Default,
            files: Vec::new(),
            opt_level: None,
            assertations: true,
            fma: true,
            loop_unroll: true,
            fast_masked_vload: false,
            fast_math: false,
            force_aligned_memory: false,
            pic: None,
            targets: None,
            werror: false,
            warnings: true,
            wperf: true,
        }
    }

    /// Sets the addressing width of the compiled code.
    pub fn addressing(&mut self, a: Addr)
        ensures
            *final(self) == (Config { addressing: Some(a), ..*old(self) }),
    {
        self.addressing = Some(a);
    }

    /// Adds one entry to the target CPU set. The first call replaces the
    /// unset state with a one-element list; later calls append.
    pub fn cpu(&mut self, c: Cpu)
        ensures
            final(self).cpu matches Some(cs) && cs@ == (match old(self).cpu {
                Some(old_cs) => old_cs@,
                None => Seq::<Cpu>::empty(),
            }).push(c),
            *final(self) == (Config { cpu: final(self).cpu, ..*old(self) }),
    {
        let mut cs: Vec<Cpu> = match &self.cpu {
            Some(v) => v.clone(),
            None => Vec::new(),
        };
        proof {
            if old(self).cpu is Some {
                assert(cs@ =~= old(self).cpu->Some_0@);
            }
        }
        cs.push(c);
        self.cpu = Some(cs);
    }

    /// Records a preprocessor definition with an optional value. Duplicates
    /// are allowed and kept in order.
    pub fn define(&mut self, k: &str, v: Option<&str>)
        ensures
            final(self).definitions@.len() == old(self).definitions@.len() + 1,
            forall|i: int|
                0 <= i < old(self).definitions@.len() ==> final(self).definitions@[i] == old(
                    self,
                ).definitions@[i],
            final(self).definitions@.last().0@ == k@,
            match v {
                Some(s) => final(self).definitions@.last().1 matches Some(vs) && vs@ == s@,
                None => final(self).definitions@.last().1 is None,
            },
            *final(self) == (Config { definitions: final(self).definitions, ..*old(self) }),
    {
        let vv: Option<String> = match v {
            Some(s) => Some(s.to_owned()),
            None => None,
        };
        self.definitions.push((k.to_owned(), vv));
    }

    /// Sets the forced alignment, in bytes.
    pub fn force_alignment(&mut self, align: u32)
        ensures
            *final(self) == (Config { force_alignment: Some(align), ..*old(self) }),
    {
        self.force_alignment = Some(align);
    }

    /// Turns generation of debug info on or off explicitly.
    pub fn debug(&mut self, val: bool)
        ensures
            *final(self) == (Config { debug: Some(val), ..*old(self) }),
    {
        self.debug = Some(val);
    }

    /// Selects the math library to call out to.
    pub fn math_lib(&mut self, m: Math)
        ensures
            *final(self) == (Config { math_lib: m, ..*old(self) }),
    {
        self.math_lib = m;
    }

    /// Adds a file to the set of files to be compiled together.
    pub fn file(&mut self, p: &str)
        ensures
            final(self).files.deep_view() == old(self).files.deep_view().push(p@),
            *final(self) == (Config { files: final(self).files, ..*old(self) }),
    {
        self.files.push(p.to_owned());
        proof {
            assert(self.files.deep_view() =~~= old(self).files.deep_view().push(p@));
        }
    }

    /// Sets the optimization level; values above 3 are clamped at resolution.
    pub fn opt_level(&mut self, level: u32)
        ensures
            *final(self) == (Config { opt_level: Some(level), ..*old(self) }),
    {
        self.opt_level = Some(level);
    }

    /// Enables or disables assertions in the generated code.
    pub fn enable_assertations(&mut self, val: bool)
        ensures
            *final(self) == (Config { assertations: val, ..*old(self) }),
    {
        self.assertations = val;
    }

    /// Enables or disables fused multiply-add instructions.
    pub fn enable_fma(&mut self, val: bool)
        ensures
            *final(self) == (Config { fma: val, ..*old(self) }),
    {
        self.fma = val;
    }

    /// Enables or disables loop unrolling.
    pub fn enable_loop_unroll(&mut self, val: bool)
        ensures
            *final(self) == (Config { loop_unroll: val, ..*old(self) }),
    {
        self.loop_unroll = val;
    }

    /// Enables or disables faster masked vector loads.
    pub fn enable_fast_masked_vload(&mut self, val: bool)
        ensures
            *final(self) == (Config { fast_masked_vload: val, ..*old(self) }),
    {
        self.fast_masked_vload = val;
    }

    /// Enables or disables non-IEEE-754-compliant fast math.
    pub fn enable_fast_math(&mut self, val: bool)
        ensures
            *final(self) == (Config { fast_math: val, ..*old(self) }),
    {
        self.fast_math = val;
    }

    /// Enables or disables forced aligned vector loads and stores.
    pub fn force_aligned_memory(&mut self, val: bool)
        ensures
            *final(self) == (Config { force_aligned_memory: val, ..*old(self) }),
    {
        self.force_aligned_memory = val;
    }

    /// Sets the position-independent-code flag explicitly.
    pub fn pic(&mut self, val: bool)
        ensures
            *final(self) == (Config { pic: Some(val), ..*old(self) }),
    {
        self.pic = Some(val);
    }

    /// Adds a target ISA tier. The first call replaces the default list with
    /// a one-element list; later calls append.
    pub fn target(&mut self, t: Target)
        ensures
            final(self).targets matches Some(ts) && ts@ == (match old(self).targets {
                Some(old_ts) => old_ts@,
                None => Seq::<Target>::empty(),
            }).push(t),
            *final(self) == (Config { targets: final(self).targets, ..*old(self) }),
    {
        let mut ts: Vec<Target> = match &self.targets {
            Some(v) => v.clone(),
            None => Vec::new(),
        };
        proof {
            if old(self).targets is Some {
                assert(ts@ =~= old(self).targets->Some_0@);
            }
        }
        ts.push(t);
        self.targets = Some(ts);
    }

    /// Treats warnings as errors, or not.
    pub fn werror(&mut self, val: bool)
        ensures
            *final(self) == (Config { werror: val, ..*old(self) }),
    {
        self.werror = val;
    }

    /// Enables or disables warnings.
    pub fn warn(&mut self, val: bool)
        ensures
            *final(self) == (Config { warnings: val, ..*old(self) }),
    {
        self.warnings = val;
    }

    /// Enables or disables warnings about suboptimal code performance.
    pub fn warn_perf(&mut self, val: bool)
        ensures
            *final(self) == (Config { wperf: val, ..*old(self) }),
    {
        self.wperf = val;
    }

    /// The resolved optimization level: the explicit value clamped to 3, or
    /// else the environment value, which must be a decimal number that fits a
    /// `u32` and is clamped the same way. `None` means resolution fails.
    pub open spec fn spec_opt_level(self, env: Env) -> Option<u32> {
        match self.opt_level {
            Some(l) => Some(clamp3(l)),
            None => match env.opt_level {
                Some(s) => if s@.len() > 0 && all_dec_digits(s@) && dec_value(s@) <= u32::MAX {
                    Some(clamp3(dec_value(s@) as u32))
                } else {
                    None
                },
                None => None,
            },
        }
    }

    /// Resolves the optimization level, as `spec_opt_level` describes; a
    /// missing or unparsable environment value is an `EnvironmentError`.
    pub fn get_opt_level(&self, env: &Env) -> (r: Result<u32, BuildError>)
        ensures
            match r {
                Ok(l) => self.spec_opt_level(*env) == Some(l),
                Err(e) => self.spec_opt_level(*env) is None && e is EnvironmentError,
            },
    {
        match &self.opt_level {
            Some(l) => Ok(if *l > 3 {
                3
            } else {
                *l
            }),
            None => match &env.opt_level {
                Some(s) => match parse_u32(s.as_str()) {
                    Some(n) => Ok(
                        if n > 3 {
                            3
                        } else {
                            n
                        },
                    ),
                    None => Err(
                        BuildError::EnvironmentError(
                            "environment variable `OPT_LEVEL` is not a non-negative integer".to_owned(),
                        ),
                    ),
                },
                None => Err(
                    BuildError::EnvironmentError(
                        "environment variable `OPT_LEVEL` not defined".to_owned(),
                    ),
                ),
            },
        }
    }

    /// The resolved debug flag: the explicit choice, or else whether the
    /// build profile is exactly `debug`. `None` means resolution fails.
    pub open spec fn spec_debug(self, env: Env) -> Option<bool> {
        match self.debug {
            Some(b) => Some(b),
            None => match env.profile {
                Some(p) => Some(p@ == "debug"@),
                None => None,
            },
        }
    }

    /// Resolves the debug flag, as `spec_debug` describes; a missing profile
    /// is an `EnvironmentError`.
    pub fn get_debug(&self, env: &Env) -> (r: Result<bool, BuildError>)
        ensures
            match r {
                Ok(b) => self.spec_debug(*env) == Some(b),
                Err(e) => self.spec_debug(*env) is None && e is EnvironmentError,
            },
    {
        match &self.debug {
            Some(b) => Ok(*b),
            None => match &env.profile {
                Some(p) => Ok(str_eq(p.as_str(), "debug")),
                None => Err(
                    BuildError::EnvironmentError(
                        "environment variable `PROFILE` not defined".to_owned(),
                    ),
                ),
            },
        }
    }

    /// Whether the target triple names a 64-bit machine: `Some(true)` if it
    /// mentions `x86_64`, `Some(false)` if it mentions `i686` or `i586`, and
    /// `None` (resolution fails) otherwise or when the triple is absent.
    pub open spec fn spec_x64(env: Env) -> Option<bool> {
        match env.target {
            Some(t) => if has_substring(t@, "x86_64"@) {
                Some(true)
            } else if has_substring(t@, "i686"@) || has_substring(t@, "i586"@) {
                Some(false)
            } else {
                None
            },
            None => None,
        }
    }

    /// Decides 64-bitness from the target triple, as `spec_x64` describes; a
    /// missing or unsupported triple is an `EnvironmentError`.
    pub fn get_x64(&self, env: &Env) -> (r: Result<bool, BuildError>)
        ensures
            match r {
                Ok(b) => Config::spec_x64(*env) == Some(b),
                Err(e) => Config::spec_x64(*env) is None && e is EnvironmentError,
            },
    {
        match &env.target {
            Some(t) => {
                if crate::text::contains_sub(t.as_str(), "x86_64") {
                    Ok(true)
                } else if crate::text::contains_sub(t.as_str(), "i686") || crate::text::contains_sub(
                    t.as_str(),
                    "i586",
                ) {
                    Ok(false)
                } else {
                    Err(
                        BuildError::EnvironmentError(
                            "only x86 and x86_64 targets are supported".to_owned(),
                        ),
                    )
                }
            },
            None => Err(
                BuildError::EnvironmentError(
                    "environment variable `TARGET` not defined".to_owned(),
                ),
            ),
        }
    }

    /// The resolved architecture: the explicit choice, or else 64-bit iff the
    /// target triple is. `None` means resolution fails.
    pub open spec fn spec_arch(self, env: Env) -> Option<Arch> {
        match self.architecture {
            Some(a) => Some(a),
            None => match Config::spec_x64(env) {
                Some(true) => Some(Arch::X86_64),
                Some(false) => Some(Arch::X86),
                None => None,
            },
        }
    }

    /// Resolves the architecture, as `spec_arch` describes.
    pub fn get_arch(&self, env: &Env) -> (r: Result<Arch, BuildError>)
        ensures
            match r {
                Ok(a) => self.spec_arch(*env) == Some(a),
                Err(e) => self.spec_arch(*env) is None && e is EnvironmentError,
            },
    {
        match &self.architecture {
            Some(a) => Ok(*a),
            None => match self.get_x64(env) {
                Ok(true) => Ok(Arch::X86_64),
                Ok(false) => Ok(Arch::X86),
                Err(e) => Err(e),
            },
        }
    }

    /// The resolved position-independent-code flag: the explicit choice, or
    /// else true exactly when the resolved architecture is 64-bit. `None`
    /// means resolution fails.
    pub open spec fn spec_pic(self, env: Env) -> Option<bool> {
        match self.pic {
            Some(b) => Some(b),
            None => match self.spec_arch(env) {
                Some(Arch::X86_64) => Some(true),
                Some(Arch::X86) => Some(false),
                None => None,
            },
        }
    }

    /// Resolves the position-independent-code flag, as `spec_pic` describes.
    pub fn get_pic(&self, env: &Env) -> (r: Result<bool, BuildError>)
        ensures
            match r {
                Ok(b) => self.spec_pic(*env) == Some(b),
                Err(e) => self.spec_pic(*env) is None && e is EnvironmentError,
            },
    {
        match &self.pic {
            Some(b) => Ok(*b),
            None => match self.get_arch(env) {
                Ok(Arch::X86_64) => Ok(true),
                Ok(Arch::X86) => Ok(false),
                Err(e) => Err(e),
            },
        }
    }

    /// The resolved target list: the explicit list, or else the fixed
    /// five-tier default covering every baseline ISA generation.
    pub open spec fn spec_targets(self) -> Seq<Target> {
        match self.targets {
            Some(ts) => ts@,
            None => seq![Target::Sse2, Target::Sse4, Target::Avx1, Target::Avx1_1, Target::Avx2],
        }
    }

    /// Returns the resolved target list, as `spec_targets` describes.
    pub fn get_targets(&self) -> (r: Vec<Target>)
        ensures
            r@ == self.spec_targets(),
    {
        match &self.targets {
            Some(ts) => {
                let r = ts.clone();
                proof {
                    assert(r@ =~= ts@);
                }
                r
            },
            None => {
                let mut r: Vec<Target> = Vec::new();
                r.push(Target::Sse2);
                r.push(Target::Sse4);
                r.push(Target::Avx1);
                r.push(Target::Avx1_1);
                r.push(Target::Avx2);
                proof {
                    assert(r@ =~= self.spec_targets());
                }
                r
            },
        }
    }

    /// The view of one recorded definition: its name and optional value.
    pub open spec fn spec_def(d: (String, Option<String>)) -> (Seq<char>, Option<Seq<char>>) {
        (
            d.0@,
            match d.1 {
                Some(v) => Some(v@),
                None => None,
            },
        )
    }

    /// Returns a copy of the recorded preprocessor definitions, in order.
    pub fn get_defs(&self) -> (r: Vec<(String, Option<String>)>)
        ensures
            r@.map_values(|d: (String, Option<String>)| Config::spec_def(d))
                == self.definitions@.map_values(|d: (String, Option<String>)| Config::spec_def(d)),
    {
        let mut r: Vec<(String, Option<String>)> = Vec::new();
        let mut i: usize = 0;
        while i < self.definitions.len()
            invariant
                0 <= i <= self.definitions@.len(),
                r@.len() == i,
                forall|j: int|
                    0 <= j < i ==> #[trigger] Config::spec_def(r@[j]) == Config::spec_def(
                        self.definitions@[j],
                    ),
            decreases self.definitions@.len() - i,
        {
            let d = &self.definitions[i];
            let v: Option<String> = match &d.1 {
                Some(s) => Some(s.clone()),
                None => None,
            };
            r.push((d.0.clone(), v));
            i += 1;
        }
        proof {
            assert(r@.map_values(|d: (String, Option<String>)| Config::spec_def(d)) =~= self
                .definitions@.map_values(|d: (String, Option<String>)| Config::spec_def(d)));
        }
        r
    }
}

/// The names of a CPU list, in order.
pub open spec fn cpu_names(cs: Seq<Cpu>) -> Seq<Seq<char>> {
    cs.map_values(|c: Cpu| c.spec_name())
}

/// The names of a target list, in order.
pub open spec fn target_names(ts: Seq<Target>) -> Seq<Seq<char>> {
    ts.map_values(|t: Target| t.spec_name())
}

/// The flag for a comma-joined list: the prefix, then the items joined with
/// commas; an empty list gives the empty string.
pub open spec fn prefixed_join(prefix: Seq<char>, items: Seq<Seq<char>>) -> Seq<char> {
    if items.len() == 0 {
        Seq::empty()
    } else {
        prefix + join_commas(items)
    }
}

impl Config {
    /// The addressing-mode flag, when one was chosen.
    pub open spec fn spec_addr_args(self) -> Seq<Seq<char>> {
        match self.addressing {
            None => Seq::empty(),
            Some(Addr::A32) => seq!["--addressing=32"@],
            Some(Addr::A64) => seq!["--addressing=64"@],
        }
    }

    /// The architecture flag, always present.
    pub open spec fn spec_arch_arg(a: Arch) -> Seq<char> {
        match a {
            Arch::X86 => "--arch=x86"@,
            Arch::X86_64 => "--arch=x86_64"@,
        }
    }

    /// The comma-joined CPU flag, present only when a CPU set was recorded.
    pub open spec fn spec_cpu_args(self) -> Seq<Seq<char>> {
        match self.cpu {
            None => Seq::empty(),
            Some(cs) => seq![prefixed_join("--cpu="@, cpu_names(cs@))],
        }
    }

    /// One definition flag: `-D` and the name, with `=` and the value when
    /// one was recorded.
    pub open spec fn spec_def_arg(d: (String, Option<String>)) -> Seq<char> {
        match d.1 {
            None => "-D"@ + d.0@,
            Some(v) => "-D"@ + d.0@ + "="@ + v@,
        }
    }

    /// The definition flags, one per recorded definition, in order.
    pub open spec fn spec_def_args(defs: Seq<(String, Option<String>)>) -> Seq<Seq<char>> {
        defs.map_values(|d: (String, Option<String>)| Config::spec_def_arg(d))
    }

    /// The alignment-override flag, when one was chosen.
    pub open spec fn spec_align_args(self) -> Seq<Seq<char>> {
        match self.force_alignment {
            None => Seq::empty(),
            Some(a) => seq!["--force-alignment="@ + dec_digits(a as nat)],
        }
    }

    /// The feature-toggle flags: each appears exactly when the toggle
    /// deviates from its default.
    pub open spec fn spec_toggle_args(self) -> Seq<Seq<char>> {
        (if !self.assertations {
            seq!["--opt=disable-assertations"@]
        } else {
            Seq::empty()
        }) + (if !self.fma {
            seq!["--opt=disable-fma"@]
        } else {
            Seq::empty()
        }) + (if !self.loop_unroll {
            seq!["--opt=disable-loop-unroll"@]
        } else {
            Seq::empty()
        }) + (if self.fast_masked_vload {
            seq!["--opt=fast-masked-vload"@]
        } else {
            Seq::empty()
        }) + (if self.fast_math {
            seq!["--opt=fast-math"@]
        } else {
            Seq::empty()
        }) + (if self.force_aligned_memory {
            seq!["--arg=fast-aligned-memory"@]
        } else {
            Seq::empty()
        })
    }

    /// The warning flags: warnings-as-errors when chosen, warnings-off when
    /// warnings are disabled, performance-warnings-off when those are.
    pub open spec fn spec_warn_args(self) -> Seq<Seq<char>> {
        (if self.werror {
            seq!["--werror"@]
        } else {
            Seq::empty()
        }) + (if !self.warnings {
            seq!["--woff"@]
        } else {
            Seq::empty()
        }) + (if !self.wperf {
            seq!["--wno-perf"@]
        } else {
            Seq::empty()
        })
    }

    /// The full canonical argument list for a configuration whose
    /// environment-driven options resolved to the given values.
    pub open spec fn spec_args_resolved(self, arch: Arch, debug: bool, opt: u32, pic: bool) -> Seq<
        Seq<char>,
    > {
        self.spec_addr_args() + seq![Config::spec_arch_arg(arch)] + seq!["--colored-output"@]
            + self.spec_cpu_args() + Config::spec_def_args(self.definitions@) + seq!["--emit-obj"@]
            + self.spec_align_args() + (if debug {
            seq!["-g"@]
        } else {
            Seq::empty()
        }) + seq!["--math-lib="@ + self.math_lib.spec_name()] + seq!["-O"@ + dec_digits(opt as nat)]
            + self.spec_toggle_args() + (if pic {
            seq!["--pic"@]
        } else {
            Seq::empty()
        }) + seq![prefixed_join("--target="@, target_names(self.spec_targets()))]
            + self.spec_warn_args()
    }

    /// The compiler binary to run: the environment override, or the default
    /// binary name.
    pub open spec fn spec_binary(env: Env) -> Seq<char> {
        match env.ispc {
            Some(p) => p@,
            None => "ispc"@,
        }
    }

    /// The full canonical argument list after resolution, or `None` when any
    /// environment-driven option fails to resolve.
    pub open spec fn spec_basic_args(self, env: Env) -> Option<Seq<Seq<char>>> {
        if self.spec_arch(env) is Some && self.spec_debug(env) is Some && self.spec_opt_level(env)
            is Some && self.spec_pic(env) is Some {
            Some(
                self.spec_args_resolved(
                    self.spec_arch(env)->Some_0,
                    self.spec_debug(env)->Some_0,
                    self.spec_opt_level(env)->Some_0,
                    self.spec_pic(env)->Some_0,
                ),
            )
        } else {
            None
        }
    }

    /// Appends the addressing-mode flag, when one was chosen.
    fn push_addr_args(&self, t: &mut Tool)
        ensures
            final(t).path == old(t).path,
            final(t).envs == old(t).envs,
            final(t).args.deep_view() == old(t).args.deep_view() + self.spec_addr_args(),
    {
        match &self.addressing {
            Some(Addr::A32) => t.arg("--addressing=32"),
            Some(Addr::A64) => t.arg("--addressing=64"),
            None => {},
        }
        proof {
            assert(t.args.deep_view() =~~= old(t).args.deep_view() + self.spec_addr_args());
        }
    }

    /// Appends the comma-joined CPU flag, when a CPU set was recorded.
    fn push_cpu_args(&self, t: &mut Tool)
        ensures
            final(t).path == old(t).path,
            final(t).envs == old(t).envs,
            final(t).args.deep_view() == old(t).args.deep_view() + self.spec_cpu_args(),
    {
        match &self.cpu {
            None => {
                proof {
                    assert(t.args.deep_view() =~~= old(t).args.deep_view() + self.spec_cpu_args());
                }
            },
            Some(cs) => {
                let mut cpu_s = String::new();
                let mut i: usize = 0;
                while i < cs.len()
                    invariant
                        0 <= i <= cs@.len(),
                        i == 0 ==> cpu_s@ == Seq::<char>::empty(),
                        i > 0 ==> cpu_s@ == "--cpu="@ + join_commas(cpu_names(cs@.take(i as int))),
                    decreases cs@.len() - i,
                {
                    if i == 0 {
                        cpu_s.append("--cpu=");
                    } else {
                        cpu_s.append(",");
                    }
                    cpu_s.append(cs[i].to_str());
                    proof {
                        reveal_strlit(",");
                        assert(cpu_names(cs@.take(i + 1)) =~~= cpu_names(cs@.take(i as int)).push(
                            cs@[i as int].spec_name(),
                        ));
                        if i > 0 {
                            lemma_join_push(
                                cpu_names(cs@.take(i as int)),
                                cs@[i as int].spec_name(),
                            );
                            assert(cpu_s@ =~= "--cpu="@ + join_commas(
                                cpu_names(cs@.take(i + 1)),
                            ));
                        } else {
                            assert(cpu_names(cs@.take(1int)).len() == 1);
                            assert(join_commas(cpu_names(cs@.take(1int))) == cpu_names(
                                cs@.take(1int),
                            )[0]);
                            assert(cpu_s@ =~= "--cpu="@ + join_commas(
                                cpu_names(cs@.take(1int)),
                            ));
                        }
                    }
                    i += 1;
                }
                proof {
                    assert(cs@.take(cs@.len() as int) =~= cs@);
                    if cs@.len() == 0 {
                        assert(cpu_s@ =~= prefixed_join("--cpu="@, cpu_names(cs@)));
                    } else {
                        assert(cpu_s@ == prefixed_join("--cpu="@, cpu_names(cs@)));
                    }
                }
                t.arg(cpu_s.as_str());
                proof {
                    assert(t.args.deep_view() =~~= old(t).args.deep_view()
                        + self.spec_cpu_args());
                }
            },
        }
    }

    /// Appends the definition flags, one per recorded definition, in order.
    fn push_def_args(&self, t: &mut Tool)
        ensures
            final(t).path == old(t).path,
            final(t).envs == old(t).envs,
            final(t).args.deep_view() == old(t).args.deep_view() + Config::spec_def_args(
                self.definitions@,
            ),
    {
        let mut i: usize = 0;
        while i < self.definitions.len()
            invariant
                0 <= i <= self.definitions@.len(),
                t.path == old(t).path,
                t.envs == old(t).envs,
                t.args.deep_view() == old(t).args.deep_view() + Config::spec_def_args(
                    self.definitions@.take(i as int),
                ),
            decreases self.definitions@.len() - i,
        {
            let d = &self.definitions[i];
            let mut a = "-D".to_owned();
            a.append(d.0.as_str());
            match &d.1 {
                Some(v) => {
                    a.append("=");
                    a.append(v.as_str());
                },
                None => {},
            }
            t.arg(a.as_str());
            proof {
                assert(a@ =~= Config::spec_def_arg(self.definitions@[i as int]));
                assert(Config::spec_def_args(self.definitions@.take(i + 1))
                    =~~= Config::spec_def_args(self.definitions@.take(i as int)).push(
                    Config::spec_def_arg(self.definitions@[i as int]),
                ));
                assert(t.args.deep_view() =~~= old(t).args.deep_view() + Config::spec_def_args(
                    self.definitions@.take(i + 1),
                ));
            }
            i += 1;
        }
        proof {
            assert(self.definitions@.take(self.definitions@.len() as int) =~= self.definitions@);
        }
    }

    /// Appends the alignment-override flag, when one was chosen.
    fn push_align_args(&self, t: &mut Tool)
        ensures
            final(t).path == old(t).path,
            final(t).envs == old(t).envs,
            final(t).args.deep_view() == old(t).args.deep_view() + self.spec_align_args(),
    {
        match &self.force_alignment {
            Some(align) => {
                let mut a = "--force-alignment=".to_owned();
                let rendered = u32_to_dec(*align);
                a.append(rendered.as_str());
                t.arg(a.as_str());
            },
            None => {},
        }
        proof {
            assert(t.args.deep_view() =~~= old(t).args.deep_view() + self.spec_align_args());
        }
    }

    /// Appends the feature-toggle flags that deviate from their defaults.
    fn push_toggle_args(&self, t: &mut Tool)
        ensures
            final(t).path == old(t).path,
            final(t).envs == old(t).envs,
            final(t).args.deep_view() == old(t).args.deep_view() + self.spec_toggle_args(),
    {
        if !self.assertations {
            t.arg("--opt=disable-assertations");
        }
        if !self.fma {
            t.arg("--opt=disable-fma");
        }
        if !self.loop_unroll {
            t.arg("--opt=disable-loop-unroll");
        }
        if self.fast_masked_vload {
            t.arg("--opt=fast-masked-vload");
        }
        if self.fast_math {
            t.arg("--opt=fast-math");
        }
        if self.force_aligned_memory {
            t.arg("--arg=fast-aligned-memory");
        }
        proof {
            assert(t.args.deep_view() =~~= old(t).args.deep_view() + self.spec_toggle_args());
        }
    }

    /// Appends the comma-joined target flag, always present.
    fn push_target_args(&self, t: &mut Tool)
        ensures
            final(t).path == old(t).path,
            final(t).envs == old(t).envs,
            final(t).args.deep_view() == old(t).args.deep_view() + seq![
                prefixed_join("--target="@, target_names(self.spec_targets())),
            ],
    {
        let ts = self.get_targets();
        let mut target_s = String::new();
        let mut i: usize = 0;
        while i < ts.len()
            invariant
                0 <= i <= ts@.len(),
                ts@ == self.spec_targets(),
                i == 0 ==> target_s@ == Seq::<char>::empty(),
                i > 0 ==> target_s@ == "--target="@ + join_commas(
                    target_names(ts@.take(i as int)),
                ),
            decreases ts@.len() - i,
        {
            if i == 0 {
                target_s.append("--target=");
            } else {
                target_s.append(",");
            }
            target_s.append(ts[i].to_str());
            proof {
                reveal_strlit(",");
                assert(target_names(ts@.take(i + 1)) =~~= target_names(ts@.take(i as int)).push(
                    ts@[i as int].spec_name(),
                ));
                if i > 0 {
                    lemma_join_push(target_names(ts@.take(i as int)), ts@[i as int].spec_name());
                    assert(target_s@ =~= "--target="@ + join_commas(
                        target_names(ts@.take(i + 1)),
                    ));
                } else {
                    assert(target_names(ts@.take(1int)).len() == 1);
                    assert(join_commas(target_names(ts@.take(1int))) == target_names(
                        ts@.take(1int),
                    )[0]);
                    assert(target_s@ =~= "--target="@ + join_commas(
                        target_names(ts@.take(1int)),
                    ));
                }
            }
            i += 1;
        }
        proof {
            assert(ts@.take(ts@.len() as int) =~= ts@);
            if ts@.len() == 0 {
                assert(target_s@ =~= prefixed_join("--target="@, target_names(ts@)));
            } else {
                assert(target_s@ == prefixed_join("--target="@, target_names(ts@)));
            }
        }
        t.arg(target_s.as_str());
        proof {
            assert(t.args.deep_view() =~~= old(t).args.deep_view() + seq![
                prefixed_join("--target="@, target_names(self.spec_targets())),
            ]);
        }
    }

    /// Appends the warning flags.
    fn push_warn_args(&self, t: &mut Tool)
        ensures
            final(t).path == old(t).path,
            final(t).envs == old(t).envs,
            final(t).args.deep_view() == old(t).args.deep_view() + self.spec_warn_args(),
    {
        if self.werror {
            t.arg("--werror");
        }
        if !self.warnings {
            t.arg("--woff");
        }
        if !self.wperf {
            t.arg("--wno-perf");
        }
        proof {
            assert(t.args.deep_view() =~~= old(t).args.deep_view() + self.spec_warn_args());
        }
    }

    /// Translates this configuration into the compiler invocation: the
    /// resolved binary and the canonical ordered argument list, exactly as
    /// `spec_basic_args` describes; any failed resolution is an
    /// `EnvironmentError`.
    #[verifier::rlimit(100)]
    pub fn basic_tool(&self, env: &Env) -> (r: Result<Tool, BuildError>)
        ensures
            match r {
                Ok(t) => self.spec_basic_args(*env) == Some(t.args.deep_view()) && t.path@
                    == Config::spec_binary(*env) && t.envs@.len() == 0,
                Err(e) => self.spec_basic_args(*env) is None && e is EnvironmentError,
            },
    {
        let arch = match self.get_arch(env) {
            Ok(a) => a,
            Err(e) => {
                return Err(e);
            },
        };
        let debug = match self.get_debug(env) {
            Ok(b) => b,
            Err(e) => {
                return Err(e);
            },
        };
        let opt = match self.get_opt_level(env) {
            Ok(l) => l,
            Err(e) => {
                return Err(e);
            },
        };
        let pic = match self.get_pic(env) {
            Ok(b) => b,
            Err(e) => {
                return Err(e);
            },
        };
        let mut t = Tool::new(
            match &env.ispc {
                Some(p) => p.clone(),
                None => "ispc".to_owned(),
            },
        );
        let ghost mut acc: Seq<Seq<char>> = Seq::empty();
        proof {
            assert(t.args.deep_view() =~~= acc);
        }

        self.push_addr_args(&mut t);
        proof {
            assert(Seq::<Seq<char>>::empty() + self.spec_addr_args() =~~= self.spec_addr_args());
            acc = self.spec_addr_args();
        }
        match arch {
            Arch::X86 => t.arg("--arch=x86"),
            Arch::X86_64 => t.arg("--arch=x86_64"),
        }
        proof {
            assert(t.args.deep_view() =~~= acc + seq![Config::spec_arch_arg(arch)]);
            acc = acc + seq![Config::spec_arch_arg(arch)];
        }
        t.arg("--colored-output");
        proof {
            assert(t.args.deep_view() =~~= acc + seq!["--colored-output"@]);
            acc = acc + seq!["--colored-output"@];
        }
        self.push_cpu_args(&mut t);
        proof {
            acc = acc + self.spec_cpu_args();
        }
        self.push_def_args(&mut t);
        proof {
            acc = acc + Config::spec_def_args(self.definitions@);
        }
        t.arg("--emit-obj");
        proof {
            assert(t.args.deep_view() =~~= acc + seq!["--emit-obj"@]);
            acc = acc + seq!["--emit-obj"@];
        }
        self.push_align_args(&mut t);
        proof {
            acc = acc + self.spec_align_args();
        }
        if debug {
            t.arg("-g");
        }
        proof {
            assert(t.args.deep_view() =~~= acc + (if debug {
                seq!["-g"@]
            } else {
                Seq::<Seq<char>>::empty()
            }));
            acc = acc + (if debug {
                seq!["-g"@]
            } else {
                Seq::<Seq<char>>::empty()
            });
        }
        let mut math_s = "--math-lib=".to_owned();
        math_s.append(self.math_lib.to_str());
        t.arg(math_s.as_str());
        proof {
            assert(t.args.deep_view() =~~= acc + seq!["--math-lib="@ + self.math_lib.spec_name()]);
            acc = acc + seq!["--math-lib="@ + self.math_lib.spec_name()];
        }
        let mut opt_s = "-O".to_owned();
        let opt_rendered = u32_to_dec(opt);
        opt_s.append(opt_rendered.as_str());
        t.arg(opt_s.as_str());
        proof {
            assert(t.args.deep_view() =~~= acc + seq!["-O"@ + dec_digits(opt as nat)]);
            acc = acc + seq!["-O"@ + dec_digits(opt as nat)];
        }
        self.push_toggle_args(&mut t);
        proof {
            acc = acc + self.spec_toggle_args();
        }
        if pic {
            t.arg("--pic");
        }
        proof {
            assert(t.args.deep_view() =~~= acc + (if pic {
                seq!["--pic"@]
            } else {
                Seq::<Seq<char>>::empty()
            }));
            acc = acc + (if pic {
                seq!["--pic"@]
            } else {
                Seq::<Seq<char>>::empty()
            });
        }
        self.push_target_args(&mut t);
        proof {
            acc = acc + seq![prefixed_join("--target="@, target_names(self.spec_targets()))];
        }
        self.push_warn_args(&mut t);
        proof {
            acc = acc + self.spec_warn_args();
            assert(t.args.deep_view() == acc);
            assert(acc == self.spec_args_resolved(arch, debug, opt, pic));
        }
        Ok(t)
    }
}

/// Law: for any configured CPU list, joining the names with commas and
/// splitting the flag again yields back exactly the configured names, in
/// order.
pub proof fn lemma_cpu_list_roundtrip(cs: Seq<Cpu>)
    requires
        cs.len() >= 1,
    ensures
        split_commas(join_commas(cpu_names(cs))) == cpu_names(cs),
{
    assert forall|i: int| 0 <= i < cpu_names(cs).len() implies comma_free(
        #[trigger] cpu_names(cs)[i],
    ) by {
        lemma_cpu_name_well_formed(cs[i]);
    }
    lemma_join_split_roundtrip(cpu_names(cs));
}

/// Law: for any configured target list, joining the names with commas and
/// splitting the flag again yields back exactly the configured names, in
/// order.
pub proof fn lemma_target_list_roundtrip(ts: Seq<Target>)
    requires
        ts.len() >= 1,
    ensures
        split_commas(join_commas(target_names(ts))) == target_names(ts),
{
    assert forall|i: int| 0 <= i < target_names(ts).len() implies comma_free(
        #[trigger] target_names(ts)[i],
    ) by {
        lemma_target_name_well_formed(ts[i]);
    }
    lemma_join_split_roundtrip(target_names(ts));
}

/// Law: the resolved optimization level never exceeds 3; an explicit level in
/// `[0, 3]` passes through unchanged, and an explicit level above 3 resolves
/// to exactly 3.
pub proof fn lemma_opt_level_clamped(c: Config, env: Env)
    ensures
        c.spec_opt_level(env) matches Some(l) ==> l <= 3,
        c.opt_level matches Some(l) ==> c.spec_opt_level(env) == Some(clamp3(l)) && (l <= 3 ==> clamp3(
            l,
        ) == l) && (l > 3 ==> clamp3(l) == 3u32),
{
}

/// Law: with no explicit choice, the position-independent-code flag resolves
/// to true exactly when the resolved architecture is 64-bit.
pub proof fn lemma_pic_follows_arch(c: Config, env: Env)
    requires
        c.pic is None,
    ensures
        c.spec_arch(env) == Some(Arch::X86_64) ==> c.spec_pic(env) == Some(true),
        c.spec_arch(env) == Some(Arch::X86) ==> c.spec_pic(env) == Some(false),
{
}

/// The archive name is of the form `lib<name>.a`.
pub open spec fn valid_output_name(s: Seq<char>) -> bool {
    &&& s.len() >= 3
    &&& s.subrange(0, 3) == "lib"@
    &&& s.subrange(s.len() - 2, s.len() as int) == ".a"@
}

/// Decides whether the archive name is of the form `lib<name>.a`, as
/// `valid_output_name` describes.
pub fn check_output_name(output: &str) -> (r: bool)
    ensures
        r == valid_output_name(output@),
{
    proof {
        reveal_strlit("lib");
        reveal_strlit(".a");
    }
    let len = output.unicode_len();
    let ok = len >= 3 && output.get_char(0) == 'l' && output.get_char(1) == 'i' && output.get_char(
        2,
    ) == 'b' && output.get_char(len - 2) == '.' && output.get_char(len - 1) == 'a';
    proof {
        if ok {
            assert(output@.subrange(0, 3) =~= "lib"@);
            assert(output@.subrange(output@.len() - 2, output@.len() as int) =~= ".a"@);
        } else {
            if valid_output_name(output@) {
                assert(output@[0] == output@.subrange(0, 3)[0]);
                assert(output@[1] == output@.subrange(0, 3)[1]);
                assert(output@[2] == output@.subrange(0, 3)[2]);
                assert(output@[output@.len() - 2] == output@.subrange(
                    output@.len() - 2,
                    output@.len() as int,
                )[0]);
                assert(output@[output@.len() - 1] == output@.subrange(
                    output@.len() - 2,
                    output@.len() as int,
                )[1]);
                assert(false);
            }
        }
    }
    ok
}

/// The destination object path for one source file: the file joined onto the
/// output directory, with its extension replaced by `o`.
pub open spec fn spec_object_path(out_dir: Seq<char>, file: Seq<char>) -> Seq<char> {
    spec_with_ext_o(spec_join(out_dir, file))
}

/// Everything the driver must do for one source file: run the invocation,
/// then probe the candidate paths for what the compiler wrote.
#[derive(PartialEq, Eq, Hash, Debug)]
pub struct SourcePlan {
    /// The source file, as configured (also the subject of the driver's
    /// rebuild-dependency log line).
    pub source: String,
    /// The expected base object path; its parent directory must exist before
    /// the invocation runs.
    pub object: String,
    /// The full compiler invocation for this file.
    pub invocation: Tool,
    /// The candidate object paths to probe after a successful run.
    pub candidates: Vec<String>,
}

/// The whole resolved build: one invocation-and-probe step per source file,
/// and the validated archive name for the union of discovered objects.
#[derive(PartialEq, Eq, Hash, Debug)]
pub struct BuildPlan {
    /// The validated archive name.
    pub output: String,
    /// One step per configured source file, in order.
    pub steps: Vec<SourcePlan>,
}

/// One plan step is exactly what the configuration and environment dictate
/// for the given source file: the resolved binary, the canonical arguments
/// followed by the source path, `-o` and the object path, and the six
/// candidate object paths.
pub open spec fn spec_step_ok(step: SourcePlan, c: Config, env: Env, file: Seq<char>) -> bool {
    let obj = spec_object_path(env.out_dir->Some_0@, file);
    &&& step.source@ == file
    &&& step.object@ == obj
    &&& step.invocation.path@ == Config::spec_binary(env)
    &&& c.spec_basic_args(env) matches Some(args) && step.invocation.args.deep_view() == args
        + seq![file, "-o"@, obj]
    &&& step.invocation.envs@.len() == 0
    &&& step.candidates.deep_view() == spec_candidates(obj, spec_file_stem(file))
}

/// What planning a build returns: a full plan exactly when the archive name
/// is valid, the output directory is known and every environment-driven
/// option resolves; a `ConfigurationError` for a bad archive name, checked
/// before anything else; an `EnvironmentError` otherwise.
pub open spec fn spec_plan_result(
    c: Config,
    env: Env,
    output: Seq<char>,
    r: Result<BuildPlan, BuildError>,
) -> bool {
    match r {
        Ok(plan) => {
            &&& valid_output_name(output)
            &&& env.out_dir is Some
            &&& c.spec_basic_args(env) is Some
            &&& plan.output@ == output
            &&& plan.steps@.len() == c.files@.len()
            &&& forall|i: int|
                0 <= i < c.files@.len() ==> spec_step_ok(
                    #[trigger] plan.steps@[i],
                    c,
                    env,
                    c.files@[i]@,
                )
        },
        Err(e) => {
            ||| !valid_output_name(output) && e is ConfigurationError
            ||| valid_output_name(output) && (env.out_dir is None || c.spec_basic_args(env)
                is None) && e is EnvironmentError
        },
    }
}

impl Config {
    /// Resolves the whole build into a plan: validates the archive name
    /// first, then resolves the environment-driven options once, and lays out
    /// one invocation-and-probe step per source file, as `spec_plan_result`
    /// describes. No process is spawned here; the unverified driver executes
    /// the plan.
    pub fn compile_plan(&self, env: &Env, output: &str) -> (r: Result<BuildPlan, BuildError>)
        ensures
            spec_plan_result(*self, *env, output@, r),
    {
        if !check_output_name(output) {
            return Err(
                BuildError::ConfigurationError(
                    "the archive name must be of the form lib<name>.a".to_owned(),
                ),
            );
        }
        let out_dir = match &env.out_dir {
            Some(d) => d.clone(),
            None => {
                return Err(
                    BuildError::EnvironmentError(
                        "environment variable `OUT_DIR` not defined".to_owned(),
                    ),
                );
            },
        };
        match self.basic_tool(env) {
            Ok(_) => {},
            Err(e) => {
                return Err(e);
            },
        }
        let mut steps: Vec<SourcePlan> = Vec::new();
        let mut i: usize = 0;
        while i < self.files.len()
            invariant
                0 <= i <= self.files@.len(),
                valid_output_name(output@),
                env.out_dir matches Some(d) && out_dir@ == d@,
                self.spec_basic_args(*env) is Some,
                steps@.len() == i,
                forall|j: int|
                    0 <= j < i ==> spec_step_ok(#[trigger] steps@[j], *self, *env, self.files@[j]@),
            decreases self.files@.len() - i,
        {
            let file = &self.files[i];
            let base = match self.basic_tool(env) {
                Ok(t) => t,
                Err(e) => {
                    return Err(e);
                },
            };
            let joined = join_path(out_dir.as_str(), file.as_str());
            let obj = with_extension_o(joined.as_str());
            let stem = file_stem(file.as_str());
            let cands = object_candidates(obj.as_str(), stem.as_str());
            let mut inv = base;
            inv.arg(file.as_str());
            inv.arg("-o");
            inv.arg(obj.as_str());
            proof {
                let args = self.spec_basic_args(*env)->Some_0;
                assert(inv.args.deep_view() =~~= args + seq![
                    file@,
                    "-o"@,
                    spec_object_path(env.out_dir->Some_0@, file@),
                ]);
            }
            let step = SourcePlan { source: file.clone(), object: obj, invocation: inv, candidates: cands };
            steps.push(step);
            i += 1;
        }
        Ok(BuildPlan { output: output.to_owned(), steps })
    }
}

/// Whether a configuration holds the defaults in every option, leaving only
/// the source file list free.
pub open spec fn spec_default_but_files(c: Config) -> bool {
    &&& c.addressing is None
    &&& c.architecture is None
    &&& c.cpu is None
    &&& c.definitions@.len() == 0
    &&& c.force_alignment is None
    &&& c.debug is None
    &&& c.math_lib == Math::Default
    &&& c.opt_level is None
    &&& c.assertations
    &&& c.fma
    &&& c.loop_unroll
    &&& !c.fast_masked_vload
    &&& !c.fast_math
    &&& !c.force_aligned_memory
    &&& c.pic is None
    &&& c.targets is None
    &&& !c.werror
    &&& c.warnings
    &&& c.wperf
}

/// Plans a library build from the given source files with a default
/// configuration: the result is exactly what `compile_plan` returns for a
/// blank configuration holding those files.
pub fn compile_library(output: &str, files: &[&str], env: &Env) -> (r: Result<
    BuildPlan,
    BuildError,
>)
    ensures
        exists|c: Config|
            #[trigger] spec_plan_result(c, *env, output@, r) && spec_default_but_files(c)
                && c.files.deep_view() == files.deep_view(),
{
    let mut c = Config::new();
    let mut i: usize = 0;
    while i < files.len()
        invariant
            0 <= i <= files@.len(),
            spec_default_but_files(c),
            c.files.deep_view() == files.deep_view().take(i as int),
        decreases files@.len() - i,
    {
        c.file(files[i]);
        proof {
            assert(c.files.deep_view() =~~= files.deep_view().take(i + 1));
        }
        i += 1;
    }
    proof {
        assert(files.deep_view().take(files.deep_view().len() as int) =~~= files.deep_view());
    }
    let r = c.compile_plan(env, output);
    proof {
        assert(spec_plan_result(c, *env, output@, r) && spec_default_but_files(c)
            && c.files.deep_view() == files.deep_view());
    }
    r
}

} // verus!
