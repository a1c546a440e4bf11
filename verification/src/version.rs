//! The version descriptor: its assembly from the probed facts, the
//! target-platform override, and its two canonical renderings.

use vstd::prelude::*;

use crate::platform::platform_find;
use crate::platform::platform_lookup;
use crate::probe::ProbeOutcome;
use crate::probe::compiler_version;
use crate::source::SourceVersion;

verus! {

/// Whether the running artifact was compiled with debug checks or as a
/// release build.
pub enum CompilerMode {
    Debug,
    Release,
}

impl CompilerMode {
    /// The label of the mode: `"debug"` or `"release"`.
    pub open spec fn label_spec(self) -> Seq<char> {
        match self {
            CompilerMode::Debug => "debug"@,
            CompilerMode::Release => "release"@,
        }
    }

    /// The label of the mode, as a string slice.
    pub fn simple(&self) -> (r: &'static str)
        ensures
            r@ == self.label_spec(),
    {
        match self {
            CompilerMode::Debug => "debug",
            CompilerMode::Release => "release",
        }
    }

    /// The mode of the running artifact, from whether debug checks were
    /// compiled into it; the caller reports that compile-time fact.
    pub fn guess(debug_build: bool) -> (r: Self)
        ensures
            r == (if debug_build {
                CompilerMode::Debug
            } else {
                CompilerMode::Release
            }),
    {
        if debug_build {
            CompilerMode::Debug
        } else {
            CompilerMode::Release
        }
    }
}

/// The profile label takes exactly one of two values, whatever the mode.
pub proof fn lemma_profile_label_debug_or_release(m: CompilerMode)
    ensures
        m.label_spec() == "debug"@ || m.label_spec() == "release"@,
{
}

/// A structured version descriptor for one build of a package: the
/// package's name and version, the source-control state of its checkout,
/// the build profile, the normalized target platform, and the toolchain's
/// self-reported version. Fully populated on construction and read-only
/// afterward.
pub struct Version {
    pub crate_name: String,
    pub crate_version: String,
    pub source_version: SourceVersion,
    pub compiler_mode: CompilerMode,
    pub os: String,
    pub arch: String,
    pub compiler_version: String,
}

impl Version {
    /// The simple rendering: `"<name> <version>"`, with the source-control
    /// suffix (`"-<hash>"`, `"+"`-terminated when dirty) when the checkout
    /// is tracked.
    pub open spec fn simple_spec(self) -> Seq<char> {
        self.crate_name@ + " "@ + self.crate_version@ + self.source_version.simple_spec()
    }

    /// The full rendering:
    /// `"<name> <version> (<source-detail>, <profile>, <os> [<arch>]) - [<toolchain>]"`,
    /// whose source-detail segment is left visibly empty when the checkout
    /// is not tracked.
    pub open spec fn full_spec(self) -> Seq<char> {
        self.crate_name@ + " "@ + self.crate_version@ + " ("@ + self.source_version.full_spec()
            + ", "@ + self.compiler_mode.label_spec() + ", "@ + self.os@ + " ["@ + self.arch@
            + "]) - ["@ + self.compiler_version@ + "]"@
    }

    /// Assemble the descriptor from the probed facts: the source-control
    /// state, the build profile, the host's platform identifiers, the
    /// toolchain probe's outcome, and an optional target-triple override,
    /// which rewrites the platform identifiers only when the triple is a
    /// recognized platform.
    pub fn new(
        crate_name: String,
        crate_version: String,
        source_version: SourceVersion,
        compiler_mode: CompilerMode,
        os: String,
        arch: String,
        compiler: ProbeOutcome,
        target: Option<&str>,
    ) -> (v: Self)
        requires
            !compiler.is_unexpected(),
        ensures
            v.crate_name@ == crate_name@,
            v.crate_version@ == crate_version@,
            v.source_version == source_version,
            v.compiler_mode == compiler_mode,
            match compiler.text() {
                Some(t) => v.compiler_version@ == t,
                None => v.compiler_version@ == "N/A"@,
            },
            match target {
                Some(t) => match platform_lookup(t@) {
                    Some(p) => v.os@ == p.0 && v.arch@ == p.1,
                    None => v.os@ == os@ && v.arch@ == arch@,
                },
                None => v.os@ == os@ && v.arch@ == arch@,
            },
    {
        let v = Version {
            crate_name,
            crate_version,
            source_version,
            compiler_mode,
            os,
            arch,
            compiler_version: compiler_version(compiler),
        };
        match target {
            Some(t) => v.with_target(t),
            None => v,
        }
    }

    /// Rewrite the platform identifiers from a target triple: a recognized
    /// triple sets `os` and `arch` to the platform table's values, an
    /// unrecognized one leaves the descriptor unchanged.
    pub fn with_target(self, target: &str) -> (r: Self)
        ensures
            r.crate_name == self.crate_name,
            r.crate_version == self.crate_version,
            r.source_version == self.source_version,
            r.compiler_mode == self.compiler_mode,
            r.compiler_version == self.compiler_version,
            match platform_lookup(target@) {
                Some(p) => r.os@ == p.0 && r.arch@ == p.1,
                None => r.os == self.os && r.arch == self.arch,
            },
    {
        let mut v = self;
        match platform_find(target) {
            Some(os_arch) => {
                let (os, arch) = os_arch;
                v.os = os;
                v.arch = arch;
            },
            None => {},
        }
        v
    }

    /// The simple rendering, as a string.
    pub fn simple(&self) -> (r: String)
        ensures
            r@ == self.simple_spec(),
    {
        let mut s = self.crate_name.clone();
        s.append(" ");
        s.append(self.crate_version.as_str());
        let suffix = self.source_version.simple();
        s.append(suffix.as_str());
        proof {
            assert(s@ =~= self.simple_spec());
        }
        s
    }

    /// The short commit hash of the checkout, or `"N/A"` when it is not
    /// tracked.
    pub fn hash(&self) -> (r: String)
        ensures
            r@ == self.source_version.hash_spec(),
    {
        self.source_version.hash()
    }

    /// The full rendering, as a string.
    pub fn full(&self) -> (r: String)
        ensures
            r@ == self.full_spec(),
    {
        let mut s = self.crate_name.clone();
        s.append(" ");
        s.append(self.crate_version.as_str());
        s.append(" (");
        let detail = self.source_version.full();
        s.append(detail.as_str());
        s.append(", ");
        s.append(self.compiler_mode.simple());
        s.append(", ");
        s.append(self.os.as_str());
        s.append(" [");
        s.append(self.arch.as_str());
        s.append("]) - [");
        s.append(self.compiler_version.as_str());
        s.append("]");
        proof {
            assert(s@ =~= self.full_spec());
        }
        s
    }
}

/// Rendering is a function of the recorded facts alone: two descriptors
/// that record the same package, source state, profile, platform and
/// toolchain render identically, in both formats and in the hash
/// accessor.
pub proof fn lemma_rendering_deterministic(a: Version, b: Version)
    requires
        a.crate_name@ == b.crate_name@,
        a.crate_version@ == b.crate_version@,
        a.source_version.model() == b.source_version.model(),
        a.compiler_mode == b.compiler_mode,
        a.os@ == b.os@,
        a.arch@ == b.arch@,
        a.compiler_version@ == b.compiler_version@,
    ensures
        a.simple_spec() == b.simple_spec(),
        a.full_spec() == b.full_spec(),
        a.source_version.hash_spec() == b.source_version.hash_spec(),
{
    crate::source::lemma_source_rendering_deterministic(a.source_version, b.source_version);
}

} // verus!
