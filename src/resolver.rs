use vstd::prelude::*;

use crate::text::str_equal;

verus! {

/// The feature flags that tell the sub-variants of an architecture apart.
#[derive(Clone, Copy, Debug, PartialEq, Eq, Structural)]
pub struct FeatureFlags {
    /// The ARM v7 feature is present.
    pub arm_v7: bool,
    /// The ARM v6 feature is present.
    pub arm_v6: bool,
    /// The target stores words little-endian (consulted for mips64).
    pub little_endian: bool,
}

impl FeatureFlags {
    /// Flags that name no ARM feature, on a big-endian target.
    pub fn none() -> (r: FeatureFlags)
        ensures
            !r.arm_v7,
            !r.arm_v6,
            !r.little_endian,
    {
        FeatureFlags { arm_v7: false, arm_v6: false, little_endian: false }
    }
}

/// The architecture names that the resolver recognises.
pub open spec fn is_known_arch(name: Seq<char>) -> bool {
    name == "aarch64"@ || name == "arm"@ || name == "mips64"@ || name == "powerpc64"@
        || name == "riscv64"@ || name == "s390x"@ || name == "x86_64"@ || name == "x86"@
}

/// The platform identifier of an architecture name under the given flags,
/// or `None` for a name outside the known set. The first matching row wins,
/// so for `arm` the v7 flag is consulted before the v6 flag.
pub open spec fn platform_of(name: Seq<char>, flags: FeatureFlags) -> Option<Seq<char>> {
    if name == "aarch64"@ {
        Some("linux/arm64"@)
    } else if name == "arm"@ {
        if flags.arm_v7 {
            Some("linux/arm/v7"@)
        } else if flags.arm_v6 {
            Some("linux/arm/v6"@)
        } else {
            Some("linux/arm"@)
        }
    } else if name == "mips64"@ {
        if flags.little_endian {
            Some("linux/mips64le"@)
        } else {
            Some("linux/mips64"@)
        }
    } else if name == "powerpc64"@ {
        Some("linux/ppc64le"@)
    } else if name == "riscv64"@ {
        Some("linux/riscv64"@)
    } else if name == "s390x"@ {
        Some("linux/s390x"@)
    } else if name == "x86_64"@ {
        Some("linux/amd64"@)
    } else if name == "x86"@ {
        Some("linux/386"@)
    } else {
        None
    }
}

/// The view of an optional string.
pub open spec fn opt_view(o: Option<&str>) -> Option<Seq<char>> {
    match o {
        Some(s) => Some(s@),
        None => None,
    }
}

/// Resolves an architecture name and its feature flags to a platform
/// identifier; `None` means the architecture is unknown.
pub fn get_architecture(name: &str, flags: FeatureFlags) -> (r: Option<&'static str>)
    ensures
        opt_view(r) == platform_of(name@, flags),
{
    if str_equal(name, "aarch64") {
        Some("linux/arm64")
    } else if str_equal(name, "arm") {
        if flags.arm_v7 {
            Some("linux/arm/v7")
        } else if flags.arm_v6 {
            Some("linux/arm/v6")
        } else {
            Some("linux/arm")
        }
    } else if str_equal(name, "mips64") {
        if flags.little_endian {
            Some("linux/mips64le")
        } else {
            Some("linux/mips64")
        }
    } else if str_equal(name, "powerpc64") {
        Some("linux/ppc64le")
    } else if str_equal(name, "riscv64") {
        Some("linux/riscv64")
    } else if str_equal(name, "s390x") {
        Some("linux/s390x")
    } else if str_equal(name, "x86_64") {
        Some("linux/amd64")
    } else if str_equal(name, "x86") {
        Some("linux/386")
    } else {
        None
    }
}

/// `arm` resolves to `linux/arm/v7` when the v7 flag is set (whatever the
/// v6 flag says), to `linux/arm/v6` when only the v6 flag is set, and to
/// `linux/arm` when neither is.
pub proof fn lemma_arm_variants(flags: FeatureFlags)
    ensures
        flags.arm_v7 ==> platform_of("arm"@, flags) == Some("linux/arm/v7"@),
        !flags.arm_v7 && flags.arm_v6 ==> platform_of("arm"@, flags) == Some("linux/arm/v6"@),
        !flags.arm_v7 && !flags.arm_v6 ==> platform_of("arm"@, flags) == Some("linux/arm"@),
{
    reveal_strlit("arm");
    reveal_strlit("aarch64");
    assert("arm"@.len() == 3 && "aarch64"@.len() == 7);
}

/// `mips64` resolves to `linux/mips64le` on a little-endian target and to
/// `linux/mips64` on a big-endian one.
pub proof fn lemma_mips64_endianness(flags: FeatureFlags)
    ensures
        flags.little_endian ==> platform_of("mips64"@, flags) == Some("linux/mips64le"@),
        !flags.little_endian ==> platform_of("mips64"@, flags) == Some("linux/mips64"@),
{
    reveal_strlit("mips64");
    reveal_strlit("aarch64");
    reveal_strlit("arm");
    assert("mips64"@.len() == 6 && "aarch64"@.len() == 7 && "arm"@.len() == 3);
}

/// `powerpc64`, `riscv64`, `s390x`, `x86_64` and `x86` each resolve to one
/// fixed platform, whatever the flags.
pub proof fn lemma_flag_free_names(flags: FeatureFlags, other: FeatureFlags)
    ensures
        platform_of("powerpc64"@, flags) == Some("linux/ppc64le"@),
        platform_of("riscv64"@, flags) == Some("linux/riscv64"@),
        platform_of("s390x"@, flags) == Some("linux/s390x"@),
        platform_of("x86_64"@, flags) == Some("linux/amd64"@),
        platform_of("x86"@, flags) == Some("linux/386"@),
        platform_of("powerpc64"@, flags) == platform_of("powerpc64"@, other),
        platform_of("riscv64"@, flags) == platform_of("riscv64"@, other),
        platform_of("s390x"@, flags) == platform_of("s390x"@, other),
        platform_of("x86_64"@, flags) == platform_of("x86_64"@, other),
        platform_of("x86"@, flags) == platform_of("x86"@, other),
{
    reveal_strlit("aarch64");
    reveal_strlit("arm");
    reveal_strlit("mips64");
    reveal_strlit("powerpc64");
    reveal_strlit("riscv64");
    reveal_strlit("s390x");
    reveal_strlit("x86_64");
    reveal_strlit("x86");
    assert("aarch64"@[0] == 'a' && "arm"@[0] == 'a' && "mips64"@[0] == 'm');
    assert("powerpc64"@.len() == 9 && "riscv64"@[0] == 'r' && "s390x"@[0] == 's');
    assert("x86_64"@.len() == 6 && "x86"@.len() == 3 && "x86"@[0] == 'x');
}

} // verus!
