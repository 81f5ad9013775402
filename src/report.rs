use vstd::prelude::*;
use vstd::string::StringExecFns;

use crate::resolver::{get_architecture, is_known_arch, opt_view, platform_of, FeatureFlags};

verus! {

/// What the command-line tool writes to standard output and the status
/// it exits with.
#[derive(Debug, PartialEq, Eq)]
pub struct Outcome {
    /// The whole text for standard output, line terminator included.
    pub output: String,
    /// The process exit status.
    pub exit_code: i32,
}

/// The line written when the architecture is not recognised.
pub open spec fn unknown_line() -> Seq<char> {
    "Architecture: Unknown"@
}

/// The text written to standard output for a resolved (or absent) platform.
pub open spec fn report_text(platform: Option<Seq<char>>) -> Seq<char> {
    match platform {
        Some(p) => p + "\n"@,
        None => unknown_line() + "\n"@,
    }
}

/// The exit status for a resolved (or absent) platform.
pub open spec fn exit_code_of(platform: Option<Seq<char>>) -> i32 {
    match platform {
        Some(_) => 0,
        None => 1,
    }
}

/// Turns the resolver's answer into the tool's output and exit status:
/// the platform and a newline with status 0, or the unknown line with
/// status 1.
pub fn report(platform: Option<&str>) -> (r: Outcome)
    ensures
        r.output@ == report_text(opt_view(platform)),
        r.exit_code == exit_code_of(opt_view(platform)),
{
    match platform {
        Some(p) => {
            let mut output = String::from_str(p);
            output.append("\n");
            Outcome { output, exit_code: 0 }
        },
        None => {
            let mut output = String::from_str("Architecture: Unknown");
            output.append("\n");
            Outcome { output, exit_code: 1 }
        },
    }
}

/// Resolves the architecture once and reports the result.
pub fn run(name: &str, flags: FeatureFlags) -> (r: Outcome)
    ensures
        r.output@ == report_text(platform_of(name@, flags)),
        r.exit_code == exit_code_of(platform_of(name@, flags)),
{
    report(get_architecture(name, flags))
}

/// A name outside the known set resolves to nothing, whatever the flags,
/// and the tool then prints `Architecture: Unknown` and exits with status 1;
/// every known name resolves to some platform.
pub proof fn lemma_unknown_names(name: Seq<char>, flags: FeatureFlags)
    ensures
        !is_known_arch(name) <==> platform_of(name, flags) is None,
        !is_known_arch(name) ==> report_text(platform_of(name, flags)) == "Architecture: Unknown\n"@,
        !is_known_arch(name) ==> exit_code_of(platform_of(name, flags)) == 1,
{
    reveal_strlit("Architecture: Unknown");
    reveal_strlit("Architecture: Unknown\n");
    reveal_strlit("\n");
    assert(unknown_line() + "\n"@ =~= "Architecture: Unknown\n"@);
}

/// `aarch64` resolves to `linux/arm64` under any flags, and the tool then
/// prints that line and exits with status 0.
pub proof fn lemma_aarch64(flags: FeatureFlags)
    ensures
        platform_of("aarch64"@, flags) == Some("linux/arm64"@),
        report_text(platform_of("aarch64"@, flags)) == "linux/arm64\n"@,
        exit_code_of(platform_of("aarch64"@, flags)) == 0,
{
    reveal_strlit("linux/arm64");
    reveal_strlit("linux/arm64\n");
    reveal_strlit("\n");
    assert("linux/arm64"@ + "\n"@ =~= "linux/arm64\n"@);
}

/// Running the tool twice on the same inputs gives the same output and
/// the same exit status.
pub proof fn lemma_run_deterministic(
    name1: Seq<char>,
    flags1: FeatureFlags,
    name2: Seq<char>,
    flags2: FeatureFlags,
)
    requires
        name1 == name2,
        flags1 == flags2,
    ensures
        platform_of(name1, flags1) == platform_of(name2, flags2),
        report_text(platform_of(name1, flags1)) == report_text(platform_of(name2, flags2)),
        exit_code_of(platform_of(name1, flags1)) == exit_code_of(platform_of(name2, flags2)),
{
}

} // verus!
