use arch_platform::report::{report, run};
use arch_platform::resolver::FeatureFlags;
use arch_platform::text::str_equal;

#[test]
fn x86_64_end_to_end() {
    let o = run("x86_64", FeatureFlags::none());
    assert_eq!(o.output, "linux/amd64\n");
    assert_eq!(o.exit_code, 0);
}

#[test]
fn sparc_end_to_end() {
    let o = run("sparc", FeatureFlags::none());
    assert_eq!(o.output, "Architecture: Unknown\n");
    assert_eq!(o.exit_code, 1);
}

#[test]
fn aarch64_end_to_end() {
    let f = FeatureFlags { arm_v7: true, arm_v6: true, little_endian: true };
    let o = run("aarch64", f);
    assert_eq!(o.output, "linux/arm64\n");
    assert_eq!(o.exit_code, 0);
}

#[test]
fn arm_v6_end_to_end() {
    let f = FeatureFlags { arm_v7: false, arm_v6: true, little_endian: true };
    let o = run("arm", f);
    assert_eq!(o.output, "linux/arm/v6\n");
    assert_eq!(o.exit_code, 0);
}

#[test]
fn report_present_platform() {
    let o = report(Some("linux/s390x"));
    assert_eq!(o.output, "linux/s390x\n");
    assert_eq!(o.exit_code, 0);
}

#[test]
fn report_absent_platform() {
    let o = report(None);
    assert_eq!(o.output, "Architecture: Unknown\n");
    assert_eq!(o.exit_code, 1);
}

#[test]
fn run_twice_agrees() {
    let f = FeatureFlags { arm_v7: false, arm_v6: false, little_endian: true };
    assert_eq!(run("mips64", f), run("mips64", f));
    assert_eq!(run("sparc", f), run("sparc", f));
}

#[test]
fn string_equality() {
    assert!(str_equal("", ""));
    assert!(str_equal("x86", "x86"));
    assert!(!str_equal("x86", "x86_64"));
    assert!(!str_equal("x86_64", "x86"));
    assert!(!str_equal("arm", "ARM"));
    assert!(str_equal("é", "é"));
    assert!(!str_equal("é", "e"));
}
