use spade_docker::args::{build_variables, Architecture, BuildArguments, ZigVersion};
use spade_docker::errors::{CoreError, ProtocolFailure};
use spade_docker::record::Store;
use spade_docker::recorder::record_build;

fn s(x: &str) -> String {
    String::from(x)
}

#[test]
fn successful_build_records_exactly_one_line() {
    let args = BuildArguments {
        architecture: Architecture::X86_64,
        zig_version: ZigVersion::V0_13_0,
        spade_rev: s("spade-rev"),
        swim_rev: s("swim-rev"),
    };
    let variables = build_variables(&args);
    assert_eq!(variables[0], s("TARGET_PLATFORM=x86_64"));

    // The fake builder's diagnostic stream, as captured while teeing it.
    let output = "#1 building\n#12 writing image sha256:abc123 done\n#13 naming";

    let mut store = Store::new();
    let recorded = record_build(&mut store, output);
    assert_eq!(recorded, Ok(s("abc123")));
    assert_eq!(store.content(), Some(&s("abc123")));
    assert_eq!(store.load(), vec![s("abc123")]);
}

#[test]
fn failed_build_leaves_the_store_untouched() {
    let mut store = Store::from_content(Some(s("old")));
    let recorded = record_build(&mut store, "#1 building\n#2 failed");
    assert_eq!(
        recorded,
        Err(CoreError::Protocol(ProtocolFailure::NoImage))
    );
    assert_eq!(store.content(), Some(&s("old")));
}

#[test]
fn recording_the_same_image_again_is_idempotent() {
    let output = "#12 writing image sha256:abc123 done";
    let mut store = Store::new();
    assert_eq!(record_build(&mut store, output), Ok(s("abc123")));
    assert_eq!(record_build(&mut store, output), Ok(s("abc123")));
    assert_eq!(store.content(), Some(&s("abc123")));
}

#[test]
fn architecture_tokens_parse_and_render() {
    assert_eq!(Architecture::parse("x86_64"), Some(Architecture::X86_64));
    assert_eq!(Architecture::parse("aarch64"), Some(Architecture::Aarch64));
    assert_eq!(Architecture::parse("riscv64"), None);
    assert_eq!(Architecture::X86_64.as_str(), "x86_64");
    assert_eq!(Architecture::Aarch64.as_str(), "aarch64");
}

#[test]
fn zig_version_tokens_parse_and_render() {
    assert_eq!(ZigVersion::parse("0.13.0"), Some(ZigVersion::V0_13_0));
    assert_eq!(ZigVersion::parse("0.12.0"), None);
    assert_eq!(ZigVersion::V0_13_0.as_str(), "0.13.0");
}

#[test]
fn build_variables_render_all_four() {
    let args = BuildArguments {
        architecture: Architecture::Aarch64,
        zig_version: ZigVersion::V0_13_0,
        spade_rev: s("1a2b"),
        swim_rev: s("3c4d"),
    };
    assert_eq!(
        build_variables(&args),
        vec![
            s("TARGET_PLATFORM=aarch64"),
            s("ZIG_VERSION=0.13.0"),
            s("SPADE_REV=1a2b"),
            s("SWIM_REV=3c4d"),
        ]
    );
}
