use xtask_core::sanitizer::{Sanitizer, Target};

#[test]
fn test_consistency_of_fmt_and_from_str_strings() {
    let variants = vec![
        Target::Aarch64AppleDarwin,
        Target::Aarch64LinuxAndroid,
        Target::Aarch64UnknownFuchsia,
        Target::Aarch64UnknownLinuxGnu,
        Target::X8664AppleDarwin,
        Target::X8664LinuxAndroid,
        Target::X8664UnknownFuchsia,
        Target::X8664UnknownFreebsd,
        Target::X8664UnknownLinuxGnu,
    ];
    for variant in variants {
        let variant_str = variant.as_str();
        let parsed_variant = Target::from_str(variant_str);
        assert_eq!(Some(variant), parsed_variant);
    }
}

#[test]
fn test_is_target_supported_empty_string() {
    let sanitizer = Sanitizer::Memory;
    assert_eq!(sanitizer.is_target_supported(&vec!["".to_string()]), false);
}

#[test]
fn test_is_target_supported_unsupported_target() {
    let sanitizer = Sanitizer::Memory;
    assert_eq!(
        sanitizer.is_target_supported(&vec!["x86_64-pc-windows-msvc".to_string()]),
        false
    );
}

#[test]
fn test_is_target_supported_unsupported_and_empty() {
    let sanitizer = Sanitizer::Memory;
    assert_eq!(
        sanitizer.is_target_supported(&vec![
            "x86_64-pc-windows-msvc".to_string(),
            "".to_string()
        ]),
        false
    );
}

#[test]
fn test_is_target_supported_one_supported() {
    let sanitizer = Sanitizer::Memory;
    assert_eq!(
        sanitizer.is_target_supported(&vec!["x86_64-unknown-linux-gnu".to_string()]),
        true
    );
}

#[test]
fn test_is_target_supported_mixed() {
    let sanitizer = Sanitizer::Memory;
    assert_eq!(
        sanitizer.is_target_supported(&vec![
            "aarch64-apple-darwin".to_string(),
            "x86_64-unknown-linux-gnu".to_string()
        ]),
        true
    );
}

#[test]
fn test_is_target_supported_no_targets_at_all() {
    let sanitizer = Sanitizer::Address;
    let installed: Vec<String> = Vec::new();
    assert_eq!(sanitizer.is_target_supported(&installed), false);
}

#[test]
fn test_is_target_supported_trims_whitespace() {
    let sanitizer = Sanitizer::Thread;
    assert_eq!(
        sanitizer.is_target_supported(&vec!["  x86_64-unknown-linux-gnu \t".to_string()]),
        true
    );
}

#[test]
fn test_is_target_supported_blank_lines_ignored() {
    let sanitizer = Sanitizer::Leak;
    assert_eq!(
        sanitizer.is_target_supported(&vec![" \t ".to_string(), "\n".to_string()]),
        false
    );
}

#[test]
fn test_is_target_supported_every_sanitizer_on_own_table() {
    let all = vec![
        Sanitizer::Address,
        Sanitizer::CFI,
        Sanitizer::HWAddress,
        Sanitizer::KCFI,
        Sanitizer::Leak,
        Sanitizer::Memory,
        Sanitizer::MemTag,
        Sanitizer::SafeStack,
        Sanitizer::ShadowCallStack,
        Sanitizer::Thread,
    ];
    for sanitizer in all {
        let installed: Vec<String> = sanitizer
            .supported_targets()
            .iter()
            .map(|t| t.as_str().to_string())
            .collect();
        assert!(!installed.is_empty());
        assert_eq!(sanitizer.is_target_supported(&installed), true);
        // Each single supported triple alone is enough.
        for one in &installed {
            assert_eq!(sanitizer.is_target_supported(&vec![one.clone()]), true);
        }
    }
}

#[test]
fn test_unknown_target_parses_from_nothing() {
    assert_eq!(Target::from_str("not-a-triple"), None);
    assert_eq!(Target::from_str(""), None);
    assert_eq!(Target::Unknown.as_str(), "");
}

#[test]
fn test_sanitizer_flags_exact() {
    assert_eq!(Sanitizer::Address.flags(), "-Zsanitizer=address");
    assert_eq!(Sanitizer::CFI.flags(), "-Zsanitizer=cfi -Clto");
    assert_eq!(
        Sanitizer::HWAddress.flags(),
        "-Zsanitizer=hwaddress -Ctarget-feature=+tagged-globals"
    );
    assert_eq!(Sanitizer::KCFI.flags(), "-Zsanitizer=kcfi");
    assert_eq!(Sanitizer::Leak.flags(), "-Zsanitizer=leak");
    assert_eq!(
        Sanitizer::Memory.flags(),
        "-Zsanitizer=memory -Zsanitizer-memory-track-origins"
    );
    assert_eq!(
        Sanitizer::MemTag.flags(),
        "--Zsanitizer=memtag -Ctarget-feature=\"+mte\""
    );
    assert_eq!(Sanitizer::SafeStack.flags(), "-Zsanitizer=safestack");
    assert_eq!(
        Sanitizer::ShadowCallStack.flags(),
        "-Zsanitizer=shadow-call-stack"
    );
    assert_eq!(Sanitizer::Thread.flags(), "-Zsanitizer=thread");
}

#[test]
fn test_sanitizer_names() {
    assert_eq!(Sanitizer::Address.name(), "AddressSanitizer");
    assert_eq!(Sanitizer::CFI.name(), "ControlFlowIntegrity");
    assert_eq!(Sanitizer::Thread.name(), "ThreadSanitizer");
}

#[test]
fn test_sanitizer_cargo_features() {
    assert_eq!(
        Sanitizer::CFI.cargo_features(),
        vec!["-Zbuild-std", "--target x86_64-unknown-linux-gnu"]
    );
    assert!(Sanitizer::Address.cargo_features().is_empty());
    assert!(Sanitizer::Thread.cargo_features().is_empty());
}

#[test]
fn test_shadow_call_stack_not_supported_on_linux_gnu() {
    let sanitizer = Sanitizer::ShadowCallStack;
    assert_eq!(
        sanitizer.is_target_supported(&vec!["x86_64-unknown-linux-gnu".to_string()]),
        false
    );
    assert_eq!(
        sanitizer.is_target_supported(&vec!["aarch64-linux-android".to_string()]),
        true
    );
}
