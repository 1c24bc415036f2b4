use vanity_gpu::decimal::decimal_string;
use vanity_gpu::DerivationMode;
use vanity_gpu::Error;

#[test]
fn decimal_rendering_is_exact() {
    assert_eq!(decimal_string(0), "0");
    assert_eq!(decimal_string(7), "7");
    assert_eq!(decimal_string(10), "10");
    assert_eq!(decimal_string(42), "42");
    assert_eq!(decimal_string(12345), "12345");
    assert_eq!(decimal_string(usize::MAX), usize::MAX.to_string());
}

#[test]
fn build_failure_carries_diagnostic_verbatim() {
    let diag = "entry.cl:12:3: error: unknown type name 'ulong4'".to_string();
    let e = Error::ProgramBuildFailed {
        diagnostic: diag.clone(),
    };
    let msg = e.message();
    assert_eq!(
        msg,
        "Program build failed: entry.cl:12:3: error: unknown type name 'ulong4'"
    );
    assert!(msg.contains(&diag));
}

#[test]
fn device_failure_carries_diagnostic_verbatim() {
    let e = Error::DeviceOperationFailed {
        diagnostic: "CL_OUT_OF_RESOURCES".to_string(),
    };
    assert_eq!(e.message(), "Device operation failed: CL_OUT_OF_RESOURCES");
}

#[test]
fn out_of_range_message_names_large_indices() {
    let e = Error::IndexOutOfRange {
        index: 1000000,
        max: 999999,
    };
    assert_eq!(e.message(), "Platform index 1000000 too large (max 999999)");
}

#[test]
fn derivation_mode_tags_are_fixed_and_distinct() {
    let passphrase = DerivationMode::Passphrase;
    let raw = DerivationMode::RawKey;
    assert_eq!(passphrase.code(), 0);
    assert_eq!(raw.code(), 1);
    assert_ne!(passphrase.code(), raw.code());
}
