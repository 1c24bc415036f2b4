use vanity_gpu::context::validate_device_index;
use vanity_gpu::context::validate_platform_index;
use vanity_gpu::Error;

#[test]
fn empty_platform_enumeration_is_rejected() {
    let r = validate_platform_index(0, 0);
    assert!(matches!(r, Err(Error::NoAcceleratorAvailable)));
    let msg = r.unwrap_err().message();
    assert_eq!(
        msg,
        "No OpenCL platforms exist (check your drivers and OpenCL setup)"
    );
}

#[test]
fn platform_index_too_large_is_rejected_with_index_and_max() {
    let r = validate_platform_index(3, 5);
    match r {
        Err(Error::IndexOutOfRange { index, max }) => {
            assert_eq!(index, 5);
            assert_eq!(max, 2);
        }
        other => panic!("expected IndexOutOfRange, got {:?}", other),
    }
    let msg = validate_platform_index(3, 5).unwrap_err().message();
    assert_eq!(msg, "Platform index 5 too large (max 2)");
    assert!(msg.contains("5"));
    assert!(msg.contains("2"));
}

#[test]
fn platform_index_at_count_is_rejected() {
    let r = validate_platform_index(4, 4);
    assert!(matches!(r, Err(Error::IndexOutOfRange { index: 4, max: 3 })));
}

#[test]
fn platform_index_in_range_is_accepted() {
    assert!(validate_platform_index(1, 0).is_ok());
    assert!(validate_platform_index(4, 3).is_ok());
    assert!(validate_platform_index(usize::MAX, usize::MAX - 1).is_ok());
}

#[test]
fn device_index_in_range_is_accepted() {
    assert!(validate_device_index(1, 0).is_ok());
    assert!(validate_device_index(8, 7).is_ok());
}

#[test]
fn device_index_out_of_range_is_rejected() {
    let r = validate_device_index(2, 2);
    match r {
        Err(Error::DeviceNotFound { index }) => assert_eq!(index, 2),
        other => panic!("expected DeviceNotFound, got {:?}", other),
    }
    let msg = validate_device_index(2, 2).unwrap_err().message();
    assert_eq!(msg, "Requested device not found (device index 2)");
}

#[test]
fn platform_with_no_devices_rejects_any_device_index() {
    assert!(matches!(
        validate_device_index(0, 0),
        Err(Error::DeviceNotFound { index: 0 })
    ));
}
