use opencl_api::bitfields::{
    CommandQueueProperties, DeviceAffinityDomain, DeviceType, GetSetGo, KernelArgTypeQualifier,
    MapFlags, MemFlags,
};
use opencl_api::errors::{ToLibraryError, OpenCLAPIError, ValidationError};

#[test]
fn valid_flags_are_kept_exactly() {
    for v in [1u64, 2, 3, 0x1000, 0x1FBF, MemFlags::READ_ONLY | MemFlags::COPY_HOST_PTR] {
        assert_eq!(MemFlags::new(v).unwrap().get(), v);
    }
    assert_eq!(DeviceType::new(DeviceType::ALL).unwrap().get(), 0xFFFF_FFFF);
    assert_eq!(DeviceType::new(DeviceType::GPU).unwrap().get(), 4);
    assert_eq!(MapFlags::new(7).unwrap().get(), 7);
    assert_eq!(KernelArgTypeQualifier::new(0xF).unwrap().get(), 0xF);
}

#[test]
fn union_constant_is_the_or_of_the_flags() {
    assert_eq!(MemFlags::UNION, 0x1FBF);
    assert_eq!(MapFlags::UNION, 7);
    assert_eq!(DeviceAffinityDomain::UNION, 0x3F);
    assert_eq!(CommandQueueProperties::UNION, 0xF);
}

#[test]
fn zero_and_foreign_bits_are_refused() {
    assert_eq!(MemFlags::new(0).unwrap_err(), ValidationError::InvalidBitfield("MemFlags"));
    // bit 6 is no memory flag, although it lies below the highest one
    assert_eq!(MemFlags::new(0x40).unwrap_err(), ValidationError::InvalidBitfield("MemFlags"));
    assert_eq!(MemFlags::new(0x2000).unwrap_err(), ValidationError::InvalidBitfield("MemFlags"));
    assert_eq!(MapFlags::new(8).unwrap_err(), ValidationError::InvalidBitfield("MapFlags"));
    assert_eq!(DeviceType::new(1 << 32).unwrap_err(), ValidationError::InvalidBitfield("DeviceType"));
    assert_eq!(
        KernelArgTypeQualifier::new(0).unwrap_err(),
        ValidationError::InvalidBitfield("KernelArgTypeQualifier")
    );
}

#[test]
fn sum_is_the_union_of_flags() {
    let a = MemFlags::new(MemFlags::READ_WRITE).unwrap();
    let b = MemFlags::new(MemFlags::USE_HOST_PTR | MemFlags::READ_WRITE).unwrap();
    let s = a + b;
    assert_eq!(s.get(), 0x9);
    let q = CommandQueueProperties::new(CommandQueueProperties::PROFILING_ENABLE).unwrap()
        + CommandQueueProperties::new(CommandQueueProperties::OUT_OF_ORDER_EXEC_MODE_ENABLE).unwrap();
    assert_eq!(q.get(), 3);
}

#[test]
fn set_replaces_only_valid_flags() {
    let mut m = MapFlags::new(MapFlags::READ).unwrap();
    assert_eq!(m.set(MapFlags::WRITE), Ok(()));
    assert_eq!(m.get(), 2);
    assert_eq!(m.set(0), Err(ValidationError::InvalidBitfield("MapFlags")));
    assert_eq!(m.get(), 2);
    assert_eq!(m.set(0x10), Err(ValidationError::InvalidBitfield("MapFlags")));
    assert_eq!(m.get(), 2);
}

#[test]
fn validation_error_lifts_into_library_error() {
    let e = ValidationError::InvalidBitfield("MemFlags").to_error();
    assert_eq!(e, OpenCLAPIError::ObjectError(ValidationError::InvalidBitfield("MemFlags")));
}
