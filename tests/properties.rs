use opencl_api::bitfields::{CommandQueueProperties, DeviceAffinityDomain, GetSetGo};
use opencl_api::errors::ValidationError;
use opencl_api::property::{ContextProperties, DevicePartitionProperty, QueueProperties, SamplerProperties};
use opencl_api::structs::{AddressingMode, CommandQueueInfo, FilterMode};
use opencl_api::version::{major, make_version, minor, patch};
use opencl_api::wrappers::PlatformPtr;

#[test]
fn sampler_list_in_fixed_order() {
    let am = AddressingMode::new(AddressingMode::CLAMP).unwrap();
    let fm = FilterMode::new(FilterMode::LINEAR).unwrap();
    assert_eq!(
        SamplerProperties.gen(Some(true), Some(am), Some(fm)),
        Some(vec![0x1152, 1, 0x1153, 0x1132, 0x1154, 0x1141, 0])
    );
    assert_eq!(SamplerProperties.gen(None, None, Some(fm)), Some(vec![0x1154, 0x1141, 0]));
    assert_eq!(SamplerProperties.gen(None, None, None), Some(vec![0]));
}

#[test]
fn modes_are_validated() {
    assert_eq!(AddressingMode::new(0x1135).unwrap_err(), ValidationError::InvalidProperty("AddressingMode"));
    assert_eq!(FilterMode::new(0).unwrap_err(), ValidationError::InvalidProperty("FilterMode"));
    assert_eq!(AddressingMode::new(AddressingMode::REPEAT).unwrap().get(), 0x1133);
}

#[test]
fn queue_list_lists_size_only_with_properties() {
    let p = CommandQueueProperties::new(CommandQueueProperties::PROFILING_ENABLE).unwrap();
    assert_eq!(QueueProperties.gen(Some(p), Some(16)), Some(vec![0x1093, 2, 0x1094, 16, 0]));
    assert_eq!(QueueProperties.gen(Some(p), None), Some(vec![0x1093, 2, 0]));
    assert_eq!(QueueProperties.gen(None, Some(16)), Some(vec![0]));
    assert_eq!(CommandQueueInfo.properties(p), Some(vec![0x1098, 2, 0]));
    assert_eq!(CommandQueueInfo.size(64), Some(vec![0x1094, 64, 0]));
}

#[test]
fn context_lists() {
    let platform = PlatformPtr::from_ptr(0x5000, "test_fn").unwrap();
    assert_eq!(ContextProperties.gen(Some(&platform), Some(true)), Some(vec![0x1085, 1, 0x1084, 0x5000, 0]));
    assert_eq!(ContextProperties.gen(Some(&platform), None), Some(vec![0x1084, 0x5000, 0]));
    assert_eq!(ContextProperties.gen(None, None), Some(vec![0]));
    assert_eq!(ContextProperties.platform(&platform), Some(vec![0x1084, 0x5000, 0]));
    assert_eq!(ContextProperties.interop_user_sync(1), Some(vec![0x1085, 1, 0]));
    assert_eq!(ContextProperties.interop_user_sync(2), None);
}

#[test]
fn partition_lists() {
    assert_eq!(DevicePartitionProperty.equally(4), Some(vec![0x1086, 4, 0]));
    assert_eq!(DevicePartitionProperty.by_counts(3, 1), Some(vec![0x1087, 3, 1, 0, 0]));
    let d = DeviceAffinityDomain::new(DeviceAffinityDomain::NUMA).unwrap();
    assert_eq!(DevicePartitionProperty.by_affinity_domain(d), Some(vec![0x1088, 1, 0]));
}

#[test]
fn versions_pack_and_unpack() {
    let v = make_version(3, 0, 0);
    assert_eq!(v, 3 << 22);
    let v = make_version(2, 1, 7);
    assert_eq!(v, (2 << 22) | (1 << 12) | 7);
    assert_eq!((major(v), minor(v), patch(v)), (2, 1, 7));
    // parts are cut to their field widths
    assert_eq!(make_version(0x400, 0, 0x1001), 1);
}
