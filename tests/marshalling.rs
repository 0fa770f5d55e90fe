use std::cell::Cell;

use libc::c_void;
use opencl_api::enums::{ParamValue, Size};
use opencl_api::errors::{OpenCLAPIError, RuntimeError, ToLibraryError};
use opencl_api::helpers::{bool_to_clbool, bytes_into_string};
use opencl_api::info::{
    command_queue_info_shape, context_info_shape, device_info_shape, image_info_shape,
    mem_object_info_shape, pipe_info_shape, platform_info_shape, sampler_info_shape, InfoShape,
};
use opencl_api::query::{created_handle, fetch_info_array, fetch_object_list, handles_from_addresses};
use opencl_api::status::Status;
use opencl_api::structs::{
    CommandQueueInfo, ContextInfo, DeviceInfo, ImageInfo, MemInfo, PipeInfo, PlatformInfo, SamplerInfo,
};
use opencl_api::wrappers::{MemPtr, PlatformPtr, WrappedMutablePointer, WrappedPointer};
use opencl_api::errors::ValidationError;

#[test]
fn null_address_is_refused_with_call_site() {
    let r = PlatformPtr::from_ptr(0, "main_fn");
    assert_eq!(r.unwrap_err(), OpenCLAPIError::RuntimeError(RuntimeError::NullPointer("main_fn")));
}

#[test]
fn handle_gives_back_its_address() {
    let h = PlatformPtr::from_ptr(0x7f00_1234, "main_fn").unwrap();
    assert_eq!(h.unwrap(), 0x7f00_1234);
    assert_eq!(WrappedMutablePointer::<c_void>::null().unwrap(), 0);
    assert_eq!(WrappedPointer::<u32>::from_raw(42).unwrap(), 42);
    assert_eq!(WrappedPointer::<u32>::null().unwrap(), 0);
    assert_eq!(WrappedMutablePointer::<c_void>::from_raw(-1).unwrap(), usize::MAX);
    assert!(h == PlatformPtr::from_ptr(0x7f00_1234, "other").unwrap());
}

#[test]
fn null_pointer_error_lifts() {
    assert_eq!(
        RuntimeError::NullPointer("f").to_error(),
        OpenCLAPIError::RuntimeError(RuntimeError::NullPointer("f"))
    );
}

#[test]
fn string_drops_trailing_nul_and_trims() {
    assert_eq!(bytes_into_string(b"  NVIDIA CUDA \n\0".to_vec()).unwrap(), "NVIDIA CUDA");
    assert_eq!(bytes_into_string(b"OpenCL 3.0".to_vec()).unwrap(), "OpenCL 3.0");
    assert_eq!(bytes_into_string(vec![0]).unwrap(), "");
    assert_eq!(bytes_into_string(vec![]).unwrap(), "");
    // only one NUL is dropped, and NUL is no white space
    assert_eq!(bytes_into_string(b"abc\0\0".to_vec()).unwrap(), "abc\0");
    assert_eq!(bytes_into_string("\u{3000}caf\u{e9}\u{a0}\0".as_bytes().to_vec()).unwrap(), "caf\u{e9}");
}

#[test]
fn invalid_utf8_is_a_corrupted_byte_array() {
    assert_eq!(
        bytes_into_string(vec![0x66, 0xff, 0xfe, 0]),
        Err(OpenCLAPIError::RuntimeError(RuntimeError::CorruptedByteArray))
    );
    assert_eq!(
        bytes_into_string(vec![0xc3]),
        Err(OpenCLAPIError::RuntimeError(RuntimeError::CorruptedByteArray))
    );
}

#[test]
fn zero_size_skips_the_fetch() {
    let fetches = Cell::new(0);
    let r: Result<Vec<u8>, OpenCLAPIError> = fetch_info_array(
        || (0, 0),
        |_, _| {
            fetches.set(fetches.get() + 1);
            (0, vec![1u8])
        },
        1,
        "clGetPlatformInfo",
    );
    assert_eq!(r, Ok(vec![]));
    assert_eq!(fetches.get(), 0);
}

#[test]
fn fetch_gets_byte_size_and_element_count() {
    let asked = Cell::new((0usize, 0usize));
    let r = fetch_info_array(
        || (0, 24),
        |size, count| {
            asked.set((size, count));
            (0, vec![10usize, 20, 30])
        },
        Size::usize.get(),
        "clGetDeviceInfo",
    );
    assert_eq!(r, Ok(vec![10usize, 20, 30]));
    assert_eq!(asked.get(), (24, 3));
}

#[test]
fn failing_probe_or_fetch_is_reported() {
    let fetches = Cell::new(0);
    let r: Result<Vec<u8>, OpenCLAPIError> = fetch_info_array(
        || (-32, 5),
        |_, _| {
            fetches.set(fetches.get() + 1);
            (0, vec![])
        },
        1,
        "clGetPlatformInfo",
    );
    assert!(matches!(r, Err(OpenCLAPIError::StatusCodeError { code: Status::InvalidPlatform, .. })));
    assert_eq!(fetches.get(), 0);
    let r: Result<Vec<u8>, OpenCLAPIError> =
        fetch_info_array(|| (0, 5), |_, _| (-30, vec![0; 5]), 1, "clGetPlatformInfo");
    assert!(matches!(
        r,
        Err(OpenCLAPIError::StatusCodeError { code: Status::InvalidValue, int_code: -30, .. })
    ));
}

#[test]
fn platform_list_of_two() {
    let r = fetch_object_list(|| (0, 2), |n| (0, vec![0x1000; n as usize].iter().enumerate().map(|(i, a)| a + i * 0x1000).collect()), "clGetPlatformIDs")
        .unwrap();
    assert_eq!(r.len(), 2);
    assert_eq!(r[0].unwrap(), 0x1000);
    assert_eq!(r[1].unwrap(), 0x2000);
}

#[test]
fn empty_platform_list_skips_the_fetch() {
    let fetches = Cell::new(0);
    let r = fetch_object_list(
        || (0, 0),
        |_| {
            fetches.set(fetches.get() + 1);
            (0, vec![0x1000])
        },
        "clGetPlatformIDs",
    );
    assert_eq!(r, Ok(vec![]));
    assert_eq!(fetches.get(), 0);
}

#[test]
fn platform_list_failures() {
    let r = fetch_object_list(|| (-1001, 0), |_| (0, vec![]), "clGetPlatformIDs");
    assert!(matches!(
        r,
        Err(OpenCLAPIError::StatusCodeError { code: Status::InvalidStatusCode { code: -1001, .. }, .. })
    ));
    let r = fetch_object_list(|| (0, 2), |_| (0, vec![0x1000, 0]), "clGetPlatformIDs");
    assert_eq!(r, Err(OpenCLAPIError::RuntimeError(RuntimeError::NullPointer("clGetPlatformIDs"))));
    let r = handles_from_addresses(&vec![5, 6, 7], "clGetDeviceIDs").unwrap();
    assert_eq!(r.iter().map(|h| h.unwrap()).collect::<Vec<_>>(), vec![5, 6, 7]);
}

#[test]
fn create_with_success_but_null_is_a_null_pointer_error() {
    let r: Result<MemPtr, OpenCLAPIError> = created_handle(0, 0, "clCreateBuffer");
    assert_eq!(r, Err(OpenCLAPIError::RuntimeError(RuntimeError::NullPointer("clCreateBuffer"))));
}

#[test]
fn create_with_failure_status_discards_the_address() {
    let r: Result<MemPtr, OpenCLAPIError> = created_handle(-4, 0xdead_0000, "clCreateBuffer");
    assert_eq!(
        r,
        Err(OpenCLAPIError::StatusCodeError {
            code: Status::MemObjectAllocationFailure,
            int_code: -4,
            func: "clCreateBuffer",
            reason: Status::MemObjectAllocationFailure.reason(),
        })
    );
    let ok: MemPtr = created_handle(0, 0xdead_0000, "clCreateBuffer").unwrap();
    assert_eq!(ok.unwrap(), 0xdead_0000);
}

#[test]
fn info_shapes_follow_the_tables() {
    assert_eq!(platform_info_shape(PlatformInfo::NAME), Ok(InfoShape::Text));
    assert_eq!(platform_info_shape(PlatformInfo::HOST_TIMER_RESOLUTION), Ok(InfoShape::ULong));
    assert_eq!(platform_info_shape(PlatformInfo::EXTENSIONS_WITH_VERSION), Ok(InfoShape::NameVersion));
    assert_eq!(
        platform_info_shape(666),
        Err(OpenCLAPIError::ObjectError(ValidationError::UnsupportedParameter("clGetPlatformInfo", 666)))
    );
    assert_eq!(device_info_shape(DeviceInfo::MAX_WORK_ITEM_SIZES), Ok(InfoShape::ArrCSize));
    assert_eq!(device_info_shape(DeviceInfo::VENDOR_ID), Ok(InfoShape::UInt));
    assert_eq!(device_info_shape(DeviceInfo::PLATFORM), Ok(InfoShape::CPtr));
    assert!(InfoShape::Text.is_list());
    assert!(!InfoShape::UInt.is_list());
    assert_eq!(InfoShape::NameVersion.element().get(), 68);
    assert_eq!(InfoShape::UInt.element().get(), 4);
}

#[test]
fn sizes_and_values() {
    assert_eq!(Size::u8.get(), 1);
    assert_eq!(Size::i16.get(), 2);
    assert_eq!(Size::cl_buffer_region.get(), 16);
    assert_eq!(Size::cl_image_desc.get(), 80);
    assert_eq!(ParamValue::default(), ParamValue::UInt(0));
    assert_eq!(ParamValue::String("x".to_string()).unwrap_string(), Some("x".to_string()));
    assert_eq!(ParamValue::UInt(3).unwrap_string(), None);
    assert_eq!(ParamValue::UInt(3).unwrap_uint(), Some(3));
    assert_eq!(ParamValue::ULong(4).unwrap_ulong(), Some(4));
    assert_eq!(ParamValue::CSize(5).unwrap_csize(), Some(5));
    assert_eq!(ParamValue::CPtr(6).unwrap_cptr::<u8>().map(|p| p.unwrap()), Some(6));
    assert_eq!(ParamValue::CPtr(7).unwrap_mut_cptr::<c_void>().map(|p| p.unwrap()), Some(7));
    assert_eq!(ParamValue::ArrULong(vec![1]).unwrap_arr_ulong(), Some(vec![1]));
    assert_eq!(ParamValue::ArrCSize(vec![2]).unwrap_arr_csize(), Some(vec![2]));
    assert_eq!(ParamValue::ArrCPtr(vec![3]).unwrap_arr_cptr(), Some(vec![3]));
    assert_eq!(ParamValue::NameVersion(vec![]).unwrap_name_version(), Some(vec![]));
    assert_eq!(ParamValue::ImageFormat(vec![]).unwrap_image_format(), Some(vec![]));
    assert_eq!(ParamValue::UInt(1).unwrap_cptr::<u8>(), None);
    assert_eq!(bool_to_clbool(true), 1);
    assert_eq!(bool_to_clbool(false), 0);
}

#[test]
fn every_query_table_knows_its_parameters() {
    assert_eq!(context_info_shape(ContextInfo::DEVICES), Ok(InfoShape::ArrCPtr));
    assert_eq!(context_info_shape(ContextInfo::NUM_DEVICES), Ok(InfoShape::UInt));
    assert_eq!(command_queue_info_shape(CommandQueueInfo::PROPERTIES), Ok(InfoShape::ULong));
    assert_eq!(command_queue_info_shape(CommandQueueInfo::PROPERTIES_ARRAY), Ok(InfoShape::ArrULong));
    assert_eq!(mem_object_info_shape(MemInfo::SIZE), Ok(InfoShape::CSize));
    assert_eq!(image_info_shape(ImageInfo::FORMAT), Ok(InfoShape::ImageFormat));
    assert_eq!(pipe_info_shape(PipeInfo::PACKET_SIZE), Ok(InfoShape::UInt));
    assert_eq!(sampler_info_shape(SamplerInfo::CONTEXT), Ok(InfoShape::CPtr));
    assert_eq!(
        sampler_info_shape(0),
        Err(OpenCLAPIError::ObjectError(ValidationError::UnsupportedParameter("clGetSamplerInfo", 0)))
    );
}
