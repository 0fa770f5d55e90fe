use opencl_api::consts::{CL_INVALID_PIPE_SIZE, CL_MEM_OBJECT_ALLOCATION_FAILURE, CL_SUCCESS};
use opencl_api::errors::{OpenCLAPIError, ValidationError};
use opencl_api::helpers::status_update;
use opencl_api::status::Status;
use opencl_api::structs::StatusCode;

#[test]
fn test_status_code_to_status() {
    let status_code = -69;
    let fn_name = "test_status_code_to_status";
    let status = Status::from(status_code, fn_name);
    assert_eq!(Status::InvalidPipeSize, status);
}

#[test]
fn enums_test_status_code_to_status() {
    let status_code = -69;
    let status = Status::from(status_code, "test_status_code_to_status");
    assert_eq!(Status::InvalidPipeSize, status);
}

#[test]
fn test_status_to_status_code() {
    let status = Status::Success;
    let status_code = status.to_status_code().unwrap();
    assert_eq!(status_code, 0)
}

#[test]
fn enums_test_status_to_status_code() {
    let status = Status::Success;
    let status_code = status.to_status_code().unwrap();
    assert_eq!(status_code, 0)
}

#[test]
fn test_status_from_status_code() {
    let fn_name = "test_status_from_status_code";
    let status_code = -9999;
    let status = Status::from(status_code, fn_name);
    assert_eq!(status, Status::InvalidStatusCode { code: status_code, func: fn_name })
}

#[test]
fn test_undefined_error_invalid_status_code() {
    let fn_name = "test_undefined_error_invalid_status_code";
    let status = Status::InvalidStatusCode { code: 80085, func: fn_name };
    let status_code = status.to_status_code().expect_err("FUNDS ARE SAIFU");
    assert_eq!(status_code, ValidationError::InvalidStatusCode(fn_name))
}

#[test]
fn every_named_code_translates_back_to_itself() {
    let codes: Vec<i32> = (-72..=0).filter(|c| *c == 0 || *c >= -19 || *c <= -30).collect();
    assert_eq!(codes.len(), 63);
    for code in codes {
        let status = Status::from(code, "round_trip");
        assert!(!matches!(status, Status::InvalidStatusCode { .. }), "code {}", code);
        assert_eq!(status.to_status_code(), Ok(code));
        assert_eq!(Status::from(code, "elsewhere"), status);
    }
}

#[test]
fn unrecognized_codes_keep_their_integer() {
    for code in [-20, -29, -73, 1, 40404, 666666, i32::MIN, i32::MAX] {
        assert_eq!(Status::from(code, "probe"), Status::InvalidStatusCode { code, func: "probe" });
    }
}

#[test]
fn out_of_resources_has_its_own_code() {
    assert_eq!(Status::OutOfResources.to_status_code(), Ok(-5));
    assert_eq!(Status::from(-5, "f"), Status::OutOfResources);
    assert_eq!(Status::from(-62, "f"), Status::InvalidMIPLevel);
    assert_eq!(Status::from(-63, "f"), Status::InvalidGlobalWorkSize);
}

#[test]
fn reasons_name_the_native_code() {
    assert!(Status::InvalidPipeSize.reason().starts_with("[cl_invalid_pipe_size]"));
    assert!(Status::Success.reason().starts_with("[cl_success]"));
    assert_eq!(
        Status::InvalidStatusCode { code: 7, func: "f" }.reason(),
        "current status code does not match with any of the valid opencl codes"
    );
}

#[test]
fn status_update_passes_success_through() {
    assert_eq!(status_update(CL_SUCCESS, "clFlush", 17u32), Ok(17u32));
    assert_eq!(StatusCode::SUCCESS, 0);
}

#[test]
fn status_update_reports_failure_with_reason() {
    let r = status_update(CL_INVALID_PIPE_SIZE, "clCreatePipe", ());
    assert_eq!(
        r,
        Err(OpenCLAPIError::StatusCodeError {
            code: Status::InvalidPipeSize,
            int_code: -69,
            func: "clCreatePipe",
            reason: Status::InvalidPipeSize.reason(),
        })
    );
    let r = status_update(CL_MEM_OBJECT_ALLOCATION_FAILURE, "clCreateBuffer", 0usize);
    assert!(matches!(
        r,
        Err(OpenCLAPIError::StatusCodeError { code: Status::MemObjectAllocationFailure, int_code: -4, .. })
    ));
    let r = status_update(40404, "clGetDeviceInfo", ());
    assert!(matches!(
        r,
        Err(OpenCLAPIError::StatusCodeError {
            code: Status::InvalidStatusCode { code: 40404, func: "clGetDeviceInfo" },
            ..
        })
    ));
}
