//! Which shape the value of each "get info" parameter has.
//!
//! A native query reads a parameter either as one fixed-size value or, by the
//! size-then-fetch protocol, as a list; the tables below say which, and with
//! what element type, for every parameter identifier each query supports.
use vstd::prelude::*;
use crate::consts::{cl_command_queue_info, cl_context_info, cl_device_info, cl_image_info, cl_mem_info, cl_pipe_info, cl_platform_info, cl_sampler_info};
use crate::enums::Size;
use crate::errors::{OpenCLAPIError, ValidationError};
use crate::helpers::APIResult;
use crate::structs::{CommandQueueInfo, ContextInfo, DeviceInfo, ImageInfo, MemInfo, PipeInfo, PlatformInfo, SamplerInfo};

verus! {

/// The shape of a query result.
#[derive(Debug, Clone, Copy, PartialEq, Eq)]
pub enum InfoShape {
    /// A NUL-terminated byte string, read as a list of bytes.
    Text,
    UInt,
    ULong,
    CSize,
    CPtr,
    ArrCSize,
    ArrCPtr,
    ArrULong,
    NameVersion,
    ImageFormat,
}

impl InfoShape {
    /// Whether values of this shape are read as a list by size-then-fetch.
    pub open spec fn is_list_spec(self) -> bool {
        match self {
            InfoShape::UInt | InfoShape::ULong | InfoShape::CSize | InfoShape::CPtr => false,
            _ => true,
        }
    }

    /// The element type of values of this shape.
    pub open spec fn element_spec(self) -> Size {
        match self {
            InfoShape::Text => Size::u8,
            InfoShape::UInt => Size::u32,
            InfoShape::ULong | InfoShape::ArrULong => Size::u64,
            InfoShape::CSize | InfoShape::ArrCSize => Size::usize,
            InfoShape::CPtr | InfoShape::ArrCPtr => Size::isize,
            InfoShape::NameVersion => Size::cl_name_version,
            InfoShape::ImageFormat => Size::cl_image_format,
        }
    }

    /// Whether values of this shape are read as a list by size-then-fetch.
    pub fn is_list(&self) -> (r: bool)
        ensures
            r == self.is_list_spec(),
    {
        match self {
            InfoShape::UInt | InfoShape::ULong | InfoShape::CSize | InfoShape::CPtr => false,
            _ => true,
        }
    }

    /// The element type of values of this shape.
    pub fn element(&self) -> (r: Size)
        ensures
            r == self.element_spec(),
    {
        match self {
            InfoShape::Text => Size::u8,
            InfoShape::UInt => Size::u32,
            InfoShape::ULong | InfoShape::ArrULong => Size::u64,
            InfoShape::CSize | InfoShape::ArrCSize => Size::usize,
            InfoShape::CPtr | InfoShape::ArrCPtr => Size::isize,
            InfoShape::NameVersion => Size::cl_name_version,
            InfoShape::ImageFormat => Size::cl_image_format,
        }
    }
}

/// The shape found in a table, or the unsupported-parameter error of `func`.
pub open spec fn shape_result(shape: Option<InfoShape>, func: &'static str, param: u32) -> APIResult<
    InfoShape,
> {
    match shape {
        Some(s) => Ok(s),
        None => Err(OpenCLAPIError::ObjectError(ValidationError::UnsupportedParameter(func, param))),
    }
}

/// The shape of each platform parameter that `clGetPlatformInfo` is asked for.
pub open spec fn platform_info_shape_spec(param: cl_platform_info) -> Option<InfoShape> {
    if param == PlatformInfo::PROFILE || param == PlatformInfo::VERSION ||
        param == PlatformInfo::VENDOR || param == PlatformInfo::NAME ||
        param == PlatformInfo::EXTENSIONS {
        Some(InfoShape::Text)
    } else if param == PlatformInfo::HOST_TIMER_RESOLUTION {
        Some(InfoShape::ULong)
    } else if param == PlatformInfo::NUMERIC_VERSION {
        Some(InfoShape::UInt)
    } else if param == PlatformInfo::EXTENSIONS_WITH_VERSION {
        Some(InfoShape::NameVersion)
    } else {
        None
    }
}

/// The shape of the platform parameter `param_name`; one that `clGetPlatformInfo`
/// is not asked for here is refused.
pub fn platform_info_shape(param_name: cl_platform_info) -> (r: APIResult<InfoShape>)
    ensures
        r == shape_result(platform_info_shape_spec(param_name), "clGetPlatformInfo", param_name),
{
    let param = param_name;
    if param == PlatformInfo::PROFILE || param == PlatformInfo::VERSION ||
        param == PlatformInfo::VENDOR || param == PlatformInfo::NAME ||
        param == PlatformInfo::EXTENSIONS {
        Ok(InfoShape::Text)
    } else if param == PlatformInfo::HOST_TIMER_RESOLUTION {
        Ok(InfoShape::ULong)
    } else if param == PlatformInfo::NUMERIC_VERSION {
        Ok(InfoShape::UInt)
    } else if param == PlatformInfo::EXTENSIONS_WITH_VERSION {
        Ok(InfoShape::NameVersion)
    } else {
        Err(OpenCLAPIError::ObjectError(ValidationError::UnsupportedParameter("clGetPlatformInfo", param)))
    }
}

/// The shape of each device parameter that `clGetDeviceInfo` is asked for.
pub open spec fn device_info_shape_spec(param: cl_device_info) -> Option<InfoShape> {
    if param == DeviceInfo::NAME || param == DeviceInfo::VENDOR || param == DeviceInfo::VERSION ||
        param == DeviceInfo::PROFILE || param == DeviceInfo::DRIVER_VERSION ||
        param == DeviceInfo::EXTENSIONS || param == DeviceInfo::OPENCL_C_VERSION ||
        param == DeviceInfo::BUILT_IN_KERNELS || param == DeviceInfo::IL_VERSION ||
        param == DeviceInfo::LATEST_CONFORMANCE_VERSION_PASSED {
        Some(InfoShape::Text)
    } else if param == DeviceInfo::VENDOR_ID || param == DeviceInfo::MAX_COMPUTE_UNITS ||
        param == DeviceInfo::MAX_WORK_ITEM_DIMENSIONS ||
        param == DeviceInfo::PREFERRED_VECTOR_WIDTH_CHAR ||
        param == DeviceInfo::PREFERRED_VECTOR_WIDTH_SHORT ||
        param == DeviceInfo::PREFERRED_VECTOR_WIDTH_INT ||
        param == DeviceInfo::PREFERRED_VECTOR_WIDTH_LONG ||
        param == DeviceInfo::PREFERRED_VECTOR_WIDTH_FLOAT ||
        param == DeviceInfo::PREFERRED_VECTOR_WIDTH_DOUBLE ||
        param == DeviceInfo::PREFERRED_VECTOR_WIDTH_HALF ||
        param == DeviceInfo::NATIVE_VECTOR_WIDTH_CHAR ||
        param == DeviceInfo::NATIVE_VECTOR_WIDTH_SHORT ||
        param == DeviceInfo::NATIVE_VECTOR_WIDTH_INT ||
        param == DeviceInfo::NATIVE_VECTOR_WIDTH_LONG ||
        param == DeviceInfo::NATIVE_VECTOR_WIDTH_FLOAT ||
        param == DeviceInfo::NATIVE_VECTOR_WIDTH_DOUBLE ||
        param == DeviceInfo::NATIVE_VECTOR_WIDTH_HALF ||
        param == DeviceInfo::MAX_CLOCK_FREQUENCY || param == DeviceInfo::ADDRESS_BITS ||
        param == DeviceInfo::MAX_READ_IMAGE_ARGS || param == DeviceInfo::MAX_WRITE_IMAGE_ARGS ||
        param == DeviceInfo::MAX_READ_WRITE_IMAGE_ARGS || param == DeviceInfo::MAX_SAMPLERS ||
        param == DeviceInfo::IMAGE_PITCH_ALIGNMENT ||
        param == DeviceInfo::IMAGE_BASE_ADDRESS_ALIGNMENT || param == DeviceInfo::MAX_PIPE_ARGS ||
        param == DeviceInfo::PIPE_MAX_ACTIVE_RESERVATIONS ||
        param == DeviceInfo::PIPE_MAX_PACKET_SIZE || param == DeviceInfo::MEM_BASE_ADDR_ALIGN ||
        param == DeviceInfo::MIN_DATA_TYPE_ALIGN_SIZE ||
        param == DeviceInfo::GLOBAL_MEM_CACHELINE_SIZE || param == DeviceInfo::MAX_CONSTANT_ARGS ||
        param == DeviceInfo::QUEUE_ON_DEVICE_PREFERRED_SIZE ||
        param == DeviceInfo::QUEUE_ON_DEVICE_MAX_SIZE ||
        param == DeviceInfo::MAX_ON_DEVICE_QUEUES || param == DeviceInfo::MAX_ON_DEVICE_EVENTS ||
        param == DeviceInfo::PARTITION_MAX_SUB_DEVICES || param == DeviceInfo::REFERENCE_COUNT ||
        param == DeviceInfo::PREFERRED_PLATFORM_ATOMIC_ALIGNMENT ||
        param == DeviceInfo::PREFERRED_GLOBAL_ATOMIC_ALIGNMENT ||
        param == DeviceInfo::PREFERRED_LOCAL_ATOMIC_ALIGNMENT ||
        param == DeviceInfo::MAX_NUM_SUB_GROUPS || param == DeviceInfo::IMAGE_SUPPORT ||
        param == DeviceInfo::ERROR_CORRECTION_SUPPORT ||
        param == DeviceInfo::HOST_UNIFIED_MEMORY || param == DeviceInfo::ENDIAN_LITTLE ||
        param == DeviceInfo::AVAILABLE || param == DeviceInfo::COMPILER_AVAILABLE ||
        param == DeviceInfo::LINKER_AVAILABLE ||
        param == DeviceInfo::PREFERRED_INTEROP_USER_SYNC ||
        param == DeviceInfo::SUB_GROUP_INDEPENDENT_FORWARD_PROGRESS ||
        param == DeviceInfo::NON_UNIFORM_WORK_GROUP_SUPPORT ||
        param == DeviceInfo::WORK_GROUP_COLLECTIVE_FUNCTIONS_SUPPORT ||
        param == DeviceInfo::GENERIC_ADDRESS_SPACE_SUPPORT || param == DeviceInfo::PIPE_SUPPORT ||
        param == DeviceInfo::NUMERIC_VERSION || param == DeviceInfo::GLOBAL_MEM_CACHE_TYPE ||
        param == DeviceInfo::LOCAL_MEM_TYPE {
        Some(InfoShape::UInt)
    } else if param == DeviceInfo::MAX_MEM_ALLOC_SIZE || param == DeviceInfo::GLOBAL_MEM_CACHE_SIZE ||
        param == DeviceInfo::GLOBAL_MEM_SIZE || param == DeviceInfo::MAX_CONSTANT_BUFFER_SIZE ||
        param == DeviceInfo::LOCAL_MEM_SIZE || param == DeviceInfo::TYPE ||
        param == DeviceInfo::SINGLE_FP_CONFIG || param == DeviceInfo::DOUBLE_FP_CONFIG ||
        param == DeviceInfo::EXECUTION_CAPABILITIES ||
        param == DeviceInfo::QUEUE_ON_HOST_PROPERTIES ||
        param == DeviceInfo::QUEUE_ON_DEVICE_PROPERTIES ||
        param == DeviceInfo::PARTITION_AFFINITY_DOMAIN || param == DeviceInfo::SVM_CAPABILITIES ||
        param == DeviceInfo::ATOMIC_MEMORY_CAPABILITIES ||
        param == DeviceInfo::ATOMIC_FENCE_CAPABILITIES ||
        param == DeviceInfo::DEVICE_ENQUEUE_CAPABILITIES {
        Some(InfoShape::ULong)
    } else if param == DeviceInfo::ILS_WITH_VERSION ||
        param == DeviceInfo::BUILT_IN_KERNELS_WITH_VERSION ||
        param == DeviceInfo::OPENCL_C_ALL_VERSIONS || param == DeviceInfo::OPENCL_C_FEATURES ||
        param == DeviceInfo::EXTENSIONS_WITH_VERSION {
        Some(InfoShape::NameVersion)
    } else if param == DeviceInfo::MAX_WORK_GROUP_SIZE || param == DeviceInfo::IMAGE2D_MAX_WIDTH ||
        param == DeviceInfo::IMAGE2D_MAX_HEIGHT || param == DeviceInfo::IMAGE3D_MAX_WIDTH ||
        param == DeviceInfo::IMAGE3D_MAX_HEIGHT || param == DeviceInfo::IMAGE3D_MAX_DEPTH ||
        param == DeviceInfo::IMAGE_MAX_BUFFER_SIZE || param == DeviceInfo::IMAGE_MAX_ARRAY_SIZE ||
        param == DeviceInfo::MAX_PARAMETER_SIZE || param == DeviceInfo::MAX_GLOBAL_VARIABLE_SIZE ||
        param == DeviceInfo::GLOBAL_VARIABLE_PREFERRED_TOTAL_SIZE ||
        param == DeviceInfo::PROFILING_TIMER_RESOLUTION ||
        param == DeviceInfo::PRINTF_BUFFER_SIZE ||
        param == DeviceInfo::PREFERRED_WORK_GROUP_SIZE_MULTIPLE {
        Some(InfoShape::CSize)
    } else if param == DeviceInfo::PLATFORM || param == DeviceInfo::PARENT_DEVICE {
        Some(InfoShape::CPtr)
    } else if param == DeviceInfo::PARTITION_PROPERTIES || param == DeviceInfo::PARTITION_TYPE {
        Some(InfoShape::ArrCPtr)
    } else if param == DeviceInfo::MAX_WORK_ITEM_SIZES {
        Some(InfoShape::ArrCSize)
    } else {
        None
    }
}

/// The shape of the device parameter `param_name`; one that `clGetDeviceInfo`
/// is not asked for here is refused.
pub fn device_info_shape(param_name: cl_device_info) -> (r: APIResult<InfoShape>)
    ensures
        r == shape_result(device_info_shape_spec(param_name), "clGetDeviceInfo", param_name),
{
    let param = param_name;
    if param == DeviceInfo::NAME || param == DeviceInfo::VENDOR || param == DeviceInfo::VERSION ||
        param == DeviceInfo::PROFILE || param == DeviceInfo::DRIVER_VERSION ||
        param == DeviceInfo::EXTENSIONS || param == DeviceInfo::OPENCL_C_VERSION ||
        param == DeviceInfo::BUILT_IN_KERNELS || param == DeviceInfo::IL_VERSION ||
        param == DeviceInfo::LATEST_CONFORMANCE_VERSION_PASSED {
        Ok(InfoShape::Text)
    } else if param == DeviceInfo::VENDOR_ID || param == DeviceInfo::MAX_COMPUTE_UNITS ||
        param == DeviceInfo::MAX_WORK_ITEM_DIMENSIONS ||
        param == DeviceInfo::PREFERRED_VECTOR_WIDTH_CHAR ||
        param == DeviceInfo::PREFERRED_VECTOR_WIDTH_SHORT ||
        param == DeviceInfo::PREFERRED_VECTOR_WIDTH_INT ||
        param == DeviceInfo::PREFERRED_VECTOR_WIDTH_LONG ||
        param == DeviceInfo::PREFERRED_VECTOR_WIDTH_FLOAT ||
        param == DeviceInfo::PREFERRED_VECTOR_WIDTH_DOUBLE ||
        param == DeviceInfo::PREFERRED_VECTOR_WIDTH_HALF ||
        param == DeviceInfo::NATIVE_VECTOR_WIDTH_CHAR ||
        param == DeviceInfo::NATIVE_VECTOR_WIDTH_SHORT ||
        param == DeviceInfo::NATIVE_VECTOR_WIDTH_INT ||
        param == DeviceInfo::NATIVE_VECTOR_WIDTH_LONG ||
        param == DeviceInfo::NATIVE_VECTOR_WIDTH_FLOAT ||
        param == DeviceInfo::NATIVE_VECTOR_WIDTH_DOUBLE ||
        param == DeviceInfo::NATIVE_VECTOR_WIDTH_HALF ||
        param == DeviceInfo::MAX_CLOCK_FREQUENCY || param == DeviceInfo::ADDRESS_BITS ||
        param == DeviceInfo::MAX_READ_IMAGE_ARGS || param == DeviceInfo::MAX_WRITE_IMAGE_ARGS ||
        param == DeviceInfo::MAX_READ_WRITE_IMAGE_ARGS || param == DeviceInfo::MAX_SAMPLERS ||
        param == DeviceInfo::IMAGE_PITCH_ALIGNMENT ||
        param == DeviceInfo::IMAGE_BASE_ADDRESS_ALIGNMENT || param == DeviceInfo::MAX_PIPE_ARGS ||
        param == DeviceInfo::PIPE_MAX_ACTIVE_RESERVATIONS ||
        param == DeviceInfo::PIPE_MAX_PACKET_SIZE || param == DeviceInfo::MEM_BASE_ADDR_ALIGN ||
        param == DeviceInfo::MIN_DATA_TYPE_ALIGN_SIZE ||
        param == DeviceInfo::GLOBAL_MEM_CACHELINE_SIZE || param == DeviceInfo::MAX_CONSTANT_ARGS ||
        param == DeviceInfo::QUEUE_ON_DEVICE_PREFERRED_SIZE ||
        param == DeviceInfo::QUEUE_ON_DEVICE_MAX_SIZE ||
        param == DeviceInfo::MAX_ON_DEVICE_QUEUES || param == DeviceInfo::MAX_ON_DEVICE_EVENTS ||
        param == DeviceInfo::PARTITION_MAX_SUB_DEVICES || param == DeviceInfo::REFERENCE_COUNT ||
        param == DeviceInfo::PREFERRED_PLATFORM_ATOMIC_ALIGNMENT ||
        param == DeviceInfo::PREFERRED_GLOBAL_ATOMIC_ALIGNMENT ||
        param == DeviceInfo::PREFERRED_LOCAL_ATOMIC_ALIGNMENT ||
        param == DeviceInfo::MAX_NUM_SUB_GROUPS || param == DeviceInfo::IMAGE_SUPPORT ||
        param == DeviceInfo::ERROR_CORRECTION_SUPPORT ||
        param == DeviceInfo::HOST_UNIFIED_MEMORY || param == DeviceInfo::ENDIAN_LITTLE ||
        param == DeviceInfo::AVAILABLE || param == DeviceInfo::COMPILER_AVAILABLE ||
        param == DeviceInfo::LINKER_AVAILABLE ||
        param == DeviceInfo::PREFERRED_INTEROP_USER_SYNC ||
        param == DeviceInfo::SUB_GROUP_INDEPENDENT_FORWARD_PROGRESS ||
        param == DeviceInfo::NON_UNIFORM_WORK_GROUP_SUPPORT ||
        param == DeviceInfo::WORK_GROUP_COLLECTIVE_FUNCTIONS_SUPPORT ||
        param == DeviceInfo::GENERIC_ADDRESS_SPACE_SUPPORT || param == DeviceInfo::PIPE_SUPPORT ||
        param == DeviceInfo::NUMERIC_VERSION || param == DeviceInfo::GLOBAL_MEM_CACHE_TYPE ||
        param == DeviceInfo::LOCAL_MEM_TYPE {
        Ok(InfoShape::UInt)
    } else if param == DeviceInfo::MAX_MEM_ALLOC_SIZE || param == DeviceInfo::GLOBAL_MEM_CACHE_SIZE ||
        param == DeviceInfo::GLOBAL_MEM_SIZE || param == DeviceInfo::MAX_CONSTANT_BUFFER_SIZE ||
        param == DeviceInfo::LOCAL_MEM_SIZE || param == DeviceInfo::TYPE ||
        param == DeviceInfo::SINGLE_FP_CONFIG || param == DeviceInfo::DOUBLE_FP_CONFIG ||
        param == DeviceInfo::EXECUTION_CAPABILITIES ||
        param == DeviceInfo::QUEUE_ON_HOST_PROPERTIES ||
        param == DeviceInfo::QUEUE_ON_DEVICE_PROPERTIES ||
        param == DeviceInfo::PARTITION_AFFINITY_DOMAIN || param == DeviceInfo::SVM_CAPABILITIES ||
        param == DeviceInfo::ATOMIC_MEMORY_CAPABILITIES ||
        param == DeviceInfo::ATOMIC_FENCE_CAPABILITIES ||
        param == DeviceInfo::DEVICE_ENQUEUE_CAPABILITIES {
        Ok(InfoShape::ULong)
    } else if param == DeviceInfo::ILS_WITH_VERSION ||
        param == DeviceInfo::BUILT_IN_KERNELS_WITH_VERSION ||
        param == DeviceInfo::OPENCL_C_ALL_VERSIONS || param == DeviceInfo::OPENCL_C_FEATURES ||
        param == DeviceInfo::EXTENSIONS_WITH_VERSION {
        Ok(InfoShape::NameVersion)
    } else if param == DeviceInfo::MAX_WORK_GROUP_SIZE || param == DeviceInfo::IMAGE2D_MAX_WIDTH ||
        param == DeviceInfo::IMAGE2D_MAX_HEIGHT || param == DeviceInfo::IMAGE3D_MAX_WIDTH ||
        param == DeviceInfo::IMAGE3D_MAX_HEIGHT || param == DeviceInfo::IMAGE3D_MAX_DEPTH ||
        param == DeviceInfo::IMAGE_MAX_BUFFER_SIZE || param == DeviceInfo::IMAGE_MAX_ARRAY_SIZE ||
        param == DeviceInfo::MAX_PARAMETER_SIZE || param == DeviceInfo::MAX_GLOBAL_VARIABLE_SIZE ||
        param == DeviceInfo::GLOBAL_VARIABLE_PREFERRED_TOTAL_SIZE ||
        param == DeviceInfo::PROFILING_TIMER_RESOLUTION ||
        param == DeviceInfo::PRINTF_BUFFER_SIZE ||
        param == DeviceInfo::PREFERRED_WORK_GROUP_SIZE_MULTIPLE {
        Ok(InfoShape::CSize)
    } else if param == DeviceInfo::PLATFORM || param == DeviceInfo::PARENT_DEVICE {
        Ok(InfoShape::CPtr)
    } else if param == DeviceInfo::PARTITION_PROPERTIES || param == DeviceInfo::PARTITION_TYPE {
        Ok(InfoShape::ArrCPtr)
    } else if param == DeviceInfo::MAX_WORK_ITEM_SIZES {
        Ok(InfoShape::ArrCSize)
    } else {
        Err(OpenCLAPIError::ObjectError(ValidationError::UnsupportedParameter("clGetDeviceInfo", param)))
    }
}

/// The shape of each context parameter that `clGetContextInfo` is asked for.
pub open spec fn context_info_shape_spec(param: cl_context_info) -> Option<InfoShape> {
    if param == ContextInfo::REFERENCE_COUNT || param == ContextInfo::NUM_DEVICES {
        Some(InfoShape::UInt)
    } else if param == ContextInfo::DEVICES || param == ContextInfo::PROPERTIES {
        Some(InfoShape::ArrCPtr)
    } else {
        None
    }
}

/// The shape of the context parameter `param_name`; one that `clGetContextInfo`
/// is not asked for here is refused.
pub fn context_info_shape(param_name: cl_context_info) -> (r: APIResult<InfoShape>)
    ensures
        r == shape_result(context_info_shape_spec(param_name), "clGetContextInfo", param_name),
{
    let param = param_name;
    if param == ContextInfo::REFERENCE_COUNT || param == ContextInfo::NUM_DEVICES {
        Ok(InfoShape::UInt)
    } else if param == ContextInfo::DEVICES || param == ContextInfo::PROPERTIES {
        Ok(InfoShape::ArrCPtr)
    } else {
        Err(OpenCLAPIError::ObjectError(ValidationError::UnsupportedParameter("clGetContextInfo", param)))
    }
}

/// The shape of each command queue parameter that `clGetCommandQueueInfo` is asked for.
pub open spec fn command_queue_info_shape_spec(param: cl_command_queue_info) -> Option<InfoShape> {
    if param == CommandQueueInfo::CONTEXT || param == CommandQueueInfo::DEVICE ||
        param == CommandQueueInfo::DEVICE_DEFAULT {
        Some(InfoShape::CPtr)
    } else if param == CommandQueueInfo::REFERENCE_COUNT || param == CommandQueueInfo::SIZE {
        Some(InfoShape::UInt)
    } else if param == CommandQueueInfo::PROPERTIES {
        Some(InfoShape::ULong)
    } else if param == CommandQueueInfo::PROPERTIES_ARRAY {
        Some(InfoShape::ArrULong)
    } else {
        None
    }
}

/// The shape of the command queue parameter `param_name`; one that `clGetCommandQueueInfo`
/// is not asked for here is refused.
pub fn command_queue_info_shape(param_name: cl_command_queue_info) -> (r: APIResult<InfoShape>)
    ensures
        r == shape_result(command_queue_info_shape_spec(param_name), "clGetCommandQueueInfo", param_name),
{
    let param = param_name;
    if param == CommandQueueInfo::CONTEXT || param == CommandQueueInfo::DEVICE ||
        param == CommandQueueInfo::DEVICE_DEFAULT {
        Ok(InfoShape::CPtr)
    } else if param == CommandQueueInfo::REFERENCE_COUNT || param == CommandQueueInfo::SIZE {
        Ok(InfoShape::UInt)
    } else if param == CommandQueueInfo::PROPERTIES {
        Ok(InfoShape::ULong)
    } else if param == CommandQueueInfo::PROPERTIES_ARRAY {
        Ok(InfoShape::ArrULong)
    } else {
        Err(OpenCLAPIError::ObjectError(ValidationError::UnsupportedParameter("clGetCommandQueueInfo", param)))
    }
}

/// The shape of each mem object parameter that `clGetMemObjectInfo` is asked for.
pub open spec fn mem_object_info_shape_spec(param: cl_mem_info) -> Option<InfoShape> {
    if param == MemInfo::MAP_COUNT || param == MemInfo::REFERENCE_COUNT ||
        param == MemInfo::USES_SVM_POINTER || param == MemInfo::TYPE {
        Some(InfoShape::UInt)
    } else if param == MemInfo::HOST_PTR || param == MemInfo::CONTEXT ||
        param == MemInfo::ASSOCIATED_MEMOBJECT {
        Some(InfoShape::CPtr)
    } else if param == MemInfo::FLAGS {
        Some(InfoShape::ULong)
    } else if param == MemInfo::SIZE || param == MemInfo::OFFSET {
        Some(InfoShape::CSize)
    } else if param == MemInfo::PROPERTIES {
        Some(InfoShape::ArrULong)
    } else {
        None
    }
}

/// The shape of the mem object parameter `param_name`; one that `clGetMemObjectInfo`
/// is not asked for here is refused.
pub fn mem_object_info_shape(param_name: cl_mem_info) -> (r: APIResult<InfoShape>)
    ensures
        r == shape_result(mem_object_info_shape_spec(param_name), "clGetMemObjectInfo", param_name),
{
    let param = param_name;
    if param == MemInfo::MAP_COUNT || param == MemInfo::REFERENCE_COUNT ||
        param == MemInfo::USES_SVM_POINTER || param == MemInfo::TYPE {
        Ok(InfoShape::UInt)
    } else if param == MemInfo::HOST_PTR || param == MemInfo::CONTEXT ||
        param == MemInfo::ASSOCIATED_MEMOBJECT {
        Ok(InfoShape::CPtr)
    } else if param == MemInfo::FLAGS {
        Ok(InfoShape::ULong)
    } else if param == MemInfo::SIZE || param == MemInfo::OFFSET {
        Ok(InfoShape::CSize)
    } else if param == MemInfo::PROPERTIES {
        Ok(InfoShape::ArrULong)
    } else {
        Err(OpenCLAPIError::ObjectError(ValidationError::UnsupportedParameter("clGetMemObjectInfo", param)))
    }
}

/// The shape of each image parameter that `clGetImageInfo` is asked for.
pub open spec fn image_info_shape_spec(param: cl_image_info) -> Option<InfoShape> {
    if param == ImageInfo::ELEMENT_SIZE || param == ImageInfo::ROW_PITCH ||
        param == ImageInfo::SLICE_PITCH || param == ImageInfo::WIDTH ||
        param == ImageInfo::HEIGHT || param == ImageInfo::DEPTH ||
        param == ImageInfo::ARRAY_SIZE {
        Some(InfoShape::CSize)
    } else if param == ImageInfo::BUFFER {
        Some(InfoShape::CPtr)
    } else if param == ImageInfo::NUM_MIP_LEVELS || param == ImageInfo::NUM_SAMPLES {
        Some(InfoShape::UInt)
    } else if param == ImageInfo::FORMAT {
        Some(InfoShape::ImageFormat)
    } else {
        None
    }
}

/// The shape of the image parameter `param_name`; one that `clGetImageInfo`
/// is not asked for here is refused.
pub fn image_info_shape(param_name: cl_image_info) -> (r: APIResult<InfoShape>)
    ensures
        r == shape_result(image_info_shape_spec(param_name), "clGetImageInfo", param_name),
{
    let param = param_name;
    if param == ImageInfo::ELEMENT_SIZE || param == ImageInfo::ROW_PITCH ||
        param == ImageInfo::SLICE_PITCH || param == ImageInfo::WIDTH ||
        param == ImageInfo::HEIGHT || param == ImageInfo::DEPTH ||
        param == ImageInfo::ARRAY_SIZE {
        Ok(InfoShape::CSize)
    } else if param == ImageInfo::BUFFER {
        Ok(InfoShape::CPtr)
    } else if param == ImageInfo::NUM_MIP_LEVELS || param == ImageInfo::NUM_SAMPLES {
        Ok(InfoShape::UInt)
    } else if param == ImageInfo::FORMAT {
        Ok(InfoShape::ImageFormat)
    } else {
        Err(OpenCLAPIError::ObjectError(ValidationError::UnsupportedParameter("clGetImageInfo", param)))
    }
}

/// The shape of each pipe parameter that `clGetPipeInfo` is asked for.
pub open spec fn pipe_info_shape_spec(param: cl_pipe_info) -> Option<InfoShape> {
    if param == PipeInfo::PACKET_SIZE || param == PipeInfo::MAX_PACKETS {
        Some(InfoShape::UInt)
    } else if param == PipeInfo::PROPERTIES {
        Some(InfoShape::ArrCPtr)
    } else {
        None
    }
}

/// The shape of the pipe parameter `param_name`; one that `clGetPipeInfo`
/// is not asked for here is refused.
pub fn pipe_info_shape(param_name: cl_pipe_info) -> (r: APIResult<InfoShape>)
    ensures
        r == shape_result(pipe_info_shape_spec(param_name), "clGetPipeInfo", param_name),
{
    let param = param_name;
    if param == PipeInfo::PACKET_SIZE || param == PipeInfo::MAX_PACKETS {
        Ok(InfoShape::UInt)
    } else if param == PipeInfo::PROPERTIES {
        Ok(InfoShape::ArrCPtr)
    } else {
        Err(OpenCLAPIError::ObjectError(ValidationError::UnsupportedParameter("clGetPipeInfo", param)))
    }
}

/// The shape of each sampler parameter that `clGetSamplerInfo` is asked for.
pub open spec fn sampler_info_shape_spec(param: cl_sampler_info) -> Option<InfoShape> {
    if param == SamplerInfo::ADDRESSING_MODE || param == SamplerInfo::FILTER_MODE ||
        param == SamplerInfo::NORMALIZED_COORDS || param == SamplerInfo::REFERENCE_COUNT {
        Some(InfoShape::UInt)
    } else if param == SamplerInfo::CONTEXT {
        Some(InfoShape::CPtr)
    } else if param == SamplerInfo::PROPERTIES {
        Some(InfoShape::ArrCPtr)
    } else {
        None
    }
}

/// The shape of the sampler parameter `param_name`; one that `clGetSamplerInfo`
/// is not asked for here is refused.
pub fn sampler_info_shape(param_name: cl_sampler_info) -> (r: APIResult<InfoShape>)
    ensures
        r == shape_result(sampler_info_shape_spec(param_name), "clGetSamplerInfo", param_name),
{
    let param = param_name;
    if param == SamplerInfo::ADDRESSING_MODE || param == SamplerInfo::FILTER_MODE ||
        param == SamplerInfo::NORMALIZED_COORDS || param == SamplerInfo::REFERENCE_COUNT {
        Ok(InfoShape::UInt)
    } else if param == SamplerInfo::CONTEXT {
        Ok(InfoShape::CPtr)
    } else if param == SamplerInfo::PROPERTIES {
        Ok(InfoShape::ArrCPtr)
    } else {
        Err(OpenCLAPIError::ObjectError(ValidationError::UnsupportedParameter("clGetSamplerInfo", param)))
    }
}

} // verus!
