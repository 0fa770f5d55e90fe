//! Native status codes and their translation into named outcomes.
use vstd::prelude::*;
use crate::consts::{
    cl_int,
    CL_BUILD_PROGRAM_FAILURE,
    CL_COMPILER_NOT_AVAILABLE,
    CL_COMPILE_PROGRAM_FAILURE,
    CL_DEVICE_NOT_AVAILABLE,
    CL_DEVICE_NOT_FOUND,
    CL_DEVICE_PARTITION_FAILED,
    CL_EXEC_STATUS_ERROR_FOR_EVENTS_IN_WAIT_LIST,
    CL_IMAGE_FORMAT_MISMATCH,
    CL_IMAGE_FORMAT_NOT_SUPPORTED,
    CL_INVALID_ARG_INDEX,
    CL_INVALID_ARG_SIZE,
    CL_INVALID_ARG_VALUE,
    CL_INVALID_BINARY,
    CL_INVALID_BUFFER_SIZE,
    CL_INVALID_BUILD_OPTIONS,
    CL_INVALID_COMMAND_QUEUE,
    CL_INVALID_COMPILER_OPTIONS,
    CL_INVALID_CONTEXT,
    CL_INVALID_DEVICE,
    CL_INVALID_DEVICE_PARTITION_COUNT,
    CL_INVALID_DEVICE_QUEUE,
    CL_INVALID_DEVICE_TYPE,
    CL_INVALID_EVENT,
    CL_INVALID_EVENT_WAIT_LIST,
    CL_INVALID_GLOBAL_OFFSET,
    CL_INVALID_GLOBAL_WORK_SIZE,
    CL_INVALID_GL_OBJECT,
    CL_INVALID_HOST_PTR,
    CL_INVALID_IMAGE_DESCRIPTOR,
    CL_INVALID_IMAGE_FORMAT_DESCRIPTOR,
    CL_INVALID_IMAGE_SIZE,
    CL_INVALID_KERNEL,
    CL_INVALID_KERNEL_ARGS,
    CL_INVALID_KERNEL_DEFINITION,
    CL_INVALID_KERNEL_NAME,
    CL_INVALID_LINKER_OPTIONS,
    CL_INVALID_MEM_OBJECT,
    CL_INVALID_MIP_LEVEL,
    CL_INVALID_OPERATION,
    CL_INVALID_PIPE_SIZE,
    CL_INVALID_PLATFORM,
    CL_INVALID_PROGRAM,
    CL_INVALID_PROGRAM_EXECUTABLE,
    CL_INVALID_PROPERTY,
    CL_INVALID_QUEUE_PROPERTIES,
    CL_INVALID_SAMPLER,
    CL_INVALID_SPEC_ID,
    CL_INVALID_VALUE,
    CL_INVALID_WORK_DIMENSION,
    CL_INVALID_WORK_GROUP_SIZE,
    CL_INVALID_WORK_ITEM_SIZE,
    CL_KERNEL_ARG_INFO_NOT_AVAILABLE,
    CL_LINKER_NOT_AVAILABLE,
    CL_LINK_PROGRAM_FAILURE,
    CL_MAP_FAILURE,
    CL_MAX_SIZE_RESTRICTION_EXCEEDED,
    CL_MEM_COPY_OVERLAP,
    CL_MEM_OBJECT_ALLOCATION_FAILURE,
    CL_MISALIGNED_SUB_BUFFER_OFFSET,
    CL_OUT_OF_HOST_MEMORY,
    CL_OUT_OF_RESOURCES,
    CL_PROFILING_INFO_NOT_AVAILABLE,
    CL_SUCCESS,
};
use crate::errors::ValidationError;

verus! {

/// The outcome that a native status code names.
///
/// Each named variant stands for one code of the OpenCL headers; a code that
/// none of them stands for becomes `InvalidStatusCode`, which keeps the code
/// and the call site that produced it.
#[derive(Clone, Debug, PartialEq, Eq, Hash)]
pub enum Status {
    Success,
    DeviceNotFound,
    DeviceNotAvailable,
    CompilerNotAvailable,
    MemObjectAllocationFailure,
    OutOfResources,
    OutOfHostMemory,
    ProfilingInfoNotAvailable,
    MemCopyOverlap,
    ImageFormatMismatch,
    ImageFormatNotSupported,
    BuildProgramFailure,
    MapFailure,
    MisalignedSubBufferOffset,
    ExecStatusErrorForEventsInWaitList,
    CompileProgramFailure,
    LinkerNotAvailable,
    LinkProgramFailure,
    DevicePartitionFailed,
    KernelArgInfoNotAvailable,
    InvalidValue,
    InvalidDeviceType,
    InvalidPlatform,
    InvalidDevice,
    InvalidContext,
    InvalidQueueProperties,
    InvalidCommandQueue,
    InvalidHostPtr,
    InvalidMemObject,
    InvalidImageFormatDescriptor,
    InvalidImageSize,
    InvalidSampler,
    InvalidBinary,
    InvalidBuildOptions,
    InvalidProgram,
    InvalidProgramExecutable,
    InvalidKernelName,
    InvalidKernelDefinition,
    InvalidKernel,
    InvalidArgIndex,
    InvalidArgValue,
    InvalidArgSize,
    InvalidKernelArgs,
    InvalidWorkDimension,
    InvalidWorkGroupSize,
    InvalidWorkItemSize,
    InvalidGlobalOffset,
    InvalidEventWaitList,
    InvalidEvent,
    InvalidOperation,
    InvalidGLObject,
    InvalidBufferSize,
    InvalidMIPLevel,
    InvalidGlobalWorkSize,
    InvalidProperty,
    InvalidImageDescriptor,
    InvalidCompilerOptions,
    InvalidLinkerOptions,
    InvalidDevicePartitionCount,
    InvalidPipeSize,
    InvalidDeviceQueue,
    InvalidSpecId,
    MaxSizeRestrictionExceeded,
    InvalidStatusCode { code: cl_int, func: &'static str },
}

/// The codes that the headers name: success, `-1` to `-19` and `-30` to `-72`.
pub open spec fn is_recognized_code(code: int) -> bool {
    code == 0 || (-19 <= code && code <= -1) || (-72 <= code && code <= -30)
}

/// The status that translating `code` at call site `func` gives.
pub open spec fn status_of(code: cl_int, func: &'static str) -> Status {
    if is_recognized_code(code as int) {
        choose|s: Status| s.is_named() && s.code_spec() == code
    } else {
        Status::InvalidStatusCode { code, func }
    }
}

/// Two named statuses that stand for the same native code are the same
/// status: translation maps each code to exactly one outcome.
pub proof fn lemma_status_code_identifies(s1: Status, s2: Status)
    requires
        s1.is_named(),
        s2.is_named(),
        s1.code_spec() == s2.code_spec(),
    ensures
        s1 == s2,
{
}

/// A status that stands for `code`, named exactly when the code is
/// recognized and otherwise carrying `func`, is the translation of `code`.
pub proof fn lemma_status_of_unique(code: cl_int, func: &'static str, r: Status)
    requires
        r.code_spec() == code,
        r.is_named() <==> is_recognized_code(code as int),
        !is_recognized_code(code as int) ==> r == (Status::InvalidStatusCode { code, func }),
    ensures
        r == status_of(code, func),
{
    if is_recognized_code(code as int) {
        let s = choose|s: Status| s.is_named() && s.code_spec() == code;
        lemma_status_code_identifies(s, r);
    }
}

/// Translation is deterministic and loses nothing: a named status is found
/// again from its code, whatever the call site, and a code the headers do not
/// name becomes the unrecognized status carrying that exact integer.
pub proof fn lemma_status_translation(code: cl_int, func: &'static str, s: Status)
    ensures
        !is_recognized_code(code as int) ==> status_of(code, func) == (Status::InvalidStatusCode {
            code,
            func,
        }),
        s.is_named() ==> status_of(s.code_spec(), func) == s,
{
    if s.is_named() {
        assert(is_recognized_code(s.code_spec() as int));
        let c = choose|t: Status| t.is_named() && t.code_spec() == s.code_spec();
        lemma_status_code_identifies(c, s);
    }
}

impl Status {
    /// Whether this status stands for a code of the headers.
    pub open spec fn is_named(self) -> bool {
        !(self is InvalidStatusCode)
    }

    /// The native code this status stands for.
    pub open spec fn code_spec(self) -> cl_int {
        match self {
            Status::Success => CL_SUCCESS,
            Status::DeviceNotFound => CL_DEVICE_NOT_FOUND,
            Status::DeviceNotAvailable => CL_DEVICE_NOT_AVAILABLE,
            Status::CompilerNotAvailable => CL_COMPILER_NOT_AVAILABLE,
            Status::MemObjectAllocationFailure => CL_MEM_OBJECT_ALLOCATION_FAILURE,
            Status::OutOfResources => CL_OUT_OF_RESOURCES,
            Status::OutOfHostMemory => CL_OUT_OF_HOST_MEMORY,
            Status::ProfilingInfoNotAvailable => CL_PROFILING_INFO_NOT_AVAILABLE,
            Status::MemCopyOverlap => CL_MEM_COPY_OVERLAP,
            Status::ImageFormatMismatch => CL_IMAGE_FORMAT_MISMATCH,
            Status::ImageFormatNotSupported => CL_IMAGE_FORMAT_NOT_SUPPORTED,
            Status::BuildProgramFailure => CL_BUILD_PROGRAM_FAILURE,
            Status::MapFailure => CL_MAP_FAILURE,
            Status::MisalignedSubBufferOffset => CL_MISALIGNED_SUB_BUFFER_OFFSET,
            Status::ExecStatusErrorForEventsInWaitList => CL_EXEC_STATUS_ERROR_FOR_EVENTS_IN_WAIT_LIST,
            Status::CompileProgramFailure => CL_COMPILE_PROGRAM_FAILURE,
            Status::LinkerNotAvailable => CL_LINKER_NOT_AVAILABLE,
            Status::LinkProgramFailure => CL_LINK_PROGRAM_FAILURE,
            Status::DevicePartitionFailed => CL_DEVICE_PARTITION_FAILED,
            Status::KernelArgInfoNotAvailable => CL_KERNEL_ARG_INFO_NOT_AVAILABLE,
            Status::InvalidValue => CL_INVALID_VALUE,
            Status::InvalidDeviceType => CL_INVALID_DEVICE_TYPE,
            Status::InvalidPlatform => CL_INVALID_PLATFORM,
            Status::InvalidDevice => CL_INVALID_DEVICE,
            Status::InvalidContext => CL_INVALID_CONTEXT,
            Status::InvalidQueueProperties => CL_INVALID_QUEUE_PROPERTIES,
            Status::InvalidCommandQueue => CL_INVALID_COMMAND_QUEUE,
            Status::InvalidHostPtr => CL_INVALID_HOST_PTR,
            Status::InvalidMemObject => CL_INVALID_MEM_OBJECT,
            Status::InvalidImageFormatDescriptor => CL_INVALID_IMAGE_FORMAT_DESCRIPTOR,
            Status::InvalidImageSize => CL_INVALID_IMAGE_SIZE,
            Status::InvalidSampler => CL_INVALID_SAMPLER,
            Status::InvalidBinary => CL_INVALID_BINARY,
            Status::InvalidBuildOptions => CL_INVALID_BUILD_OPTIONS,
            Status::InvalidProgram => CL_INVALID_PROGRAM,
            Status::InvalidProgramExecutable => CL_INVALID_PROGRAM_EXECUTABLE,
            Status::InvalidKernelName => CL_INVALID_KERNEL_NAME,
            Status::InvalidKernelDefinition => CL_INVALID_KERNEL_DEFINITION,
            Status::InvalidKernel => CL_INVALID_KERNEL,
            Status::InvalidArgIndex => CL_INVALID_ARG_INDEX,
            Status::InvalidArgValue => CL_INVALID_ARG_VALUE,
            Status::InvalidArgSize => CL_INVALID_ARG_SIZE,
            Status::InvalidKernelArgs => CL_INVALID_KERNEL_ARGS,
            Status::InvalidWorkDimension => CL_INVALID_WORK_DIMENSION,
            Status::InvalidWorkGroupSize => CL_INVALID_WORK_GROUP_SIZE,
            Status::InvalidWorkItemSize => CL_INVALID_WORK_ITEM_SIZE,
            Status::InvalidGlobalOffset => CL_INVALID_GLOBAL_OFFSET,
            Status::InvalidEventWaitList => CL_INVALID_EVENT_WAIT_LIST,
            Status::InvalidEvent => CL_INVALID_EVENT,
            Status::InvalidOperation => CL_INVALID_OPERATION,
            Status::InvalidGLObject => CL_INVALID_GL_OBJECT,
            Status::InvalidBufferSize => CL_INVALID_BUFFER_SIZE,
            Status::InvalidMIPLevel => CL_INVALID_MIP_LEVEL,
            Status::InvalidGlobalWorkSize => CL_INVALID_GLOBAL_WORK_SIZE,
            Status::InvalidProperty => CL_INVALID_PROPERTY,
            Status::InvalidImageDescriptor => CL_INVALID_IMAGE_DESCRIPTOR,
            Status::InvalidCompilerOptions => CL_INVALID_COMPILER_OPTIONS,
            Status::InvalidLinkerOptions => CL_INVALID_LINKER_OPTIONS,
            Status::InvalidDevicePartitionCount => CL_INVALID_DEVICE_PARTITION_COUNT,
            Status::InvalidPipeSize => CL_INVALID_PIPE_SIZE,
            Status::InvalidDeviceQueue => CL_INVALID_DEVICE_QUEUE,
            Status::InvalidSpecId => CL_INVALID_SPEC_ID,
            Status::MaxSizeRestrictionExceeded => CL_MAX_SIZE_RESTRICTION_EXCEEDED,
            Status::InvalidStatusCode { code, .. } => code,
        }
    }

    /// The human-readable reason that goes with this status.
    pub open spec fn reason_spec(self) -> &'static str {
        match self {
            Status::Success => "[cl_success] api executed successfully, without errors",
            Status::DeviceNotFound => "[cl_device_not_found] no devices were found that match the specified device type",
            Status::DeviceNotAvailable => "[cl_device_not_available] no devices were found that match the specified device type",
            Status::CompilerNotAvailable => "[cl_compiler_not_available] compiling or building a program from source or IL when `CL_DEVICE_COMPILER_AVAILABLE` is `CL_FALSE`",
            Status::MemObjectAllocationFailure => "[cl_mem_object_allocation_failure] there is a failure to allocate memory for a memory object",
            Status::OutOfResources => "[cl_out_of_resources] generic error code, resources could not be allocated on the device",
            Status::OutOfHostMemory => "[cl_out_of_host_memory] generic error code, memory could not be allocated on the host",
            Status::ProfilingInfoNotAvailable => "[cl_profiling_info_not_available] function `clGetEventProfilingInfo` when the command associated with the specified event was not enqueued into a command queue with `CL_QUEUE_PROFILING_ENABLE`",
            Status::MemCopyOverlap => "[cl_mem_copy_overlap] copying from one region of a memory object to another where the source and destination regions overlap",
            Status::ImageFormatMismatch => "[cl_image_format_mismatch] attempting to copy images that do not use the same image format",
            Status::ImageFormatNotSupported => "[cl_image_format_not_supported] attempting to create or use an image format that is not supported",
            Status::BuildProgramFailure => "[cl_build_program_failure] function `clBuildProgram` failed to build the specified program",
            Status::MapFailure => "[cl_map_failure] there is a failure to map the specified region into the host address space",
            Status::MisalignedSubBufferOffset => "[cl_misaligned_sub_buffer_offset] a sub-buffer object is created or used that is not aligned to `CL_DEVICE_MEM_BASE_ADDR_ALIGN` for the device",
            Status::ExecStatusErrorForEventsInWaitList => "[cl_exec_status_error_for_events_in_wait_list] any APIs being blocked when an event in the event wait list has a negative value, indicating it is in an error state",
            Status::CompileProgramFailure => "[cl_compile_program_failure] function `clCompileProgram` failed to compile the specified program",
            Status::LinkerNotAvailable => "[cl_linker_not_available] function `clLinkProgram` when `CL_DEVICE_LINKER_AVAILABLE` is `CL_FALSE`",
            Status::LinkProgramFailure => "[cl_link_program_failure] function `clLinkProgram` when there is a failure to link the specified binaries or libraries",
            Status::DevicePartitionFailed => "[cl_device_partition_failed] device partitioning is supported but the device could not be further partitioned",
            Status::KernelArgInfoNotAvailable => "[cl_kernel_arg_info_not_available] function `clGetKernelArgInfo` when kernel argument information is not available for the specified kernel",
            Status::InvalidValue => "[cl_invalid_value] generic error code, specified value is not a valid value",
            Status::InvalidDeviceType => "[cl_invalid_device_type] the requested device type is not a valid value",
            Status::InvalidPlatform => "[cl_invalid_platform] the specified platform is not a valid platform",
            Status::InvalidDevice => "[cl_invalid_device] a specified device is not valid",
            Status::InvalidContext => "[cl_invalid_context] a specified context is not a valid context, or when mixing objects from multiple contexts",
            Status::InvalidQueueProperties => "[cl_invalid_queue_properties] specified queue properties are valid but are not supported by the device",
            Status::InvalidCommandQueue => "[cl_invalid_command_queue] the specified command queue is not a valid command queue",
            Status::InvalidHostPtr => "[cl_invalid_host_ptr] the specified host pointer is not valid for the specified flags",
            Status::InvalidMemObject => "[cl_invalid_mem_object] a specified memory object is not a valid memory object",
            Status::InvalidImageFormatDescriptor => "[cl_invalid_image_format_descriptor] the specified image format descriptor is `NULL` or specifies invalid value",
            Status::InvalidImageSize => "[cl_invalid_image_size] the specified image dimensions exceed the maximum dimensions for a device or all devices in a context",
            Status::InvalidSampler => "[cl_invalid_sampler] a specified sampler is not a valid sampler object",
            Status::InvalidBinary => "[cl_invalid_binary] a program binary is not valid for a device",
            Status::InvalidBuildOptions => "[cl_invalid_build_options] build options passed to function `clBuildProgram` are not valid",
            Status::InvalidProgram => "[cl_invalid_program] a specified program is not a valid program object",
            Status::InvalidProgramExecutable => "[cl_invalid_program_executable] the specified program is valid but has not been successfully built",
            Status::InvalidKernelName => "[cl_invalid_kernel_name] creating a kernel when no kernel with the specified name exists in the program object",
            Status::InvalidKernelDefinition => "[cl_invalid_kernel_definition] creating a kernel for multiple devices where the number of kernel arguments or kernel argument types are not the same for all devices",
            Status::InvalidKernel => "[cl_invalid_kernel] the specified kernel is not a valid kernel",
            Status::InvalidArgIndex => "[cl_invalid_arg_index] attempting to get or set a kernel argument using an invalid index for the specified kernel",
            Status::InvalidArgValue => "[cl_invalid_arg_value] attempting to set a kernel argument that is not valid",
            Status::InvalidArgSize => "[cl_invalid_arg_size] the specified size of a kernel argument does not match the size of the kernel argument",
            Status::InvalidKernelArgs => "[cl_invalid_kernel_args] enqueing a kernel when some kernel arguments have not been set or are invalid",
            Status::InvalidWorkDimension => "[cl_invalid_work_dimension] function `clEnqueueNDRangeKernel` when the specified work dimension is not valid",
            Status::InvalidWorkGroupSize => "[cl_invalid_work_group_size] function `clEnqueueNDRangeKernel` when the specified total work-group size is not valid for the specified kernel or device",
            Status::InvalidWorkItemSize => "[cl_invalid_work_item_size] function `clEnqueueNDRangeKernel` when the specified work-group size in one dimension is not valid for the device",
            Status::InvalidGlobalOffset => "[cl_invalid_global_offset] the specified global offset and global work size exceeds the limits of the device",
            Status::InvalidEventWaitList => "[cl_invalid_event_wait_list] the specified event wait list or number of events in the wait list is not valid",
            Status::InvalidEvent => "[cl_invalid_event] a specified event object is not a valid event object",
            Status::InvalidOperation => "[cl_invalid_operation] generic error code, the requested operation is not a valid operation",
            Status::InvalidGLObject => "[cl_invalid_gl_object] a specified OpenGL object is not a valid object to share with OpenCL",
            Status::InvalidBufferSize => "[cl_invalid_buffer_size] attempting to create a buffer or a sub-buffer with an invalid size",
            Status::InvalidMIPLevel => "[cl_invalid_mip_level] a specified mip-map level is not valid for the image",
            Status::InvalidGlobalWorkSize => "[cl_invalid_global_work_size] the specified global work size exceeds the limits of the device",
            Status::InvalidProperty => "[cl_invalid_property] a specified property name is invalid, when the value for a property name is invalid, or when the same property name is specified more than once",
            Status::InvalidImageDescriptor => "[cl_invalid_image_descriptor] the specified image descriptor is `NULL` or specifies invalid values",
            Status::InvalidCompilerOptions => "[cl_invalid_compiler_options] compiler options passed to function `clCompileProgram` are not valid",
            Status::InvalidLinkerOptions => "[cl_invalid_linker_options] build options passed to `clLinkProgram` are not valid",
            Status::InvalidDevicePartitionCount => "[cl_invalid_device_partition_count] the requested device partitioning using `CL_DEVICE_PARTITION_BY_COUNTS` is not valid",
            Status::InvalidPipeSize => "[cl_invalid_pipe_size] attempting to create a pipe with an invalid packet size or number of packets",
            Status::InvalidDeviceQueue => "[cl_invalid_device_queue] setting a device queue kernel argument to a value that is not a valid device command queue",
            Status::InvalidSpecId => "[cl_invalid_spec_id] the specified specialization constant ID is not valid for the specified program",
            Status::MaxSizeRestrictionExceeded => "[cl_max_size_restriction_exceeded] the size of the specified kernel argument value exceeds the maximum size defined for the kernel argument",
            Status::InvalidStatusCode { .. } => "current status code does not match with any of the valid opencl codes",
        }
    }

    /// The native code of a named status; a status without one is refused.
    pub fn to_status_code(&self) -> (r: Result<cl_int, ValidationError>)
        ensures
            self.is_named() ==> r == Ok::<cl_int, ValidationError>(self.code_spec()),
            !self.is_named() ==> r == Err::<cl_int, ValidationError>(
                ValidationError::InvalidStatusCode(self->func),
            ),
    {
        let data = match self {
            Status::Success => CL_SUCCESS,
            Status::DeviceNotFound => CL_DEVICE_NOT_FOUND,
            Status::DeviceNotAvailable => CL_DEVICE_NOT_AVAILABLE,
            Status::CompilerNotAvailable => CL_COMPILER_NOT_AVAILABLE,
            Status::MemObjectAllocationFailure => CL_MEM_OBJECT_ALLOCATION_FAILURE,
            Status::OutOfResources => CL_OUT_OF_RESOURCES,
            Status::OutOfHostMemory => CL_OUT_OF_HOST_MEMORY,
            Status::ProfilingInfoNotAvailable => CL_PROFILING_INFO_NOT_AVAILABLE,
            Status::MemCopyOverlap => CL_MEM_COPY_OVERLAP,
            Status::ImageFormatMismatch => CL_IMAGE_FORMAT_MISMATCH,
            Status::ImageFormatNotSupported => CL_IMAGE_FORMAT_NOT_SUPPORTED,
            Status::BuildProgramFailure => CL_BUILD_PROGRAM_FAILURE,
            Status::MapFailure => CL_MAP_FAILURE,
            Status::MisalignedSubBufferOffset => CL_MISALIGNED_SUB_BUFFER_OFFSET,
            Status::ExecStatusErrorForEventsInWaitList => CL_EXEC_STATUS_ERROR_FOR_EVENTS_IN_WAIT_LIST,
            Status::CompileProgramFailure => CL_COMPILE_PROGRAM_FAILURE,
            Status::LinkerNotAvailable => CL_LINKER_NOT_AVAILABLE,
            Status::LinkProgramFailure => CL_LINK_PROGRAM_FAILURE,
            Status::DevicePartitionFailed => CL_DEVICE_PARTITION_FAILED,
            Status::KernelArgInfoNotAvailable => CL_KERNEL_ARG_INFO_NOT_AVAILABLE,
            Status::InvalidValue => CL_INVALID_VALUE,
            Status::InvalidDeviceType => CL_INVALID_DEVICE_TYPE,
            Status::InvalidPlatform => CL_INVALID_PLATFORM,
            Status::InvalidDevice => CL_INVALID_DEVICE,
            Status::InvalidContext => CL_INVALID_CONTEXT,
            Status::InvalidQueueProperties => CL_INVALID_QUEUE_PROPERTIES,
            Status::InvalidCommandQueue => CL_INVALID_COMMAND_QUEUE,
            Status::InvalidHostPtr => CL_INVALID_HOST_PTR,
            Status::InvalidMemObject => CL_INVALID_MEM_OBJECT,
            Status::InvalidImageFormatDescriptor => CL_INVALID_IMAGE_FORMAT_DESCRIPTOR,
            Status::InvalidImageSize => CL_INVALID_IMAGE_SIZE,
            Status::InvalidSampler => CL_INVALID_SAMPLER,
            Status::InvalidBinary => CL_INVALID_BINARY,
            Status::InvalidBuildOptions => CL_INVALID_BUILD_OPTIONS,
            Status::InvalidProgram => CL_INVALID_PROGRAM,
            Status::InvalidProgramExecutable => CL_INVALID_PROGRAM_EXECUTABLE,
            Status::InvalidKernelName => CL_INVALID_KERNEL_NAME,
            Status::InvalidKernelDefinition => CL_INVALID_KERNEL_DEFINITION,
            Status::InvalidKernel => CL_INVALID_KERNEL,
            Status::InvalidArgIndex => CL_INVALID_ARG_INDEX,
            Status::InvalidArgValue => CL_INVALID_ARG_VALUE,
            Status::InvalidArgSize => CL_INVALID_ARG_SIZE,
            Status::InvalidKernelArgs => CL_INVALID_KERNEL_ARGS,
            Status::InvalidWorkDimension => CL_INVALID_WORK_DIMENSION,
            Status::InvalidWorkGroupSize => CL_INVALID_WORK_GROUP_SIZE,
            Status::InvalidWorkItemSize => CL_INVALID_WORK_ITEM_SIZE,
            Status::InvalidGlobalOffset => CL_INVALID_GLOBAL_OFFSET,
            Status::InvalidEventWaitList => CL_INVALID_EVENT_WAIT_LIST,
            Status::InvalidEvent => CL_INVALID_EVENT,
            Status::InvalidOperation => CL_INVALID_OPERATION,
            Status::InvalidGLObject => CL_INVALID_GL_OBJECT,
            Status::InvalidBufferSize => CL_INVALID_BUFFER_SIZE,
            Status::InvalidMIPLevel => CL_INVALID_MIP_LEVEL,
            Status::InvalidGlobalWorkSize => CL_INVALID_GLOBAL_WORK_SIZE,
            Status::InvalidProperty => CL_INVALID_PROPERTY,
            Status::InvalidImageDescriptor => CL_INVALID_IMAGE_DESCRIPTOR,
            Status::InvalidCompilerOptions => CL_INVALID_COMPILER_OPTIONS,
            Status::InvalidLinkerOptions => CL_INVALID_LINKER_OPTIONS,
            Status::InvalidDevicePartitionCount => CL_INVALID_DEVICE_PARTITION_COUNT,
            Status::InvalidPipeSize => CL_INVALID_PIPE_SIZE,
            Status::InvalidDeviceQueue => CL_INVALID_DEVICE_QUEUE,
            Status::InvalidSpecId => CL_INVALID_SPEC_ID,
            Status::MaxSizeRestrictionExceeded => CL_MAX_SIZE_RESTRICTION_EXCEEDED,
            Status::InvalidStatusCode { func, .. } => {
                return Err(ValidationError::InvalidStatusCode(func));
            },
        };
        Ok(data)
    }

    /// Translates a native status code; `function_name` is the call site that
    /// produced it and is kept when the code is not one the headers name.
    pub fn from(status_code: cl_int, function_name: &'static str) -> (r: Status)
        ensures
            r.code_spec() == status_code,
            r.is_named() <==> is_recognized_code(status_code as int),
            !is_recognized_code(status_code as int) ==> r == (Status::InvalidStatusCode {
                code: status_code,
                func: function_name,
            }),
            r == status_of(status_code, function_name),
    {
        let r = match status_code {
            0 => Status::Success,
            -1 => Status::DeviceNotFound,
            -2 => Status::DeviceNotAvailable,
            -3 => Status::CompilerNotAvailable,
            -4 => Status::MemObjectAllocationFailure,
            -5 => Status::OutOfResources,
            -6 => Status::OutOfHostMemory,
            -7 => Status::ProfilingInfoNotAvailable,
            -8 => Status::MemCopyOverlap,
            -9 => Status::ImageFormatMismatch,
            -10 => Status::ImageFormatNotSupported,
            -11 => Status::BuildProgramFailure,
            -12 => Status::MapFailure,
            -13 => Status::MisalignedSubBufferOffset,
            -14 => Status::ExecStatusErrorForEventsInWaitList,
            -15 => Status::CompileProgramFailure,
            -16 => Status::LinkerNotAvailable,
            -17 => Status::LinkProgramFailure,
            -18 => Status::DevicePartitionFailed,
            -19 => Status::KernelArgInfoNotAvailable,
            -30 => Status::InvalidValue,
            -31 => Status::InvalidDeviceType,
            -32 => Status::InvalidPlatform,
            -33 => Status::InvalidDevice,
            -34 => Status::InvalidContext,
            -35 => Status::InvalidQueueProperties,
            -36 => Status::InvalidCommandQueue,
            -37 => Status::InvalidHostPtr,
            -38 => Status::InvalidMemObject,
            -39 => Status::InvalidImageFormatDescriptor,
            -40 => Status::InvalidImageSize,
            -41 => Status::InvalidSampler,
            -42 => Status::InvalidBinary,
            -43 => Status::InvalidBuildOptions,
            -44 => Status::InvalidProgram,
            -45 => Status::InvalidProgramExecutable,
            -46 => Status::InvalidKernelName,
            -47 => Status::InvalidKernelDefinition,
            -48 => Status::InvalidKernel,
            -49 => Status::InvalidArgIndex,
            -50 => Status::InvalidArgValue,
            -51 => Status::InvalidArgSize,
            -52 => Status::InvalidKernelArgs,
            -53 => Status::InvalidWorkDimension,
            -54 => Status::InvalidWorkGroupSize,
            -55 => Status::InvalidWorkItemSize,
            -56 => Status::InvalidGlobalOffset,
            -57 => Status::InvalidEventWaitList,
            -58 => Status::InvalidEvent,
            -59 => Status::InvalidOperation,
            -60 => Status::InvalidGLObject,
            -61 => Status::InvalidBufferSize,
            -62 => Status::InvalidMIPLevel,
            -63 => Status::InvalidGlobalWorkSize,
            -64 => Status::InvalidProperty,
            -65 => Status::InvalidImageDescriptor,
            -66 => Status::InvalidCompilerOptions,
            -67 => Status::InvalidLinkerOptions,
            -68 => Status::InvalidDevicePartitionCount,
            -69 => Status::InvalidPipeSize,
            -70 => Status::InvalidDeviceQueue,
            -71 => Status::InvalidSpecId,
            -72 => Status::MaxSizeRestrictionExceeded,
            _ => Status::InvalidStatusCode { code: status_code, func: function_name },
        };
        proof {
            lemma_status_of_unique(status_code, function_name, r);
        }
        r
    }

    /// The human-readable reason that goes with this status.
    pub fn reason(&self) -> (r: &'static str)
        ensures
            r == self.reason_spec(),
    {
        match self {
            Status::Success => "[cl_success] api executed successfully, without errors",
            Status::DeviceNotFound => "[cl_device_not_found] no devices were found that match the specified device type",
            Status::DeviceNotAvailable => "[cl_device_not_available] no devices were found that match the specified device type",
            Status::CompilerNotAvailable => "[cl_compiler_not_available] compiling or building a program from source or IL when `CL_DEVICE_COMPILER_AVAILABLE` is `CL_FALSE`",
            Status::MemObjectAllocationFailure => "[cl_mem_object_allocation_failure] there is a failure to allocate memory for a memory object",
            Status::OutOfResources => "[cl_out_of_resources] generic error code, resources could not be allocated on the device",
            Status::OutOfHostMemory => "[cl_out_of_host_memory] generic error code, memory could not be allocated on the host",
            Status::ProfilingInfoNotAvailable => "[cl_profiling_info_not_available] function `clGetEventProfilingInfo` when the command associated with the specified event was not enqueued into a command queue with `CL_QUEUE_PROFILING_ENABLE`",
            Status::MemCopyOverlap => "[cl_mem_copy_overlap] copying from one region of a memory object to another where the source and destination regions overlap",
            Status::ImageFormatMismatch => "[cl_image_format_mismatch] attempting to copy images that do not use the same image format",
            Status::ImageFormatNotSupported => "[cl_image_format_not_supported] attempting to create or use an image format that is not supported",
            Status::BuildProgramFailure => "[cl_build_program_failure] function `clBuildProgram` failed to build the specified program",
            Status::MapFailure => "[cl_map_failure] there is a failure to map the specified region into the host address space",
            Status::MisalignedSubBufferOffset => "[cl_misaligned_sub_buffer_offset] a sub-buffer object is created or used that is not aligned to `CL_DEVICE_MEM_BASE_ADDR_ALIGN` for the device",
            Status::ExecStatusErrorForEventsInWaitList => "[cl_exec_status_error_for_events_in_wait_list] any APIs being blocked when an event in the event wait list has a negative value, indicating it is in an error state",
            Status::CompileProgramFailure => "[cl_compile_program_failure] function `clCompileProgram` failed to compile the specified program",
            Status::LinkerNotAvailable => "[cl_linker_not_available] function `clLinkProgram` when `CL_DEVICE_LINKER_AVAILABLE` is `CL_FALSE`",
            Status::LinkProgramFailure => "[cl_link_program_failure] function `clLinkProgram` when there is a failure to link the specified binaries or libraries",
            Status::DevicePartitionFailed => "[cl_device_partition_failed] device partitioning is supported but the device could not be further partitioned",
            Status::KernelArgInfoNotAvailable => "[cl_kernel_arg_info_not_available] function `clGetKernelArgInfo` when kernel argument information is not available for the specified kernel",
            Status::InvalidValue => "[cl_invalid_value] generic error code, specified value is not a valid value",
            Status::InvalidDeviceType => "[cl_invalid_device_type] the requested device type is not a valid value",
            Status::InvalidPlatform => "[cl_invalid_platform] the specified platform is not a valid platform",
            Status::InvalidDevice => "[cl_invalid_device] a specified device is not valid",
            Status::InvalidContext => "[cl_invalid_context] a specified context is not a valid context, or when mixing objects from multiple contexts",
            Status::InvalidQueueProperties => "[cl_invalid_queue_properties] specified queue properties are valid but are not supported by the device",
            Status::InvalidCommandQueue => "[cl_invalid_command_queue] the specified command queue is not a valid command queue",
            Status::InvalidHostPtr => "[cl_invalid_host_ptr] the specified host pointer is not valid for the specified flags",
            Status::InvalidMemObject => "[cl_invalid_mem_object] a specified memory object is not a valid memory object",
            Status::InvalidImageFormatDescriptor => "[cl_invalid_image_format_descriptor] the specified image format descriptor is `NULL` or specifies invalid value",
            Status::InvalidImageSize => "[cl_invalid_image_size] the specified image dimensions exceed the maximum dimensions for a device or all devices in a context",
            Status::InvalidSampler => "[cl_invalid_sampler] a specified sampler is not a valid sampler object",
            Status::InvalidBinary => "[cl_invalid_binary] a program binary is not valid for a device",
            Status::InvalidBuildOptions => "[cl_invalid_build_options] build options passed to function `clBuildProgram` are not valid",
            Status::InvalidProgram => "[cl_invalid_program] a specified program is not a valid program object",
            Status::InvalidProgramExecutable => "[cl_invalid_program_executable] the specified program is valid but has not been successfully built",
            Status::InvalidKernelName => "[cl_invalid_kernel_name] creating a kernel when no kernel with the specified name exists in the program object",
            Status::InvalidKernelDefinition => "[cl_invalid_kernel_definition] creating a kernel for multiple devices where the number of kernel arguments or kernel argument types are not the same for all devices",
            Status::InvalidKernel => "[cl_invalid_kernel] the specified kernel is not a valid kernel",
            Status::InvalidArgIndex => "[cl_invalid_arg_index] attempting to get or set a kernel argument using an invalid index for the specified kernel",
            Status::InvalidArgValue => "[cl_invalid_arg_value] attempting to set a kernel argument that is not valid",
            Status::InvalidArgSize => "[cl_invalid_arg_size] the specified size of a kernel argument does not match the size of the kernel argument",
            Status::InvalidKernelArgs => "[cl_invalid_kernel_args] enqueing a kernel when some kernel arguments have not been set or are invalid",
            Status::InvalidWorkDimension => "[cl_invalid_work_dimension] function `clEnqueueNDRangeKernel` when the specified work dimension is not valid",
            Status::InvalidWorkGroupSize => "[cl_invalid_work_group_size] function `clEnqueueNDRangeKernel` when the specified total work-group size is not valid for the specified kernel or device",
            Status::InvalidWorkItemSize => "[cl_invalid_work_item_size] function `clEnqueueNDRangeKernel` when the specified work-group size in one dimension is not valid for the device",
            Status::InvalidGlobalOffset => "[cl_invalid_global_offset] the specified global offset and global work size exceeds the limits of the device",
            Status::InvalidEventWaitList => "[cl_invalid_event_wait_list] the specified event wait list or number of events in the wait list is not valid",
            Status::InvalidEvent => "[cl_invalid_event] a specified event object is not a valid event object",
            Status::InvalidOperation => "[cl_invalid_operation] generic error code, the requested operation is not a valid operation",
            Status::InvalidGLObject => "[cl_invalid_gl_object] a specified OpenGL object is not a valid object to share with OpenCL",
            Status::InvalidBufferSize => "[cl_invalid_buffer_size] attempting to create a buffer or a sub-buffer with an invalid size",
            Status::InvalidMIPLevel => "[cl_invalid_mip_level] a specified mip-map level is not valid for the image",
            Status::InvalidGlobalWorkSize => "[cl_invalid_global_work_size] the specified global work size exceeds the limits of the device",
            Status::InvalidProperty => "[cl_invalid_property] a specified property name is invalid, when the value for a property name is invalid, or when the same property name is specified more than once",
            Status::InvalidImageDescriptor => "[cl_invalid_image_descriptor] the specified image descriptor is `NULL` or specifies invalid values",
            Status::InvalidCompilerOptions => "[cl_invalid_compiler_options] compiler options passed to function `clCompileProgram` are not valid",
            Status::InvalidLinkerOptions => "[cl_invalid_linker_options] build options passed to `clLinkProgram` are not valid",
            Status::InvalidDevicePartitionCount => "[cl_invalid_device_partition_count] the requested device partitioning using `CL_DEVICE_PARTITION_BY_COUNTS` is not valid",
            Status::InvalidPipeSize => "[cl_invalid_pipe_size] attempting to create a pipe with an invalid packet size or number of packets",
            Status::InvalidDeviceQueue => "[cl_invalid_device_queue] setting a device queue kernel argument to a value that is not a valid device command queue",
            Status::InvalidSpecId => "[cl_invalid_spec_id] the specified specialization constant ID is not valid for the specified program",
            Status::MaxSizeRestrictionExceeded => "[cl_max_size_restriction_exceeded] the size of the specified kernel argument value exceeds the maximum size defined for the kernel argument",
            Status::InvalidStatusCode { .. } => "current status code does not match with any of the valid opencl codes",
        }
    }
}

} // verus!
