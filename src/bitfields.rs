//! Validated bit-flag types.
//!
//! Each type holds a nonzero combination of its own named flags. Two values of
//! one type combine with `+`, which takes the union of their flags.
use vstd::prelude::*;
use crate::consts::{
    CL_DEVICE_AFFINITY_DOMAIN_L1_CACHE,
    CL_DEVICE_AFFINITY_DOMAIN_L2_CACHE,
    CL_DEVICE_AFFINITY_DOMAIN_L3_CACHE,
    CL_DEVICE_AFFINITY_DOMAIN_L4_CACHE,
    CL_DEVICE_AFFINITY_DOMAIN_NEXT_PARTITIONABLE,
    CL_DEVICE_AFFINITY_DOMAIN_NUMA,
    CL_DEVICE_ATOMIC_ORDER_ACQ_REL,
    CL_DEVICE_ATOMIC_ORDER_RELAXED,
    CL_DEVICE_ATOMIC_ORDER_SEQ_CST,
    CL_DEVICE_ATOMIC_SCOPE_ALL_DEVICES,
    CL_DEVICE_ATOMIC_SCOPE_DEVICE,
    CL_DEVICE_ATOMIC_SCOPE_WORK_GROUP,
    CL_DEVICE_ATOMIC_SCOPE_WORK_ITEM,
    CL_DEVICE_QUEUE_REPLACEABLE_DEFAULT,
    CL_DEVICE_QUEUE_SUPPORTED,
    CL_DEVICE_SVM_ATOMICS,
    CL_DEVICE_SVM_COARSE_GRAIN_BUFFER,
    CL_DEVICE_SVM_FINE_GRAIN_BUFFER,
    CL_DEVICE_SVM_FINE_GRAIN_SYSTEM,
    CL_DEVICE_TYPE_ACCELERATOR,
    CL_DEVICE_TYPE_ALL,
    CL_DEVICE_TYPE_CPU,
    CL_DEVICE_TYPE_CUSTOM,
    CL_DEVICE_TYPE_DEFAULT,
    CL_DEVICE_TYPE_GPU,
    CL_EXEC_KERNEL,
    CL_EXEC_NATIVE_KERNEL,
    CL_FP_CORRECTLY_ROUNDED_DIVIDE_SQRT,
    CL_FP_DENORM,
    CL_FP_FMA,
    CL_FP_INF_NAN,
    CL_FP_ROUND_TO_INF,
    CL_FP_ROUND_TO_NEAREST,
    CL_FP_ROUND_TO_ZERO,
    CL_FP_SOFT_FLOAT,
    CL_KERNEL_ARG_TYPE_CONST,
    CL_KERNEL_ARG_TYPE_NONE,
    CL_KERNEL_ARG_TYPE_PIPE,
    CL_KERNEL_ARG_TYPE_RESTRICT,
    CL_KERNEL_ARG_TYPE_VOLATILE,
    CL_MAP_READ,
    CL_MAP_WRITE,
    CL_MAP_WRITE_INVALIDATE_REGION,
    CL_MEM_ALLOC_HOST_PTR,
    CL_MEM_COPY_HOST_PTR,
    CL_MEM_HOST_NO_ACCESS,
    CL_MEM_HOST_READ_ONLY,
    CL_MEM_HOST_WRITE_ONLY,
    CL_MEM_KERNEL_READ_AND_WRITE,
    CL_MEM_READ_ONLY,
    CL_MEM_READ_WRITE,
    CL_MEM_SVM_ATOMICS,
    CL_MEM_SVM_FINE_GRAIN_BUFFER,
    CL_MEM_USE_HOST_PTR,
    CL_MEM_WRITE_ONLY,
    CL_MIGRATE_MEM_OBJECT_CONTENT_UNDEFINED,
    CL_MIGRATE_MEM_OBJECT_HOST,
    CL_QUEUE_ON_DEVICE,
    CL_QUEUE_ON_DEVICE_DEFAULT,
    CL_QUEUE_OUT_OF_ORDER_EXEC_MODE_ENABLE,
    CL_QUEUE_PROFILING_ENABLE,
    cl_bitfield,
    cl_command_queue_properties,
    cl_device_affinity_domain,
    cl_device_atomic_capabilities,
    cl_device_device_enqueue_capabilities,
    cl_device_exec_capabilities,
    cl_device_fp_config,
    cl_device_svm_capabilities,
    cl_device_type,
    cl_kernel_arg_type_qualifier,
    cl_map_flags,
    cl_mem_flags,
    cl_mem_migration_flags,
};
use crate::errors::ValidationError;
use crate::helpers::BitfieldResult;

verus! {

/// `value` is a valid flag set over `union`: nonzero, with no bit outside it.
pub open spec fn is_valid_bitfield(value: cl_bitfield, union: cl_bitfield) -> bool {
    value != 0 && value & !union == 0
}

/// The union of two valid flag sets over one union is again a valid flag set
/// over it.
pub proof fn lemma_union_of_valid_is_valid(a: cl_bitfield, b: cl_bitfield, union: cl_bitfield)
    requires
        is_valid_bitfield(a, union),
        is_valid_bitfield(b, union),
    ensures
        is_valid_bitfield(a | b, union),
{
    assert(a != 0 && a & !union == 0 && b & !union == 0 ==> (a | b) != 0 && (a | b) & !union == 0)
        by (bit_vector);
}

/// Construction, reading and replacement of a validated bit-flag value.
pub trait GetSetGo: Sized {
    /// The union of the type's named flags.
    spec fn flag_union() -> cl_bitfield;

    /// The name that the type's validation error carries.
    spec fn flag_type_label() -> &'static str;

    /// The raw flags held.
    spec fn bits(&self) -> cl_bitfield;

    /// The raw flags, which are always a valid flag set of the type.
    fn get(&self) -> (r: cl_bitfield)
        ensures
            r == self.bits(),
            is_valid_bitfield(r, Self::flag_union()),
    ;

    /// Replaces the flags when `value` is a valid flag set, and otherwise
    /// leaves them as they were and reports the type.
    fn set(&mut self, value: cl_bitfield) -> (r: BitfieldResult<()>)
        ensures
            is_valid_bitfield(value, Self::flag_union()) ==> (r is Ok && final(self).bits() == value),
            !is_valid_bitfield(value, Self::flag_union()) ==> r == Err::<(), ValidationError>(
                ValidationError::InvalidBitfield(Self::flag_type_label()),
            ) && final(self).bits() == old(self).bits(),
    ;

    /// Builds a value from raw flags, which must be a valid flag set of the type.
    fn new(value: cl_bitfield) -> (r: BitfieldResult<Self>)
        ensures
            is_valid_bitfield(value, Self::flag_union()) ==> (r matches Ok(b) && b.bits() == value),
            !is_valid_bitfield(value, Self::flag_union()) ==> r == Err::<Self, ValidationError>(
                ValidationError::InvalidBitfield(Self::flag_type_label()),
            ),
    ;
}

#[non_exhaustive]
#[derive(Debug, Clone, Copy, PartialEq, Eq)]
pub struct DeviceType(cl_device_type);

impl DeviceType {
    pub const DEFAULT: cl_device_type = CL_DEVICE_TYPE_DEFAULT;
    pub const CPU: cl_device_type = CL_DEVICE_TYPE_CPU;
    pub const GPU: cl_device_type = CL_DEVICE_TYPE_GPU;
    pub const ACCELERATOR: cl_device_type = CL_DEVICE_TYPE_ACCELERATOR;
    pub const CUSTOM: cl_device_type = CL_DEVICE_TYPE_CUSTOM;
    pub const ALL: cl_device_type = CL_DEVICE_TYPE_ALL;
    /// The union of all the flags above.
    pub const UNION: cl_device_type = Self::DEFAULT | Self::CPU | Self::GPU | Self::ACCELERATOR | Self::CUSTOM | Self::ALL;

    /// The sum of two values holds the union of their flags.
    pub proof fn lemma_sum_bits(a: Self, b: Self)
        ensures
            vstd::std_specs::ops::AddSpec::add_spec(a, b).bits() == a.bits() | b.bits(),
    {
    }

    #[verifier::type_invariant]
    spec fn holds_valid_flags(&self) -> bool {
        is_valid_bitfield(self.0, Self::UNION)
    }
}

impl GetSetGo for DeviceType {
    open spec fn flag_union() -> cl_bitfield {
        Self::UNION
    }

    open spec fn flag_type_label() -> &'static str {
        "DeviceType"
    }

    closed spec fn bits(&self) -> cl_bitfield {
        self.0
    }

    fn get(&self) -> (r: cl_bitfield) {
        proof {
            use_type_invariant(self);
        }
        self.0
    }

    fn set(&mut self, value: cl_bitfield) -> (r: BitfieldResult<()>) {
        if value != 0 && value & !Self::UNION == 0 {
            self.0 = value;
            Ok(())
        } else {
            Err(ValidationError::InvalidBitfield("DeviceType"))
        }
    }

    fn new(value: cl_bitfield) -> (r: BitfieldResult<Self>) {
        if value != 0 && value & !Self::UNION == 0 {
            Ok(DeviceType(value))
        } else {
            Err(ValidationError::InvalidBitfield("DeviceType"))
        }
    }
}

impl vstd::std_specs::ops::AddSpecImpl for DeviceType {
    open spec fn obeys_add_spec() -> bool {
        true
    }

    open spec fn add_req(self, rhs: Self) -> bool {
        true
    }

    closed spec fn add_spec(self, rhs: Self) -> Self {
        DeviceType(self.0 | rhs.0)
    }
}

impl core::ops::Add for DeviceType {
    type Output = Self;

    /// The union of the flags of both operands.
    fn add(self, other: Self) -> (r: Self) {
        proof {
            use_type_invariant(&self);
            use_type_invariant(&other);
            lemma_union_of_valid_is_valid(self.0, other.0, Self::UNION);
        }
        DeviceType(self.0 | other.0)
    }
}

#[non_exhaustive]
#[derive(Debug, Clone, Copy, PartialEq, Eq)]
pub struct DeviceFPConfig(cl_device_fp_config);

impl DeviceFPConfig {
    pub const DENORM: cl_device_fp_config = CL_FP_DENORM;
    pub const INF_NAN: cl_device_fp_config = CL_FP_INF_NAN;
    pub const ROUND_TO_NEAREST: cl_device_fp_config = CL_FP_ROUND_TO_NEAREST;
    pub const ROUND_TO_ZERO: cl_device_fp_config = CL_FP_ROUND_TO_ZERO;
    pub const ROUND_TO_INF: cl_device_fp_config = CL_FP_ROUND_TO_INF;
    pub const FMA: cl_device_fp_config = CL_FP_FMA;
    pub const SOFT_FLOAT: cl_device_fp_config = CL_FP_SOFT_FLOAT;
    pub const CORRECTLY_ROUNDED_DIVIDE_SQRT: cl_device_fp_config = CL_FP_CORRECTLY_ROUNDED_DIVIDE_SQRT;
    /// The union of all the flags above.
    pub const UNION: cl_device_fp_config = Self::DENORM | Self::INF_NAN | Self::ROUND_TO_NEAREST | Self::ROUND_TO_ZERO | Self::ROUND_TO_INF | Self::FMA | Self::SOFT_FLOAT | Self::CORRECTLY_ROUNDED_DIVIDE_SQRT;

    /// The sum of two values holds the union of their flags.
    pub proof fn lemma_sum_bits(a: Self, b: Self)
        ensures
            vstd::std_specs::ops::AddSpec::add_spec(a, b).bits() == a.bits() | b.bits(),
    {
    }

    #[verifier::type_invariant]
    spec fn holds_valid_flags(&self) -> bool {
        is_valid_bitfield(self.0, Self::UNION)
    }
}

impl GetSetGo for DeviceFPConfig {
    open spec fn flag_union() -> cl_bitfield {
        Self::UNION
    }

    open spec fn flag_type_label() -> &'static str {
        "DeviceFPConfig"
    }

    closed spec fn bits(&self) -> cl_bitfield {
        self.0
    }

    fn get(&self) -> (r: cl_bitfield) {
        proof {
            use_type_invariant(self);
        }
        self.0
    }

    fn set(&mut self, value: cl_bitfield) -> (r: BitfieldResult<()>) {
        if value != 0 && value & !Self::UNION == 0 {
            self.0 = value;
            Ok(())
        } else {
            Err(ValidationError::InvalidBitfield("DeviceFPConfig"))
        }
    }

    fn new(value: cl_bitfield) -> (r: BitfieldResult<Self>) {
        if value != 0 && value & !Self::UNION == 0 {
            Ok(DeviceFPConfig(value))
        } else {
            Err(ValidationError::InvalidBitfield("DeviceFPConfig"))
        }
    }
}

impl vstd::std_specs::ops::AddSpecImpl for DeviceFPConfig {
    open spec fn obeys_add_spec() -> bool {
        true
    }

    open spec fn add_req(self, rhs: Self) -> bool {
        true
    }

    closed spec fn add_spec(self, rhs: Self) -> Self {
        DeviceFPConfig(self.0 | rhs.0)
    }
}

impl core::ops::Add for DeviceFPConfig {
    type Output = Self;

    /// The union of the flags of both operands.
    fn add(self, other: Self) -> (r: Self) {
        proof {
            use_type_invariant(&self);
            use_type_invariant(&other);
            lemma_union_of_valid_is_valid(self.0, other.0, Self::UNION);
        }
        DeviceFPConfig(self.0 | other.0)
    }
}

#[non_exhaustive]
#[derive(Debug, Clone, Copy, PartialEq, Eq)]
pub struct DeviceExecCapabilities(cl_device_exec_capabilities);

impl DeviceExecCapabilities {
    pub const KERNEL: cl_device_exec_capabilities = CL_EXEC_KERNEL;
    pub const NATIVE_KERNEL: cl_device_exec_capabilities = CL_EXEC_NATIVE_KERNEL;
    /// The union of all the flags above.
    pub const UNION: cl_device_exec_capabilities = Self::KERNEL | Self::NATIVE_KERNEL;

    /// The sum of two values holds the union of their flags.
    pub proof fn lemma_sum_bits(a: Self, b: Self)
        ensures
            vstd::std_specs::ops::AddSpec::add_spec(a, b).bits() == a.bits() | b.bits(),
    {
    }

    #[verifier::type_invariant]
    spec fn holds_valid_flags(&self) -> bool {
        is_valid_bitfield(self.0, Self::UNION)
    }
}

impl GetSetGo for DeviceExecCapabilities {
    open spec fn flag_union() -> cl_bitfield {
        Self::UNION
    }

    open spec fn flag_type_label() -> &'static str {
        "DeviceExecCapabilities"
    }

    closed spec fn bits(&self) -> cl_bitfield {
        self.0
    }

    fn get(&self) -> (r: cl_bitfield) {
        proof {
            use_type_invariant(self);
        }
        self.0
    }

    fn set(&mut self, value: cl_bitfield) -> (r: BitfieldResult<()>) {
        if value != 0 && value & !Self::UNION == 0 {
            self.0 = value;
            Ok(())
        } else {
            Err(ValidationError::InvalidBitfield("DeviceExecCapabilities"))
        }
    }

    fn new(value: cl_bitfield) -> (r: BitfieldResult<Self>) {
        if value != 0 && value & !Self::UNION == 0 {
            Ok(DeviceExecCapabilities(value))
        } else {
            Err(ValidationError::InvalidBitfield("DeviceExecCapabilities"))
        }
    }
}

impl vstd::std_specs::ops::AddSpecImpl for DeviceExecCapabilities {
    open spec fn obeys_add_spec() -> bool {
        true
    }

    open spec fn add_req(self, rhs: Self) -> bool {
        true
    }

    closed spec fn add_spec(self, rhs: Self) -> Self {
        DeviceExecCapabilities(self.0 | rhs.0)
    }
}

impl core::ops::Add for DeviceExecCapabilities {
    type Output = Self;

    /// The union of the flags of both operands.
    fn add(self, other: Self) -> (r: Self) {
        proof {
            use_type_invariant(&self);
            use_type_invariant(&other);
            lemma_union_of_valid_is_valid(self.0, other.0, Self::UNION);
        }
        DeviceExecCapabilities(self.0 | other.0)
    }
}

#[non_exhaustive]
#[derive(Debug, Clone, Copy, PartialEq, Eq)]
pub struct CommandQueueProperties(cl_command_queue_properties);

impl CommandQueueProperties {
    pub const OUT_OF_ORDER_EXEC_MODE_ENABLE: cl_command_queue_properties = CL_QUEUE_OUT_OF_ORDER_EXEC_MODE_ENABLE;
    pub const PROFILING_ENABLE: cl_command_queue_properties = CL_QUEUE_PROFILING_ENABLE;
    pub const ON_DEVICE: cl_command_queue_properties = CL_QUEUE_ON_DEVICE;
    pub const ON_DEVICE_DEFAULT: cl_command_queue_properties = CL_QUEUE_ON_DEVICE_DEFAULT;
    /// The union of all the flags above.
    pub const UNION: cl_command_queue_properties = Self::OUT_OF_ORDER_EXEC_MODE_ENABLE | Self::PROFILING_ENABLE | Self::ON_DEVICE | Self::ON_DEVICE_DEFAULT;

    /// The sum of two values holds the union of their flags.
    pub proof fn lemma_sum_bits(a: Self, b: Self)
        ensures
            vstd::std_specs::ops::AddSpec::add_spec(a, b).bits() == a.bits() | b.bits(),
    {
    }

    #[verifier::type_invariant]
    spec fn holds_valid_flags(&self) -> bool {
        is_valid_bitfield(self.0, Self::UNION)
    }
}

impl GetSetGo for CommandQueueProperties {
    open spec fn flag_union() -> cl_bitfield {
        Self::UNION
    }

    open spec fn flag_type_label() -> &'static str {
        "CommandQueueProperties"
    }

    closed spec fn bits(&self) -> cl_bitfield {
        self.0
    }

    fn get(&self) -> (r: cl_bitfield) {
        proof {
            use_type_invariant(self);
        }
        self.0
    }

    fn set(&mut self, value: cl_bitfield) -> (r: BitfieldResult<()>) {
        if value != 0 && value & !Self::UNION == 0 {
            self.0 = value;
            Ok(())
        } else {
            Err(ValidationError::InvalidBitfield("CommandQueueProperties"))
        }
    }

    fn new(value: cl_bitfield) -> (r: BitfieldResult<Self>) {
        if value != 0 && value & !Self::UNION == 0 {
            Ok(CommandQueueProperties(value))
        } else {
            Err(ValidationError::InvalidBitfield("CommandQueueProperties"))
        }
    }
}

impl vstd::std_specs::ops::AddSpecImpl for CommandQueueProperties {
    open spec fn obeys_add_spec() -> bool {
        true
    }

    open spec fn add_req(self, rhs: Self) -> bool {
        true
    }

    closed spec fn add_spec(self, rhs: Self) -> Self {
        CommandQueueProperties(self.0 | rhs.0)
    }
}

impl core::ops::Add for CommandQueueProperties {
    type Output = Self;

    /// The union of the flags of both operands.
    fn add(self, other: Self) -> (r: Self) {
        proof {
            use_type_invariant(&self);
            use_type_invariant(&other);
            lemma_union_of_valid_is_valid(self.0, other.0, Self::UNION);
        }
        CommandQueueProperties(self.0 | other.0)
    }
}

#[non_exhaustive]
#[derive(Debug, Clone, Copy, PartialEq, Eq)]
pub struct DeviceAffinityDomain(cl_device_affinity_domain);

impl DeviceAffinityDomain {
    pub const NUMA: cl_device_affinity_domain = CL_DEVICE_AFFINITY_DOMAIN_NUMA;
    pub const L4_CACHE: cl_device_affinity_domain = CL_DEVICE_AFFINITY_DOMAIN_L4_CACHE;
    pub const L3_CACHE: cl_device_affinity_domain = CL_DEVICE_AFFINITY_DOMAIN_L3_CACHE;
    pub const L2_CACHE: cl_device_affinity_domain = CL_DEVICE_AFFINITY_DOMAIN_L2_CACHE;
    pub const L1_CACHE: cl_device_affinity_domain = CL_DEVICE_AFFINITY_DOMAIN_L1_CACHE;
    pub const NEXT_PARTITIONABLE: cl_device_affinity_domain = CL_DEVICE_AFFINITY_DOMAIN_NEXT_PARTITIONABLE;
    /// The union of all the flags above.
    pub const UNION: cl_device_affinity_domain = Self::NUMA | Self::L4_CACHE | Self::L3_CACHE | Self::L2_CACHE | Self::L1_CACHE | Self::NEXT_PARTITIONABLE;

    /// The sum of two values holds the union of their flags.
    pub proof fn lemma_sum_bits(a: Self, b: Self)
        ensures
            vstd::std_specs::ops::AddSpec::add_spec(a, b).bits() == a.bits() | b.bits(),
    {
    }

    #[verifier::type_invariant]
    spec fn holds_valid_flags(&self) -> bool {
        is_valid_bitfield(self.0, Self::UNION)
    }
}

impl GetSetGo for DeviceAffinityDomain {
    open spec fn flag_union() -> cl_bitfield {
        Self::UNION
    }

    open spec fn flag_type_label() -> &'static str {
        "DeviceAffinityDomain"
    }

    closed spec fn bits(&self) -> cl_bitfield {
        self.0
    }

    fn get(&self) -> (r: cl_bitfield) {
        proof {
            use_type_invariant(self);
        }
        self.0
    }

    fn set(&mut self, value: cl_bitfield) -> (r: BitfieldResult<()>) {
        if value != 0 && value & !Self::UNION == 0 {
            self.0 = value;
            Ok(())
        } else {
            Err(ValidationError::InvalidBitfield("DeviceAffinityDomain"))
        }
    }

    fn new(value: cl_bitfield) -> (r: BitfieldResult<Self>) {
        if value != 0 && value & !Self::UNION == 0 {
            Ok(DeviceAffinityDomain(value))
        } else {
            Err(ValidationError::InvalidBitfield("DeviceAffinityDomain"))
        }
    }
}

impl vstd::std_specs::ops::AddSpecImpl for DeviceAffinityDomain {
    open spec fn obeys_add_spec() -> bool {
        true
    }

    open spec fn add_req(self, rhs: Self) -> bool {
        true
    }

    closed spec fn add_spec(self, rhs: Self) -> Self {
        DeviceAffinityDomain(self.0 | rhs.0)
    }
}

impl core::ops::Add for DeviceAffinityDomain {
    type Output = Self;

    /// The union of the flags of both operands.
    fn add(self, other: Self) -> (r: Self) {
        proof {
            use_type_invariant(&self);
            use_type_invariant(&other);
            lemma_union_of_valid_is_valid(self.0, other.0, Self::UNION);
        }
        DeviceAffinityDomain(self.0 | other.0)
    }
}

#[non_exhaustive]
#[derive(Debug, Clone, Copy, PartialEq, Eq)]
pub struct DeviceSVMCapabilities(cl_device_svm_capabilities);

impl DeviceSVMCapabilities {
    pub const COARSE_GRAIN_BUFFER: cl_device_svm_capabilities = CL_DEVICE_SVM_COARSE_GRAIN_BUFFER;
    pub const FINE_GRAIN_BUFFER: cl_device_svm_capabilities = CL_DEVICE_SVM_FINE_GRAIN_BUFFER;
    pub const FINE_GRAIN_SYSTEM: cl_device_svm_capabilities = CL_DEVICE_SVM_FINE_GRAIN_SYSTEM;
    pub const ATOMICS: cl_device_svm_capabilities = CL_DEVICE_SVM_ATOMICS;
    /// The union of all the flags above.
    pub const UNION: cl_device_svm_capabilities = Self::COARSE_GRAIN_BUFFER | Self::FINE_GRAIN_BUFFER | Self::FINE_GRAIN_SYSTEM | Self::ATOMICS;

    /// The sum of two values holds the union of their flags.
    pub proof fn lemma_sum_bits(a: Self, b: Self)
        ensures
            vstd::std_specs::ops::AddSpec::add_spec(a, b).bits() == a.bits() | b.bits(),
    {
    }

    #[verifier::type_invariant]
    spec fn holds_valid_flags(&self) -> bool {
        is_valid_bitfield(self.0, Self::UNION)
    }
}

impl GetSetGo for DeviceSVMCapabilities {
    open spec fn flag_union() -> cl_bitfield {
        Self::UNION
    }

    open spec fn flag_type_label() -> &'static str {
        "DeviceSVMCapabilities"
    }

    closed spec fn bits(&self) -> cl_bitfield {
        self.0
    }

    fn get(&self) -> (r: cl_bitfield) {
        proof {
            use_type_invariant(self);
        }
        self.0
    }

    fn set(&mut self, value: cl_bitfield) -> (r: BitfieldResult<()>) {
        if value != 0 && value & !Self::UNION == 0 {
            self.0 = value;
            Ok(())
        } else {
            Err(ValidationError::InvalidBitfield("DeviceSVMCapabilities"))
        }
    }

    fn new(value: cl_bitfield) -> (r: BitfieldResult<Self>) {
        if value != 0 && value & !Self::UNION == 0 {
            Ok(DeviceSVMCapabilities(value))
        } else {
            Err(ValidationError::InvalidBitfield("DeviceSVMCapabilities"))
        }
    }
}

impl vstd::std_specs::ops::AddSpecImpl for DeviceSVMCapabilities {
    open spec fn obeys_add_spec() -> bool {
        true
    }

    open spec fn add_req(self, rhs: Self) -> bool {
        true
    }

    closed spec fn add_spec(self, rhs: Self) -> Self {
        DeviceSVMCapabilities(self.0 | rhs.0)
    }
}

impl core::ops::Add for DeviceSVMCapabilities {
    type Output = Self;

    /// The union of the flags of both operands.
    fn add(self, other: Self) -> (r: Self) {
        proof {
            use_type_invariant(&self);
            use_type_invariant(&other);
            lemma_union_of_valid_is_valid(self.0, other.0, Self::UNION);
        }
        DeviceSVMCapabilities(self.0 | other.0)
    }
}

#[non_exhaustive]
#[derive(Debug, Clone, Copy, PartialEq, Eq)]
pub struct MemFlags(cl_mem_flags);

impl MemFlags {
    pub const READ_WRITE: cl_mem_flags = CL_MEM_READ_WRITE;
    pub const WRITE_ONLY: cl_mem_flags = CL_MEM_WRITE_ONLY;
    pub const READ_ONLY: cl_mem_flags = CL_MEM_READ_ONLY;
    pub const USE_HOST_PTR: cl_mem_flags = CL_MEM_USE_HOST_PTR;
    pub const ALLOC_HOST_PTR: cl_mem_flags = CL_MEM_ALLOC_HOST_PTR;
    pub const COPY_HOST_PTR: cl_mem_flags = CL_MEM_COPY_HOST_PTR;
    pub const HOST_WRITE_ONLY: cl_mem_flags = CL_MEM_HOST_WRITE_ONLY;
    pub const HOST_READ_ONLY: cl_mem_flags = CL_MEM_HOST_READ_ONLY;
    pub const HOST_NO_ACCESS: cl_mem_flags = CL_MEM_HOST_NO_ACCESS;
    pub const KERNEL_READ_AND_WRITE: cl_mem_flags = CL_MEM_KERNEL_READ_AND_WRITE;
    pub const SVM_FINE_GRAIN_BUFFER: cl_mem_flags = CL_MEM_SVM_FINE_GRAIN_BUFFER;
    pub const SVM_ATOMICS: cl_mem_flags = CL_MEM_SVM_ATOMICS;
    /// The union of all the flags above.
    pub const UNION: cl_mem_flags = Self::READ_WRITE | Self::WRITE_ONLY | Self::READ_ONLY | Self::USE_HOST_PTR | Self::ALLOC_HOST_PTR | Self::COPY_HOST_PTR | Self::HOST_WRITE_ONLY | Self::HOST_READ_ONLY | Self::HOST_NO_ACCESS | Self::KERNEL_READ_AND_WRITE | Self::SVM_FINE_GRAIN_BUFFER | Self::SVM_ATOMICS;

    /// The sum of two values holds the union of their flags.
    pub proof fn lemma_sum_bits(a: Self, b: Self)
        ensures
            vstd::std_specs::ops::AddSpec::add_spec(a, b).bits() == a.bits() | b.bits(),
    {
    }

    #[verifier::type_invariant]
    spec fn holds_valid_flags(&self) -> bool {
        is_valid_bitfield(self.0, Self::UNION)
    }
}

impl GetSetGo for MemFlags {
    open spec fn flag_union() -> cl_bitfield {
        Self::UNION
    }

    open spec fn flag_type_label() -> &'static str {
        "MemFlags"
    }

    closed spec fn bits(&self) -> cl_bitfield {
        self.0
    }

    fn get(&self) -> (r: cl_bitfield) {
        proof {
            use_type_invariant(self);
        }
        self.0
    }

    fn set(&mut self, value: cl_bitfield) -> (r: BitfieldResult<()>) {
        if value != 0 && value & !Self::UNION == 0 {
            self.0 = value;
            Ok(())
        } else {
            Err(ValidationError::InvalidBitfield("MemFlags"))
        }
    }

    fn new(value: cl_bitfield) -> (r: BitfieldResult<Self>) {
        if value != 0 && value & !Self::UNION == 0 {
            Ok(MemFlags(value))
        } else {
            Err(ValidationError::InvalidBitfield("MemFlags"))
        }
    }
}

impl vstd::std_specs::ops::AddSpecImpl for MemFlags {
    open spec fn obeys_add_spec() -> bool {
        true
    }

    open spec fn add_req(self, rhs: Self) -> bool {
        true
    }

    closed spec fn add_spec(self, rhs: Self) -> Self {
        MemFlags(self.0 | rhs.0)
    }
}

impl core::ops::Add for MemFlags {
    type Output = Self;

    /// The union of the flags of both operands.
    fn add(self, other: Self) -> (r: Self) {
        proof {
            use_type_invariant(&self);
            use_type_invariant(&other);
            lemma_union_of_valid_is_valid(self.0, other.0, Self::UNION);
        }
        MemFlags(self.0 | other.0)
    }
}

#[non_exhaustive]
#[derive(Debug, Clone, Copy, PartialEq, Eq)]
pub struct MemMigrationFlags(cl_mem_migration_flags);

impl MemMigrationFlags {
    pub const OBJECT_HOST: cl_mem_migration_flags = CL_MIGRATE_MEM_OBJECT_HOST;
    pub const OBJECT_CONTENT_UNDEFINED: cl_mem_migration_flags = CL_MIGRATE_MEM_OBJECT_CONTENT_UNDEFINED;
    /// The union of all the flags above.
    pub const UNION: cl_mem_migration_flags = Self::OBJECT_HOST | Self::OBJECT_CONTENT_UNDEFINED;

    /// The sum of two values holds the union of their flags.
    pub proof fn lemma_sum_bits(a: Self, b: Self)
        ensures
            vstd::std_specs::ops::AddSpec::add_spec(a, b).bits() == a.bits() | b.bits(),
    {
    }

    #[verifier::type_invariant]
    spec fn holds_valid_flags(&self) -> bool {
        is_valid_bitfield(self.0, Self::UNION)
    }
}

impl GetSetGo for MemMigrationFlags {
    open spec fn flag_union() -> cl_bitfield {
        Self::UNION
    }

    open spec fn flag_type_label() -> &'static str {
        "MemMigrationFlags"
    }

    closed spec fn bits(&self) -> cl_bitfield {
        self.0
    }

    fn get(&self) -> (r: cl_bitfield) {
        proof {
            use_type_invariant(self);
        }
        self.0
    }

    fn set(&mut self, value: cl_bitfield) -> (r: BitfieldResult<()>) {
        if value != 0 && value & !Self::UNION == 0 {
            self.0 = value;
            Ok(())
        } else {
            Err(ValidationError::InvalidBitfield("MemMigrationFlags"))
        }
    }

    fn new(value: cl_bitfield) -> (r: BitfieldResult<Self>) {
        if value != 0 && value & !Self::UNION == 0 {
            Ok(MemMigrationFlags(value))
        } else {
            Err(ValidationError::InvalidBitfield("MemMigrationFlags"))
        }
    }
}

impl vstd::std_specs::ops::AddSpecImpl for MemMigrationFlags {
    open spec fn obeys_add_spec() -> bool {
        true
    }

    open spec fn add_req(self, rhs: Self) -> bool {
        true
    }

    closed spec fn add_spec(self, rhs: Self) -> Self {
        MemMigrationFlags(self.0 | rhs.0)
    }
}

impl core::ops::Add for MemMigrationFlags {
    type Output = Self;

    /// The union of the flags of both operands.
    fn add(self, other: Self) -> (r: Self) {
        proof {
            use_type_invariant(&self);
            use_type_invariant(&other);
            lemma_union_of_valid_is_valid(self.0, other.0, Self::UNION);
        }
        MemMigrationFlags(self.0 | other.0)
    }
}

#[non_exhaustive]
#[derive(Debug, Clone, Copy, PartialEq, Eq)]
pub struct MapFlags(cl_map_flags);

impl MapFlags {
    pub const READ: cl_map_flags = CL_MAP_READ;
    pub const WRITE: cl_map_flags = CL_MAP_WRITE;
    pub const WRITE_INVALIDATE_REGION: cl_map_flags = CL_MAP_WRITE_INVALIDATE_REGION;
    /// The union of all the flags above.
    pub const UNION: cl_map_flags = Self::READ | Self::WRITE | Self::WRITE_INVALIDATE_REGION;

    /// The sum of two values holds the union of their flags.
    pub proof fn lemma_sum_bits(a: Self, b: Self)
        ensures
            vstd::std_specs::ops::AddSpec::add_spec(a, b).bits() == a.bits() | b.bits(),
    {
    }

    #[verifier::type_invariant]
    spec fn holds_valid_flags(&self) -> bool {
        is_valid_bitfield(self.0, Self::UNION)
    }
}

impl GetSetGo for MapFlags {
    open spec fn flag_union() -> cl_bitfield {
        Self::UNION
    }

    open spec fn flag_type_label() -> &'static str {
        "MapFlags"
    }

    closed spec fn bits(&self) -> cl_bitfield {
        self.0
    }

    fn get(&self) -> (r: cl_bitfield) {
        proof {
            use_type_invariant(self);
        }
        self.0
    }

    fn set(&mut self, value: cl_bitfield) -> (r: BitfieldResult<()>) {
        if value != 0 && value & !Self::UNION == 0 {
            self.0 = value;
            Ok(())
        } else {
            Err(ValidationError::InvalidBitfield("MapFlags"))
        }
    }

    fn new(value: cl_bitfield) -> (r: BitfieldResult<Self>) {
        if value != 0 && value & !Self::UNION == 0 {
            Ok(MapFlags(value))
        } else {
            Err(ValidationError::InvalidBitfield("MapFlags"))
        }
    }
}

impl vstd::std_specs::ops::AddSpecImpl for MapFlags {
    open spec fn obeys_add_spec() -> bool {
        true
    }

    open spec fn add_req(self, rhs: Self) -> bool {
        true
    }

    closed spec fn add_spec(self, rhs: Self) -> Self {
        MapFlags(self.0 | rhs.0)
    }
}

impl core::ops::Add for MapFlags {
    type Output = Self;

    /// The union of the flags of both operands.
    fn add(self, other: Self) -> (r: Self) {
        proof {
            use_type_invariant(&self);
            use_type_invariant(&other);
            lemma_union_of_valid_is_valid(self.0, other.0, Self::UNION);
        }
        MapFlags(self.0 | other.0)
    }
}

#[non_exhaustive]
#[derive(Debug, Clone, Copy, PartialEq, Eq)]
pub struct KernelArgTypeQualifier(cl_kernel_arg_type_qualifier);

impl KernelArgTypeQualifier {
    pub const NONE: cl_kernel_arg_type_qualifier = CL_KERNEL_ARG_TYPE_NONE;
    pub const CONST: cl_kernel_arg_type_qualifier = CL_KERNEL_ARG_TYPE_CONST;
    pub const RESTRICT: cl_kernel_arg_type_qualifier = CL_KERNEL_ARG_TYPE_RESTRICT;
    pub const VOLATILE: cl_kernel_arg_type_qualifier = CL_KERNEL_ARG_TYPE_VOLATILE;
    pub const PIPE: cl_kernel_arg_type_qualifier = CL_KERNEL_ARG_TYPE_PIPE;
    /// The union of all the flags above.
    pub const UNION: cl_kernel_arg_type_qualifier = Self::NONE | Self::CONST | Self::RESTRICT | Self::VOLATILE | Self::PIPE;

    /// The sum of two values holds the union of their flags.
    pub proof fn lemma_sum_bits(a: Self, b: Self)
        ensures
            vstd::std_specs::ops::AddSpec::add_spec(a, b).bits() == a.bits() | b.bits(),
    {
    }

    #[verifier::type_invariant]
    spec fn holds_valid_flags(&self) -> bool {
        is_valid_bitfield(self.0, Self::UNION)
    }
}

impl GetSetGo for KernelArgTypeQualifier {
    open spec fn flag_union() -> cl_bitfield {
        Self::UNION
    }

    open spec fn flag_type_label() -> &'static str {
        "KernelArgTypeQualifier"
    }

    closed spec fn bits(&self) -> cl_bitfield {
        self.0
    }

    fn get(&self) -> (r: cl_bitfield) {
        proof {
            use_type_invariant(self);
        }
        self.0
    }

    fn set(&mut self, value: cl_bitfield) -> (r: BitfieldResult<()>) {
        if value != 0 && value & !Self::UNION == 0 {
            self.0 = value;
            Ok(())
        } else {
            Err(ValidationError::InvalidBitfield("KernelArgTypeQualifier"))
        }
    }

    fn new(value: cl_bitfield) -> (r: BitfieldResult<Self>) {
        if value != 0 && value & !Self::UNION == 0 {
            Ok(KernelArgTypeQualifier(value))
        } else {
            Err(ValidationError::InvalidBitfield("KernelArgTypeQualifier"))
        }
    }
}

impl vstd::std_specs::ops::AddSpecImpl for KernelArgTypeQualifier {
    open spec fn obeys_add_spec() -> bool {
        true
    }

    open spec fn add_req(self, rhs: Self) -> bool {
        true
    }

    closed spec fn add_spec(self, rhs: Self) -> Self {
        KernelArgTypeQualifier(self.0 | rhs.0)
    }
}

impl core::ops::Add for KernelArgTypeQualifier {
    type Output = Self;

    /// The union of the flags of both operands.
    fn add(self, other: Self) -> (r: Self) {
        proof {
            use_type_invariant(&self);
            use_type_invariant(&other);
            lemma_union_of_valid_is_valid(self.0, other.0, Self::UNION);
        }
        KernelArgTypeQualifier(self.0 | other.0)
    }
}

#[non_exhaustive]
#[derive(Debug, Clone, Copy, PartialEq, Eq)]
pub struct DeviceAtomicCapabilities(cl_device_atomic_capabilities);

impl DeviceAtomicCapabilities {
    pub const ORDER_RELAXED: cl_device_atomic_capabilities = CL_DEVICE_ATOMIC_ORDER_RELAXED;
    pub const ORDER_ACQ_REL: cl_device_atomic_capabilities = CL_DEVICE_ATOMIC_ORDER_ACQ_REL;
    pub const ORDER_SEQ_CST: cl_device_atomic_capabilities = CL_DEVICE_ATOMIC_ORDER_SEQ_CST;
    pub const SCOPE_WORK_ITEM: cl_device_atomic_capabilities = CL_DEVICE_ATOMIC_SCOPE_WORK_ITEM;
    pub const SCOPE_WORK_GROUP: cl_device_atomic_capabilities = CL_DEVICE_ATOMIC_SCOPE_WORK_GROUP;
    pub const SCOPE_DEVICE: cl_device_atomic_capabilities = CL_DEVICE_ATOMIC_SCOPE_DEVICE;
    pub const SCOPE_ALL_DEVICES: cl_device_atomic_capabilities = CL_DEVICE_ATOMIC_SCOPE_ALL_DEVICES;
    /// The union of all the flags above.
    pub const UNION: cl_device_atomic_capabilities = Self::ORDER_RELAXED | Self::ORDER_ACQ_REL | Self::ORDER_SEQ_CST | Self::SCOPE_WORK_ITEM | Self::SCOPE_WORK_GROUP | Self::SCOPE_DEVICE | Self::SCOPE_ALL_DEVICES;

    /// The sum of two values holds the union of their flags.
    pub proof fn lemma_sum_bits(a: Self, b: Self)
        ensures
            vstd::std_specs::ops::AddSpec::add_spec(a, b).bits() == a.bits() | b.bits(),
    {
    }

    #[verifier::type_invariant]
    spec fn holds_valid_flags(&self) -> bool {
        is_valid_bitfield(self.0, Self::UNION)
    }
}

impl GetSetGo for DeviceAtomicCapabilities {
    open spec fn flag_union() -> cl_bitfield {
        Self::UNION
    }

    open spec fn flag_type_label() -> &'static str {
        "DeviceAtomicCapabilities"
    }

    closed spec fn bits(&self) -> cl_bitfield {
        self.0
    }

    fn get(&self) -> (r: cl_bitfield) {
        proof {
            use_type_invariant(self);
        }
        self.0
    }

    fn set(&mut self, value: cl_bitfield) -> (r: BitfieldResult<()>) {
        if value != 0 && value & !Self::UNION == 0 {
            self.0 = value;
            Ok(())
        } else {
            Err(ValidationError::InvalidBitfield("DeviceAtomicCapabilities"))
        }
    }

    fn new(value: cl_bitfield) -> (r: BitfieldResult<Self>) {
        if value != 0 && value & !Self::UNION == 0 {
            Ok(DeviceAtomicCapabilities(value))
        } else {
            Err(ValidationError::InvalidBitfield("DeviceAtomicCapabilities"))
        }
    }
}

impl vstd::std_specs::ops::AddSpecImpl for DeviceAtomicCapabilities {
    open spec fn obeys_add_spec() -> bool {
        true
    }

    open spec fn add_req(self, rhs: Self) -> bool {
        true
    }

    closed spec fn add_spec(self, rhs: Self) -> Self {
        DeviceAtomicCapabilities(self.0 | rhs.0)
    }
}

impl core::ops::Add for DeviceAtomicCapabilities {
    type Output = Self;

    /// The union of the flags of both operands.
    fn add(self, other: Self) -> (r: Self) {
        proof {
            use_type_invariant(&self);
            use_type_invariant(&other);
            lemma_union_of_valid_is_valid(self.0, other.0, Self::UNION);
        }
        DeviceAtomicCapabilities(self.0 | other.0)
    }
}

#[non_exhaustive]
#[derive(Debug, Clone, Copy, PartialEq, Eq)]
pub struct DeviceDeviceEnqueueCapabilities(cl_device_device_enqueue_capabilities);

impl DeviceDeviceEnqueueCapabilities {
    pub const SUPPORTED: cl_device_device_enqueue_capabilities = CL_DEVICE_QUEUE_SUPPORTED;
    pub const REPLACEABLE_DEFAULT: cl_device_device_enqueue_capabilities = CL_DEVICE_QUEUE_REPLACEABLE_DEFAULT;
    /// The union of all the flags above.
    pub const UNION: cl_device_device_enqueue_capabilities = Self::SUPPORTED | Self::REPLACEABLE_DEFAULT;

    /// The sum of two values holds the union of their flags.
    pub proof fn lemma_sum_bits(a: Self, b: Self)
        ensures
            vstd::std_specs::ops::AddSpec::add_spec(a, b).bits() == a.bits() | b.bits(),
    {
    }

    #[verifier::type_invariant]
    spec fn holds_valid_flags(&self) -> bool {
        is_valid_bitfield(self.0, Self::UNION)
    }
}

impl GetSetGo for DeviceDeviceEnqueueCapabilities {
    open spec fn flag_union() -> cl_bitfield {
        Self::UNION
    }

    open spec fn flag_type_label() -> &'static str {
        "DeviceDeviceEnqueueCapabilities"
    }

    closed spec fn bits(&self) -> cl_bitfield {
        self.0
    }

    fn get(&self) -> (r: cl_bitfield) {
        proof {
            use_type_invariant(self);
        }
        self.0
    }

    fn set(&mut self, value: cl_bitfield) -> (r: BitfieldResult<()>) {
        if value != 0 && value & !Self::UNION == 0 {
            self.0 = value;
            Ok(())
        } else {
            Err(ValidationError::InvalidBitfield("DeviceDeviceEnqueueCapabilities"))
        }
    }

    fn new(value: cl_bitfield) -> (r: BitfieldResult<Self>) {
        if value != 0 && value & !Self::UNION == 0 {
            Ok(DeviceDeviceEnqueueCapabilities(value))
        } else {
            Err(ValidationError::InvalidBitfield("DeviceDeviceEnqueueCapabilities"))
        }
    }
}

impl vstd::std_specs::ops::AddSpecImpl for DeviceDeviceEnqueueCapabilities {
    open spec fn obeys_add_spec() -> bool {
        true
    }

    open spec fn add_req(self, rhs: Self) -> bool {
        true
    }

    closed spec fn add_spec(self, rhs: Self) -> Self {
        DeviceDeviceEnqueueCapabilities(self.0 | rhs.0)
    }
}

impl core::ops::Add for DeviceDeviceEnqueueCapabilities {
    type Output = Self;

    /// The union of the flags of both operands.
    fn add(self, other: Self) -> (r: Self) {
        proof {
            use_type_invariant(&self);
            use_type_invariant(&other);
            lemma_union_of_valid_is_valid(self.0, other.0, Self::UNION);
        }
        DeviceDeviceEnqueueCapabilities(self.0 | other.0)
    }
}

} // verus!
