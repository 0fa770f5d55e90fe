//! Builders of the zero-terminated key/value property lists that creation
//! calls take.
use vstd::prelude::*;
use crate::bitfields::{CommandQueueProperties, DeviceAffinityDomain, GetSetGo};
use crate::consts::{
    cl_bool, cl_context_properties, cl_device_partition_property, cl_properties, cl_uint,
    CL_CONTEXT_INTEROP_USER_SYNC, CL_CONTEXT_PLATFORM, CL_DEVICE_PARTITION_BY_AFFINITY_DOMAIN,
    CL_DEVICE_PARTITION_BY_COUNTS, CL_DEVICE_PARTITION_BY_COUNTS_LIST_END,
    CL_DEVICE_PARTITION_EQUALLY,
};
use crate::helpers::bool_to_clbool;
use crate::structs::{AddressingMode, CommandQueueInfo, DeviceInfo, FilterMode, SamplerInfo};
use crate::wrappers::PlatformPtr;

verus! {

/// A property list of pointer-sized entries, or none.
pub type Properties = Option<Vec<isize>>;

/// A property list of 64-bit entries, or none.
pub type LongProperties = Option<Vec<cl_properties>>;

/// The native boolean of `b`, as a property value.
pub open spec fn clbool_of(b: bool) -> cl_bool {
    if b {
        1
    } else {
        0
    }
}

/// The entries `key, value` when `value` is given, nothing otherwise.
pub open spec fn entry<V>(key: V, value: Option<V>) -> Seq<V> {
    match value {
        Some(v) => seq![key, v],
        None => Seq::empty(),
    }
}

/// The sampler property list for the given settings, zero-terminated.
pub open spec fn sampler_property_list(
    normalized_coords: Option<bool>,
    addressing_mode: Option<AddressingMode>,
    filter_mode: Option<FilterMode>,
) -> Seq<cl_properties> {
    entry(
        SamplerInfo::NORMALIZED_COORDS as cl_properties,
        match normalized_coords {
            Some(b) => Some(clbool_of(b) as cl_properties),
            None => None,
        },
    ) + entry(
        SamplerInfo::ADDRESSING_MODE as cl_properties,
        match addressing_mode {
            Some(m) => Some(m.mode() as cl_properties),
            None => None,
        },
    ) + entry(
        SamplerInfo::FILTER_MODE as cl_properties,
        match filter_mode {
            Some(m) => Some(m.mode() as cl_properties),
            None => None,
        },
    ) + seq![0]
}

/// Builder of sampler property lists.
pub struct SamplerProperties;

impl SamplerProperties {
    /// The list naming each given setting once, in the order normalized
    /// coordinates, addressing mode, filter mode, then the terminating zero.
    pub fn gen(
        &self,
        normalized_coords: Option<bool>,
        addressing_mode: Option<AddressingMode>,
        filter_mode: Option<FilterMode>,
    ) -> (r: LongProperties)
        ensures
            r matches Some(v) && v@ == sampler_property_list(
                normalized_coords,
                addressing_mode,
                filter_mode,
            ),
    {
        let mut array: Vec<cl_properties> = Vec::with_capacity(7);
        match normalized_coords {
            Some(x) => {
                array.push(SamplerInfo::NORMALIZED_COORDS as cl_properties);
                array.push(bool_to_clbool(x) as cl_properties);
            },
            None => {},
        }
        match addressing_mode {
            Some(x) => {
                array.push(SamplerInfo::ADDRESSING_MODE as cl_properties);
                array.push(x.get() as cl_properties);
            },
            None => {},
        }
        match filter_mode {
            Some(x) => {
                array.push(SamplerInfo::FILTER_MODE as cl_properties);
                array.push(x.get() as cl_properties);
            },
            None => {},
        }
        array.push(0);
        assert(array@ =~= sampler_property_list(normalized_coords, addressing_mode, filter_mode));
        Some(array)
    }
}

/// The command queue property list for the given settings, zero-terminated;
/// a size is listed only together with properties.
pub open spec fn queue_property_list(
    queue_properties: Option<CommandQueueProperties>,
    queue_size: Option<cl_uint>,
) -> Seq<cl_properties> {
    let listed = match queue_properties {
        Some(p) => seq![CommandQueueInfo::PROPERTIES as cl_properties, p.bits()] + entry(
            CommandQueueInfo::SIZE as cl_properties,
            match queue_size {
                Some(s) => Some(s as cl_properties),
                None => None,
            },
        ),
        None => Seq::empty(),
    };
    listed + seq![0]
}

/// Builder of command queue property lists.
pub struct QueueProperties;

impl QueueProperties {
    /// The list naming the queue properties and, with them, the queue size,
    /// then the terminating zero. A size is taken only below
    /// `DeviceInfo::QUEUE_ON_DEVICE_MAX_SIZE`.
    pub fn gen(&self, queue_properties: Option<CommandQueueProperties>, queue_size: Option<cl_uint>) -> (r:
        LongProperties)
        requires
            queue_properties is Some ==> (queue_size matches Some(s) ==> s
                < DeviceInfo::QUEUE_ON_DEVICE_MAX_SIZE),
        ensures
            r matches Some(v) && v@ == queue_property_list(queue_properties, queue_size),
    {
        let mut array: Vec<cl_properties> = Vec::with_capacity(5);
        match queue_properties {
            Some(x) => {
                array.push(CommandQueueInfo::PROPERTIES as cl_properties);
                array.push(x.get());
                match queue_size {
                    Some(y) => {
                        array.push(CommandQueueInfo::SIZE as cl_properties);
                        array.push(y as cl_properties);
                    },
                    None => {},
                }
            },
            None => {},
        }
        array.push(0);
        assert(array@ =~= queue_property_list(queue_properties, queue_size));
        Some(array)
    }
}

/// The context property list for the given settings, zero-terminated.
pub open spec fn context_property_list(platform: Option<usize>, interop_user_sync: Option<bool>) -> Seq<
    isize,
> {
    entry(
        CL_CONTEXT_INTEROP_USER_SYNC as isize,
        match interop_user_sync {
            Some(b) => Some(clbool_of(b) as isize),
            None => None,
        },
    ) + entry(
        CL_CONTEXT_PLATFORM as isize,
        match platform {
            Some(a) => Some(a as isize),
            None => None,
        },
    ) + seq![0]
}

/// Builder of context property lists.
pub struct ContextProperties;

impl ContextProperties {
    pub const PLATFORM: cl_context_properties = CL_CONTEXT_PLATFORM as cl_context_properties;
    pub const INTEROP_USER_SYNC: cl_context_properties = CL_CONTEXT_INTEROP_USER_SYNC as cl_context_properties;

    /// The list naming user synchronisation and then the platform, each when
    /// given, then the terminating zero.
    pub fn gen(&self, platform: Option<&PlatformPtr>, interop_user_sync: Option<bool>) -> (r:
        Properties)
        ensures
            r matches Some(v) && v@ == context_property_list(
                match platform {
                    Some(p) => Some(p@),
                    None => None,
                },
                interop_user_sync,
            ),
    {
        let mut array: Vec<isize> = Vec::with_capacity(5);
        match interop_user_sync {
            Some(x) => {
                array.push(Self::INTEROP_USER_SYNC);
                array.push(bool_to_clbool(x) as isize);
            },
            None => {},
        }
        match platform {
            Some(x) => {
                array.push(Self::PLATFORM);
                array.push(x.unwrap() as isize);
            },
            None => {},
        }
        array.push(0);
        assert(array@ =~= context_property_list(
            match platform {
                Some(p) => Some(p@),
                None => None,
            },
            interop_user_sync,
        ));
        Some(array)
    }

    /// The list naming the platform alone.
    pub fn platform(&self, platform_id: &PlatformPtr) -> (r: Properties)
        ensures
            r matches Some(v) && v@ == seq![Self::PLATFORM, platform_id@ as isize, 0],
    {
        let v: Vec<isize> = vec![Self::PLATFORM, platform_id.unwrap() as isize, 0];
        assert(v@ =~= seq![Self::PLATFORM, platform_id@ as isize, 0]);
        Some(v)
    }

    /// The list naming user synchronisation alone; only a native boolean,
    /// zero or one, gives a list.
    pub fn interop_user_sync(&self, value: cl_bool) -> (r: Properties)
        ensures
            (value == 0 || value == 1) ==> (r matches Some(v) && v@ == seq![
                Self::INTEROP_USER_SYNC,
                value as isize,
                0,
            ]),
            !(value == 0 || value == 1) ==> r is None,
    {
        if value == 0 || value == 1 {
            let v: Vec<isize> = vec![Self::INTEROP_USER_SYNC, value as isize, 0];
            assert(v@ =~= seq![Self::INTEROP_USER_SYNC, value as isize, 0]);
            Some(v)
        } else {
            None
        }
    }
}

/// Builder of device partition property lists.
pub struct DevicePartitionProperty;

impl DevicePartitionProperty {
    pub const EQUALLY: cl_device_partition_property = CL_DEVICE_PARTITION_EQUALLY as cl_device_partition_property;
    pub const BY_COUNTS: cl_device_partition_property = CL_DEVICE_PARTITION_BY_COUNTS as cl_device_partition_property;
    pub const BY_COUNTS_LIST_END: cl_device_partition_property = CL_DEVICE_PARTITION_BY_COUNTS_LIST_END as cl_device_partition_property;
    pub const BY_AFFINITY_DOMAIN: cl_device_partition_property = CL_DEVICE_PARTITION_BY_AFFINITY_DOMAIN as cl_device_partition_property;

    /// Partition into sub-devices of `compute_units` compute units each.
    pub fn equally(&self, compute_units: cl_uint) -> (r: Properties)
        ensures
            r matches Some(v) && v@ == seq![Self::EQUALLY, compute_units as isize, 0],
    {
        let v: Vec<isize> = vec![Self::EQUALLY, compute_units as isize, 0];
        assert(v@ =~= seq![Self::EQUALLY, compute_units as isize, 0]);
        Some(v)
    }

    /// Partition into two sub-devices of the given compute unit counts.
    pub fn by_counts(&self, left_cu: cl_uint, right_cu: cl_uint) -> (r: Properties)
        ensures
            r matches Some(v) && v@ == seq![
                Self::BY_COUNTS,
                left_cu as isize,
                right_cu as isize,
                Self::BY_COUNTS_LIST_END,
                0,
            ],
    {
        let v: Vec<isize> = vec![
            Self::BY_COUNTS,
            left_cu as isize,
            right_cu as isize,
            Self::BY_COUNTS_LIST_END,
            0,
        ];
        assert(v@ =~= seq![
            Self::BY_COUNTS,
            left_cu as isize,
            right_cu as isize,
            Self::BY_COUNTS_LIST_END,
            0,
        ]);
        Some(v)
    }

    /// Partition along the given affinity domain.
    pub fn by_affinity_domain(&self, domain: DeviceAffinityDomain) -> (r: Properties)
        ensures
            r matches Some(v) && v@ == seq![Self::BY_AFFINITY_DOMAIN, domain.bits() as isize, 0],
    {
        let v: Vec<isize> = vec![Self::BY_AFFINITY_DOMAIN, domain.get() as isize, 0];
        assert(v@ =~= seq![Self::BY_AFFINITY_DOMAIN, domain.bits() as isize, 0]);
        Some(v)
    }
}

} // verus!
