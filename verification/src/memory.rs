//! Choosing the memory that backs an image or a buffer.

use crate::raw::{contains, contains_flags, MAX_MEMORY_TYPES};
use vstd::prelude::*;

verus! {

/// One memory type of a device.
#[derive(Clone, Copy, Debug, PartialEq, Eq, Structural)]
pub struct MemoryType {
    pub property_flags: u32,
    pub heap_index: u32,
}

/// The memory types of a device. Only the first `memory_type_count`
/// entries of `memory_types` mean anything.
#[derive(Clone, Copy, Debug, PartialEq, Eq)]
pub struct MemoryProperties {
    pub memory_type_count: u32,
    pub memory_types: [MemoryType; 32],
}

/// What a resource asks of its memory.
#[derive(Clone, Copy, Debug, PartialEq, Eq, Structural)]
pub struct MemoryRequirements {
    pub size: u64,
    pub alignment: u64,
    /// Bit `i` is set where memory type `i` can back the resource.
    pub memory_type_bits: u32,
}

/// What memory is allocated from.
#[derive(Clone, Copy, Debug, PartialEq, Eq, Structural)]
pub struct MemoryAllocateInfo {
    pub allocation_size: u64,
    pub memory_type_index: u32,
}

impl MemoryProperties {
    /// Whether the device reports no more memory types than the API allows.
    pub open spec fn wf(&self) -> bool {
        self.memory_type_count <= MAX_MEMORY_TYPES
    }

    /// Tests `wf`.
    pub fn is_wf(&self) -> (r: bool)
        ensures
            r == self.wf(),
    {
        self.memory_type_count <= MAX_MEMORY_TYPES
    }

    /// Whether memory type `i` exists, is allowed by `type_bits` and has
    /// every property in `flags`.
    pub open spec fn suits(&self, i: int, type_bits: u32, flags: u32) -> bool {
        &&& 0 <= i < self.memory_type_count
        &&& i < 32
        &&& type_bits & (1u32 << (i as u32)) != 0
        &&& contains_flags(self.memory_types[i].property_flags, flags)
    }
}

/// Finds the first memory type that `type_bits` allows and that has every
/// property in `flags`.
pub fn find_memory_type(device_props: &MemoryProperties, type_bits: u32, flags: u32) -> (r: Option<
    u32,
>)
    requires
        device_props.wf(),
    ensures
        match r {
            Some(i) => device_props.suits(i as int, type_bits, flags) && forall|j: int|
                0 <= j < i ==> !device_props.suits(j, type_bits, flags),
            None => forall|j: int| !device_props.suits(j, type_bits, flags),
        },
{
    let mut i: u32 = 0;
    while i < device_props.memory_type_count
        invariant
            device_props.wf(),
            i <= device_props.memory_type_count,
            forall|j: int| 0 <= j < i ==> !device_props.suits(j, type_bits, flags),
        decreases device_props.memory_type_count - i,
    {
        if type_bits & (1u32 << i) != 0 && contains(
            device_props.memory_types[i as usize].property_flags,
            flags,
        ) {
            return Some(i);
        }
        i += 1;
    }
    None
}

/// Chooses the memory for a resource that asks for `reqs`: of the size
/// asked for, from the first memory type that suits. `None` where no memory
/// type suits.
pub fn allocate(device_props: &MemoryProperties, reqs: MemoryRequirements, flags: u32) -> (r:
    Option<MemoryAllocateInfo>)
    requires
        device_props.wf(),
    ensures
        match r {
            Some(info) => {
                &&& info.allocation_size == reqs.size
                &&& device_props.suits(
                    info.memory_type_index as int,
                    reqs.memory_type_bits,
                    flags,
                )
                &&& forall|j: int|
                    0 <= j < info.memory_type_index ==> !device_props.suits(
                        j,
                        reqs.memory_type_bits,
                        flags,
                    )
            },
            None => forall|j: int| !device_props.suits(j, reqs.memory_type_bits, flags),
        },
{
    match find_memory_type(device_props, reqs.memory_type_bits, flags) {
        Some(ty) => Some(MemoryAllocateInfo { allocation_size: reqs.size, memory_type_index: ty }),
        None => None,
    }
}

} // verus!
