use vstd::prelude::*;

verus! {

/// The largest number of memory types a physical device reports.
pub const MAX_MEMORY_TYPES: usize = 32;

/// What a resource needs from the memory bound to it.
#[derive(Clone, Copy, Debug, PartialEq, Eq, Structural)]
pub struct MemoryRequirements {
    pub size: u64,
    pub alignment: u64,
    /// Bit `i` is set when memory type `i` may back the resource.
    pub memory_type_bits: u32,
}

/// One memory type of a physical device.
#[derive(Clone, Copy, Debug, PartialEq, Eq, Structural)]
pub struct MemoryType {
    /// Position of this type in the device's list.
    pub index: u32,
    pub property_flags: u32,
    pub heap_index: u32,
}

/// The memory types of a physical device, in the order the device reports them.
pub struct PhysicalDeviceMemoryProperties {
    pub memory_types: Vec<MemoryType>,
}

/// Memory type `i` is allowed by the requirement mask `bits`.
pub open spec fn type_allowed(bits: u32, i: u32) -> bool {
    bits & (1u32 << i) != 0
}

/// `property_flags` holds every flag of `flags`.
pub open spec fn has_flags(property_flags: u32, flags: u32) -> bool {
    property_flags & flags == flags
}

/// Memory type at position `i` of `types` suits the request.
pub open spec fn suits(req: MemoryRequirements, types: Seq<MemoryType>, i: int, flags: u32) -> bool {
    0 <= i < types.len() && i < 32 && type_allowed(req.memory_type_bits, i as u32) && has_flags(
        types[i].property_flags,
        flags,
    )
}

/// Finds the first memory type allowed by `memory_req` whose properties include
/// every flag of `flags`.
pub fn find_memory_type_index(
    memory_req: &MemoryRequirements,
    memory_prop: &PhysicalDeviceMemoryProperties,
    flags: u32,
) -> (r: Option<MemoryType>)
    requires
        memory_prop.memory_types@.len() <= MAX_MEMORY_TYPES,
    ensures
        match r {
            Some(t) => exists|i: int|
                {
                    &&& suits(*memory_req, memory_prop.memory_types@, i, flags)
                    &&& t == memory_prop.memory_types@[i]
                    &&& forall|j: int|
                        0 <= j < i ==> !suits(*memory_req, memory_prop.memory_types@, j, flags)
                },
            None => forall|i: int|
                0 <= i < memory_prop.memory_types@.len() ==> !suits(
                    *memory_req,
                    memory_prop.memory_types@,
                    i,
                    flags,
                ),
        },
{
    let types = &memory_prop.memory_types;
    let bits: u32 = memory_req.memory_type_bits;
    let mut i: usize = 0;
    while i < types.len()
        invariant
            i <= types@.len() <= MAX_MEMORY_TYPES,
            bits == memory_req.memory_type_bits,
            types@ == memory_prop.memory_types@,
            forall|j: int| 0 <= j < i ==> !suits(*memory_req, types@, j, flags),
        decreases types@.len() - i,
    {
        let t = types[i];
        let bit: u32 = 1u32 << (i as u32);
        assert(bits & bit == bit & bits) by (bit_vector);
        assert(type_allowed(bits, i as u32) == (bit & bits != 0));
        assert((i as int) as u32 == i as u32);
        if bit & bits != 0 && t.property_flags & flags == flags {
            assert(suits(*memory_req, types@, i as int, flags));
            return Some(t);
        }
        assert(!suits(*memory_req, types@, i as int, flags));
        i = i + 1;
    }
    None
}

} // verus!
