//! Memory-type resolution: picking a device memory type that satisfies a
//! requirements bitmask and a set of required property flags.

use vstd::prelude::*;

use crate::error::EngineError;

verus! {

/// True when bit `i` of `mask` is set.
pub open spec fn bit_set(mask: u32, i: u32) -> bool {
    mask & (1u32 << i) != 0
}

/// True when `props` contains every flag of `required`.
pub open spec fn contains_flags(props: u32, required: u32) -> bool {
    props & required == required
}

/// Memory type `i` is suitable when the requirements mask allows it and its
/// property flags are a superset of the required ones.
pub open spec fn memory_type_suitable(
    type_bits: u32,
    memory_types: Seq<u32>,
    required: u32,
    i: int,
) -> bool {
    &&& 0 <= i < memory_types.len()
    &&& bit_set(type_bits, i as u32)
    &&& contains_flags(memory_types[i], required)
}

/// Returns the first memory-type index whose bit is set in `type_bits` and
/// whose property flags include all of `required`; fails when no reported
/// type qualifies.
pub fn find_memory_type(type_bits: u32, memory_types: &Vec<u32>, required: u32) -> (r: Result<
    u32,
    EngineError,
>)
    requires
        memory_types@.len() <= 32,
    ensures
        match r {
            Ok(i) => {
                &&& memory_type_suitable(type_bits, memory_types@, required, i as int)
                &&& forall|j: int|
                    0 <= j < i ==> !memory_type_suitable(type_bits, memory_types@, required, j)
            },
            Err(e) => {
                &&& e == EngineError::NoSuitableMemoryType
                &&& forall|j: int|
                    !memory_type_suitable(type_bits, memory_types@, required, j)
            },
        },
{
    let n = memory_types.len();
    let mut i: usize = 0;
    while i < n
        invariant
            n == memory_types@.len() <= 32,
            i <= n,
            forall|j: int| 0 <= j < i ==> !memory_type_suitable(type_bits, memory_types@, required, j),
        decreases n - i,
    {
        let suitable = (type_bits & (1u32 << (i as u32))) != 0;
        if suitable && (memory_types[i] & required) == required {
            return Ok(i as u32);
        }
        i = i + 1;
    }
    Err(EngineError::NoSuitableMemoryType)
}

} // verus!
