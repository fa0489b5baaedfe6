//! Memory-type selection over the device's reported memory properties.

use vstd::prelude::*;

verus! {

/// The Vulkan DEVICE_COHERENT_AMD memory property bit, which the engine
/// never selects.
pub const MEMORY_PROPERTY_DEVICE_COHERENT_AMD: u32 = 0x40;

/// Memory type `e` can back the allocation: the requirement mask names it,
/// it has every required property, and it is not AMD device-coherent.
pub open spec fn memory_type_matches(
    memory_type_bits: u32,
    type_flags: Seq<u32>,
    memory_flags: u32,
    e: int,
) -> bool {
    &&& memory_type_bits & (1u32 << e as u32) != 0
    &&& type_flags[e] & memory_flags == memory_flags
    &&& type_flags[e] & MEMORY_PROPERTY_DEVICE_COHERENT_AMD == 0
}

/// Picks the memory type for an allocation: the last reported type that the
/// requirement mask names, that has all required property flags, and that is
/// not AMD device-coherent.
pub fn query_memory_type(memory_type_bits: u32, type_flags: &Vec<u32>, memory_flags: u32) -> (r:
    Option<u32>)
    requires
        type_flags@.len() <= 32,
    ensures
        match r {
            Some(e) => e < type_flags@.len() && memory_type_matches(
                memory_type_bits,
                type_flags@,
                memory_flags,
                e as int,
            ) && (forall|k: int|
                e < k < type_flags@.len() ==> !memory_type_matches(
                    memory_type_bits,
                    type_flags@,
                    memory_flags,
                    k,
                )),
            None => forall|k: int|
                0 <= k < type_flags@.len() ==> !memory_type_matches(
                    memory_type_bits,
                    type_flags@,
                    memory_flags,
                    k,
                ),
        },
{
    let mut acc: Option<u32> = None;
    let mut e: usize = 0;
    while e < type_flags.len()
        invariant
            e <= type_flags@.len(),
            type_flags@.len() <= 32,
            match acc {
                Some(a) => a < e && memory_type_matches(
                    memory_type_bits,
                    type_flags@,
                    memory_flags,
                    a as int,
                ) && (forall|k: int|
                    a < k < e ==> !memory_type_matches(
                        memory_type_bits,
                        type_flags@,
                        memory_flags,
                        k,
                    )),
                None => forall|k: int|
                    0 <= k < e ==> !memory_type_matches(
                        memory_type_bits,
                        type_flags@,
                        memory_flags,
                        k,
                    ),
            },
        decreases type_flags@.len() - e,
    {
        if memory_type_bits & (1u32 << (e as u32)) != 0 && type_flags[e] & memory_flags
            == memory_flags && type_flags[e] & MEMORY_PROPERTY_DEVICE_COHERENT_AMD == 0 {
            acc = Some(e as u32);
        }
        e = e + 1;
    }
    acc
}

} // verus!
