//! Shader interface layout: attribute and push-constant types, their sizes
//! and packed offsets, descriptor kinds, and descriptor-pool capacity.

use vstd::prelude::*;

verus! {

/// The Vulkan descriptor type value for a uniform buffer.
pub const DESCRIPTOR_TYPE_UNIFORM_BUFFER: u32 = 6;

/// The Vulkan descriptor type value for a combined image sampler.
pub const DESCRIPTOR_TYPE_COMBINED_IMAGE_SAMPLER: u32 = 1;

#[derive(Clone, Copy, PartialEq, Eq, Structural)]
pub enum ShaderType {
    Float32,
    Float32_2,
    Float32_3,
    Float32_4,
    Int8,
    UInt8,
    Int16,
    UInt16,
    Int32,
    UInt32,
    Matrix4,
    Sampler,
}

/// The size in bytes a value of the type takes inside a buffer.
pub open spec fn shader_type_size(t: ShaderType) -> u32 {
    match t {
        ShaderType::Int8 | ShaderType::UInt8 => 1,
        ShaderType::Int16 | ShaderType::UInt16 => 2,
        ShaderType::Float32 | ShaderType::Int32 | ShaderType::UInt32 => 4,
        ShaderType::Float32_2 => 8,
        ShaderType::Float32_3 => 12,
        ShaderType::Float32_4 => 16,
        ShaderType::Matrix4 => 64,
        ShaderType::Sampler => 0,
    }
}

/// The type has a Vulkan vertex-attribute format.
pub open spec fn has_vk_format(t: ShaderType) -> bool {
    !(t is Matrix4 || t is Sampler)
}

/// The Vulkan format value of a type that has one.
pub open spec fn shader_type_vk_format(t: ShaderType) -> u32 {
    match t {
        ShaderType::Float32 => 100,
        ShaderType::Float32_2 => 103,
        ShaderType::Float32_3 => 106,
        ShaderType::Float32_4 => 109,
        ShaderType::Int8 => 14,
        ShaderType::UInt8 => 13,
        ShaderType::Int16 => 75,
        ShaderType::UInt16 => 74,
        ShaderType::Int32 => 99,
        ShaderType::UInt32 => 98,
        ShaderType::Matrix4 | ShaderType::Sampler => 0,
    }
}

impl ShaderType {
    pub fn size(&self) -> (r: u32)
        ensures
            r == shader_type_size(*self),
    {
        match self {
            ShaderType::Int8 | ShaderType::UInt8 => 1,
            ShaderType::Int16 | ShaderType::UInt16 => 2,
            ShaderType::Float32 | ShaderType::Int32 | ShaderType::UInt32 => 4,
            ShaderType::Float32_2 => 8,
            ShaderType::Float32_3 => 12,
            ShaderType::Float32_4 => 16,
            ShaderType::Matrix4 => 64,
            ShaderType::Sampler => 0,
        }
    }

    /// The Vulkan vertex-attribute format value of the type. A matrix or a
    /// sampler has none and may not be asked for one.
    pub fn as_vk_format(&self) -> (r: u32)
        requires
            has_vk_format(*self),
        ensures
            r == shader_type_vk_format(*self),
    {
        match self {
            ShaderType::Float32 => 100,
            ShaderType::Float32_2 => 103,
            ShaderType::Float32_3 => 106,
            ShaderType::Float32_4 => 109,
            ShaderType::Int8 => 14,
            ShaderType::UInt8 => 13,
            ShaderType::Int16 => 75,
            ShaderType::UInt16 => 74,
            ShaderType::Int32 => 99,
            ShaderType::UInt32 => 98,
            ShaderType::Matrix4 | ShaderType::Sampler => 0,
        }
    }
}

pub struct ShaderStageInfo {
    /// Vulkan shader stage flags.
    pub stage_type: u32,
    pub stage_file: String,
}

pub struct ShaderPushConstantInfo {
    pub push_constant_type: ShaderType,
    /// Vulkan shader stage flags.
    pub stage_flags: u32,
}

pub struct ShaderVertexAttributeInfo {
    pub attribute_type: ShaderType,
    pub binding: u32,
}

pub struct ShaderDescriptorSetInfo {
    pub max_set_allocations: u32,
    pub descriptors: Vec<ShaderDescriptorInfo>,
}

pub struct ShaderDescriptorInfo {
    pub descriptor_type: ShaderDescriptorTypeInfo,
    /// Vulkan shader stage flags.
    pub stage_flags: u32,
}

pub enum ShaderDescriptorTypeInfo {
    UniformBuffer { fields: Vec<ShaderType> },
    Sampler,
}

impl ShaderDescriptorTypeInfo {
    /// The Vulkan descriptor type value the descriptor binds as.
    pub fn as_vk_descriptor_type(&self) -> (r: u32)
        ensures
            r == match self {
                ShaderDescriptorTypeInfo::UniformBuffer { .. } => DESCRIPTOR_TYPE_UNIFORM_BUFFER
                    as int,
                ShaderDescriptorTypeInfo::Sampler => DESCRIPTOR_TYPE_COMBINED_IMAGE_SAMPLER as int,
            },
    {
        match self {
            ShaderDescriptorTypeInfo::UniformBuffer { .. } => DESCRIPTOR_TYPE_UNIFORM_BUFFER,
            ShaderDescriptorTypeInfo::Sampler => DESCRIPTOR_TYPE_COMBINED_IMAGE_SAMPLER,
        }
    }
}

/// The byte offset of the i-th value when values of the given types are
/// packed back to back.
pub open spec fn packed_offset(types: Seq<ShaderType>, i: int) -> int
    decreases i,
{
    if i <= 0 {
        0
    } else {
        packed_offset(types, i - 1) + shader_type_size(types[i - 1])
    }
}

/// The byte offset of each type in back-to-back packing: the running sum of
/// the sizes of the types before it. `None` when the packed size does not
/// fit in 32 bits.
pub fn packed_offsets(types: &Vec<ShaderType>) -> (r: Option<Vec<u32>>)
    ensures
        match r {
            Some(offsets) => offsets@.len() == types@.len() && (forall|i: int|
                0 <= i < types@.len() ==> #[trigger] offsets@[i] == packed_offset(types@, i))
                && packed_offset(types@, types@.len() as int) <= u32::MAX,
            None => packed_offset(types@, types@.len() as int) > u32::MAX,
        },
{
    let mut offsets: Vec<u32> = Vec::new();
    let mut offset: u32 = 0;
    let mut i: usize = 0;
    while i < types.len()
        invariant
            i <= types@.len(),
            offsets@.len() == i,
            offset == packed_offset(types@, i as int),
            forall|j: int| 0 <= j < i ==> #[trigger] offsets@[j] == packed_offset(types@, j),
        decreases types@.len() - i,
    {
        offsets.push(offset);
        let size = types[i].size();
        match offset.checked_add(size) {
            Some(next) => {
                offset = next;
            },
            None => {
                proof {
                    lemma_packed_offset_monotonic(types@, i + 1, types@.len() as int);
                }
                return None;
            },
        }
        i = i + 1;
    }
    Some(offsets)
}

/// Packed offsets never shrink as more values are packed.
proof fn lemma_packed_offset_monotonic(types: Seq<ShaderType>, i: int, j: int)
    requires
        0 <= i <= j,
    ensures
        packed_offset(types, i) <= packed_offset(types, j),
    decreases j - i,
{
    if i < j {
        lemma_packed_offset_monotonic(types, i, j - 1);
    }
}

/// The total set capacity a shader's descriptor pool is created with: the
/// sum of every set's allocation bound. `None` when the sum does not fit in
/// 32 bits.
pub fn descriptor_pool_capacity(sets: &Vec<ShaderDescriptorSetInfo>) -> (r: Option<u32>)
    ensures
        match r {
            Some(total) => total == allocation_total(sets@, sets@.len() as int) && allocation_total(
                sets@,
                sets@.len() as int,
            ) <= u32::MAX,
            None => allocation_total(sets@, sets@.len() as int) > u32::MAX,
        },
{
    let mut total: u32 = 0;
    let mut i: usize = 0;
    while i < sets.len()
        invariant
            i <= sets@.len(),
            total == allocation_total(sets@, i as int),
        decreases sets@.len() - i,
    {
        match total.checked_add(sets[i].max_set_allocations) {
            Some(next) => {
                total = next;
            },
            None => {
                proof {
                    lemma_allocation_total_monotonic(sets@, i + 1, sets@.len() as int);
                }
                return None;
            },
        }
        i = i + 1;
    }
    Some(total)
}

/// The sum of the first i sets' allocation bounds.
pub open spec fn allocation_total(sets: Seq<ShaderDescriptorSetInfo>, i: int) -> int
    decreases i,
{
    if i <= 0 {
        0
    } else {
        allocation_total(sets, i - 1) + sets[i - 1].max_set_allocations
    }
}

/// Allocation totals never shrink as more sets are counted.
proof fn lemma_allocation_total_monotonic(sets: Seq<ShaderDescriptorSetInfo>, i: int, j: int)
    requires
        0 <= i <= j,
    ensures
        allocation_total(sets, i) <= allocation_total(sets, j),
    decreases j - i,
{
    if i < j {
        lemma_allocation_total_monotonic(sets, i, j - 1);
    }
}

} // verus!
