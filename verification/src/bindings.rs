//! How a shader gets at a drawn frame: a texture and the sampler it is read with.

use vstd::prelude::*;

verus! {

/// What a sampler does outside of the texture.
#[derive(Clone, Copy, PartialEq, Eq, Structural, Debug)]
pub enum AddressMode {
    ClampToEdge,
    Repeat,
    MirrorRepeat,
}

/// How a sampler blends texels.
#[derive(Clone, Copy, PartialEq, Eq, Structural, Debug)]
pub enum FilterMode {
    Nearest,
    Linear,
}

/// A sampler.
#[derive(Clone, Copy, PartialEq, Eq, Structural, Debug)]
pub struct SamplerPlan {
    pub address_mode_u: AddressMode,
    pub address_mode_v: AddressMode,
    pub address_mode_w: AddressMode,
    pub mag_filter: FilterMode,
    pub min_filter: FilterMode,
    pub mipmap_filter: FilterMode,
}

/// The stages of a pipeline that see a slot.
#[derive(Clone, Copy, PartialEq, Eq, Structural, Debug)]
pub struct ShaderStages {
    pub vertex: bool,
    pub fragment: bool,
    pub compute: bool,
}

/// How many dimensions a texture is seen in.
#[derive(Clone, Copy, PartialEq, Eq, Structural, Debug)]
pub enum ViewDimension {
    D1,
    D2,
    D3,
}

/// What a shader reads from a texture.
#[derive(Clone, Copy, PartialEq, Eq, Structural, Debug)]
pub enum SampleType {
    Float { filterable: bool },
    Sint,
    Uint,
}

/// What a slot of a bind group layout is for.
#[derive(Clone, Copy, PartialEq, Eq, Structural, Debug)]
pub enum SlotKind {
    /// A texture.
    Texture { multisampled: bool, dimension: ViewDimension, sample_type: SampleType },
    /// A sampler.
    Sampler { filtering: bool },
}

/// A slot of a bind group layout.
#[derive(Clone, Copy, PartialEq, Eq, Structural, Debug)]
pub struct LayoutSlot {
    pub binding: u32,
    pub visibility: ShaderStages,
    pub kind: SlotKind,
    pub count: Option<u32>,
}

/// What a bind group puts into a slot.
#[derive(Clone, Copy, PartialEq, Eq, Structural, Debug)]
pub enum Resource {
    /// The whole texture of the frame.
    FrameView,
    /// The sampler.
    Sampler,
}

/// A slot of a bind group.
#[derive(Clone, Copy, PartialEq, Eq, Structural, Debug)]
pub struct GroupSlot {
    pub binding: u32,
    pub resource: Resource,
}

/// The sampler, the layout and the bind group of a frame.
#[derive(Clone, Copy, PartialEq, Eq, Debug)]
pub struct FrameBindings {
    pub sampler: SamplerPlan,
    pub layout: (LayoutSlot, LayoutSlot),
    pub group: (GroupSlot, GroupSlot),
}

/// Whether a bind group may put what it does into a slot of its layout.
pub open spec fn suits(group: GroupSlot, layout: LayoutSlot) -> bool {
    &&& group.binding == layout.binding
    &&& match group.resource {
        Resource::FrameView => layout.kind is Texture,
        Resource::Sampler => layout.kind is Sampler,
    }
}

/// The bindings of every frame: linear sampling clamped to the edges, of a flat
/// filterable texture in slot 0, with the sampler in slot 1, both for the fragment
/// stage alone.
pub open spec fn standard_bindings() -> FrameBindings {
    FrameBindings {
        sampler: SamplerPlan {
            address_mode_u: AddressMode::ClampToEdge,
            address_mode_v: AddressMode::ClampToEdge,
            address_mode_w: AddressMode::ClampToEdge,
            mag_filter: FilterMode::Linear,
            min_filter: FilterMode::Linear,
            mipmap_filter: FilterMode::Linear,
        },
        layout: (
            LayoutSlot {
                binding: 0,
                visibility: ShaderStages { vertex: false, fragment: true, compute: false },
                kind: SlotKind::Texture {
                    multisampled: false,
                    dimension: ViewDimension::D2,
                    sample_type: SampleType::Float { filterable: true },
                },
                count: None,
            },
            LayoutSlot {
                binding: 1,
                visibility: ShaderStages { vertex: false, fragment: true, compute: false },
                kind: SlotKind::Sampler { filtering: true },
                count: None,
            },
        ),
        group: (
            GroupSlot { binding: 0, resource: Resource::FrameView },
            GroupSlot { binding: 1, resource: Resource::Sampler },
        ),
    }
}

impl FrameBindings {
    /// Plans the bindings of a frame.
    pub fn standard() -> (bindings: FrameBindings)
        ensures
            bindings == standard_bindings(),
    {
        FrameBindings {
            sampler: SamplerPlan {
                address_mode_u: AddressMode::ClampToEdge,
                address_mode_v: AddressMode::ClampToEdge,
                address_mode_w: AddressMode::ClampToEdge,
                mag_filter: FilterMode::Linear,
                min_filter: FilterMode::Linear,
                mipmap_filter: FilterMode::Linear,
            },
            layout: (
                LayoutSlot {
                    binding: 0,
                    visibility: ShaderStages { vertex: false, fragment: true, compute: false },
                    kind: SlotKind::Texture {
                        multisampled: false,
                        dimension: ViewDimension::D2,
                        sample_type: SampleType::Float { filterable: true },
                    },
                    count: None,
                },
                LayoutSlot {
                    binding: 1,
                    visibility: ShaderStages { vertex: false, fragment: true, compute: false },
                    kind: SlotKind::Sampler { filtering: true },
                    count: None,
                },
            ),
            group: (
                GroupSlot { binding: 0, resource: Resource::FrameView },
                GroupSlot { binding: 1, resource: Resource::Sampler },
            ),
        }
    }
}

/// The bind group of a frame fills the slots of its layout, each with a resource
/// of the slot's kind, and no two slots share a binding. A filtering sampler
/// meets a filterable texture.
pub proof fn lemma_group_suits_layout()
    ensures
        suits(standard_bindings().group.0, standard_bindings().layout.0),
        suits(standard_bindings().group.1, standard_bindings().layout.1),
        standard_bindings().layout.0.binding != standard_bindings().layout.1.binding,
        standard_bindings().layout.1.kind->filtering ==> standard_bindings().layout.0.kind->sample_type->filterable,
{
}

} // verus!
