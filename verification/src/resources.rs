//! What a run creates before it records: images, the parameter buffer,
//! descriptor pools and sets, and what the sets are filled with.

use crate::catalog::{ImageId, PassKind, SetId, SetLayoutId, Slot};
use crate::commands::{whole_image, SubresourceRange};
use crate::packed::PARAMS_SIZE;
use crate::params::{Extent3D, Parameters};
use crate::raw::{
    BUFFER_USAGE_TRANSFER_DST, BUFFER_USAGE_UNIFORM_BUFFER, COMPONENT_SWIZZLE_IDENTITY,
    DESCRIPTOR_COMBINED_IMAGE_SAMPLER, DESCRIPTOR_STORAGE_IMAGE, DESCRIPTOR_UNIFORM_BUFFER,
    FORMAT_R16G16B16A16_SFLOAT, FORMAT_R32G32B32A32_SFLOAT, IMAGE_TILING_OPTIMAL, IMAGE_TYPE_1D,
    IMAGE_TYPE_2D, IMAGE_TYPE_3D, IMAGE_USAGE_SAMPLED, IMAGE_USAGE_STORAGE,
    IMAGE_USAGE_TRANSFER_DST, IMAGE_VIEW_TYPE_1D, IMAGE_VIEW_TYPE_2D, IMAGE_VIEW_TYPE_3D,
    LAYOUT_GENERAL, LAYOUT_SHADER_READ_ONLY_OPTIMAL, LAYOUT_UNDEFINED, SAMPLE_COUNT_1,
    SHARING_MODE_EXCLUSIVE, WHOLE_SIZE,
};
use vstd::prelude::*;

verus! {

/// What an image is created from.
#[derive(Clone, Copy, Debug, PartialEq, Eq, Structural)]
pub struct ImageInfo {
    pub image_type: i32,
    pub format: i32,
    pub extent: Extent3D,
    pub mip_levels: u32,
    pub array_layers: u32,
    pub samples: u32,
    pub tiling: i32,
    pub usage: u32,
    pub sharing_mode: i32,
    pub initial_layout: i32,
}

/// What the view of an image is created from.
#[derive(Clone, Copy, Debug, PartialEq, Eq, Structural)]
pub struct ImageViewInfo {
    pub view_type: i32,
    pub format: i32,
    /// The swizzle of each of the four components.
    pub components: i32,
    pub subresource_range: SubresourceRange,
}

/// What the parameter buffer is created from.
#[derive(Clone, Copy, Debug, PartialEq, Eq, Structural)]
pub struct BufferInfo {
    pub size: u64,
    pub usage: u32,
}

/// What a descriptor pool is created from: the number of sets and, per
/// descriptor type, the number of descriptors it has room for.
#[derive(Clone, Copy, Debug, PartialEq, Eq, Structural)]
pub struct PoolInfo {
    pub max_sets: u32,
    pub uniform_buffers: u32,
    pub combined_image_samplers: u32,
    pub storage_images: u32,
}

/// One entry of a descriptor pool's sizes.
#[derive(Clone, Copy, Debug, PartialEq, Eq, Structural)]
pub struct PoolSize {
    pub descriptor_type: i32,
    pub descriptor_count: u32,
}

/// What a descriptor is filled with.
#[derive(Clone, Copy, Debug, PartialEq, Eq, Structural)]
pub enum Target {
    /// The parameter buffer, from `offset` over `range` bytes.
    Buffer { offset: u64, range: u64 },
    /// The view of an image, in the layout the image is in when a shader
    /// reaches it through this descriptor.
    Image { image: ImageId, image_layout: i32 },
}

/// One update of one descriptor: element 0 of binding `dst_binding` of set
/// `dst_set`.
#[derive(Clone, Copy, Debug, PartialEq, Eq, Structural)]
pub struct DescriptorWrite {
    pub dst_set: SetId,
    pub dst_binding: u32,
    pub descriptor_type: i32,
    pub target: Target,
}

impl ImageId {
    /// Whether the image is one of the three tables that outlive the run.
    pub open spec fn is_table(self) -> bool {
        self == ImageId::Transmittance || self == ImageId::Scattering || self
            == ImageId::Irradiance
    }

    /// What the image is created from. The transmittance and the two
    /// irradiance images are two-dimensional with 32-bit components, the five
    /// scattering images three-dimensional with 16-bit components. All can be
    /// stored to and sampled, and used as the parameters add; the irradiance
    /// images can also be cleared.
    pub open spec fn spec_info(self, p: Parameters) -> ImageInfo {
        let common = ImageInfo {
            image_type: IMAGE_TYPE_2D,
            format: FORMAT_R32G32B32A32_SFLOAT,
            extent: Extent3D { width: 0, height: 0, depth: 1 },
            mip_levels: 1,
            array_layers: 1,
            samples: SAMPLE_COUNT_1,
            tiling: IMAGE_TILING_OPTIMAL,
            usage: IMAGE_USAGE_STORAGE | IMAGE_USAGE_SAMPLED | p.usage,
            sharing_mode: SHARING_MODE_EXCLUSIVE,
            initial_layout: LAYOUT_UNDEFINED,
        };
        match self {
            ImageId::Transmittance => ImageInfo {
                extent: Extent3D {
                    width: p.transmittance_mu_size,
                    height: p.transmittance_r_size,
                    depth: 1,
                },
                ..common
            },
            ImageId::Irradiance | ImageId::DeltaIrradiance => ImageInfo {
                extent: Extent3D {
                    width: p.irradiance_mu_s_size,
                    height: p.irradiance_r_size,
                    depth: 1,
                },
                usage: IMAGE_USAGE_STORAGE | IMAGE_USAGE_SAMPLED | IMAGE_USAGE_TRANSFER_DST
                    | p.usage,
                ..common
            },
            _ => ImageInfo {
                image_type: IMAGE_TYPE_3D,
                format: FORMAT_R16G16B16A16_SFLOAT,
                extent: p.spec_scattering_extent(),
                ..common
            },
        }
    }

    /// Says what the image is created from.
    pub fn info(self, p: &Parameters) -> (r: ImageInfo)
        requires
            p.valid(),
        ensures
            r == self.spec_info(*p),
    {
        let common = ImageInfo {
            image_type: IMAGE_TYPE_2D,
            format: FORMAT_R32G32B32A32_SFLOAT,
            extent: Extent3D { width: 0, height: 0, depth: 1 },
            mip_levels: 1,
            array_layers: 1,
            samples: SAMPLE_COUNT_1,
            tiling: IMAGE_TILING_OPTIMAL,
            usage: IMAGE_USAGE_STORAGE | IMAGE_USAGE_SAMPLED | p.usage,
            sharing_mode: SHARING_MODE_EXCLUSIVE,
            initial_layout: LAYOUT_UNDEFINED,
        };
        match self {
            ImageId::Transmittance => {
                let extent = p.transmittance_extent();
                ImageInfo {
                    extent: Extent3D { width: extent.width, height: extent.height, depth: 1 },
                    ..common
                }
            },
            ImageId::Irradiance | ImageId::DeltaIrradiance => {
                let extent = p.irradiance_extent();
                ImageInfo {
                    extent: Extent3D { width: extent.width, height: extent.height, depth: 1 },
                    usage: IMAGE_USAGE_STORAGE | IMAGE_USAGE_SAMPLED | IMAGE_USAGE_TRANSFER_DST
                        | p.usage,
                    ..common
                }
            },
            _ => ImageInfo {
                image_type: IMAGE_TYPE_3D,
                format: FORMAT_R16G16B16A16_SFLOAT,
                extent: p.scattering_extent(),
                ..common
            },
        }
    }
}

/// The images of a run in the order in which they are created.
pub open spec fn spec_image_order() -> Seq<ImageId> {
    seq![
        ImageId::Transmittance,
        ImageId::DeltaIrradiance,
        ImageId::Irradiance,
        ImageId::DeltaRayleigh,
        ImageId::DeltaMie,
        ImageId::Scattering,
        ImageId::DeltaMultipleScattering,
        ImageId::ScatteringDensity,
    ]
}

/// Lists the images of a run in the order in which they are created. Each
/// image is listed once.
pub fn image_order() -> (r: Vec<ImageId>)
    ensures
        r@ == spec_image_order(),
        r@.no_duplicates(),
        forall|image: ImageId| r@.contains(image),
{
    let mut v: Vec<ImageId> = Vec::new();
    v.push(ImageId::Transmittance);
    v.push(ImageId::DeltaIrradiance);
    v.push(ImageId::Irradiance);
    v.push(ImageId::DeltaRayleigh);
    v.push(ImageId::DeltaMie);
    v.push(ImageId::Scattering);
    v.push(ImageId::DeltaMultipleScattering);
    v.push(ImageId::ScatteringDensity);
    assert(v@ =~= spec_image_order());
    assert forall|image: ImageId| v@.contains(image) by {
        match image {
            ImageId::Transmittance => assert(v@[0] == image),
            ImageId::DeltaIrradiance => assert(v@[1] == image),
            ImageId::Irradiance => assert(v@[2] == image),
            ImageId::DeltaRayleigh => assert(v@[3] == image),
            ImageId::DeltaMie => assert(v@[4] == image),
            ImageId::Scattering => assert(v@[5] == image),
            ImageId::DeltaMultipleScattering => assert(v@[6] == image),
            ImageId::ScatteringDensity => assert(v@[7] == image),
        }
    }
    v
}

/// The view of an image: of the image's dimension and format, components
/// unswizzled, over the whole image.
pub open spec fn spec_view_info(info: ImageInfo) -> ImageViewInfo {
    ImageViewInfo {
        view_type: if info.image_type == IMAGE_TYPE_1D {
            IMAGE_VIEW_TYPE_1D
        } else if info.image_type == IMAGE_TYPE_2D {
            IMAGE_VIEW_TYPE_2D
        } else {
            IMAGE_VIEW_TYPE_3D
        },
        format: info.format,
        components: COMPONENT_SWIZZLE_IDENTITY,
        subresource_range: whole_image(),
    }
}

/// Whether the image type is one that views exist for here.
pub open spec fn known_image_type(image_type: i32) -> bool {
    image_type == IMAGE_TYPE_1D || image_type == IMAGE_TYPE_2D || image_type == IMAGE_TYPE_3D
}

/// Tests whether the image is of a type that views exist for here.
pub fn has_view(info: &ImageInfo) -> (r: bool)
    ensures
        r == known_image_type(info.image_type),
{
    info.image_type == IMAGE_TYPE_1D || info.image_type == IMAGE_TYPE_2D || info.image_type
        == IMAGE_TYPE_3D
}

/// Says what the view of an image is created from.
pub fn view_info(info: &ImageInfo) -> (r: ImageViewInfo)
    requires
        known_image_type(info.image_type),
    ensures
        r == spec_view_info(*info),
{
    let view_type = if info.image_type == IMAGE_TYPE_1D {
        IMAGE_VIEW_TYPE_1D
    } else if info.image_type == IMAGE_TYPE_2D {
        IMAGE_VIEW_TYPE_2D
    } else {
        IMAGE_VIEW_TYPE_3D
    };
    ImageViewInfo {
        view_type,
        format: info.format,
        components: COMPONENT_SWIZZLE_IDENTITY,
        subresource_range: whole_image(),
    }
}

/// Every image of a run is of a type that views exist for.
pub proof fn lemma_images_have_views(image: ImageId, p: Parameters)
    ensures
        known_image_type(image.spec_info(p).image_type),
{
}

/// The parameter buffer: as large as the packed block, filled by a
/// transfer, read as a uniform buffer.
pub open spec fn spec_params_buffer() -> BufferInfo {
    BufferInfo { size: PARAMS_SIZE, usage: BUFFER_USAGE_UNIFORM_BUFFER | BUFFER_USAGE_TRANSFER_DST }
}

#[verifier::when_used_as_spec(spec_params_buffer)]
pub fn params_buffer() -> (r: BufferInfo)
    ensures
        r == spec_params_buffer(),
{
    BufferInfo { size: PARAMS_SIZE, usage: BUFFER_USAGE_UNIFORM_BUFFER | BUFFER_USAGE_TRANSFER_DST }
}

/// The sets that a run allocates from the pool it releases when it is over,
/// in the order in which they are allocated.
pub open spec fn spec_transient_sets() -> Seq<SetId> {
    seq![
        SetId::Params,
        SetId::Pass(PassKind::Transmittance),
        SetId::Pass(PassKind::DirectIrradiance),
        SetId::Pass(PassKind::IndirectIrradiance),
        SetId::Pass(PassKind::SingleScattering),
        SetId::Pass(PassKind::ScatteringDensity),
        SetId::Pass(PassKind::MultipleScattering),
    ]
}

/// The sets that a run allocates from the pool that outlives it.
pub open spec fn spec_persistent_sets() -> Seq<SetId> {
    seq![SetId::Render]
}

/// Lists the sets allocated from the pool that is released with the run.
pub fn transient_sets() -> (r: Vec<SetId>)
    ensures
        r@ == spec_transient_sets(),
{
    let mut v: Vec<SetId> = Vec::new();
    v.push(SetId::Params);
    v.push(SetId::Pass(PassKind::Transmittance));
    v.push(SetId::Pass(PassKind::DirectIrradiance));
    v.push(SetId::Pass(PassKind::IndirectIrradiance));
    v.push(SetId::Pass(PassKind::SingleScattering));
    v.push(SetId::Pass(PassKind::ScatteringDensity));
    v.push(SetId::Pass(PassKind::MultipleScattering));
    assert(v@ =~= spec_transient_sets());
    v
}

/// Lists the sets allocated from the pool that outlives the run.
pub fn persistent_sets() -> (r: Vec<SetId>)
    ensures
        r@ == spec_persistent_sets(),
{
    let mut v: Vec<SetId> = Vec::new();
    v.push(SetId::Render);
    assert(v@ =~= spec_persistent_sets());
    v
}

/// The number of descriptors of type `descriptor_type` among the first `n`
/// of `slots`.
pub open spec fn count_in(slots: Seq<Slot>, descriptor_type: i32, n: nat) -> nat
    decreases n,
{
    if n == 0 {
        0
    } else {
        count_in(slots, descriptor_type, (n - 1) as nat) + if slots[n - 1].descriptor_type
            == descriptor_type {
            1nat
        } else {
            0nat
        }
    }
}

/// The number of descriptors of type `descriptor_type` in the first `n` of
/// `sets`.
pub open spec fn count_over(sets: Seq<SetId>, descriptor_type: i32, n: nat) -> nat
    decreases n,
{
    if n == 0 {
        0
    } else {
        count_over(sets, descriptor_type, (n - 1) as nat) + count_in(
            sets[n - 1].spec_slots(),
            descriptor_type,
            sets[n - 1].spec_slots().len(),
        )
    }
}

/// The pool that holds exactly `sets`: room for as many sets, and per
/// descriptor type for as many descriptors as the sets hold together.
pub open spec fn pool_holding(sets: Seq<SetId>) -> PoolInfo {
    PoolInfo {
        max_sets: sets.len() as u32,
        uniform_buffers: count_over(sets, DESCRIPTOR_UNIFORM_BUFFER, sets.len()) as u32,
        combined_image_samplers: count_over(
            sets,
            DESCRIPTOR_COMBINED_IMAGE_SAMPLER,
            sets.len(),
        ) as u32,
        storage_images: count_over(sets, DESCRIPTOR_STORAGE_IMAGE, sets.len()) as u32,
    }
}

fn count_slots(slots: &Vec<Slot>, descriptor_type: i32) -> (r: u32)
    requires
        slots.len() <= 6,
    ensures
        r == count_in(slots@, descriptor_type, slots@.len()),
        r <= 6,
{
    let mut count: u32 = 0;
    let mut i: usize = 0;
    while i < slots.len()
        invariant
            i <= slots.len(),
            slots.len() <= 6,
            count <= i,
            count == count_in(slots@, descriptor_type, i as nat),
        decreases slots.len() - i,
    {
        if slots[i].descriptor_type == descriptor_type {
            count += 1;
        }
        i += 1;
    }
    count
}

fn count_sets(sets: &Vec<SetId>, descriptor_type: i32) -> (r: u32)
    requires
        sets.len() <= 8,
    ensures
        r == count_over(sets@, descriptor_type, sets@.len()),
{
    let mut count: u32 = 0;
    let mut i: usize = 0;
    while i < sets.len()
        invariant
            i <= sets.len(),
            sets.len() <= 8,
            count <= 6 * i,
            count == count_over(sets@, descriptor_type, i as nat),
        decreases sets.len() - i,
    {
        let slots = sets[i].slots();
        count += count_slots(&slots, descriptor_type);
        i += 1;
    }
    count
}

fn size_pool(sets: &Vec<SetId>) -> (r: PoolInfo)
    requires
        sets.len() <= 8,
    ensures
        r == pool_holding(sets@),
{
    PoolInfo {
        max_sets: sets.len() as u32,
        uniform_buffers: count_sets(sets, DESCRIPTOR_UNIFORM_BUFFER),
        combined_image_samplers: count_sets(sets, DESCRIPTOR_COMBINED_IMAGE_SAMPLER),
        storage_images: count_sets(sets, DESCRIPTOR_STORAGE_IMAGE),
    }
}

/// Sizes the pool that is released with the run: it holds the sets of the
/// passes and nothing more.
pub fn transient_pool() -> (r: PoolInfo)
    ensures
        r == pool_holding(spec_transient_sets()),
{
    size_pool(&transient_sets())
}

/// Sizes the pool that outlives the run: it holds the renderer's set and
/// nothing more.
pub fn persistent_pool() -> (r: PoolInfo)
    ensures
        r == pool_holding(spec_persistent_sets()),
{
    size_pool(&persistent_sets())
}

impl PoolInfo {
    /// The sizes of the pool: one entry per descriptor type that the pool
    /// has room for, uniform buffers first, then sampled images, then
    /// storage images.
    pub open spec fn spec_sizes(self) -> Seq<PoolSize> {
        let a = if self.uniform_buffers > 0 {
            seq![
                PoolSize {
                    descriptor_type: DESCRIPTOR_UNIFORM_BUFFER,
                    descriptor_count: self.uniform_buffers,
                },
            ]
        } else {
            seq![]
        };
        let b = if self.combined_image_samplers > 0 {
            seq![
                PoolSize {
                    descriptor_type: DESCRIPTOR_COMBINED_IMAGE_SAMPLER,
                    descriptor_count: self.combined_image_samplers,
                },
            ]
        } else {
            seq![]
        };
        let c = if self.storage_images > 0 {
            seq![
                PoolSize {
                    descriptor_type: DESCRIPTOR_STORAGE_IMAGE,
                    descriptor_count: self.storage_images,
                },
            ]
        } else {
            seq![]
        };
        a + b + c
    }

    /// Lists the sizes of the pool.
    pub fn sizes(&self) -> (r: Vec<PoolSize>)
        ensures
            r@ == self.spec_sizes(),
    {
        let mut v: Vec<PoolSize> = Vec::new();
        if self.uniform_buffers > 0 {
            v.push(
                PoolSize {
                    descriptor_type: DESCRIPTOR_UNIFORM_BUFFER,
                    descriptor_count: self.uniform_buffers,
                },
            );
        }
        if self.combined_image_samplers > 0 {
            v.push(
                PoolSize {
                    descriptor_type: DESCRIPTOR_COMBINED_IMAGE_SAMPLER,
                    descriptor_count: self.combined_image_samplers,
                },
            );
        }
        if self.storage_images > 0 {
            v.push(
                PoolSize {
                    descriptor_type: DESCRIPTOR_STORAGE_IMAGE,
                    descriptor_count: self.storage_images,
                },
            );
        }
        assert(v@ =~= self.spec_sizes());
        v
    }
}

/// The pool that is released with the run has room for seven sets, one
/// uniform buffer, twelve sampled images and ten storage images; the pool
/// that outlives it for one set, one uniform buffer and two sampled images.
pub proof fn lemma_pool_sizes()
    ensures
        pool_holding(spec_transient_sets()) == (PoolInfo {
            max_sets: 7,
            uniform_buffers: 1,
            combined_image_samplers: 12,
            storage_images: 10,
        }),
        pool_holding(spec_persistent_sets()) == (PoolInfo {
            max_sets: 1,
            uniform_buffers: 1,
            combined_image_samplers: 2,
            storage_images: 0,
        }),
{
    reveal_with_fuel(count_in, 7);
    reveal_with_fuel(count_over, 8);
}

/// What fills binding `binding` of `set`, which holds `slot`: the whole
/// parameter buffer, or the image in the layout it is sampled or stored in.
pub open spec fn write_for(set: SetId, binding: int, slot: Slot) -> DescriptorWrite {
    DescriptorWrite {
        dst_set: set,
        dst_binding: binding as u32,
        descriptor_type: slot.descriptor_type,
        target: match slot.image {
            None => Target::Buffer { offset: 0, range: WHOLE_SIZE },
            Some(image) => Target::Image {
                image,
                image_layout: if slot.descriptor_type == DESCRIPTOR_STORAGE_IMAGE {
                    LAYOUT_GENERAL
                } else {
                    LAYOUT_SHADER_READ_ONLY_OPTIMAL
                },
            },
        },
    }
}

impl SetId {
    /// What fills the set: one write per binding, in the order of the
    /// bindings.
    pub open spec fn spec_writes(self) -> Seq<DescriptorWrite> {
        Seq::new(self.spec_slots().len(), |i: int| write_for(self, i, self.spec_slots()[i]))
    }

    /// Lists what fills the set.
    pub fn writes(self) -> (r: Vec<DescriptorWrite>)
        ensures
            r@ == self.spec_writes(),
    {
        let mut v: Vec<DescriptorWrite> = Vec::new();
        self.push_writes(&mut v);
        assert(v@ =~= self.spec_writes());
        v
    }

    fn push_writes(self, v: &mut Vec<DescriptorWrite>)
        ensures
            final(v)@ == old(v)@ + self.spec_writes(),
    {
        let slots = self.slots();
        let mut i: usize = 0;
        while i < slots.len()
            invariant
                i <= slots.len(),
                slots@ == self.spec_slots(),
                slots.len() <= 6,
                v@.len() == old(v)@.len() + i,
                forall|j: int| 0 <= j < old(v)@.len() ==> v@[j] == old(v)@[j],
                forall|j: int| 0 <= j < i ==> v@[old(v)@.len() + j] == self.spec_writes()[j],
            decreases slots.len() - i,
        {
            let slot = slots[i];
            let target = match slot.image {
                None => Target::Buffer { offset: 0, range: WHOLE_SIZE },
                Some(image) => Target::Image {
                    image,
                    image_layout: if slot.descriptor_type == DESCRIPTOR_STORAGE_IMAGE {
                        LAYOUT_GENERAL
                    } else {
                        LAYOUT_SHADER_READ_ONLY_OPTIMAL
                    },
                },
            };
            v.push(
                DescriptorWrite {
                    dst_set: self,
                    dst_binding: i as u32,
                    descriptor_type: slot.descriptor_type,
                    target,
                },
            );
            i += 1;
        }
        assert(v@ =~= old(v)@ + self.spec_writes());
    }
}

/// The writes of a set fill its layout: there is one write per binding,
/// for that binding and of the descriptor type that the layout declares, and
/// what it puts there is the parameter buffer exactly where the layout
/// declares a uniform buffer.
pub proof fn lemma_writes_fill_layout(set: SetId)
    ensures
        set.spec_writes().len() == SetLayoutId::Run(set).spec_bindings().len(),
        forall|i: int|
            0 <= i < set.spec_writes().len() ==> {
                let write = #[trigger] set.spec_writes()[i];
                let binding = SetLayoutId::Run(set).spec_bindings()[i];
                &&& write.dst_set == set
                &&& write.dst_binding == binding.binding
                &&& write.dst_binding == i
                &&& write.descriptor_type == binding.descriptor_type
                &&& binding.descriptor_count == 1
                &&& write.target is Buffer <==> write.descriptor_type == DESCRIPTOR_UNIFORM_BUFFER
            },
{
    assert(set.spec_slots().len() <= 6);
    assert forall|i: int| 0 <= i < set.spec_slots().len() implies ((
    #[trigger] set.spec_slots()[i]).image.is_none() <==> set.spec_slots()[i].descriptor_type
        == DESCRIPTOR_UNIFORM_BUFFER) by {}
}

/// All that the sets of a run are filled with, set by set.
pub open spec fn spec_descriptor_writes() -> Seq<DescriptorWrite> {
    SetId::Params.spec_writes() + SetId::Pass(PassKind::Transmittance).spec_writes() + SetId::Pass(
        PassKind::DirectIrradiance,
    ).spec_writes() + SetId::Pass(PassKind::SingleScattering).spec_writes() + SetId::Pass(
        PassKind::ScatteringDensity,
    ).spec_writes() + SetId::Pass(PassKind::IndirectIrradiance).spec_writes() + SetId::Pass(
        PassKind::MultipleScattering,
    ).spec_writes() + SetId::Render.spec_writes()
}

/// Lists all that the sets of a run are filled with.
pub fn descriptor_writes() -> (r: Vec<DescriptorWrite>)
    ensures
        r@ == spec_descriptor_writes(),
{
    let mut v: Vec<DescriptorWrite> = Vec::new();
    SetId::Params.push_writes(&mut v);
    SetId::Pass(PassKind::Transmittance).push_writes(&mut v);
    SetId::Pass(PassKind::DirectIrradiance).push_writes(&mut v);
    SetId::Pass(PassKind::SingleScattering).push_writes(&mut v);
    SetId::Pass(PassKind::ScatteringDensity).push_writes(&mut v);
    SetId::Pass(PassKind::IndirectIrradiance).push_writes(&mut v);
    SetId::Pass(PassKind::MultipleScattering).push_writes(&mut v);
    SetId::Render.push_writes(&mut v);
    assert(v@ =~= spec_descriptor_writes());
    v
}

} // verus!
