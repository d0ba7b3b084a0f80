//! The fixed catalog of compute passes: which images each pass samples and
//! which it stores to, and the descriptor set layouts, pipeline layouts and
//! pipelines that follow from that.

use crate::raw::{
    ADDRESS_MODE_CLAMP_TO_EDGE, DESCRIPTOR_COMBINED_IMAGE_SAMPLER, DESCRIPTOR_INPUT_ATTACHMENT,
    DESCRIPTOR_STORAGE_IMAGE, DESCRIPTOR_UNIFORM_BUFFER, FILTER_LINEAR, MIPMAP_MODE_NEAREST,
    SHADER_STAGE_COMPUTE, SHADER_STAGE_FRAGMENT,
};
use vstd::prelude::*;

verus! {

/// The compute passes of a precompute run.
#[derive(Clone, Copy, Debug, PartialEq, Eq, Structural)]
pub enum PassKind {
    Transmittance,
    DirectIrradiance,
    IndirectIrradiance,
    SingleScattering,
    ScatteringDensity,
    MultipleScattering,
}

/// The images of a precompute run.
///
/// The first three are the look-up tables that outlive the run; the other
/// five hold one order's contribution and are released with the run.
#[derive(Clone, Copy, Debug, PartialEq, Eq, Structural)]
pub enum ImageId {
    Transmittance,
    Scattering,
    Irradiance,
    DeltaIrradiance,
    DeltaRayleigh,
    DeltaMie,
    DeltaMultipleScattering,
    ScatteringDensity,
}

/// The descriptor sets of a precompute run.
#[derive(Clone, Copy, Debug, PartialEq, Eq, Structural)]
pub enum SetId {
    /// The packed parameters, read by every pass.
    Params,
    /// The images of one pass.
    Pass(PassKind),
    /// The parameters and tables as the renderer reads them.
    Render,
}

/// The descriptor set layouts of the catalog.
#[derive(Clone, Copy, Debug, PartialEq, Eq, Structural)]
pub enum SetLayoutId {
    /// The layout of a set of a run.
    Run(SetId),
    /// The renderer's per-frame set, holding the depth input attachment.
    Frame,
}

/// One descriptor of a set: what is bound, and how the shader reaches it.
#[derive(Clone, Copy, Debug, PartialEq, Eq, Structural)]
pub struct Slot {
    /// The descriptor type, as a raw Vulkan value.
    pub descriptor_type: i32,
    /// The image bound, or `None` for the parameter buffer.
    pub image: Option<ImageId>,
}

/// One binding of a descriptor set layout.
#[derive(Clone, Copy, Debug, PartialEq, Eq, Structural)]
pub struct Binding {
    pub binding: u32,
    pub descriptor_type: i32,
    pub descriptor_count: u32,
    pub stage_flags: u32,
    /// Whether the catalog's sampler is baked into the binding.
    pub immutable_sampler: bool,
}

/// A push constant range of a pipeline layout.
#[derive(Clone, Copy, Debug, PartialEq, Eq, Structural)]
pub struct PushConstantRange {
    pub stage_flags: u32,
    pub offset: u32,
    pub size: u32,
}

/// What a compute pipeline layout is made from.
#[derive(Clone, Copy, Debug, PartialEq, Eq, Structural)]
pub struct PipelineLayoutInfo {
    /// The layout of set 0.
    pub first: SetLayoutId,
    /// The layout of set 1.
    pub second: SetLayoutId,
    pub push_constants: Option<PushConstantRange>,
}

/// The sampler that every sampled binding uses.
#[derive(Clone, Copy, Debug, PartialEq, Eq, Structural)]
pub struct SamplerInfo {
    pub min_filter: i32,
    pub mag_filter: i32,
    pub mipmap_mode: i32,
    pub address_mode_u: i32,
    pub address_mode_v: i32,
    pub address_mode_w: i32,
}

/// A sampled image.
pub open spec fn sampled(image: ImageId) -> Slot {
    Slot { descriptor_type: DESCRIPTOR_COMBINED_IMAGE_SAMPLER, image: Some(image) }
}

/// A storage image.
pub open spec fn storage(image: ImageId) -> Slot {
    Slot { descriptor_type: DESCRIPTOR_STORAGE_IMAGE, image: Some(image) }
}

/// The parameter buffer.
pub open spec fn uniform() -> Slot {
    Slot { descriptor_type: DESCRIPTOR_UNIFORM_BUFFER, image: None }
}

impl PassKind {
    /// What the pass's own descriptor set holds, binding by binding.
    pub open spec fn slots(self) -> Seq<Slot> {
        match self {
            PassKind::Transmittance => seq![storage(ImageId::Transmittance)],
            PassKind::DirectIrradiance => seq![
                sampled(ImageId::Transmittance),
                storage(ImageId::DeltaIrradiance),
            ],
            PassKind::IndirectIrradiance => seq![
                sampled(ImageId::DeltaRayleigh),
                sampled(ImageId::DeltaMie),
                sampled(ImageId::DeltaMultipleScattering),
                storage(ImageId::DeltaIrradiance),
                storage(ImageId::Irradiance),
            ],
            PassKind::SingleScattering => seq![
                sampled(ImageId::Transmittance),
                storage(ImageId::DeltaRayleigh),
                storage(ImageId::DeltaMie),
                storage(ImageId::Scattering),
            ],
            PassKind::ScatteringDensity => seq![
                sampled(ImageId::Transmittance),
                sampled(ImageId::DeltaRayleigh),
                sampled(ImageId::DeltaMie),
                sampled(ImageId::DeltaMultipleScattering),
                sampled(ImageId::DeltaIrradiance),
                storage(ImageId::ScatteringDensity),
            ],
            PassKind::MultipleScattering => seq![
                sampled(ImageId::Transmittance),
                sampled(ImageId::ScatteringDensity),
                storage(ImageId::DeltaMultipleScattering),
                storage(ImageId::Scattering),
            ],
        }
    }

    /// Whether the pass samples `image`.
    pub open spec fn samples(self, image: ImageId) -> bool {
        self.slots().contains(sampled(image))
    }

    /// Whether the pass stores to `image`.
    pub open spec fn stores(self, image: ImageId) -> bool {
        self.slots().contains(storage(image))
    }

    /// Whether the pass's pipeline layout declares a push constant range.
    pub open spec fn has_push_constants(self) -> bool {
        self == PassKind::IndirectIrradiance || self == PassKind::ScatteringDensity || self
            == PassKind::MultipleScattering
    }

    /// Tests `has_push_constants`.
    pub fn declares_push_constants(self) -> (r: bool)
        ensures
            r == self.has_push_constants(),
    {
        match self {
            PassKind::IndirectIrradiance
            | PassKind::ScatteringDensity
            | PassKind::MultipleScattering => true,
            _ => false,
        }
    }

    /// The pass's pipeline layout: the parameters at set 0, the pass's images
    /// at set 1, and for the passes of the higher orders one 32-bit constant.
    pub open spec fn spec_pipeline_layout(self) -> PipelineLayoutInfo {
        PipelineLayoutInfo {
            first: SetLayoutId::Run(SetId::Params),
            second: SetLayoutId::Run(SetId::Pass(self)),
            push_constants: if self.has_push_constants() {
                Some(PushConstantRange { stage_flags: SHADER_STAGE_COMPUTE, offset: 0, size: 4 })
            } else {
                None
            },
        }
    }

    #[verifier::when_used_as_spec(spec_pipeline_layout)]
    pub fn pipeline_layout(self) -> (r: PipelineLayoutInfo)
        ensures
            r == self.spec_pipeline_layout(),
    {
        let push_constants = if self.declares_push_constants() {
            Some(PushConstantRange { stage_flags: SHADER_STAGE_COMPUTE, offset: 0, size: 4 })
        } else {
            None
        };
        PipelineLayoutInfo {
            first: SetLayoutId::Run(SetId::Params),
            second: SetLayoutId::Run(SetId::Pass(self)),
            push_constants,
        }
    }
}

/// Of all passes only the indirect irradiance pass stores to the irradiance
/// table, and no pass samples it.
pub proof fn lemma_irradiance_table(pass: PassKind)
    ensures
        pass.stores(ImageId::Irradiance) <==> pass == PassKind::IndirectIrradiance,
        !pass.samples(ImageId::Irradiance),
{
    let slots = pass.slots();
    assert forall|i: int| 0 <= i < slots.len() implies slots[i] != sampled(ImageId::Irradiance) by {}
    if pass == PassKind::IndirectIrradiance {
        assert(slots[4] == storage(ImageId::Irradiance));
    } else {
        assert forall|i: int| 0 <= i < slots.len() implies slots[i] != storage(
            ImageId::Irradiance,
        ) by {}
    }
}

/// Of all passes only the single scattering pass stores to the two images
/// that hold single scattering by air and by aerosols.
pub proof fn lemma_single_scattering_images(pass: PassKind)
    ensures
        pass.stores(ImageId::DeltaRayleigh) <==> pass == PassKind::SingleScattering,
        pass.stores(ImageId::DeltaMie) <==> pass == PassKind::SingleScattering,
{
    let slots = pass.slots();
    if pass == PassKind::SingleScattering {
        assert(slots[1] == storage(ImageId::DeltaRayleigh));
        assert(slots[2] == storage(ImageId::DeltaMie));
    } else {
        assert forall|i: int| 0 <= i < slots.len() implies slots[i] != storage(
            ImageId::DeltaRayleigh,
        ) && slots[i] != storage(ImageId::DeltaMie) by {}
    }
}

impl SetId {
    /// What the set holds, binding by binding.
    pub open spec fn spec_slots(self) -> Seq<Slot> {
        match self {
            SetId::Params => seq![uniform()],
            SetId::Pass(pass) => pass.slots(),
            SetId::Render => seq![
                uniform(),
                sampled(ImageId::Transmittance),
                sampled(ImageId::Scattering),
            ],
        }
    }

    /// The shader stages that read the set.
    pub open spec fn spec_stage_flags(self) -> u32 {
        if self == SetId::Render {
            SHADER_STAGE_FRAGMENT
        } else {
            SHADER_STAGE_COMPUTE
        }
    }

    #[verifier::when_used_as_spec(spec_stage_flags)]
    pub fn stage_flags(self) -> (r: u32)
        ensures
            r == self.spec_stage_flags(),
    {
        match self {
            SetId::Render => SHADER_STAGE_FRAGMENT,
            _ => SHADER_STAGE_COMPUTE,
        }
    }

    /// Lists what the set holds, binding by binding.
    pub fn slots(self) -> (r: Vec<Slot>)
        ensures
            r@ == self.spec_slots(),
    {
        let mut v: Vec<Slot> = Vec::new();
        let s = DESCRIPTOR_COMBINED_IMAGE_SAMPLER;
        let w = DESCRIPTOR_STORAGE_IMAGE;
        match self {
            SetId::Params => {
                v.push(Slot { descriptor_type: DESCRIPTOR_UNIFORM_BUFFER, image: None });
            },
            SetId::Render => {
                v.push(Slot { descriptor_type: DESCRIPTOR_UNIFORM_BUFFER, image: None });
                v.push(Slot { descriptor_type: s, image: Some(ImageId::Transmittance) });
                v.push(Slot { descriptor_type: s, image: Some(ImageId::Scattering) });
            },
            SetId::Pass(PassKind::Transmittance) => {
                v.push(Slot { descriptor_type: w, image: Some(ImageId::Transmittance) });
            },
            SetId::Pass(PassKind::DirectIrradiance) => {
                v.push(Slot { descriptor_type: s, image: Some(ImageId::Transmittance) });
                v.push(Slot { descriptor_type: w, image: Some(ImageId::DeltaIrradiance) });
            },
            SetId::Pass(PassKind::IndirectIrradiance) => {
                v.push(Slot { descriptor_type: s, image: Some(ImageId::DeltaRayleigh) });
                v.push(Slot { descriptor_type: s, image: Some(ImageId::DeltaMie) });
                v.push(Slot { descriptor_type: s, image: Some(ImageId::DeltaMultipleScattering) });
                v.push(Slot { descriptor_type: w, image: Some(ImageId::DeltaIrradiance) });
                v.push(Slot { descriptor_type: w, image: Some(ImageId::Irradiance) });
            },
            SetId::Pass(PassKind::SingleScattering) => {
                v.push(Slot { descriptor_type: s, image: Some(ImageId::Transmittance) });
                v.push(Slot { descriptor_type: w, image: Some(ImageId::DeltaRayleigh) });
                v.push(Slot { descriptor_type: w, image: Some(ImageId::DeltaMie) });
                v.push(Slot { descriptor_type: w, image: Some(ImageId::Scattering) });
            },
            SetId::Pass(PassKind::ScatteringDensity) => {
                v.push(Slot { descriptor_type: s, image: Some(ImageId::Transmittance) });
                v.push(Slot { descriptor_type: s, image: Some(ImageId::DeltaRayleigh) });
                v.push(Slot { descriptor_type: s, image: Some(ImageId::DeltaMie) });
                v.push(Slot { descriptor_type: s, image: Some(ImageId::DeltaMultipleScattering) });
                v.push(Slot { descriptor_type: s, image: Some(ImageId::DeltaIrradiance) });
                v.push(Slot { descriptor_type: w, image: Some(ImageId::ScatteringDensity) });
            },
            SetId::Pass(PassKind::MultipleScattering) => {
                v.push(Slot { descriptor_type: s, image: Some(ImageId::Transmittance) });
                v.push(Slot { descriptor_type: s, image: Some(ImageId::ScatteringDensity) });
                v.push(Slot { descriptor_type: w, image: Some(ImageId::DeltaMultipleScattering) });
                v.push(Slot { descriptor_type: w, image: Some(ImageId::Scattering) });
            },
        }
        assert(v@ =~= self.spec_slots());
        v
    }
}

/// The layout binding that holds `slot` at index `index`, read by `stage_flags`.
pub open spec fn binding_for(index: int, slot: Slot, stage_flags: u32) -> Binding {
    Binding {
        binding: index as u32,
        descriptor_type: slot.descriptor_type,
        descriptor_count: 1,
        stage_flags,
        immutable_sampler: slot.descriptor_type == DESCRIPTOR_COMBINED_IMAGE_SAMPLER,
    }
}

impl SetLayoutId {
    /// The bindings of the layout: one per descriptor of the set, numbered
    /// from zero, with the sampler baked in wherever an image is sampled.
    pub open spec fn spec_bindings(self) -> Seq<Binding> {
        match self {
            SetLayoutId::Run(set) => Seq::new(
                set.spec_slots().len(),
                |i: int| binding_for(i, set.spec_slots()[i], set.spec_stage_flags()),
            ),
            SetLayoutId::Frame => seq![
                Binding {
                    binding: 0,
                    descriptor_type: DESCRIPTOR_INPUT_ATTACHMENT,
                    descriptor_count: 1,
                    stage_flags: SHADER_STAGE_FRAGMENT,
                    immutable_sampler: false,
                },
            ],
        }
    }

    /// Lists the bindings of the layout.
    pub fn bindings(self) -> (r: Vec<Binding>)
        ensures
            r@ == self.spec_bindings(),
    {
        let mut v: Vec<Binding> = Vec::new();
        match self {
            SetLayoutId::Frame => {
                v.push(
                    Binding {
                        binding: 0,
                        descriptor_type: DESCRIPTOR_INPUT_ATTACHMENT,
                        descriptor_count: 1,
                        stage_flags: SHADER_STAGE_FRAGMENT,
                        immutable_sampler: false,
                    },
                );
                assert(v@ =~= self.spec_bindings());
            },
            SetLayoutId::Run(set) => {
                let slots = set.slots();
                let stage_flags = set.stage_flags();
                let mut i: usize = 0;
                while i < slots.len()
                    invariant
                        i <= slots.len(),
                        slots@ == set.spec_slots(),
                        slots.len() <= 6,
                        stage_flags == set.spec_stage_flags(),
                        v.len() == i,
                        forall|j: int|
                            0 <= j < i ==> v[j] == binding_for(j, slots[j], stage_flags),
                    decreases slots.len() - i,
                {
                    let slot = slots[i];
                    v.push(
                        Binding {
                            binding: i as u32,
                            descriptor_type: slot.descriptor_type,
                            descriptor_count: 1,
                            stage_flags,
                            immutable_sampler: slot.descriptor_type
                                == DESCRIPTOR_COMBINED_IMAGE_SAMPLER,
                        },
                    );
                    i += 1;
                }
                assert(v@ =~= self.spec_bindings());
            },
        }
        v
    }
}

/// The sampler: linear within a level, nearest between levels, clamped at
/// every edge.
pub open spec fn spec_sampler_info() -> SamplerInfo {
    SamplerInfo {
        min_filter: FILTER_LINEAR,
        mag_filter: FILTER_LINEAR,
        mipmap_mode: MIPMAP_MODE_NEAREST,
        address_mode_u: ADDRESS_MODE_CLAMP_TO_EDGE,
        address_mode_v: ADDRESS_MODE_CLAMP_TO_EDGE,
        address_mode_w: ADDRESS_MODE_CLAMP_TO_EDGE,
    }
}

#[verifier::when_used_as_spec(spec_sampler_info)]
pub fn sampler_info() -> (r: SamplerInfo)
    ensures
        r == spec_sampler_info(),
{
    SamplerInfo {
        min_filter: FILTER_LINEAR,
        mag_filter: FILTER_LINEAR,
        mipmap_mode: MIPMAP_MODE_NEAREST,
        address_mode_u: ADDRESS_MODE_CLAMP_TO_EDGE,
        address_mode_v: ADDRESS_MODE_CLAMP_TO_EDGE,
        address_mode_w: ADDRESS_MODE_CLAMP_TO_EDGE,
    }
}

/// The order in which the compute pipelines are created, and so the order
/// in which the device hands them back.
pub open spec fn spec_pipeline_order() -> Seq<PassKind> {
    seq![
        PassKind::Transmittance,
        PassKind::DirectIrradiance,
        PassKind::IndirectIrradiance,
        PassKind::SingleScattering,
        PassKind::ScatteringDensity,
        PassKind::MultipleScattering,
    ]
}

/// Lists the passes in the order in which their pipelines are created.
pub fn pipeline_order() -> (r: Vec<PassKind>)
    ensures
        r@ == spec_pipeline_order(),
{
    let mut v: Vec<PassKind> = Vec::new();
    v.push(PassKind::Transmittance);
    v.push(PassKind::DirectIrradiance);
    v.push(PassKind::IndirectIrradiance);
    v.push(PassKind::SingleScattering);
    v.push(PassKind::ScatteringDensity);
    v.push(PassKind::MultipleScattering);
    assert(v@ =~= spec_pipeline_order());
    v
}

} // verus!
