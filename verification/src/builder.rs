//! The catalog as built on a device: the handles of its objects.

use crate::catalog::{spec_pipeline_order, PassKind, SetId, SetLayoutId};
use crate::memory::{allocate, MemoryAllocateInfo, MemoryProperties, MemoryRequirements};
use crate::raw::MEMORY_PROPERTY_DEVICE_LOCAL;
use vstd::prelude::*;

verus! {

/// The kinds of device objects that the crate names.
#[derive(Clone, Copy, Debug, PartialEq, Eq, Structural)]
pub enum ObjectKind {
    Sampler,
    DescriptorSetLayout,
    Pipeline,
    PipelineLayout,
    ShaderModule,
    ImageView,
    Image,
    Memory,
    Buffer,
    DescriptorPool,
}

/// A device object: its kind and its raw handle.
#[derive(Clone, Copy, Debug, PartialEq, Eq, Structural)]
pub struct Object {
    pub kind: ObjectKind,
    pub handle: u64,
}

/// What one pass was built from, before its pipeline exists.
#[derive(Clone, Copy, Debug, PartialEq, Eq, Structural)]
pub struct Stage {
    pub shader: u64,
    pub layout: u64,
    pub ds_layout: u64,
}

/// The objects of one pass.
#[derive(Clone, Copy, Debug, PartialEq, Eq, Structural)]
pub struct Pass {
    pub shader: u64,
    pub pipeline: u64,
    pub layout: u64,
    pub ds_layout: u64,
}

/// Constructs `Atmosphere`s: the objects that every run shares.
#[derive(Debug)]
pub struct Builder {
    memory_props: MemoryProperties,
    gfx_queue_family: u32,
    compute_queue_family: Option<u32>,
    sampler: u64,
    params_ds_layout: u64,
    render_ds_layout: u64,
    frame_ds_layout: u64,
    transmittance: Pass,
    single_scattering: Pass,
    direct_irradiance: Pass,
    indirect_irradiance: Pass,
    scattering_density: Pass,
    multiple_scattering: Pass,
}

/// The objects of a pass, from what it was built from and its pipeline.
pub open spec fn pass_of(stage: Stage, pipeline: u64) -> Pass {
    Pass { shader: stage.shader, pipeline, layout: stage.layout, ds_layout: stage.ds_layout }
}

/// What is destroyed with a pass: pipeline, pipeline layout, set layout,
/// shader module.
pub open spec fn pass_objects(pass: Pass) -> Seq<Object> {
    seq![
        Object { kind: ObjectKind::Pipeline, handle: pass.pipeline },
        Object { kind: ObjectKind::PipelineLayout, handle: pass.layout },
        Object { kind: ObjectKind::DescriptorSetLayout, handle: pass.ds_layout },
        Object { kind: ObjectKind::ShaderModule, handle: pass.shader },
    ]
}

fn push_pass(v: &mut Vec<Object>, pass: Pass)
    ensures
        final(v)@ == old(v)@ + pass_objects(pass),
{
    v.push(Object { kind: ObjectKind::Pipeline, handle: pass.pipeline });
    v.push(Object { kind: ObjectKind::PipelineLayout, handle: pass.layout });
    v.push(Object { kind: ObjectKind::DescriptorSetLayout, handle: pass.ds_layout });
    v.push(Object { kind: ObjectKind::ShaderModule, handle: pass.shader });
    assert(v@ =~= old(v)@ + pass_objects(pass));
}

impl Builder {
    /// The device reports no more memory types than the API allows.
    #[verifier::type_invariant]
    spec fn inv(&self) -> bool {
        self.memory_props.wf()
    }

    /// Whether `stages` and `pipelines` hold one entry per pass.
    pub open spec fn complete(stages: Seq<Stage>, pipelines: Seq<u64>) -> bool {
        stages.len() == spec_pipeline_order().len() && pipelines.len()
            == spec_pipeline_order().len()
    }

    /// Tests `complete`.
    pub fn is_complete(stages: &Vec<Stage>, pipelines: &Vec<u64>) -> (r: bool)
        ensures
            r == Self::complete(stages@, pipelines@),
    {
        proof {
            assert(spec_pipeline_order().len() == 6);
        }
        stages.len() == 6 && pipelines.len() == 6
    }

    /// Gathers the objects of a catalog. `stages` and `pipelines` are in the
    /// order in which the pipelines are created: entry `i` of each belongs to
    /// pass `i` of that order.
    pub fn new(
        memory_props: MemoryProperties,
        gfx_queue_family: u32,
        compute_queue_family: Option<u32>,
        sampler: u64,
        params_ds_layout: u64,
        render_ds_layout: u64,
        frame_ds_layout: u64,
        stages: &Vec<Stage>,
        pipelines: &Vec<u64>,
    ) -> (r: Self)
        requires
            memory_props.wf(),
            Self::complete(stages@, pipelines@),
        ensures
            r.spec_memory_props() == memory_props,
            r.spec_gfx_queue_family() == gfx_queue_family,
            r.spec_compute_queue_family() == compute_queue_family,
            r.spec_sampler() == sampler,
            r.spec_set_layout(SetLayoutId::Run(SetId::Params)) == params_ds_layout,
            r.spec_set_layout(SetLayoutId::Run(SetId::Render)) == render_ds_layout,
            r.spec_set_layout(SetLayoutId::Frame) == frame_ds_layout,
            forall|i: int|
                0 <= i < spec_pipeline_order().len() ==> r.spec_pass(
                    #[trigger] spec_pipeline_order()[i],
                ) == pass_of(stages[i], pipelines[i]),
    {
        let r = Self {
            memory_props,
            gfx_queue_family,
            compute_queue_family,
            sampler,
            params_ds_layout,
            render_ds_layout,
            frame_ds_layout,
            transmittance: Pass {
                shader: stages[0].shader,
                pipeline: pipelines[0],
                layout: stages[0].layout,
                ds_layout: stages[0].ds_layout,
            },
            direct_irradiance: Pass {
                shader: stages[1].shader,
                pipeline: pipelines[1],
                layout: stages[1].layout,
                ds_layout: stages[1].ds_layout,
            },
            indirect_irradiance: Pass {
                shader: stages[2].shader,
                pipeline: pipelines[2],
                layout: stages[2].layout,
                ds_layout: stages[2].ds_layout,
            },
            single_scattering: Pass {
                shader: stages[3].shader,
                pipeline: pipelines[3],
                layout: stages[3].layout,
                ds_layout: stages[3].ds_layout,
            },
            scattering_density: Pass {
                shader: stages[4].shader,
                pipeline: pipelines[4],
                layout: stages[4].layout,
                ds_layout: stages[4].ds_layout,
            },
            multiple_scattering: Pass {
                shader: stages[5].shader,
                pipeline: pipelines[5],
                layout: stages[5].layout,
                ds_layout: stages[5].ds_layout,
            },
        };
        assert forall|i: int| 0 <= i < spec_pipeline_order().len() implies r.spec_pass(
            #[trigger] spec_pipeline_order()[i],
        ) == pass_of(stages[i], pipelines[i]) by {
            assert(i == 0 || i == 1 || i == 2 || i == 3 || i == 4 || i == 5);
        }
        r
    }

    pub closed spec fn spec_memory_props(&self) -> MemoryProperties {
        self.memory_props
    }

    pub closed spec fn spec_gfx_queue_family(&self) -> u32 {
        self.gfx_queue_family
    }

    pub closed spec fn spec_compute_queue_family(&self) -> Option<u32> {
        self.compute_queue_family
    }

    pub closed spec fn spec_sampler(&self) -> u64 {
        self.sampler
    }

    /// The objects of a pass.
    pub closed spec fn spec_pass(&self, kind: PassKind) -> Pass {
        match kind {
            PassKind::Transmittance => self.transmittance,
            PassKind::DirectIrradiance => self.direct_irradiance,
            PassKind::IndirectIrradiance => self.indirect_irradiance,
            PassKind::SingleScattering => self.single_scattering,
            PassKind::ScatteringDensity => self.scattering_density,
            PassKind::MultipleScattering => self.multiple_scattering,
        }
    }

    pub closed spec fn spec_params_ds_layout(&self) -> u64 {
        self.params_ds_layout
    }

    pub closed spec fn spec_render_ds_layout(&self) -> u64 {
        self.render_ds_layout
    }

    pub closed spec fn spec_frame_ds_layout(&self) -> u64 {
        self.frame_ds_layout
    }

    /// The handle of a descriptor set layout. The layout of the set of a
    /// pass is the one that the pass was built from.
    pub open spec fn spec_set_layout(&self, id: SetLayoutId) -> u64 {
        match id {
            SetLayoutId::Run(SetId::Params) => self.spec_params_ds_layout(),
            SetLayoutId::Run(SetId::Render) => self.spec_render_ds_layout(),
            SetLayoutId::Run(SetId::Pass(kind)) => self.spec_pass(kind).ds_layout,
            SetLayoutId::Frame => self.spec_frame_ds_layout(),
        }
    }

    #[verifier::when_used_as_spec(spec_memory_props)]
    pub fn memory_props(&self) -> (r: MemoryProperties)
        ensures
            r == self.spec_memory_props(),
    {
        self.memory_props
    }

    #[verifier::when_used_as_spec(spec_gfx_queue_family)]
    pub fn gfx_queue_family(&self) -> (r: u32)
        ensures
            r == self.spec_gfx_queue_family(),
    {
        self.gfx_queue_family
    }

    #[verifier::when_used_as_spec(spec_compute_queue_family)]
    pub fn compute_queue_family(&self) -> (r: Option<u32>)
        ensures
            r == self.spec_compute_queue_family(),
    {
        self.compute_queue_family
    }

    #[verifier::when_used_as_spec(spec_sampler)]
    pub fn sampler(&self) -> (r: u64)
        ensures
            r == self.spec_sampler(),
    {
        self.sampler
    }

    #[verifier::when_used_as_spec(spec_pass)]
    pub fn pass(&self, kind: PassKind) -> (r: Pass)
        ensures
            r == self.spec_pass(kind),
    {
        match kind {
            PassKind::Transmittance => self.transmittance,
            PassKind::DirectIrradiance => self.direct_irradiance,
            PassKind::IndirectIrradiance => self.indirect_irradiance,
            PassKind::SingleScattering => self.single_scattering,
            PassKind::ScatteringDensity => self.scattering_density,
            PassKind::MultipleScattering => self.multiple_scattering,
        }
    }

    #[verifier::when_used_as_spec(spec_set_layout)]
    pub fn set_layout(&self, id: SetLayoutId) -> (r: u64)
        ensures
            r == self.spec_set_layout(id),
    {
        match id {
            SetLayoutId::Run(SetId::Params) => self.params_ds_layout,
            SetLayoutId::Run(SetId::Render) => self.render_ds_layout,
            SetLayoutId::Run(SetId::Pass(kind)) => self.pass(kind).ds_layout,
            SetLayoutId::Frame => self.frame_ds_layout,
        }
    }

    /// The layout of the set that the renderer reads the tables through.
    pub fn render_ds_layout(&self) -> (r: u64)
        ensures
            r == self.spec_set_layout(SetLayoutId::Run(SetId::Render)),
    {
        self.render_ds_layout
    }

    /// The layout of the renderer's per-frame set.
    pub fn frame_ds_layout(&self) -> (r: u64)
        ensures
            r == self.spec_set_layout(SetLayoutId::Frame),
    {
        self.frame_ds_layout
    }

    /// What is destroyed with the catalog, in the order in which it is
    /// destroyed: the sampler, the three set layouts that belong to no pass,
    /// then pass by pass the pipeline, its layout, its set layout and its
    /// shader module.
    pub open spec fn spec_release(&self) -> Seq<Object> {
        seq![
            Object { kind: ObjectKind::Sampler, handle: self.spec_sampler() },
            Object {
                kind: ObjectKind::DescriptorSetLayout,
                handle: self.spec_set_layout(SetLayoutId::Run(SetId::Params)),
            },
            Object {
                kind: ObjectKind::DescriptorSetLayout,
                handle: self.spec_set_layout(SetLayoutId::Run(SetId::Render)),
            },
            Object {
                kind: ObjectKind::DescriptorSetLayout,
                handle: self.spec_set_layout(SetLayoutId::Frame),
            },
        ] + pass_objects(self.spec_pass(PassKind::Transmittance)) + pass_objects(
            self.spec_pass(PassKind::SingleScattering),
        ) + pass_objects(self.spec_pass(PassKind::DirectIrradiance)) + pass_objects(
            self.spec_pass(PassKind::IndirectIrradiance),
        ) + pass_objects(self.spec_pass(PassKind::ScatteringDensity)) + pass_objects(
            self.spec_pass(PassKind::MultipleScattering),
        )
    }

    /// Chooses the memory for a resource of a run: device-local memory of
    /// the first type that suits, or `None` where the device has none.
    pub fn choose_memory(&self, reqs: MemoryRequirements) -> (r: Option<MemoryAllocateInfo>)
        ensures
            self.spec_memory_props().wf(),
            match r {
                Some(info) => {
                    &&& info.allocation_size == reqs.size
                    &&& self.spec_memory_props().suits(
                        info.memory_type_index as int,
                        reqs.memory_type_bits,
                        MEMORY_PROPERTY_DEVICE_LOCAL,
                    )
                    &&& forall|j: int|
                        0 <= j < info.memory_type_index ==> !self.spec_memory_props().suits(
                            j,
                            reqs.memory_type_bits,
                            MEMORY_PROPERTY_DEVICE_LOCAL,
                        )
                },
                None => forall|j: int|
                    !self.spec_memory_props().suits(
                        j,
                        reqs.memory_type_bits,
                        MEMORY_PROPERTY_DEVICE_LOCAL,
                    ),
            },
    {
        proof {
            use_type_invariant(self);
        }
        allocate(&self.memory_props, reqs, MEMORY_PROPERTY_DEVICE_LOCAL)
    }

    /// Lists what is destroyed with the catalog.
    pub fn release(&self) -> (r: Vec<Object>)
        ensures
            r@ == self.spec_release(),
            r.len() == 28,
    {
        let mut v: Vec<Object> = Vec::new();
        v.push(Object { kind: ObjectKind::Sampler, handle: self.sampler });
        v.push(Object { kind: ObjectKind::DescriptorSetLayout, handle: self.params_ds_layout });
        v.push(Object { kind: ObjectKind::DescriptorSetLayout, handle: self.render_ds_layout });
        v.push(Object { kind: ObjectKind::DescriptorSetLayout, handle: self.frame_ds_layout });
        push_pass(&mut v, self.transmittance);
        push_pass(&mut v, self.single_scattering);
        push_pass(&mut v, self.direct_irradiance);
        push_pass(&mut v, self.indirect_irradiance);
        push_pass(&mut v, self.scattering_density);
        push_pass(&mut v, self.multiple_scattering);
        assert(v@ =~= self.spec_release());
        v
    }
}

} // verus!
