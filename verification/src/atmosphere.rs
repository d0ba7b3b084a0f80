//! A run from recording to release: the atmosphere that is still being
//! computed, and the atmosphere that is ready to be drawn.

use crate::builder::{Builder, Object, ObjectKind};
use crate::catalog::{ImageId, PassKind, SetId};
use crate::commands::{views, BufferBarrier, Command, CommandView, ImageBarrier};
use crate::hazards::completes;
use crate::params::{Extent2D, Extent3D, Parameters};
use crate::raw::{ACCESS_UNIFORM_READ, LAYOUT_GENERAL, LAYOUT_SHADER_READ_ONLY_OPTIMAL};
use crate::resources::{
    descriptor_writes, spec_descriptor_writes, spec_image_order, spec_transient_sets,
    DescriptorWrite,
};
use crate::schedule::{record, schedule};
use vstd::prelude::*;

verus! {

/// An image with its view and the memory that backs it.
#[derive(Clone, Copy, Debug, PartialEq, Eq, Structural)]
pub struct Image {
    pub handle: u64,
    pub view: u64,
    pub memory: u64,
}

/// Everything that a run owns.
#[derive(Clone, Copy, Debug, PartialEq, Eq, Structural)]
pub enum Resource {
    ImageView(ImageId),
    Image(ImageId),
    ImageMemory(ImageId),
    ParamsBuffer,
    ParamsMemory,
    /// The pool of the sets of the passes.
    TransientPool,
    /// The pool of the set that the renderer reads through.
    PersistentPool,
}

/// What a run created before recording, by handle.
#[derive(Clone, Debug, PartialEq, Eq)]
pub struct RunObjects {
    /// The images, in the order in which they are created.
    pub images: Vec<Image>,
    pub params: u64,
    pub params_mem: u64,
    /// The pool of the sets of the passes.
    pub descriptor_pool: u64,
    /// The sets of the passes, in the order in which they are allocated.
    pub sets: Vec<u64>,
    /// The pool of the set that the renderer reads through.
    pub persistent_pool: u64,
    /// The set that the renderer reads through.
    pub render_ds: u64,
}

/// An atmosphere that's ready for rendering.
///
/// As with any device object, its tables must not be released while a
/// rendering operation uses them. It is not copied: whoever holds it is the
/// one to release it.
#[derive(Debug, PartialEq, Eq)]
pub struct Atmosphere {
    descriptor_pool: u64,
    ds: u64,
    transmittance: Image,
    transmittance_extent: Extent2D,
    scattering: Image,
    scattering_extent: Extent3D,
    irradiance: Image,
    irradiance_extent: Extent2D,
    params: u64,
    params_mem: u64,
}

/// An atmosphere being prepared by the device.
///
/// It owns the tables and, until the commands of its run have completed, the
/// images that only the run uses. It remembers what its tables end in, so
/// that another queue family can take them over as they were handed over.
#[derive(Debug, PartialEq, Eq)]
pub struct PendingAtmosphere {
    descriptor_pool: u64,
    layout: i32,
    dst_access_mask: u32,
    dst_stage_mask: u32,
    inner: Atmosphere,
    delta_irradiance: Image,
    delta_rayleigh: Image,
    delta_mie: Image,
    scattering_density: Image,
    delta_multiple_scattering: Image,
}

/// What a run records: what its descriptor sets are filled with, and its
/// commands.
#[derive(Clone, Debug, PartialEq, Eq)]
pub struct Recording {
    pub writes: Vec<DescriptorWrite>,
    pub commands: Vec<Command>,
}

/// The position of an image in the order of creation.
pub open spec fn spec_image_index(image: ImageId) -> int {
    match image {
        ImageId::Transmittance => 0,
        ImageId::DeltaIrradiance => 1,
        ImageId::Irradiance => 2,
        ImageId::DeltaRayleigh => 3,
        ImageId::DeltaMie => 4,
        ImageId::Scattering => 5,
        ImageId::DeltaMultipleScattering => 6,
        ImageId::ScatteringDensity => 7,
    }
}

/// The position of a set of the passes in the order of allocation.
pub open spec fn spec_set_index(set: SetId) -> int {
    match set {
        SetId::Params => 0,
        SetId::Pass(PassKind::Transmittance) => 1,
        SetId::Pass(PassKind::DirectIrradiance) => 2,
        SetId::Pass(PassKind::IndirectIrradiance) => 3,
        SetId::Pass(PassKind::SingleScattering) => 4,
        SetId::Pass(PassKind::ScatteringDensity) => 5,
        SetId::Pass(PassKind::MultipleScattering) => 6,
        SetId::Render => 7,
    }
}

/// The positions are those of the orders of creation and allocation.
pub proof fn lemma_indices()
    ensures
        forall|image: ImageId|
            0 <= #[trigger] spec_image_index(image) < 8 && spec_image_order()[spec_image_index(
                image,
            )] == image,
        forall|set: SetId|
            set != SetId::Render ==> 0 <= #[trigger] spec_set_index(set) < 7
                && spec_transient_sets()[spec_set_index(set)] == set,
{
}

impl RunObjects {
    /// Whether there is one image per image of a run and one set per set of
    /// the passes.
    pub open spec fn complete(&self) -> bool {
        self.images.len() == spec_image_order().len() && self.sets.len()
            == spec_transient_sets().len()
    }

    /// Tests `complete`.
    pub fn is_complete(&self) -> (r: bool)
        ensures
            r == self.complete(),
    {
        proof {
            assert(spec_image_order().len() == 8);
            assert(spec_transient_sets().len() == 7);
        }
        self.images.len() == 8 && self.sets.len() == 7
    }

    /// The image created for `image`.
    pub open spec fn spec_image(&self, image: ImageId) -> Image {
        self.images[spec_image_index(image)]
    }

    /// The set allocated for `set`.
    pub open spec fn spec_set(&self, set: SetId) -> u64 {
        if set == SetId::Render {
            self.render_ds
        } else {
            self.sets[spec_set_index(set)]
        }
    }

    /// The object that was created for a resource of the run.
    pub open spec fn object(&self, resource: Resource) -> Object {
        match resource {
            Resource::ImageView(image) => Object {
                kind: ObjectKind::ImageView,
                handle: self.spec_image(image).view,
            },
            Resource::Image(image) => Object {
                kind: ObjectKind::Image,
                handle: self.spec_image(image).handle,
            },
            Resource::ImageMemory(image) => Object {
                kind: ObjectKind::Memory,
                handle: self.spec_image(image).memory,
            },
            Resource::ParamsBuffer => Object { kind: ObjectKind::Buffer, handle: self.params },
            Resource::ParamsMemory => Object { kind: ObjectKind::Memory, handle: self.params_mem },
            Resource::TransientPool => Object {
                kind: ObjectKind::DescriptorPool,
                handle: self.descriptor_pool,
            },
            Resource::PersistentPool => Object {
                kind: ObjectKind::DescriptorPool,
                handle: self.persistent_pool,
            },
        }
    }

    /// Whether no object of `self` is an object of `other`, and the set that
    /// the renderer reads through is not the same for both.
    pub open spec fn apart(&self, other: RunObjects) -> bool {
        &&& self.render_ds != other.render_ds
        &&& forall|mine: Resource, theirs: Resource|
            #[trigger] self.object(mine) != #[trigger] other.object(theirs)
    }

    #[verifier::when_used_as_spec(spec_image)]
    pub fn image(&self, image: ImageId) -> (r: Image)
        requires
            self.complete(),
        ensures
            r == self.spec_image(image),
    {
        let i: usize = match image {
            ImageId::Transmittance => 0,
            ImageId::DeltaIrradiance => 1,
            ImageId::Irradiance => 2,
            ImageId::DeltaRayleigh => 3,
            ImageId::DeltaMie => 4,
            ImageId::Scattering => 5,
            ImageId::DeltaMultipleScattering => 6,
            ImageId::ScatteringDensity => 7,
        };
        self.images[i]
    }

    #[verifier::when_used_as_spec(spec_set)]
    pub fn set(&self, set: SetId) -> (r: u64)
        requires
            self.complete(),
        ensures
            r == self.spec_set(set),
    {
        match set {
            SetId::Params => self.sets[0],
            SetId::Pass(PassKind::Transmittance) => self.sets[1],
            SetId::Pass(PassKind::DirectIrradiance) => self.sets[2],
            SetId::Pass(PassKind::IndirectIrradiance) => self.sets[3],
            SetId::Pass(PassKind::SingleScattering) => self.sets[4],
            SetId::Pass(PassKind::ScatteringDensity) => self.sets[5],
            SetId::Pass(PassKind::MultipleScattering) => self.sets[6],
            SetId::Render => self.render_ds,
        }
    }
}

/// The view, the image and the memory of an image, as resources.
pub open spec fn image_resources(image: ImageId) -> Seq<Resource> {
    seq![Resource::ImageView(image), Resource::Image(image), Resource::ImageMemory(image)]
}

/// What is released when the commands of a run have completed: the five
/// images that only the run uses, then the pool of the sets of the passes.
pub open spec fn transient_resources() -> Seq<Resource> {
    image_resources(ImageId::DeltaIrradiance) + image_resources(ImageId::DeltaRayleigh)
        + image_resources(ImageId::DeltaMie) + image_resources(ImageId::ScatteringDensity)
        + image_resources(ImageId::DeltaMultipleScattering) + seq![Resource::TransientPool]
}

/// What is released with the atmosphere: the three tables, the parameter
/// buffer and its memory, then the pool of the renderer's set.
pub open spec fn lasting_resources() -> Seq<Resource> {
    image_resources(ImageId::Transmittance) + image_resources(ImageId::Scattering)
        + image_resources(ImageId::Irradiance) + seq![
        Resource::ParamsBuffer,
        Resource::ParamsMemory,
        Resource::PersistentPool,
    ]
}

/// The view, the image and the memory of an image, as objects.
pub open spec fn image_objects(image: Image) -> Seq<Object> {
    seq![
        Object { kind: ObjectKind::ImageView, handle: image.view },
        Object { kind: ObjectKind::Image, handle: image.handle },
        Object { kind: ObjectKind::Memory, handle: image.memory },
    ]
}

fn push_image(v: &mut Vec<Object>, image: Image)
    ensures
        final(v)@ == old(v)@ + image_objects(image),
{
    v.push(Object { kind: ObjectKind::ImageView, handle: image.view });
    v.push(Object { kind: ObjectKind::Image, handle: image.handle });
    v.push(Object { kind: ObjectKind::Memory, handle: image.memory });
    assert(v@ =~= old(v)@ + image_objects(image));
}

impl Atmosphere {
    /// Records a run: says what the descriptor sets are filled with, lists
    /// the commands, and wraps what the run created into an atmosphere that
    /// is usable once the commands have completed.
    pub fn build(builder: &Builder, objects: &RunObjects, atmosphere_params: &Parameters) -> (r: (
        PendingAtmosphere,
        Recording,
    ))
        requires
            objects.complete(),
            atmosphere_params.valid(),
        ensures
            r.1.writes@ == spec_descriptor_writes(),
            views(r.1.commands@) == schedule(
                *atmosphere_params,
                builder.spec_gfx_queue_family(),
                builder.spec_compute_queue_family(),
            ),
            completes(views(r.1.commands@), *atmosphere_params),
            forall|image: ImageId|
                image.is_table() ==> #[trigger] r.0.spec_atmosphere().spec_table(image)
                    == objects.spec_image(image),
            forall|image: ImageId|
                !image.is_table() ==> #[trigger] r.0.spec_transient(image) == objects.spec_image(
                    image,
                ),
            r.0.spec_descriptor_pool() == objects.descriptor_pool,
            r.0.spec_atmosphere().spec_descriptor_pool() == objects.persistent_pool,
            r.0.spec_atmosphere().spec_descriptor_set() == objects.render_ds,
            r.0.spec_atmosphere().spec_params() == objects.params,
            r.0.spec_atmosphere().spec_params_mem() == objects.params_mem,
            r.0.spec_atmosphere().spec_transmittance_extent()
                == atmosphere_params.spec_transmittance_extent(),
            r.0.spec_atmosphere().spec_scattering_extent()
                == atmosphere_params.spec_scattering_extent(),
            r.0.spec_atmosphere().spec_irradiance_extent()
                == atmosphere_params.spec_irradiance_extent(),
            r.0.spec_final_layout() == atmosphere_params.layout,
            r.0.spec_dst_access_mask() == atmosphere_params.dst_access_mask,
            r.0.spec_dst_stage_mask() == atmosphere_params.dst_stage_mask,
            r.0.holds(*objects),
    {
        let recording = Recording {
            writes: descriptor_writes(),
            commands: record(
                atmosphere_params,
                builder.gfx_queue_family(),
                builder.compute_queue_family(),
            ),
        };
        let pending = PendingAtmosphere {
            descriptor_pool: objects.descriptor_pool,
            layout: atmosphere_params.layout,
            dst_access_mask: atmosphere_params.dst_access_mask,
            dst_stage_mask: atmosphere_params.dst_stage_mask,
            inner: Atmosphere {
                descriptor_pool: objects.persistent_pool,
                ds: objects.render_ds,
                transmittance: objects.image(ImageId::Transmittance),
                transmittance_extent: atmosphere_params.transmittance_extent(),
                scattering: objects.image(ImageId::Scattering),
                scattering_extent: atmosphere_params.scattering_extent(),
                irradiance: objects.image(ImageId::Irradiance),
                irradiance_extent: atmosphere_params.irradiance_extent(),
                params: objects.params,
                params_mem: objects.params_mem,
            },
            delta_irradiance: objects.image(ImageId::DeltaIrradiance),
            delta_mie: objects.image(ImageId::DeltaMie),
            delta_rayleigh: objects.image(ImageId::DeltaRayleigh),
            scattering_density: objects.image(ImageId::ScatteringDensity),
            delta_multiple_scattering: objects.image(ImageId::DeltaMultipleScattering),
        };
        assert forall|resource: Resource| pending.object(resource) == objects.object(
            resource,
        ) by {
            match resource {
                Resource::ImageView(image) => {},
                Resource::Image(image) => {},
                Resource::ImageMemory(image) => {},
                _ => {},
            }
        }
        (pending, recording)
    }

    /// The image of a table.
    pub closed spec fn spec_table(&self, image: ImageId) -> Image {
        match image {
            ImageId::Scattering => self.scattering,
            ImageId::Irradiance => self.irradiance,
            _ => self.transmittance,
        }
    }

    pub closed spec fn spec_transmittance_extent(&self) -> Extent2D {
        self.transmittance_extent
    }

    pub closed spec fn spec_scattering_extent(&self) -> Extent3D {
        self.scattering_extent
    }

    pub closed spec fn spec_irradiance_extent(&self) -> Extent2D {
        self.irradiance_extent
    }

    pub closed spec fn spec_descriptor_set(&self) -> u64 {
        self.ds
    }

    pub closed spec fn spec_descriptor_pool(&self) -> u64 {
        self.descriptor_pool
    }

    pub closed spec fn spec_params(&self) -> u64 {
        self.params
    }

    pub closed spec fn spec_params_mem(&self) -> u64 {
        self.params_mem
    }

    pub fn transmittance(&self) -> (r: u64)
        ensures
            r == self.spec_table(ImageId::Transmittance).handle,
    {
        self.transmittance.handle
    }

    pub fn transmittance_view(&self) -> (r: u64)
        ensures
            r == self.spec_table(ImageId::Transmittance).view,
    {
        self.transmittance.view
    }

    #[verifier::when_used_as_spec(spec_transmittance_extent)]
    pub fn transmittance_extent(&self) -> (r: Extent2D)
        ensures
            r == self.spec_transmittance_extent(),
    {
        self.transmittance_extent
    }

    pub fn scattering(&self) -> (r: u64)
        ensures
            r == self.spec_table(ImageId::Scattering).handle,
    {
        self.scattering.handle
    }

    pub fn scattering_view(&self) -> (r: u64)
        ensures
            r == self.spec_table(ImageId::Scattering).view,
    {
        self.scattering.view
    }

    #[verifier::when_used_as_spec(spec_scattering_extent)]
    pub fn scattering_extent(&self) -> (r: Extent3D)
        ensures
            r == self.spec_scattering_extent(),
    {
        self.scattering_extent
    }

    pub fn irradiance(&self) -> (r: u64)
        ensures
            r == self.spec_table(ImageId::Irradiance).handle,
    {
        self.irradiance.handle
    }

    pub fn irradiance_view(&self) -> (r: u64)
        ensures
            r == self.spec_table(ImageId::Irradiance).view,
    {
        self.irradiance.view
    }

    #[verifier::when_used_as_spec(spec_irradiance_extent)]
    pub fn irradiance_extent(&self) -> (r: Extent2D)
        ensures
            r == self.spec_irradiance_extent(),
    {
        self.irradiance_extent
    }

    /// The set that the renderer reads the parameters and tables through.
    #[verifier::when_used_as_spec(spec_descriptor_set)]
    pub fn descriptor_set(&self) -> (r: u64)
        ensures
            r == self.spec_descriptor_set(),
    {
        self.ds
    }

    /// The parameter buffer.
    #[verifier::when_used_as_spec(spec_params)]
    pub fn params(&self) -> (r: u64)
        ensures
            r == self.spec_params(),
    {
        self.params
    }

    /// The object that stands for a resource of the atmosphere.
    pub open spec fn object(&self, resource: Resource) -> Object {
        match resource {
            Resource::ImageView(image) => Object {
                kind: ObjectKind::ImageView,
                handle: self.spec_table(image).view,
            },
            Resource::Image(image) => Object {
                kind: ObjectKind::Image,
                handle: self.spec_table(image).handle,
            },
            Resource::ImageMemory(image) => Object {
                kind: ObjectKind::Memory,
                handle: self.spec_table(image).memory,
            },
            Resource::ParamsBuffer => Object {
                kind: ObjectKind::Buffer,
                handle: self.spec_params(),
            },
            Resource::ParamsMemory => Object {
                kind: ObjectKind::Memory,
                handle: self.spec_params_mem(),
            },
            _ => Object { kind: ObjectKind::DescriptorPool, handle: self.spec_descriptor_pool() },
        }
    }

    /// What is destroyed with the atmosphere, in the order in which it is
    /// destroyed.
    pub open spec fn spec_release(&self) -> Seq<Object> {
        lasting_resources().map_values(|resource: Resource| self.object(resource))
    }

    /// Lists what is destroyed with the atmosphere.
    pub fn release(self) -> (r: Vec<Object>)
        ensures
            r@ == self.spec_release(),
    {
        let mut v: Vec<Object> = Vec::new();
        self.push_release(&mut v);
        assert(v@ =~= self.spec_release());
        v
    }

    fn push_release(&self, v: &mut Vec<Object>)
        ensures
            final(v)@ == old(v)@ + self.spec_release(),
    {
        push_image(v, self.transmittance);
        push_image(v, self.scattering);
        push_image(v, self.irradiance);
        v.push(Object { kind: ObjectKind::Buffer, handle: self.params });
        v.push(Object { kind: ObjectKind::Memory, handle: self.params_mem });
        v.push(Object { kind: ObjectKind::DescriptorPool, handle: self.descriptor_pool });
        assert(v@ =~= old(v)@ + self.spec_release());
    }
}

impl PendingAtmosphere {
    pub closed spec fn spec_atmosphere(&self) -> Atmosphere {
        self.inner
    }

    pub closed spec fn spec_descriptor_pool(&self) -> u64 {
        self.descriptor_pool
    }

    /// The image that only the run uses and that stands for `image`.
    pub closed spec fn spec_transient(&self, image: ImageId) -> Image {
        match image {
            ImageId::DeltaIrradiance => self.delta_irradiance,
            ImageId::DeltaRayleigh => self.delta_rayleigh,
            ImageId::DeltaMie => self.delta_mie,
            ImageId::ScatteringDensity => self.scattering_density,
            _ => self.delta_multiple_scattering,
        }
    }

    /// The image of the run that stands for `image`: a table of the
    /// atmosphere, or an image that only the run uses.
    pub open spec fn spec_image(&self, image: ImageId) -> Image {
        if image.is_table() {
            self.spec_atmosphere().spec_table(image)
        } else {
            self.spec_transient(image)
        }
    }

    /// Finds the image of the run that stands for `image`.
    #[verifier::when_used_as_spec(spec_image)]
    pub fn image(&self, image: ImageId) -> (r: Image)
        ensures
            r == self.spec_image(image),
    {
        match image {
            ImageId::DeltaIrradiance => self.delta_irradiance,
            ImageId::DeltaRayleigh => self.delta_rayleigh,
            ImageId::DeltaMie => self.delta_mie,
            ImageId::ScatteringDensity => self.scattering_density,
            ImageId::DeltaMultipleScattering => self.delta_multiple_scattering,
            ImageId::Scattering => self.inner.scattering,
            ImageId::Irradiance => self.inner.irradiance,
            ImageId::Transmittance => self.inner.transmittance,
        }
    }

    /// The layout that the tables end in.
    pub closed spec fn spec_final_layout(&self) -> i32 {
        self.layout
    }

    /// The access that the tables are handed over for.
    pub closed spec fn spec_dst_access_mask(&self) -> u32 {
        self.dst_access_mask
    }

    /// The stage that the tables are handed over for.
    pub closed spec fn spec_dst_stage_mask(&self) -> u32 {
        self.dst_stage_mask
    }

    /// How the graphics queue family takes over one table: from the layout
    /// that the run left it in to the layout that the tables end in, for the
    /// access that they are handed over for.
    pub open spec fn acquire_barrier(
        &self,
        image: ImageId,
        compute_queue_family: u32,
        gfx_queue_family: u32,
    ) -> ImageBarrier {
        ImageBarrier {
            image,
            src_access_mask: 0,
            dst_access_mask: self.spec_dst_access_mask(),
            old_layout: if image == ImageId::Transmittance {
                LAYOUT_SHADER_READ_ONLY_OPTIMAL
            } else {
                LAYOUT_GENERAL
            },
            new_layout: self.spec_final_layout(),
            src_queue_family_index: compute_queue_family,
            dst_queue_family_index: gfx_queue_family,
        }
    }

    /// The barrier with which the graphics queue family takes over what
    /// a run on another family has handed to it: the parameter buffer and
    /// the three tables, for the stage that the tables are handed over for.
    pub open spec fn acquisition(&self, compute_queue_family: u32, gfx_queue_family: u32)
        -> CommandView {
        CommandView::PipelineBarrier {
            src_stage_mask: 0,
            dst_stage_mask: self.spec_dst_stage_mask(),
            buffers: seq![
                BufferBarrier {
                    src_access_mask: 0,
                    dst_access_mask: ACCESS_UNIFORM_READ,
                    src_queue_family_index: compute_queue_family,
                    dst_queue_family_index: gfx_queue_family,
                },
            ],
            images: seq![
                self.acquire_barrier(
                    ImageId::Transmittance,
                    compute_queue_family,
                    gfx_queue_family,
                ),
                self.acquire_barrier(ImageId::Scattering, compute_queue_family, gfx_queue_family),
                self.acquire_barrier(ImageId::Irradiance, compute_queue_family, gfx_queue_family),
            ],
        }
    }

    /// Call if the run completed on a different queue family than that of
    /// the graphics queue that will draw.
    ///
    /// The command belongs in the command buffer that the atmosphere will
    /// be drawn with.
    pub fn acquire_ownership(&self, compute_queue_family: u32, gfx_queue_family: u32) -> (r:
        Command)
        requires
            compute_queue_family != gfx_queue_family,
        ensures
            r@ == self.acquisition(compute_queue_family, gfx_queue_family),
    {
        let barrier = ImageBarrier {
            image: ImageId::Transmittance,
            src_access_mask: 0,
            dst_access_mask: self.dst_access_mask,
            old_layout: LAYOUT_GENERAL,
            new_layout: self.layout,
            src_queue_family_index: compute_queue_family,
            dst_queue_family_index: gfx_queue_family,
        };
        let mut buffers: Vec<BufferBarrier> = Vec::new();
        buffers.push(
            BufferBarrier {
                src_access_mask: 0,
                dst_access_mask: ACCESS_UNIFORM_READ,
                src_queue_family_index: compute_queue_family,
                dst_queue_family_index: gfx_queue_family,
            },
        );
        let mut images: Vec<ImageBarrier> = Vec::new();
        images.push(ImageBarrier { old_layout: LAYOUT_SHADER_READ_ONLY_OPTIMAL, ..barrier });
        images.push(ImageBarrier { image: ImageId::Scattering, ..barrier });
        images.push(ImageBarrier { image: ImageId::Irradiance, ..barrier });
        let ghost wanted = self.acquisition(compute_queue_family, gfx_queue_family);
        assert(buffers@ =~= wanted->PipelineBarrier_buffers);
        assert(images@ =~= wanted->PipelineBarrier_images);
        Command::PipelineBarrier {
            src_stage_mask: 0,
            dst_stage_mask: self.dst_stage_mask,
            buffers,
            images,
        }
    }

    /// Access the `Atmosphere` while it may not yet be ready.
    pub fn atmosphere(&self) -> (r: &Atmosphere)
        ensures
            *r == self.spec_atmosphere(),
    {
        &self.inner
    }

    /// The object that stands for a resource of the run.
    pub open spec fn object(&self, resource: Resource) -> Object {
        match resource {
            Resource::ImageView(image) => Object {
                kind: ObjectKind::ImageView,
                handle: self.spec_image(image).view,
            },
            Resource::Image(image) => Object {
                kind: ObjectKind::Image,
                handle: self.spec_image(image).handle,
            },
            Resource::ImageMemory(image) => Object {
                kind: ObjectKind::Memory,
                handle: self.spec_image(image).memory,
            },
            Resource::TransientPool => Object {
                kind: ObjectKind::DescriptorPool,
                handle: self.spec_descriptor_pool(),
            },
            _ => self.spec_atmosphere().object(resource),
        }
    }

    /// Whether every resource of the run is an object of `objects`, the
    /// same one under the same name, and the atmosphere is read through the
    /// set that was allocated for the renderer.
    pub open spec fn holds(&self, objects: RunObjects) -> bool {
        &&& self.spec_atmosphere().spec_descriptor_set() == objects.render_ds
        &&& forall|resource: Resource|
            #[trigger] self.object(resource) == objects.object(resource)
    }

    /// What is destroyed when the commands of the run have completed.
    pub open spec fn spec_transients(&self) -> Seq<Object> {
        transient_resources().map_values(|resource: Resource| self.object(resource))
    }

    /// What is destroyed when the atmosphere is given up before it was
    /// declared ready: what only the run uses, then what the atmosphere
    /// holds.
    pub open spec fn spec_release(&self) -> Seq<Object> {
        (transient_resources() + lasting_resources()).map_values(
            |resource: Resource| self.object(resource),
        )
    }

    fn push_transients(&self, v: &mut Vec<Object>)
        ensures
            final(v)@ == old(v)@ + self.spec_transients(),
    {
        push_image(v, self.delta_irradiance);
        push_image(v, self.delta_rayleigh);
        push_image(v, self.delta_mie);
        push_image(v, self.scattering_density);
        push_image(v, self.delta_multiple_scattering);
        v.push(Object { kind: ObjectKind::DescriptorPool, handle: self.descriptor_pool });
        assert(v@ =~= old(v)@ + self.spec_transients());
    }

    /// Call when the commands of the run have completed execution. Hands
    /// out the atmosphere, and lists what is destroyed now: what only the
    /// run used.
    pub fn assert_ready(self) -> (r: (Atmosphere, Vec<Object>))
        ensures
            r.0 == self.spec_atmosphere(),
            r.1@ == self.spec_transients(),
    {
        let mut v: Vec<Object> = Vec::new();
        self.push_transients(&mut v);
        assert(v@ =~= self.spec_transients());
        (self.inner, v)
    }

    /// Lists what is destroyed when the atmosphere is given up before it
    /// was declared ready.
    pub fn release(self) -> (r: Vec<Object>)
        ensures
            r@ == self.spec_release(),
    {
        let mut v: Vec<Object> = Vec::new();
        self.push_transients(&mut v);
        self.inner.push_release(&mut v);
        assert(v@ =~= self.spec_release());
        v
    }
}

/// Every resource of a run is released once, whichever way the run ends.
///
/// The resources that are released when the commands have completed and the
/// resources that are released with the atmosphere are, together, all the
/// resources there are, and none is named twice. Giving an atmosphere up
/// while it is pending releases what declaring it ready releases, followed by
/// what giving up the ready atmosphere releases.
pub proof fn lemma_released_once(pending: PendingAtmosphere)
    ensures
        (transient_resources() + lasting_resources()).no_duplicates(),
        forall|resource: Resource|
            (transient_resources() + lasting_resources()).contains(resource),
        forall|resource: Resource|
            !(transient_resources().contains(resource) && lasting_resources().contains(
                resource,
            )),
        forall|image: ImageId|
            lasting_resources().contains(Resource::Image(image)) <==> image.is_table(),
        pending.spec_release() == pending.spec_transients()
            + pending.spec_atmosphere().spec_release(),
{
    let t = transient_resources();
    let l = lasting_resources();
    let all = t + l;
    assert(t.len() == 16);
    assert(l.len() == 12);
    assert forall|resource: Resource| all.contains(resource) by {
        let i = position(resource);
        assert(all[i] == resource);
    }
    assert forall|i: int, j: int| 0 <= i < all.len() && 0 <= j < all.len() && i != j implies all[i]
        != all[j] by {
        assert(position(all[i]) == i);
        assert(position(all[j]) == j);
    }
    assert forall|resource: Resource| !(t.contains(resource) && l.contains(resource)) by {
        if t.contains(resource) && l.contains(resource) {
            let i = choose|i: int| 0 <= i < t.len() && t[i] == resource;
            let j = choose|j: int| 0 <= j < l.len() && l[j] == resource;
            assert(all[i] == resource);
            assert(all[16 + j] == resource);
        }
    }
    assert forall|image: ImageId|
        l.contains(Resource::Image(image)) <==> image.is_table() by {
        let resource = Resource::Image(image);
        assert(all[position(resource)] == resource);
        if image.is_table() {
            assert(l[position(resource) - 16] == resource);
        } else {
            assert(t[position(resource)] == resource);
        }
    }
    assert(pending.spec_release() =~= pending.spec_transients()
        + pending.spec_atmosphere().spec_release());
}

/// Two runs that were given objects of their own share nothing. Whatever
/// the parameters of either, no image, view, memory, buffer or pool of the
/// one is one of the other, so nothing that is released with the one is
/// released with the other, no table of the one is a table of the other, and
/// the two atmospheres are read through different sets.
pub proof fn lemma_runs_share_nothing(
    one: PendingAtmosphere,
    its: RunObjects,
    other: PendingAtmosphere,
    theirs: RunObjects,
)
    requires
        one.holds(its),
        other.holds(theirs),
        its.apart(theirs),
    ensures
        forall|mine: Resource, yours: Resource|
            #[trigger] one.object(mine) != #[trigger] other.object(yours),
        forall|i: int, j: int|
            0 <= i < one.spec_release().len() && 0 <= j < other.spec_release().len()
                ==> one.spec_release()[i] != other.spec_release()[j],
        forall|mine: ImageId, yours: ImageId|
            mine.is_table() && yours.is_table() ==> {
                let a = #[trigger] one.spec_atmosphere().spec_table(mine);
                let b = #[trigger] other.spec_atmosphere().spec_table(yours);
                a.handle != b.handle && a.view != b.view && a.memory != b.memory
            },
        one.spec_atmosphere().spec_descriptor_set() != other.spec_atmosphere().spec_descriptor_set(),
{
    assert forall|mine: Resource, yours: Resource|
        #[trigger] one.object(mine) != #[trigger] other.object(yours) by {
        assert(one.object(mine) == its.object(mine));
        assert(other.object(yours) == theirs.object(yours));
    }
    assert forall|mine: ImageId, yours: ImageId| mine.is_table() && yours.is_table() implies {
        let a = #[trigger] one.spec_atmosphere().spec_table(mine);
        let b = #[trigger] other.spec_atmosphere().spec_table(yours);
        a.handle != b.handle && a.view != b.view && a.memory != b.memory
    } by {
        assert(one.object(Resource::Image(mine)) != other.object(Resource::Image(yours)));
        assert(one.object(Resource::ImageView(mine)) != other.object(
            Resource::ImageView(yours),
        ));
        assert(one.object(Resource::ImageMemory(mine)) != other.object(
            Resource::ImageMemory(yours),
        ));
    }
}

/// The place of a resource among all that is released.
spec fn position(resource: Resource) -> int {
    match resource {
        Resource::ImageView(image) => first(image),
        Resource::Image(image) => first(image) + 1,
        Resource::ImageMemory(image) => first(image) + 2,
        Resource::TransientPool => 15,
        Resource::ParamsBuffer => 25,
        Resource::ParamsMemory => 26,
        Resource::PersistentPool => 27,
    }
}

/// The place of the view of an image among all that is released.
spec fn first(image: ImageId) -> int {
    match image {
        ImageId::DeltaIrradiance => 0,
        ImageId::DeltaRayleigh => 3,
        ImageId::DeltaMie => 6,
        ImageId::ScatteringDensity => 9,
        ImageId::DeltaMultipleScattering => 12,
        ImageId::Transmittance => 16,
        ImageId::Scattering => 19,
        ImageId::Irradiance => 22,
    }
}

} // verus!
