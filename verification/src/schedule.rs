//! The command stream of a precompute run.
//!
//! The stream uploads the parameters, fills the transmittance table, derives
//! direct irradiance and single scattering from it, and then adds one order of
//! scattering after another. Every image a pass reads was made visible by a
//! barrier after the pass that wrote it. The stream ends by handing the tables
//! and the parameter buffer over to the graphics queue family.

use crate::catalog::{ImageId, PassKind, SetId};
use crate::commands::{
    lemma_views_push, views, BufferBarrier, ClearColor, Command, CommandView, ImageBarrier,
};
use crate::hazards::{completes, lemma_schedule_in_order};
use crate::params::{Extent2D, Extent3D, Parameters};
use crate::raw::{
    ACCESS_SHADER_READ, ACCESS_TRANSFER_WRITE, ACCESS_UNIFORM_READ, LAYOUT_GENERAL,
    LAYOUT_SHADER_READ_ONLY_OPTIMAL, QUEUE_FAMILY_IGNORED, STAGE_COMPUTE_SHADER, STAGE_TRANSFER,
};
use vstd::prelude::*;

verus! {

/// Binds the pipeline of `pass`, the parameters at set 0 and the images of
/// the pass at set 1.
pub open spec fn bind_pass(pass: PassKind) -> Seq<CommandView> {
    seq![
        CommandView::BindPipeline { pass },
        CommandView::BindDescriptorSets {
            layout: pass,
            first_set: 0,
            sets: seq![SetId::Params, SetId::Pass(pass)],
        },
    ]
}

/// Binds the pipeline of `pass` and its images at set 1, leaving set 0 as it
/// is bound.
pub open spec fn rebind_pass(pass: PassKind) -> Seq<CommandView> {
    seq![
        CommandView::BindPipeline { pass },
        CommandView::BindDescriptorSets {
            layout: pass,
            first_set: 1,
            sets: seq![SetId::Pass(pass)],
        },
    ]
}

/// One work group per texel of a two-dimensional table.
pub open spec fn dispatch_2d(extent: Extent2D) -> CommandView {
    CommandView::Dispatch { x: extent.width, y: extent.height, z: 1 }
}

/// One work group per texel of a three-dimensional table.
pub open spec fn dispatch_3d(extent: Extent3D) -> CommandView {
    CommandView::Dispatch { x: extent.width, y: extent.height, z: extent.depth }
}

/// A barrier between compute passes, on images only.
pub open spec fn compute_barrier(images: Seq<ImageBarrier>) -> CommandView {
    CommandView::PipelineBarrier {
        src_stage_mask: STAGE_COMPUTE_SHADER,
        dst_stage_mask: STAGE_COMPUTE_SHADER,
        buffers: seq![],
        images,
    }
}

/// The transitions that open a run: every image, table or not, leaves the
/// undefined layout it was created in for the general layout.
pub open spec fn spec_initial_transitions() -> Seq<ImageBarrier> {
    seq![
        ImageBarrier::spec_init(ImageId::Transmittance),
        ImageBarrier::spec_init(ImageId::DeltaRayleigh),
        ImageBarrier::spec_init(ImageId::DeltaMie),
        ImageBarrier::spec_init(ImageId::Scattering),
        ImageBarrier::spec_init(ImageId::Irradiance),
        ImageBarrier::spec_init(ImageId::DeltaIrradiance),
        ImageBarrier::spec_init(ImageId::DeltaMultipleScattering),
        ImageBarrier::spec_init(ImageId::ScatteringDensity),
    ]
}

/// Uploads the packed parameters and makes them visible to compute shaders;
/// with the same barrier every image leaves the undefined layout.
pub open spec fn upload(p: Parameters) -> Seq<CommandView> {
    seq![
        CommandView::UpdateBuffer { data: p.packed() },
        CommandView::PipelineBarrier {
            src_stage_mask: STAGE_TRANSFER,
            dst_stage_mask: STAGE_COMPUTE_SHADER,
            buffers: seq![
                BufferBarrier {
                    src_access_mask: ACCESS_TRANSFER_WRITE,
                    dst_access_mask: ACCESS_UNIFORM_READ,
                    src_queue_family_index: QUEUE_FAMILY_IGNORED,
                    dst_queue_family_index: QUEUE_FAMILY_IGNORED,
                },
            ],
            images: spec_initial_transitions(),
        },
    ]
}

/// Fills the transmittance table and turns it over to sampling.
pub open spec fn transmittance_pass(p: Parameters) -> Seq<CommandView> {
    bind_pass(PassKind::Transmittance) + seq![
        dispatch_2d(p.spec_transmittance_extent()),
        compute_barrier(seq![ImageBarrier::spec_write_read(ImageId::Transmittance)]),
    ]
}

/// Derives the irradiance that reaches the ground unscattered.
pub open spec fn direct_irradiance_pass(p: Parameters) -> Seq<CommandView> {
    rebind_pass(PassKind::DirectIrradiance).push(dispatch_2d(p.spec_irradiance_extent()))
}

/// Derives light scattered once, by air and by aerosols.
pub open spec fn single_scattering_pass(p: Parameters) -> Seq<CommandView> {
    rebind_pass(PassKind::SingleScattering).push(dispatch_3d(p.spec_scattering_extent()))
}

/// Zeroes the irradiance table, which gathers the higher orders only, and
/// readies it for accumulation.
pub open spec fn clear_irradiance() -> Seq<CommandView> {
    seq![
        CommandView::ClearColorImage {
            image: ImageId::Irradiance,
            image_layout: LAYOUT_GENERAL,
            color: ClearColor::spec_zeros(),
        },
        CommandView::PipelineBarrier {
            src_stage_mask: STAGE_TRANSFER,
            dst_stage_mask: STAGE_COMPUTE_SHADER,
            buffers: seq![],
            images: seq![
                ImageBarrier {
                    src_access_mask: ACCESS_TRANSFER_WRITE,
                    ..ImageBarrier::spec_write(ImageId::Irradiance)
                },
            ],
        },
    ]
}

/// Turns single scattering over to sampling, for good.
pub open spec fn publish_single_scattering() -> CommandView {
    compute_barrier(
        seq![
            ImageBarrier::spec_write_read(ImageId::DeltaRayleigh),
            ImageBarrier::spec_write_read(ImageId::DeltaMie),
        ],
    )
}

/// Everything up to the first order of scattering.
pub open spec fn first_order(p: Parameters) -> Seq<CommandView> {
    upload(p) + transmittance_pass(p) + direct_irradiance_pass(p) + single_scattering_pass(p)
        + clear_irradiance().push(publish_single_scattering())
}

/// What the scattering density pass waits for: its output image is free of
/// the readers of the order before, and the irradiance and scattering of the
/// order before can be sampled.
pub open spec fn spec_before_scattering_density() -> Seq<ImageBarrier> {
    seq![
        ImageBarrier {
            src_access_mask: ACCESS_SHADER_READ,
            ..ImageBarrier::spec_init(ImageId::ScatteringDensity)
        },
        ImageBarrier::spec_write_read(ImageId::DeltaIrradiance),
        ImageBarrier::spec_write_read(ImageId::DeltaMultipleScattering),
    ]
}

/// What the indirect irradiance pass waits for: the delta irradiance has
/// been read and can be overwritten, and the table holds what was added
/// before.
pub open spec fn spec_before_indirect_irradiance() -> Seq<ImageBarrier> {
    seq![
        ImageBarrier::spec_read_write(ImageId::DeltaIrradiance),
        ImageBarrier::spec_write(ImageId::Irradiance),
    ]
}

/// What the multiple scattering pass waits for: the scattering density can
/// be sampled, the table holds what was added before, and the delta
/// scattering has been read and can be overwritten.
pub open spec fn spec_before_multiple_scattering() -> Seq<ImageBarrier> {
    seq![
        ImageBarrier::spec_write_read(ImageId::ScatteringDensity),
        ImageBarrier::spec_write(ImageId::Scattering),
        ImageBarrier {
            src_access_mask: ACCESS_SHADER_READ,
            ..ImageBarrier::spec_init(ImageId::DeltaMultipleScattering)
        },
    ]
}

/// Gathers the light that order `order` scatters, from what the order
/// before it left in the delta images. The shader is told `order`.
pub open spec fn scattering_density_pass(p: Parameters, order: u32) -> Seq<CommandView> {
    seq![compute_barrier(spec_before_scattering_density())] + bind_pass(PassKind::ScatteringDensity) + seq![
        CommandView::PushConstants { layout: PassKind::ScatteringDensity, value: order },
        dispatch_3d(p.spec_scattering_extent()),
    ]
}

/// Derives the irradiance of order `order - 1` and adds it to the table.
/// The shader is told `order - 1`.
pub open spec fn indirect_irradiance_pass(p: Parameters, order: u32) -> Seq<CommandView> {
    seq![compute_barrier(spec_before_indirect_irradiance())] + bind_pass(PassKind::IndirectIrradiance) + seq![
        CommandView::PushConstants {
            layout: PassKind::IndirectIrradiance,
            value: (order - 1) as u32,
        },
        dispatch_2d(p.spec_irradiance_extent()),
    ]
}

/// Integrates the gathered light into the scattering of this order and adds
/// it to the table.
pub open spec fn multiple_scattering_pass(p: Parameters) -> Seq<CommandView> {
    seq![compute_barrier(spec_before_multiple_scattering())] + bind_pass(PassKind::MultipleScattering).push(dispatch_3d(p.spec_scattering_extent()))
}

/// The three passes that add scattering order `order`.
pub open spec fn add_order(p: Parameters, order: u32) -> Seq<CommandView> {
    scattering_density_pass(p, order) + indirect_irradiance_pass(p, order)
        + multiple_scattering_pass(p)
}

/// The first `count` of the higher orders: orders 2 to `count + 1`, in turn.
pub open spec fn higher_orders(p: Parameters, count: nat) -> Seq<CommandView>
    decreases count,
{
    if count == 0 {
        seq![]
    } else {
        higher_orders(p, (count - 1) as nat) + add_order(p, (count + 1) as u32)
    }
}

/// The queue family that the run executes on: the compute family where one
/// is set apart, the graphics family otherwise.
pub open spec fn spec_source_family(gfx_queue_family: u32, compute_queue_family: Option<u32>)
    -> u32 {
    match compute_queue_family {
        Some(family) => family,
        None => gfx_queue_family,
    }
}

#[verifier::when_used_as_spec(spec_source_family)]
pub fn source_family(gfx_queue_family: u32, compute_queue_family: Option<u32>) -> (r: u32)
    ensures
        r == spec_source_family(gfx_queue_family, compute_queue_family),
{
    match compute_queue_family {
        Some(family) => family,
        None => gfx_queue_family,
    }
}

/// How a table leaves the run: from the layout it is in to the layout the
/// parameters ask for, from the run's queue family to the graphics family.
pub open spec fn spec_release_barrier(
    image: ImageId,
    p: Parameters,
    gfx_queue_family: u32,
    compute_queue_family: Option<u32>,
) -> ImageBarrier {
    let barrier = ImageBarrier {
        dst_access_mask: p.dst_access_mask,
        new_layout: p.layout,
        src_queue_family_index: spec_source_family(gfx_queue_family, compute_queue_family),
        dst_queue_family_index: gfx_queue_family,
        ..ImageBarrier::spec_write_read(image)
    };
    if image == ImageId::Transmittance {
        ImageBarrier {
            src_access_mask: 0,
            old_layout: LAYOUT_SHADER_READ_ONLY_OPTIMAL,
            ..barrier
        }
    } else {
        barrier
    }
}

/// The one barrier that ends the run: it hands the parameter buffer and the
/// three tables to the graphics queue family, the tables in the layout and
/// for the stage and access that the parameters ask for.
pub open spec fn finalization(
    p: Parameters,
    gfx_queue_family: u32,
    compute_queue_family: Option<u32>,
) -> CommandView {
    CommandView::PipelineBarrier {
        src_stage_mask: STAGE_COMPUTE_SHADER,
        dst_stage_mask: p.dst_stage_mask,
        buffers: seq![
            BufferBarrier {
                src_access_mask: ACCESS_UNIFORM_READ,
                dst_access_mask: 0,
                src_queue_family_index: spec_source_family(gfx_queue_family, compute_queue_family),
                dst_queue_family_index: gfx_queue_family,
            },
        ],
        images: seq![
            spec_release_barrier(ImageId::Scattering, p, gfx_queue_family, compute_queue_family),
            spec_release_barrier(ImageId::Irradiance, p, gfx_queue_family, compute_queue_family),
            spec_release_barrier(
                ImageId::Transmittance,
                p,
                gfx_queue_family,
                compute_queue_family,
            ),
        ],
    }
}

/// The whole command stream of a run with parameters `p`.
pub open spec fn schedule(p: Parameters, gfx_queue_family: u32, compute_queue_family: Option<u32>)
    -> Seq<CommandView> {
    (first_order(p) + higher_orders(p, (p.order - 1) as nat)).push(
        finalization(p, gfx_queue_family, compute_queue_family),
    )
}

fn push_command(v: &mut Vec<Command>, command: Command)
    ensures
        views(final(v)@) == views(old(v)@).push(command@),
{
    proof {
        lemma_views_push(v@, command);
    }
    v.push(command);
}

fn one<T>(a: T) -> (r: Vec<T>)
    ensures
        r@ == seq![a],
{
    let mut r: Vec<T> = Vec::new();
    r.push(a);
    assert(r@ =~= seq![a]);
    r
}

fn two<T>(a: T, b: T) -> (r: Vec<T>)
    ensures
        r@ == seq![a, b],
{
    let mut r: Vec<T> = Vec::new();
    r.push(a);
    r.push(b);
    assert(r@ =~= seq![a, b]);
    r
}

fn three<T>(a: T, b: T, c: T) -> (r: Vec<T>)
    ensures
        r@ == seq![a, b, c],
{
    let mut r: Vec<T> = Vec::new();
    r.push(a);
    r.push(b);
    r.push(c);
    assert(r@ =~= seq![a, b, c]);
    r
}

fn none<T>() -> (r: Vec<T>)
    ensures
        r@ == Seq::<T>::empty(),
{
    let r: Vec<T> = Vec::new();
    assert(r@ =~= Seq::<T>::empty());
    r
}

fn push_barrier(
    v: &mut Vec<Command>,
    src_stage_mask: u32,
    dst_stage_mask: u32,
    buffers: Vec<BufferBarrier>,
    images: Vec<ImageBarrier>,
)
    ensures
        views(final(v)@) == views(old(v)@).push(
            CommandView::PipelineBarrier {
                src_stage_mask,
                dst_stage_mask,
                buffers: buffers@,
                images: images@,
            },
        ),
{
    push_command(v, Command::PipelineBarrier { src_stage_mask, dst_stage_mask, buffers, images });
}

fn push_bind_sets(v: &mut Vec<Command>, layout: PassKind, first_set: u32, sets: Vec<SetId>)
    ensures
        views(final(v)@) == views(old(v)@).push(
            CommandView::BindDescriptorSets { layout, first_set, sets: sets@ },
        ),
{
    push_command(v, Command::BindDescriptorSets { layout, first_set, sets });
}

/// Lists the transitions out of the undefined layout that open a run.
fn initial_transitions() -> (r: Vec<ImageBarrier>)
    ensures
        r@ == spec_initial_transitions(),
{
    let mut r: Vec<ImageBarrier> = Vec::new();
    r.push(ImageBarrier::init(ImageId::Transmittance));
    r.push(ImageBarrier::init(ImageId::DeltaRayleigh));
    r.push(ImageBarrier::init(ImageId::DeltaMie));
    r.push(ImageBarrier::init(ImageId::Scattering));
    r.push(ImageBarrier::init(ImageId::Irradiance));
    r.push(ImageBarrier::init(ImageId::DeltaIrradiance));
    r.push(ImageBarrier::init(ImageId::DeltaMultipleScattering));
    r.push(ImageBarrier::init(ImageId::ScatteringDensity));
    assert(r@ =~= spec_initial_transitions());
    r
}

fn before_scattering_density() -> (r: Vec<ImageBarrier>)
    ensures
        r@ == spec_before_scattering_density(),
{
    let mut r: Vec<ImageBarrier> = Vec::new();
    r.push(
        ImageBarrier {
            src_access_mask: ACCESS_SHADER_READ,
            ..ImageBarrier::init(ImageId::ScatteringDensity)
        },
    );
    r.push(ImageBarrier::write_read(ImageId::DeltaIrradiance));
    r.push(ImageBarrier::write_read(ImageId::DeltaMultipleScattering));
    assert(r@ =~= spec_before_scattering_density());
    r
}

fn before_indirect_irradiance() -> (r: Vec<ImageBarrier>)
    ensures
        r@ == spec_before_indirect_irradiance(),
{
    let mut r: Vec<ImageBarrier> = Vec::new();
    r.push(ImageBarrier::read_write(ImageId::DeltaIrradiance));
    r.push(ImageBarrier::write(ImageId::Irradiance));
    assert(r@ =~= spec_before_indirect_irradiance());
    r
}

fn before_multiple_scattering() -> (r: Vec<ImageBarrier>)
    ensures
        r@ == spec_before_multiple_scattering(),
{
    let mut r: Vec<ImageBarrier> = Vec::new();
    r.push(ImageBarrier::write_read(ImageId::ScatteringDensity));
    r.push(ImageBarrier::write(ImageId::Scattering));
    r.push(
        ImageBarrier {
            src_access_mask: ACCESS_SHADER_READ,
            ..ImageBarrier::init(ImageId::DeltaMultipleScattering)
        },
    );
    assert(r@ =~= spec_before_multiple_scattering());
    r
}

fn push_bind_pass(v: &mut Vec<Command>, pass: PassKind)
    ensures
        views(final(v)@) == views(old(v)@) + bind_pass(pass),
{
    push_command(v, Command::BindPipeline { pass });
    push_bind_sets(v, pass, 0, two(SetId::Params, SetId::Pass(pass)));
    assert(views(v@) =~= views(old(v)@) + bind_pass(pass));
}

fn push_rebind_pass(v: &mut Vec<Command>, pass: PassKind)
    ensures
        views(final(v)@) == views(old(v)@) + rebind_pass(pass),
{
    push_command(v, Command::BindPipeline { pass });
    push_bind_sets(v, pass, 1, one(SetId::Pass(pass)));
    assert(views(v@) =~= views(old(v)@) + rebind_pass(pass));
}

fn push_dispatch_2d(v: &mut Vec<Command>, extent: Extent2D)
    ensures
        views(final(v)@) == views(old(v)@).push(dispatch_2d(extent)),
{
    push_command(v, Command::Dispatch { x: extent.width, y: extent.height, z: 1 });
}

fn push_dispatch_3d(v: &mut Vec<Command>, extent: Extent3D)
    ensures
        views(final(v)@) == views(old(v)@).push(dispatch_3d(extent)),
{
    push_command(v, Command::Dispatch { x: extent.width, y: extent.height, z: extent.depth });
}

fn push_compute_barrier(v: &mut Vec<Command>, images: Vec<ImageBarrier>)
    ensures
        views(final(v)@) == views(old(v)@).push(compute_barrier(images@)),
{
    push_barrier(v, STAGE_COMPUTE_SHADER, STAGE_COMPUTE_SHADER, none(), images);
}

fn push_upload(v: &mut Vec<Command>, p: &Parameters)
    ensures
        views(final(v)@) == views(old(v)@) + upload(*p),
{
    push_command(v, Command::UpdateBuffer { data: p.pack() });
    push_barrier(
        v,
        STAGE_TRANSFER,
        STAGE_COMPUTE_SHADER,
        one(
            BufferBarrier {
                src_access_mask: ACCESS_TRANSFER_WRITE,
                dst_access_mask: ACCESS_UNIFORM_READ,
                src_queue_family_index: QUEUE_FAMILY_IGNORED,
                dst_queue_family_index: QUEUE_FAMILY_IGNORED,
            },
        ),
        initial_transitions(),
    );
    assert(views(v@) =~= views(old(v)@) + upload(*p));
}

fn push_transmittance_pass(v: &mut Vec<Command>, p: &Parameters)
    ensures
        views(final(v)@) == views(old(v)@) + transmittance_pass(*p),
{
    push_bind_pass(v, PassKind::Transmittance);
    push_dispatch_2d(v, p.transmittance_extent());
    push_compute_barrier(v, one(ImageBarrier::write_read(ImageId::Transmittance)));
    assert(views(v@) =~= views(old(v)@) + transmittance_pass(*p));
}

fn push_direct_irradiance_pass(v: &mut Vec<Command>, p: &Parameters)
    ensures
        views(final(v)@) == views(old(v)@) + direct_irradiance_pass(*p),
{
    push_rebind_pass(v, PassKind::DirectIrradiance);
    push_dispatch_2d(v, p.irradiance_extent());
    assert(views(v@) =~= views(old(v)@) + direct_irradiance_pass(*p));
}

fn push_single_scattering_pass(v: &mut Vec<Command>, p: &Parameters)
    requires
        p.valid(),
    ensures
        views(final(v)@) == views(old(v)@) + single_scattering_pass(*p),
{
    push_rebind_pass(v, PassKind::SingleScattering);
    push_dispatch_3d(v, p.scattering_extent());
    assert(views(v@) =~= views(old(v)@) + single_scattering_pass(*p));
}

fn push_clear_irradiance(v: &mut Vec<Command>)
    ensures
        views(final(v)@) == views(old(v)@) + clear_irradiance(),
{
    push_command(
        v,
        Command::ClearColorImage {
            image: ImageId::Irradiance,
            image_layout: LAYOUT_GENERAL,
            color: ClearColor::zeros(),
        },
    );
    push_barrier(
        v,
        STAGE_TRANSFER,
        STAGE_COMPUTE_SHADER,
        none(),
        one(
            ImageBarrier {
                src_access_mask: ACCESS_TRANSFER_WRITE,
                ..ImageBarrier::write(ImageId::Irradiance)
            },
        ),
    );
    assert(views(v@) =~= views(old(v)@) + clear_irradiance());
}

fn push_first_order(v: &mut Vec<Command>, p: &Parameters)
    requires
        p.valid(),
    ensures
        views(final(v)@) == views(old(v)@) + first_order(*p),
{
    push_upload(v, p);
    push_transmittance_pass(v, p);
    push_direct_irradiance_pass(v, p);
    push_single_scattering_pass(v, p);
    push_clear_irradiance(v);
    push_compute_barrier(
        v,
        two(
            ImageBarrier::write_read(ImageId::DeltaRayleigh),
            ImageBarrier::write_read(ImageId::DeltaMie),
        ),
    );
    assert(views(v@) =~= views(old(v)@) + first_order(*p));
}

fn push_scattering_density_pass(v: &mut Vec<Command>, p: &Parameters, order: u32)
    requires
        p.valid(),
    ensures
        views(final(v)@) == views(old(v)@) + scattering_density_pass(*p, order),
{
    push_compute_barrier(v, before_scattering_density());
    push_bind_pass(v, PassKind::ScatteringDensity);
    push_command(v, Command::PushConstants { layout: PassKind::ScatteringDensity, value: order });
    push_dispatch_3d(v, p.scattering_extent());
    assert(views(v@) =~= views(old(v)@) + scattering_density_pass(*p, order));
}

fn push_indirect_irradiance_pass(v: &mut Vec<Command>, p: &Parameters, order: u32)
    requires
        order >= 1,
    ensures
        views(final(v)@) == views(old(v)@) + indirect_irradiance_pass(*p, order),
{
    push_compute_barrier(v, before_indirect_irradiance());
    push_bind_pass(v, PassKind::IndirectIrradiance);
    push_command(
        v,
        Command::PushConstants { layout: PassKind::IndirectIrradiance, value: order - 1 },
    );
    push_dispatch_2d(v, p.irradiance_extent());
    assert(views(v@) =~= views(old(v)@) + indirect_irradiance_pass(*p, order));
}

fn push_multiple_scattering_pass(v: &mut Vec<Command>, p: &Parameters)
    requires
        p.valid(),
    ensures
        views(final(v)@) == views(old(v)@) + multiple_scattering_pass(*p),
{
    push_compute_barrier(v, before_multiple_scattering());
    push_bind_pass(v, PassKind::MultipleScattering);
    push_dispatch_3d(v, p.scattering_extent());
    assert(views(v@) =~= views(old(v)@) + multiple_scattering_pass(*p));
}

fn push_add_order(v: &mut Vec<Command>, p: &Parameters, order: u32)
    requires
        p.valid(),
        order >= 1,
    ensures
        views(final(v)@) == views(old(v)@) + add_order(*p, order),
{
    push_scattering_density_pass(v, p, order);
    push_indirect_irradiance_pass(v, p, order);
    push_multiple_scattering_pass(v, p);
    assert(views(v@) =~= views(old(v)@) + add_order(*p, order));
}

/// Builds the barrier that hands `image` over at the end of the run.
pub fn release_barrier(
    image: ImageId,
    p: &Parameters,
    gfx_queue_family: u32,
    compute_queue_family: Option<u32>,
) -> (r: ImageBarrier)
    ensures
        r == spec_release_barrier(image, *p, gfx_queue_family, compute_queue_family),
{
    let barrier = ImageBarrier {
        dst_access_mask: p.dst_access_mask,
        new_layout: p.layout,
        src_queue_family_index: source_family(gfx_queue_family, compute_queue_family),
        dst_queue_family_index: gfx_queue_family,
        ..ImageBarrier::write_read(image)
    };
    match image {
        ImageId::Transmittance => ImageBarrier {
            src_access_mask: 0,
            old_layout: LAYOUT_SHADER_READ_ONLY_OPTIMAL,
            ..barrier
        },
        _ => barrier,
    }
}

/// Builds the barrier that ends the run.
pub fn finalize(p: &Parameters, gfx_queue_family: u32, compute_queue_family: Option<u32>) -> (r:
    Command)
    ensures
        r@ == finalization(*p, gfx_queue_family, compute_queue_family),
{
    Command::PipelineBarrier {
        src_stage_mask: STAGE_COMPUTE_SHADER,
        dst_stage_mask: p.dst_stage_mask,
        buffers: one(
            BufferBarrier {
                src_access_mask: ACCESS_UNIFORM_READ,
                dst_access_mask: 0,
                src_queue_family_index: source_family(gfx_queue_family, compute_queue_family),
                dst_queue_family_index: gfx_queue_family,
            },
        ),
        images: three(
            release_barrier(ImageId::Scattering, p, gfx_queue_family, compute_queue_family),
            release_barrier(ImageId::Irradiance, p, gfx_queue_family, compute_queue_family),
            release_barrier(ImageId::Transmittance, p, gfx_queue_family, compute_queue_family),
        ),
    }
}

/// Lists the commands of a run with parameters `p`, on a device whose
/// graphics queue family is `gfx_queue_family` and whose compute work runs on
/// `compute_queue_family` where that is set. The commands are in order and
/// carry the run through.
pub fn record(p: &Parameters, gfx_queue_family: u32, compute_queue_family: Option<u32>) -> (r: Vec<
    Command,
>)
    requires
        p.valid(),
    ensures
        views(r@) == schedule(*p, gfx_queue_family, compute_queue_family),
        completes(views(r@), *p),
{
    proof {
        lemma_schedule_in_order(*p, gfx_queue_family, compute_queue_family);
    }
    let mut v: Vec<Command> = Vec::new();
    assert(views(v@) =~= seq![]);
    push_first_order(&mut v, p);
    assert(views(v@) =~= first_order(*p) + higher_orders(*p, 0));
    let mut added: u32 = 0;
    while added < p.order - 1
        invariant
            p.valid(),
            added <= p.order - 1,
            views(v@) == first_order(*p) + higher_orders(*p, added as nat),
        decreases p.order - 1 - added,
    {
        let ghost before = views(v@);
        push_add_order(&mut v, p, added + 2);
        added += 1;
        assert(views(v@) =~= first_order(*p) + higher_orders(*p, added as nat)) by {
            assert(higher_orders(*p, added as nat) == higher_orders(*p, (added - 1) as nat)
                + add_order(*p, (added + 1) as u32));
        }
    }
    let last = finalize(p, gfx_queue_family, compute_queue_family);
    push_command(&mut v, last);
    v
}

} // verus!
