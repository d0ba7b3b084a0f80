//! Drawing the sky from the tables of a ready atmosphere.

use crate::atmosphere::Atmosphere;
use crate::builder::{Object, ObjectKind};
use crate::catalog::{PipelineLayoutInfo, PushConstantRange, SetId, SetLayoutId};
use crate::raw::{
    BLEND_FACTOR_ONE, BLEND_FACTOR_SRC1_COLOR, BLEND_FACTOR_ZERO, BLEND_OP_ADD,
    COLOR_COMPONENT_ALL, COMPARE_OP_ALWAYS, CULL_MODE_NONE, DESCRIPTOR_INPUT_ATTACHMENT,
    DYNAMIC_STATE_SCISSOR, DYNAMIC_STATE_VIEWPORT, POLYGON_MODE_FILL, SAMPLE_COUNT_1,
    SHADER_STAGE_FRAGMENT, STENCIL_OP_KEEP, TOPOLOGY_TRIANGLE_LIST,
};
use vstd::prelude::*;

verus! {

/// The size in bytes of the packed parameters of a draw.
pub const DRAW_PARAMS_SIZE: u32 = 92;

/// The number of 32-bit words in the packed parameters of a draw.
pub const DRAW_PARAMS_WORDS: usize = 23;

/// Rendering parameters for an individual frame.
///
/// All coordinates are in the planet's reference frame. Every entry holds
/// the bits of an IEEE 754 single.
#[derive(Clone, Copy, Debug, PartialEq, Eq)]
pub struct DrawParameters {
    /// (projection * view)^-1
    pub inverse_viewproj: [[u32; 4]; 4],
    pub camera_position: [u32; 3],
    pub sun_direction: [u32; 3],
}

/// The parameters of a draw in packed order.
#[derive(Clone, Copy, Debug, PartialEq, Eq)]
pub struct DrawParamsRaw {
    pub inverse_viewproj: [[u32; 4]; 4],
    pub camera_position: [u32; 3],
    pub _padding: u32,
    pub sun_direction: [u32; 3],
}

/// The four words of a row of a matrix.
pub open spec fn row(r: [u32; 4]) -> Seq<u32> {
    seq![r[0], r[1], r[2], r[3]]
}

/// The three words of a vector.
pub open spec fn vector(v: [u32; 3]) -> Seq<u32> {
    seq![v[0], v[1], v[2]]
}

fn push_row(v: &mut Vec<u32>, r: &[u32; 4])
    ensures
        final(v)@ == old(v)@ + row(*r),
{
    v.push(r[0]);
    v.push(r[1]);
    v.push(r[2]);
    v.push(r[3]);
    assert(v@ =~= old(v)@ + row(*r));
}

fn push_vector(v: &mut Vec<u32>, x: &[u32; 3])
    ensures
        final(v)@ == old(v)@ + vector(*x),
{
    v.push(x[0]);
    v.push(x[1]);
    v.push(x[2]);
    assert(v@ =~= old(v)@ + vector(*x));
}

impl DrawParamsRaw {
    pub open spec fn spec_new(x: DrawParameters) -> Self {
        DrawParamsRaw {
            inverse_viewproj: x.inverse_viewproj,
            camera_position: x.camera_position,
            _padding: 0,
            sun_direction: x.sun_direction,
        }
    }

    /// Puts the parameters of a draw in packed order.
    pub fn new(x: &DrawParameters) -> (r: Self)
        ensures
            r == Self::spec_new(*x),
    {
        Self {
            inverse_viewproj: x.inverse_viewproj,
            camera_position: x.camera_position,
            _padding: 0,
            sun_direction: x.sun_direction,
        }
    }

    /// The packed block: the matrix row by row, the camera position, one
    /// word of padding, the sun direction.
    pub open spec fn words(self) -> Seq<u32> {
        row(self.inverse_viewproj[0]) + row(self.inverse_viewproj[1]) + row(
            self.inverse_viewproj[2],
        ) + row(self.inverse_viewproj[3]) + vector(self.camera_position) + seq![self._padding]
            + vector(self.sun_direction)
    }

    /// Writes the block out word by word.
    pub fn to_words(&self) -> (r: Vec<u32>)
        ensures
            r@ == self.words(),
            r.len() == DRAW_PARAMS_WORDS,
            4 * r.len() == DRAW_PARAMS_SIZE,
    {
        let mut v: Vec<u32> = Vec::new();
        push_row(&mut v, &self.inverse_viewproj[0]);
        push_row(&mut v, &self.inverse_viewproj[1]);
        push_row(&mut v, &self.inverse_viewproj[2]);
        push_row(&mut v, &self.inverse_viewproj[3]);
        push_vector(&mut v, &self.camera_position);
        v.push(self._padding);
        push_vector(&mut v, &self.sun_direction);
        assert(v@ =~= self.words());
        v
    }
}

/// The sky is drawn as one triangle that covers the target, unculled and
/// untested, and blended over what is there: the first colour that the
/// fragment shader puts out is added to the target scaled by the second.
#[derive(Clone, Copy, Debug, PartialEq, Eq, Structural)]
pub struct GraphicsPipelineInfo {
    pub topology: i32,
    pub viewport_count: u32,
    pub scissor_count: u32,
    pub cull_mode: u32,
    pub polygon_mode: i32,
    /// The bits of an IEEE 754 single.
    pub line_width: u32,
    pub rasterization_samples: u32,
    pub depth_test_enable: bool,
    pub stencil_fail_op: i32,
    pub stencil_pass_op: i32,
    pub stencil_depth_fail_op: i32,
    pub stencil_compare_op: i32,
    pub stencil_compare_mask: u32,
    pub stencil_write_mask: u32,
    pub stencil_reference: u32,
    pub blend_enable: bool,
    pub src_color_blend_factor: i32,
    pub dst_color_blend_factor: i32,
    pub color_blend_op: i32,
    pub src_alpha_blend_factor: i32,
    pub dst_alpha_blend_factor: i32,
    pub alpha_blend_op: i32,
    pub color_write_mask: u32,
    pub dynamic_viewport: i32,
    pub dynamic_scissor: i32,
    pub subpass: u32,
}

/// What a descriptor pool for frames is created from.
#[derive(Clone, Copy, Debug, PartialEq, Eq, Structural)]
pub struct FramePoolInfo {
    pub max_sets: u32,
    pub input_attachments: u32,
}

/// What one descriptor of an image is filled with.
#[derive(Clone, Copy, Debug, PartialEq, Eq, Structural)]
pub struct DescriptorImageInfo {
    pub sampler: u64,
    pub image_view: u64,
    pub image_layout: i32,
}

/// One update of the depth input attachment of a frame.
#[derive(Clone, Copy, Debug, PartialEq, Eq, Structural)]
pub struct FrameWrite {
    pub dst_set: u64,
    pub dst_binding: u32,
    pub dst_array_element: u32,
    pub descriptor_type: i32,
    pub image: DescriptorImageInfo,
}

/// The descriptor set of one frame in flight.
#[derive(Clone, Copy, Debug, PartialEq, Eq, Structural)]
pub struct Frame {
    pub ds: u64,
}

/// One command of a draw, with the handles it names.
#[derive(Clone, Debug, PartialEq, Eq)]
pub enum DrawCommand {
    /// Binds a pipeline for graphics.
    BindPipeline { pipeline: u64 },
    /// Binds descriptor sets for graphics.
    BindDescriptorSets { layout: u64, first_set: u32, sets: Vec<u64> },
    /// Hands 32-bit words to the shaders of `stage_flags`.
    PushConstants { layout: u64, stage_flags: u32, offset: u32, data: Vec<u32> },
    /// Draws.
    Draw { vertex_count: u32, instance_count: u32, first_vertex: u32, first_instance: u32 },
}

/// A command of a draw as contracts see it.
pub enum DrawCommandView {
    BindPipeline { pipeline: u64 },
    BindDescriptorSets { layout: u64, first_set: u32, sets: Seq<u64> },
    PushConstants { layout: u64, stage_flags: u32, offset: u32, data: Seq<u32> },
    Draw { vertex_count: u32, instance_count: u32, first_vertex: u32, first_instance: u32 },
}

impl View for DrawCommand {
    type V = DrawCommandView;

    open spec fn view(&self) -> DrawCommandView {
        match *self {
            DrawCommand::BindPipeline { pipeline } => DrawCommandView::BindPipeline { pipeline },
            DrawCommand::BindDescriptorSets { layout, first_set, sets } => {
                DrawCommandView::BindDescriptorSets { layout, first_set, sets: sets@ }
            },
            DrawCommand::PushConstants { layout, stage_flags, offset, data } => {
                DrawCommandView::PushConstants { layout, stage_flags, offset, data: data@ }
            },
            DrawCommand::Draw { vertex_count, instance_count, first_vertex, first_instance } => {
                DrawCommandView::Draw { vertex_count, instance_count, first_vertex, first_instance }
            },
        }
    }
}

/// The commands of a draw as contracts see them.
pub open spec fn draw_views(commands: Seq<DrawCommand>) -> Seq<DrawCommandView> {
    Seq::new(commands.len(), |i: int| commands[i]@)
}

/// Draws atmospheres.
#[derive(Debug)]
pub struct Renderer {
    pipeline_layout: u64,
    pipeline: u64,
    frame_pool: u64,
    frames: Vec<Frame>,
}

impl Renderer {
    /// The pipeline layout of the renderer: the atmosphere's set at set 0,
    /// the frame's set at set 1, and the parameters of the draw as push
    /// constants of the fragment shader.
    pub open spec fn spec_pipeline_layout() -> PipelineLayoutInfo {
        PipelineLayoutInfo {
            first: SetLayoutId::Run(SetId::Render),
            second: SetLayoutId::Frame,
            push_constants: Some(
                PushConstantRange {
                    stage_flags: SHADER_STAGE_FRAGMENT,
                    offset: 0,
                    size: DRAW_PARAMS_SIZE,
                },
            ),
        }
    }

    #[verifier::when_used_as_spec(spec_pipeline_layout)]
    pub fn pipeline_layout() -> (r: PipelineLayoutInfo)
        ensures
            r == Self::spec_pipeline_layout(),
    {
        PipelineLayoutInfo {
            first: SetLayoutId::Run(SetId::Render),
            second: SetLayoutId::Frame,
            push_constants: Some(
                PushConstantRange {
                    stage_flags: SHADER_STAGE_FRAGMENT,
                    offset: 0,
                    size: DRAW_PARAMS_SIZE,
                },
            ),
        }
    }

    /// The fixed state of the renderer's pipeline in subpass `subpass`.
    pub open spec fn spec_pipeline_info(subpass: u32) -> GraphicsPipelineInfo {
        GraphicsPipelineInfo {
            topology: TOPOLOGY_TRIANGLE_LIST,
            viewport_count: 1,
            scissor_count: 1,
            cull_mode: CULL_MODE_NONE,
            polygon_mode: POLYGON_MODE_FILL,
            line_width: 0x3f80_0000,
            rasterization_samples: SAMPLE_COUNT_1,
            depth_test_enable: false,
            stencil_fail_op: STENCIL_OP_KEEP,
            stencil_pass_op: STENCIL_OP_KEEP,
            stencil_depth_fail_op: STENCIL_OP_KEEP,
            stencil_compare_op: COMPARE_OP_ALWAYS,
            stencil_compare_mask: 0,
            stencil_write_mask: 0,
            stencil_reference: 0,
            blend_enable: true,
            src_color_blend_factor: BLEND_FACTOR_ONE,
            dst_color_blend_factor: BLEND_FACTOR_SRC1_COLOR,
            color_blend_op: BLEND_OP_ADD,
            src_alpha_blend_factor: BLEND_FACTOR_ZERO,
            dst_alpha_blend_factor: BLEND_FACTOR_ONE,
            alpha_blend_op: BLEND_OP_ADD,
            color_write_mask: COLOR_COMPONENT_ALL,
            dynamic_viewport: DYNAMIC_STATE_VIEWPORT,
            dynamic_scissor: DYNAMIC_STATE_SCISSOR,
            subpass,
        }
    }

    #[verifier::when_used_as_spec(spec_pipeline_info)]
    pub fn pipeline_info(subpass: u32) -> (r: GraphicsPipelineInfo)
        ensures
            r == Self::spec_pipeline_info(subpass),
    {
        GraphicsPipelineInfo {
            topology: TOPOLOGY_TRIANGLE_LIST,
            viewport_count: 1,
            scissor_count: 1,
            cull_mode: CULL_MODE_NONE,
            polygon_mode: POLYGON_MODE_FILL,
            // 1.0
            line_width: 0x3f80_0000,
            rasterization_samples: SAMPLE_COUNT_1,
            depth_test_enable: false,
            stencil_fail_op: STENCIL_OP_KEEP,
            stencil_pass_op: STENCIL_OP_KEEP,
            stencil_depth_fail_op: STENCIL_OP_KEEP,
            stencil_compare_op: COMPARE_OP_ALWAYS,
            stencil_compare_mask: 0,
            stencil_write_mask: 0,
            stencil_reference: 0,
            blend_enable: true,
            src_color_blend_factor: BLEND_FACTOR_ONE,
            dst_color_blend_factor: BLEND_FACTOR_SRC1_COLOR,
            color_blend_op: BLEND_OP_ADD,
            src_alpha_blend_factor: BLEND_FACTOR_ZERO,
            dst_alpha_blend_factor: BLEND_FACTOR_ONE,
            alpha_blend_op: BLEND_OP_ADD,
            color_write_mask: COLOR_COMPONENT_ALL,
            dynamic_viewport: DYNAMIC_STATE_VIEWPORT,
            dynamic_scissor: DYNAMIC_STATE_SCISSOR,
            subpass,
        }
    }

    /// The pool of the sets of `frames` frames: room for one set and one
    /// input attachment per frame.
    pub open spec fn spec_frame_pool(frames: u32) -> FramePoolInfo {
        FramePoolInfo { max_sets: frames, input_attachments: frames }
    }

    #[verifier::when_used_as_spec(spec_frame_pool)]
    pub fn frame_pool(frames: u32) -> (r: FramePoolInfo)
        ensures
            r == Self::spec_frame_pool(frames),
    {
        FramePoolInfo { max_sets: frames, input_attachments: frames }
    }

    /// Lists the layouts of the sets of `frames` frames: the frame layout,
    /// once per frame.
    pub fn frame_set_layouts(frames: u32) -> (r: Vec<SetLayoutId>)
        ensures
            r@ == Seq::new(frames as nat, |i: int| SetLayoutId::Frame),
    {
        let mut v: Vec<SetLayoutId> = Vec::new();
        let mut i: u32 = 0;
        while i < frames
            invariant
                i <= frames,
                v@ == Seq::new(i as nat, |i: int| SetLayoutId::Frame),
            decreases frames - i,
        {
            v.push(SetLayoutId::Frame);
            i += 1;
            assert(v@ =~= Seq::new(i as nat, |i: int| SetLayoutId::Frame));
        }
        v
    }

    /// Constructs an atmosphere renderer from its objects: its pipeline
    /// layout and pipeline, the pool of its frames, and one set per frame.
    pub fn new(pipeline_layout: u64, pipeline: u64, frame_pool: u64, frame_sets: &Vec<u64>) -> (r:
        Self)
        ensures
            r.spec_pipeline_layout_handle() == pipeline_layout,
            r.spec_pipeline() == pipeline,
            r.spec_frame_pool_handle() == frame_pool,
            r.spec_frames() == Seq::new(frame_sets@.len(), |i: int| Frame { ds: frame_sets@[i] }),
    {
        let mut frames: Vec<Frame> = Vec::new();
        let mut i: usize = 0;
        while i < frame_sets.len()
            invariant
                i <= frame_sets.len(),
                frames@ == Seq::new(i as nat, |j: int| Frame { ds: frame_sets@[j] }),
            decreases frame_sets.len() - i,
        {
            frames.push(Frame { ds: frame_sets[i] });
            i += 1;
            assert(frames@ =~= Seq::new(i as nat, |j: int| Frame { ds: frame_sets@[j] }));
        }
        Self { pipeline_layout, pipeline, frame_pool, frames }
    }

    pub closed spec fn spec_pipeline_layout_handle(&self) -> u64 {
        self.pipeline_layout
    }

    pub closed spec fn spec_pipeline(&self) -> u64 {
        self.pipeline
    }

    pub closed spec fn spec_frame_pool_handle(&self) -> u64 {
        self.frame_pool
    }

    pub closed spec fn spec_frames(&self) -> Seq<Frame> {
        self.frames@
    }

    /// The number of frames in flight.
    pub fn frame_count(&self) -> (r: usize)
        ensures
            r == self.spec_frames().len(),
    {
        self.frames.len()
    }

    /// What is destroyed with the renderer, in the order in which it is
    /// destroyed: the pool of the frames, the pipeline, the pipeline layout.
    pub open spec fn spec_release(&self) -> Seq<Object> {
        seq![
            Object {
                kind: ObjectKind::DescriptorPool,
                handle: self.spec_frame_pool_handle(),
            },
            Object {
                kind: ObjectKind::Pipeline,
                handle: self.spec_pipeline(),
            },
            Object {
                kind: ObjectKind::PipelineLayout,
                handle: self.spec_pipeline_layout_handle(),
            },
        ]
    }

    /// Lists what is destroyed with the renderer.
    pub fn release(&self) -> (r: Vec<Object>)
        ensures
            r@ == self.spec_release(),
    {
        let mut v: Vec<Object> = Vec::new();
        v.push(
            Object {
                kind: ObjectKind::DescriptorPool,
                handle: self.frame_pool,
            },
        );
        v.push(
            Object {
                kind: ObjectKind::Pipeline,
                handle: self.pipeline,
            },
        );
        v.push(
            Object {
                kind: ObjectKind::PipelineLayout,
                handle: self.pipeline_layout,
            },
        );
        assert(v@ =~= self.spec_release());
        v
    }

    /// Says how the depth buffer of frame `frame` is made known to it: as
    /// the input attachment at binding 0 of the frame's set.
    pub fn set_depth_buffer(&self, frame: u32, image: &DescriptorImageInfo) -> (r: FrameWrite)
        requires
            frame < self.spec_frames().len(),
        ensures
            r == (FrameWrite {
                dst_set: self.spec_frames()[frame as int].ds,
                dst_binding: 0,
                dst_array_element: 0,
                descriptor_type: DESCRIPTOR_INPUT_ATTACHMENT,
                image: *image,
            }),
    {
        FrameWrite {
            dst_set: self.frames[frame as usize].ds,
            dst_binding: 0,
            dst_array_element: 0,
            descriptor_type: DESCRIPTOR_INPUT_ATTACHMENT,
            image: *image,
        }
    }

    /// The commands that draw `atmosphere` in frame `frame`: bind the
    /// pipeline, bind the atmosphere's set and the frame's set, hand over the
    /// packed parameters, draw three vertices.
    pub open spec fn spec_draw(
        &self,
        atmosphere: Atmosphere,
        frame: u32,
        params: DrawParameters,
    ) -> Seq<DrawCommandView> {
        seq![
            DrawCommandView::BindPipeline { pipeline: self.spec_pipeline() },
            DrawCommandView::BindDescriptorSets {
                layout: self.spec_pipeline_layout_handle(),
                first_set: 0,
                sets: seq![
                    atmosphere.spec_descriptor_set(),
                    self.spec_frames()[frame as int].ds,
                ],
            },
            DrawCommandView::PushConstants {
                layout: self.spec_pipeline_layout_handle(),
                stage_flags: SHADER_STAGE_FRAGMENT,
                offset: 0,
                data: DrawParamsRaw::spec_new(params).words(),
            },
            DrawCommandView::Draw {
                vertex_count: 3,
                instance_count: 1,
                first_vertex: 0,
                first_instance: 0,
            },
        ]
    }

    /// Lists the commands that draw `atmosphere` in frame `frame`.
    pub fn draw(&self, atmosphere: &Atmosphere, frame: u32, params: &DrawParameters) -> (r: Vec<
        DrawCommand,
    >)
        requires
            frame < self.spec_frames().len(),
        ensures
            draw_views(r@) == self.spec_draw(*atmosphere, frame, *params),
    {
        let mut sets: Vec<u64> = Vec::new();
        sets.push(atmosphere.descriptor_set());
        sets.push(self.frames[frame as usize].ds);
        assert(sets@ =~= seq![
            atmosphere.spec_descriptor_set(),
            self.spec_frames()[frame as int].ds,
        ]);
        let mut v: Vec<DrawCommand> = Vec::new();
        v.push(DrawCommand::BindPipeline { pipeline: self.pipeline });
        v.push(DrawCommand::BindDescriptorSets { layout: self.pipeline_layout, first_set: 0, sets });
        v.push(
            DrawCommand::PushConstants {
                layout: self.pipeline_layout,
                stage_flags: SHADER_STAGE_FRAGMENT,
                offset: 0,
                data: DrawParamsRaw::new(params).to_words(),
            },
        );
        v.push(
            DrawCommand::Draw {
                vertex_count: 3,
                instance_count: 1,
                first_vertex: 0,
                first_instance: 0,
            },
        );
        assert(draw_views(v@) =~= self.spec_draw(*atmosphere, frame, *params));
        v
    }
}

} // verus!
