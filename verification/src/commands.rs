//! The commands a run records, as plain values.

use crate::catalog::{ImageId, PassKind, SetId};
use crate::raw::{
    ACCESS_SHADER_READ, ACCESS_SHADER_WRITE, IMAGE_ASPECT_COLOR, LAYOUT_GENERAL,
    LAYOUT_SHADER_READ_ONLY_OPTIMAL, LAYOUT_UNDEFINED, QUEUE_FAMILY_IGNORED,
};
use vstd::prelude::*;

verus! {

/// A memory barrier on the parameter buffer, over its whole size.
#[derive(Clone, Copy, Debug, PartialEq, Eq, Structural)]
pub struct BufferBarrier {
    pub src_access_mask: u32,
    pub dst_access_mask: u32,
    pub src_queue_family_index: u32,
    pub dst_queue_family_index: u32,
}

/// A memory barrier and layout transition on the whole of one image.
#[derive(Clone, Copy, Debug, PartialEq, Eq, Structural)]
pub struct ImageBarrier {
    pub image: ImageId,
    pub src_access_mask: u32,
    pub dst_access_mask: u32,
    pub old_layout: i32,
    pub new_layout: i32,
    pub src_queue_family_index: u32,
    pub dst_queue_family_index: u32,
}

/// The part of an image that barriers, views and clears address.
#[derive(Clone, Copy, Debug, PartialEq, Eq, Structural)]
pub struct SubresourceRange {
    pub aspect_mask: u32,
    pub base_mip_level: u32,
    pub level_count: u32,
    pub base_array_layer: u32,
    pub layer_count: u32,
}

/// The value that an image is cleared to. Each component holds the bits of
/// an IEEE 754 single.
#[derive(Clone, Copy, Debug, PartialEq, Eq, Structural)]
pub struct ClearColor {
    pub red: u32,
    pub green: u32,
    pub blue: u32,
    pub alpha: u32,
}

impl ClearColor {
    /// Whether every component is zero.
    pub open spec fn is_zero(self) -> bool {
        self.red == 0 && self.green == 0 && self.blue == 0 && self.alpha == 0
    }

    /// Tests `is_zero`.
    pub fn zero(&self) -> (r: bool)
        ensures
            r == self.is_zero(),
    {
        self.red == 0 && self.green == 0 && self.blue == 0 && self.alpha == 0
    }

    /// Zero in every component.
    pub open spec fn spec_zeros() -> ClearColor {
        ClearColor { red: 0, green: 0, blue: 0, alpha: 0 }
    }

    #[verifier::when_used_as_spec(spec_zeros)]
    pub fn zeros() -> (r: ClearColor)
        ensures
            r == Self::spec_zeros(),
    {
        ClearColor { red: 0, green: 0, blue: 0, alpha: 0 }
    }
}

/// The whole of a colour image with one level and one layer.
pub open spec fn spec_whole_image() -> SubresourceRange {
    SubresourceRange {
        aspect_mask: IMAGE_ASPECT_COLOR,
        base_mip_level: 0,
        level_count: 1,
        base_array_layer: 0,
        layer_count: 1,
    }
}

#[verifier::when_used_as_spec(spec_whole_image)]
pub fn whole_image() -> (r: SubresourceRange)
    ensures
        r == spec_whole_image(),
{
    SubresourceRange {
        aspect_mask: IMAGE_ASPECT_COLOR,
        base_mip_level: 0,
        level_count: 1,
        base_array_layer: 0,
        layer_count: 1,
    }
}

impl ImageBarrier {
    /// Discards what the image held and readies it for shader writes.
    pub open spec fn spec_init(image: ImageId) -> ImageBarrier {
        ImageBarrier {
            image,
            src_access_mask: 0,
            dst_access_mask: ACCESS_SHADER_WRITE,
            old_layout: LAYOUT_UNDEFINED,
            new_layout: LAYOUT_GENERAL,
            src_queue_family_index: QUEUE_FAMILY_IGNORED,
            dst_queue_family_index: QUEUE_FAMILY_IGNORED,
        }
    }

    /// Makes shader writes visible to sampling.
    pub open spec fn spec_write_read(image: ImageId) -> ImageBarrier {
        ImageBarrier {
            image,
            src_access_mask: ACCESS_SHADER_WRITE,
            dst_access_mask: ACCESS_SHADER_READ,
            old_layout: LAYOUT_GENERAL,
            new_layout: LAYOUT_SHADER_READ_ONLY_OPTIMAL,
            src_queue_family_index: QUEUE_FAMILY_IGNORED,
            dst_queue_family_index: QUEUE_FAMILY_IGNORED,
        }
    }

    /// Lets shader writes follow sampling.
    pub open spec fn spec_read_write(image: ImageId) -> ImageBarrier {
        ImageBarrier {
            image,
            src_access_mask: ACCESS_SHADER_READ,
            dst_access_mask: ACCESS_SHADER_WRITE,
            old_layout: LAYOUT_SHADER_READ_ONLY_OPTIMAL,
            new_layout: LAYOUT_GENERAL,
            src_queue_family_index: QUEUE_FAMILY_IGNORED,
            dst_queue_family_index: QUEUE_FAMILY_IGNORED,
        }
    }

    /// Makes shader writes visible to the next pass that accumulates into
    /// the image.
    pub open spec fn spec_write(image: ImageId) -> ImageBarrier {
        ImageBarrier {
            image,
            src_access_mask: ACCESS_SHADER_WRITE,
            dst_access_mask: ACCESS_SHADER_READ | ACCESS_SHADER_WRITE,
            old_layout: LAYOUT_GENERAL,
            new_layout: LAYOUT_GENERAL,
            src_queue_family_index: QUEUE_FAMILY_IGNORED,
            dst_queue_family_index: QUEUE_FAMILY_IGNORED,
        }
    }

    #[verifier::when_used_as_spec(spec_init)]
    pub fn init(image: ImageId) -> (r: ImageBarrier)
        ensures
            r == Self::spec_init(image),
    {
        ImageBarrier {
            image,
            src_access_mask: 0,
            dst_access_mask: ACCESS_SHADER_WRITE,
            old_layout: LAYOUT_UNDEFINED,
            new_layout: LAYOUT_GENERAL,
            src_queue_family_index: QUEUE_FAMILY_IGNORED,
            dst_queue_family_index: QUEUE_FAMILY_IGNORED,
        }
    }

    #[verifier::when_used_as_spec(spec_write_read)]
    pub fn write_read(image: ImageId) -> (r: ImageBarrier)
        ensures
            r == Self::spec_write_read(image),
    {
        ImageBarrier {
            src_access_mask: ACCESS_SHADER_WRITE,
            dst_access_mask: ACCESS_SHADER_READ,
            old_layout: LAYOUT_GENERAL,
            new_layout: LAYOUT_SHADER_READ_ONLY_OPTIMAL,
            ..Self::init(image)
        }
    }

    #[verifier::when_used_as_spec(spec_read_write)]
    pub fn read_write(image: ImageId) -> (r: ImageBarrier)
        ensures
            r == Self::spec_read_write(image),
    {
        ImageBarrier {
            src_access_mask: ACCESS_SHADER_READ,
            old_layout: LAYOUT_SHADER_READ_ONLY_OPTIMAL,
            ..Self::init(image)
        }
    }

    #[verifier::when_used_as_spec(spec_write)]
    pub fn write(image: ImageId) -> (r: ImageBarrier)
        ensures
            r == Self::spec_write(image),
    {
        ImageBarrier {
            src_access_mask: ACCESS_SHADER_WRITE,
            dst_access_mask: ACCESS_SHADER_READ | ACCESS_SHADER_WRITE,
            old_layout: LAYOUT_GENERAL,
            ..Self::init(image)
        }
    }
}

/// One command of a command buffer.
#[derive(Clone, Debug, PartialEq, Eq)]
pub enum Command {
    /// Copies 32-bit words into the parameter buffer, from its start.
    UpdateBuffer { data: Vec<u32> },
    /// Orders what came before against what comes after.
    PipelineBarrier {
        src_stage_mask: u32,
        dst_stage_mask: u32,
        buffers: Vec<BufferBarrier>,
        images: Vec<ImageBarrier>,
    },
    /// Binds the compute pipeline of a pass.
    BindPipeline { pass: PassKind },
    /// Binds descriptor sets for compute, through the pipeline layout of
    /// `layout`, from set number `first_set` on.
    BindDescriptorSets { layout: PassKind, first_set: u32, sets: Vec<SetId> },
    /// Hands one 32-bit constant to compute shaders, through the pipeline
    /// layout of `layout`, at offset 0.
    PushConstants { layout: PassKind, value: u32 },
    /// Launches the bound compute pipeline.
    Dispatch { x: u32, y: u32, z: u32 },
    /// Fills the whole of an image, in layout `image_layout`, with `color`.
    ClearColorImage { image: ImageId, image_layout: i32, color: ClearColor },
}

/// A command as contracts see it.
pub enum CommandView {
    UpdateBuffer { data: Seq<u32> },
    PipelineBarrier {
        src_stage_mask: u32,
        dst_stage_mask: u32,
        buffers: Seq<BufferBarrier>,
        images: Seq<ImageBarrier>,
    },
    BindPipeline { pass: PassKind },
    BindDescriptorSets { layout: PassKind, first_set: u32, sets: Seq<SetId> },
    PushConstants { layout: PassKind, value: u32 },
    Dispatch { x: u32, y: u32, z: u32 },
    ClearColorImage { image: ImageId, image_layout: i32, color: ClearColor },
}

impl View for Command {
    type V = CommandView;

    open spec fn view(&self) -> CommandView {
        match *self {
            Command::UpdateBuffer { data } => CommandView::UpdateBuffer { data: data@ },
            Command::PipelineBarrier { src_stage_mask, dst_stage_mask, buffers, images } => {
                CommandView::PipelineBarrier {
                    src_stage_mask,
                    dst_stage_mask,
                    buffers: buffers@,
                    images: images@,
                }
            },
            Command::BindPipeline { pass } => CommandView::BindPipeline { pass },
            Command::BindDescriptorSets { layout, first_set, sets } => {
                CommandView::BindDescriptorSets { layout, first_set, sets: sets@ }
            },
            Command::PushConstants { layout, value } => CommandView::PushConstants {
                layout,
                value,
            },
            Command::Dispatch { x, y, z } => CommandView::Dispatch { x, y, z },
            Command::ClearColorImage { image, image_layout, color } => {
                CommandView::ClearColorImage { image, image_layout, color }
            },
        }
    }
}

/// The commands of a recording as contracts see them.
pub open spec fn views(commands: Seq<Command>) -> Seq<CommandView> {
    Seq::new(commands.len(), |i: int| commands[i]@)
}

/// Appending a command appends its view.
pub proof fn lemma_views_push(commands: Seq<Command>, command: Command)
    ensures
        views(commands.push(command)) == views(commands).push(command@),
{
    assert(views(commands.push(command)) =~= views(commands).push(command@));
}

} // verus!
