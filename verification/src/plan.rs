//! The fixed plans the host executes against the GPU backend: how the
//! render pipeline is put together and what one redraw does.

use vstd::prelude::*;

verus! {

/// Select the swap-chain format from the surface's reported capability
/// list: the first reported format, or nothing when the list is empty
/// (a fatal condition for the host).
pub fn select_swapchain_format<T: Copy>(formats: &Vec<T>) -> (r: Option<T>)
    ensures
        r is Some <==> formats@.len() > 0,
        r matches Some(f) ==> f == formats@[0],
{
    if formats.len() > 0 {
        Some(formats[0])
    } else {
        None
    }
}

/// The entry point names of the embedded shader's two stages, vertex
/// then fragment.
pub fn shader_entry_points() -> (r: (&'static str, &'static str))
    ensures
        r.0@ == "vs_main"@,
        r.1@ == "fs_main"@,
{
    ("vs_main", "fs_main")
}

/// How the render pipeline is put together, as plain data the host hands
/// to the GPU backend.
#[derive(Clone, Copy, Debug, PartialEq, Eq, Structural)]
pub struct PipelinePlan {
    /// Index into the surface's reported format list of the colour
    /// target format.
    pub format_index: usize,
    /// Bind group layouts in the pipeline layout.
    pub bind_group_layouts: usize,
    /// Push constant ranges in the pipeline layout.
    pub push_constant_ranges: usize,
    /// Vertex buffers bound to the vertex stage.
    pub vertex_buffers: usize,
    /// Whether a depth/stencil attachment is attached.
    pub depth_stencil: bool,
}

/// The pipeline for a surface reporting `format_count` presentation
/// formats: the first reported format becomes the colour target, the
/// layout is empty (no bind groups, no push constants), no vertex
/// buffers, no depth/stencil. A surface reporting no format at all has
/// no pipeline — a fatal condition for the host.
pub fn plan_pipeline(format_count: usize) -> (r: Option<PipelinePlan>)
    ensures
        r is Some <==> format_count > 0,
        r matches Some(p) ==> p == (PipelinePlan {
            format_index: 0,
            bind_group_layouts: 0,
            push_constant_ranges: 0,
            vertex_buffers: 0,
            depth_stencil: false,
        }),
{
    if format_count > 0 {
        Some(PipelinePlan {
            format_index: 0,
            bind_group_layouts: 0,
            push_constant_ranges: 0,
            vertex_buffers: 0,
            depth_stencil: false,
        })
    } else {
        None
    }
}

/// One redraw: a single render pass over one colour attachment that
/// clears it and draws the triangle, then one submit and one present.
/// Clear colour channels are on the unit scale (0 none, 1 full).
#[derive(Clone, Copy, Debug, PartialEq, Eq, Structural)]
pub struct RedrawPlan {
    /// Red channel of the clear colour.
    pub clear_red: u8,
    /// Green channel of the clear colour.
    pub clear_green: u8,
    /// Blue channel of the clear colour.
    pub clear_blue: u8,
    /// Alpha channel of the clear colour.
    pub clear_alpha: u8,
    /// Colour attachments of the render pass.
    pub color_attachments: usize,
    /// Whether the pass has a depth/stencil attachment.
    pub depth_stencil: bool,
    /// Vertices in the single draw call (positions generated by the
    /// vertex shader; no vertex buffer is bound).
    pub vertex_count: u32,
    /// Instances in the single draw call.
    pub instance_count: u32,
    /// Command buffers submitted to the queue.
    pub submits: u32,
    /// Frames presented.
    pub presents: u32,
}

/// The fixed drawing commands of every frame.
pub open spec fn spec_redraw_plan() -> RedrawPlan {
    RedrawPlan {
        clear_red: 0,
        clear_green: 1,
        clear_blue: 0,
        clear_alpha: 1,
        color_attachments: 1,
        depth_stencil: false,
        vertex_count: 3,
        instance_count: 1,
        submits: 1,
        presents: 1,
    }
}

/// The per-frame drawing commands: clear the single colour attachment to
/// opaque green (0, 1, 0), draw one triangle (3 vertices, 1 instance),
/// submit one command buffer, present one frame.
pub fn redraw_plan() -> (r: RedrawPlan)
    ensures
        r == spec_redraw_plan(),
        r.submits == 1 && r.presents == 1,
{
    RedrawPlan {
        clear_red: 0,
        clear_green: 1,
        clear_blue: 0,
        clear_alpha: 1,
        color_attachments: 1,
        depth_stencil: false,
        vertex_count: 3,
        instance_count: 1,
        submits: 1,
        presents: 1,
    }
}

} // verus!
