use vstd::prelude::*;

use crate::error::{HothamError, HothamResult};
use crate::resources::Extent2D;
use crate::VIEW_COUNT;

verus! {

/// Which of the renderer's two fixed formats an attachment uses: the colour
/// format of the swapchain images, or the depth format.
#[derive(Debug, Clone, Copy, PartialEq, Eq, Structural)]
pub enum AttachmentFormat {
    Color,
    Depth,
}

#[derive(Debug, Clone, Copy, PartialEq, Eq, Structural)]
pub enum LoadOp {
    Clear,
    DontCare,
}

#[derive(Debug, Clone, Copy, PartialEq, Eq, Structural)]
pub enum StoreOp {
    Store,
    DontCare,
}

#[derive(Debug, Clone, Copy, PartialEq, Eq, Structural)]
pub enum ImageLayout {
    Undefined,
    ColorAttachmentOptimal,
    DepthStencilAttachmentOptimal,
}

/// One attachment of the render pass, single-sampled.
#[derive(Debug, Clone, Copy, PartialEq, Eq, Structural)]
pub struct AttachmentDesc {
    pub format: AttachmentFormat,
    pub load_op: LoadOp,
    pub store_op: StoreOp,
    pub stencil_load_op: LoadOp,
    pub stencil_store_op: StoreOp,
    pub initial_layout: ImageLayout,
    pub final_layout: ImageLayout,
}

/// The dependency from outside the render pass into its only subpass:
/// colour and depth writes wait for the colour-output and early
/// fragment-test stages of earlier work.
#[derive(Debug, Clone, Copy, PartialEq, Eq, Structural)]
pub struct DependencyDesc {
    pub src_external: bool,
    pub dst_subpass: u32,
    pub stage_color_attachment_output: bool,
    pub stage_early_fragment_tests: bool,
    pub dst_color_attachment_write: bool,
    pub dst_depth_stencil_attachment_write: bool,
}

/// A subpass's use of one attachment of the render pass.
#[derive(Debug, Clone, Copy, PartialEq, Eq, Structural)]
pub struct AttachmentRef {
    pub attachment: u32,
    pub layout: ImageLayout,
}

/// The stereo render pass: a colour attachment (index 0), a depth
/// attachment (index 1), one graphics subpass that writes the colour
/// attachment and tests against the depth attachment, one external
/// dependency, and the multiview masks of that subpass.
#[derive(Debug, Clone, Copy, PartialEq, Eq, Structural)]
pub struct RenderPassDesc {
    pub color: AttachmentDesc,
    pub depth: AttachmentDesc,
    pub subpass_color: AttachmentRef,
    pub subpass_depth: AttachmentRef,
    pub dependency: DependencyDesc,
    pub view_mask: u32,
    pub correlation_mask: u32,
}

/// A mask with the lowest `view_count` bits set.
pub fn view_mask(view_count: u32) -> (r: u32)
    requires
        view_count < 32,
    ensures
        r as int == (1u32 << view_count) as int - 1,
        forall|b: u32| b < 32 ==> (#[trigger] (r & (1u32 << b)) != 0 <==> b < view_count),
{
    let r = !(!0u32 << view_count);
    assert(r == ((1u32 << view_count) - 1) as u32 && (1u32 << view_count) >= 1) by (bit_vector)
        requires
            view_count < 32,
            r == !(!0u32 << view_count),
    ;
    assert forall|b: u32| b < 32 implies (#[trigger] (r & (1u32 << b)) != 0 <==> b < view_count) by {
        assert((r & (1u32 << b)) != 0 <==> b < view_count) by (bit_vector)
            requires
                view_count < 32,
                b < 32,
                r == !(!0u32 << view_count),
        ;
    }
    r
}

/// The render pass the renderer draws with.
pub fn render_pass_description() -> (r: RenderPassDesc)
    ensures
        r.color == (AttachmentDesc {
            format: AttachmentFormat::Color,
            load_op: LoadOp::Clear,
            store_op: StoreOp::Store,
            stencil_load_op: LoadOp::DontCare,
            stencil_store_op: StoreOp::DontCare,
            initial_layout: ImageLayout::Undefined,
            final_layout: ImageLayout::ColorAttachmentOptimal,
        }),
        r.depth == (AttachmentDesc {
            format: AttachmentFormat::Depth,
            load_op: LoadOp::Clear,
            store_op: StoreOp::DontCare,
            stencil_load_op: LoadOp::DontCare,
            stencil_store_op: StoreOp::DontCare,
            initial_layout: ImageLayout::Undefined,
            final_layout: ImageLayout::DepthStencilAttachmentOptimal,
        }),
        r.dependency == (DependencyDesc {
            src_external: true,
            dst_subpass: 0,
            stage_color_attachment_output: true,
            stage_early_fragment_tests: true,
            dst_color_attachment_write: true,
            dst_depth_stencil_attachment_write: true,
        }),
        r.subpass_color == (AttachmentRef { attachment: 0, layout: ImageLayout::ColorAttachmentOptimal }),
        r.subpass_depth == (AttachmentRef {
            attachment: 1,
            layout: ImageLayout::DepthStencilAttachmentOptimal,
        }),
        r.view_mask == 3,
        r.correlation_mask == r.view_mask,
{
    let mask = view_mask(VIEW_COUNT);
    assert((1u32 << 2u32) == 4u32) by (bit_vector);
    RenderPassDesc {
        color: AttachmentDesc {
            format: AttachmentFormat::Color,
            load_op: LoadOp::Clear,
            store_op: StoreOp::Store,
            stencil_load_op: LoadOp::DontCare,
            stencil_store_op: StoreOp::DontCare,
            initial_layout: ImageLayout::Undefined,
            final_layout: ImageLayout::ColorAttachmentOptimal,
        },
        depth: AttachmentDesc {
            format: AttachmentFormat::Depth,
            load_op: LoadOp::Clear,
            store_op: StoreOp::DontCare,
            stencil_load_op: LoadOp::DontCare,
            stencil_store_op: StoreOp::DontCare,
            initial_layout: ImageLayout::Undefined,
            final_layout: ImageLayout::DepthStencilAttachmentOptimal,
        },
        subpass_color: AttachmentRef { attachment: 0, layout: ImageLayout::ColorAttachmentOptimal },
        subpass_depth: AttachmentRef { attachment: 1, layout: ImageLayout::DepthStencilAttachmentOptimal },
        dependency: DependencyDesc {
            src_external: true,
            dst_subpass: 0,
            stage_color_attachment_output: true,
            stage_early_fragment_tests: true,
            dst_color_attachment_write: true,
            dst_depth_stencil_attachment_write: true,
        },
        view_mask: mask,
        correlation_mask: mask,
    }
}

#[derive(Debug, Clone, Copy, PartialEq, Eq, Structural)]
pub enum Topology {
    TriangleList,
}

#[derive(Debug, Clone, Copy, PartialEq, Eq, Structural)]
pub enum CullMode {
    Disabled,
    Front,
    Back,
}

#[derive(Debug, Clone, Copy, PartialEq, Eq, Structural)]
pub enum FrontFace {
    CounterClockwise,
    Clockwise,
}

#[derive(Debug, Clone, Copy, PartialEq, Eq, Structural)]
pub enum PolygonMode {
    Fill,
    Line,
    Point,
}

/// Colour channels written by the colour attachment, as a mask.
pub const COLOR_WRITE_R: u32 = 1;
pub const COLOR_WRITE_G: u32 = 2;
pub const COLOR_WRITE_B: u32 = 4;
pub const COLOR_WRITE_A: u32 = 8;

#[derive(Debug, Clone, Copy, PartialEq, Eq, Structural)]
pub enum CompareOp {
    Less,
    LessOrEqual,
    Greater,
    GreaterOrEqual,
}

/// The fixed-function state of the graphics pipeline. The viewport and the
/// depth bounds span depths 0 to 1 and lines are 1 pixel wide; the shaders'
/// entry points are `main`; vertex attributes are supplied by the vertex
/// type.
#[derive(Debug, Clone, Copy, PartialEq, Eq, Structural)]
pub struct PipelineDesc {
    pub vertex_binding: u32,
    pub vertex_stride: u32,
    pub topology: Topology,
    pub viewport: Extent2D,
    pub scissor: Extent2D,
    pub polygon_mode: PolygonMode,
    pub cull_mode: CullMode,
    pub front_face: FrontFace,
    pub rasterizer_discard: bool,
    pub depth_clamp: bool,
    pub depth_bias: bool,
    pub depth_test: bool,
    pub depth_write: bool,
    pub depth_compare: CompareOp,
    pub depth_bounds_test: bool,
    pub stencil_test: bool,
    pub color_attachments: u32,
    pub color_write_mask: u32,
    pub blend: bool,
    pub logic_op: bool,
    pub samples: u32,
    pub dynamic_state: bool,
    pub subpass: u32,
}

/// The pipeline state for a render area and a vertex stride: triangle
/// lists, a viewport and scissor over the whole render area, back faces
/// culled with counter-clockwise front faces, filled polygons, no depth
/// bias or clamp, reverse-Z depth testing (less-or-equal against a clear
/// value of 0), one colour attachment writing all four channels without
/// blending or logic op, one sample, no dynamic state.
pub fn pipeline_description(render_area: Extent2D, vertex_stride: u32) -> (r: PipelineDesc)
    ensures
        r == (PipelineDesc {
            vertex_binding: 0,
            vertex_stride,
            topology: Topology::TriangleList,
            viewport: render_area,
            scissor: render_area,
            polygon_mode: PolygonMode::Fill,
            cull_mode: CullMode::Back,
            front_face: FrontFace::CounterClockwise,
            rasterizer_discard: false,
            depth_clamp: false,
            depth_bias: false,
            depth_test: true,
            depth_write: true,
            depth_compare: CompareOp::LessOrEqual,
            depth_bounds_test: false,
            stencil_test: false,
            color_attachments: 1,
            color_write_mask: 15,
            blend: false,
            logic_op: false,
            samples: 1,
            dynamic_state: false,
            subpass: 0,
        }),
{
    let d = PipelineDesc {
        vertex_binding: 0,
        vertex_stride,
        topology: Topology::TriangleList,
        viewport: render_area,
        scissor: render_area,
        polygon_mode: PolygonMode::Fill,
        cull_mode: CullMode::Back,
        front_face: FrontFace::CounterClockwise,
        rasterizer_discard: false,
        depth_clamp: false,
        depth_bias: false,
        depth_test: true,
        depth_write: true,
        depth_compare: CompareOp::LessOrEqual,
        depth_bounds_test: false,
        stencil_test: false,
        color_attachments: 1,
        color_write_mask: COLOR_WRITE_R | COLOR_WRITE_G | COLOR_WRITE_B | COLOR_WRITE_A,
        blend: false,
        logic_op: false,
        samples: 1,
        dynamic_state: false,
        subpass: 0,
    };
    assert(COLOR_WRITE_R | COLOR_WRITE_G | COLOR_WRITE_B | COLOR_WRITE_A == 15) by (bit_vector);
    d
}

/// The pipeline taken out of what the driver's pipeline creation returned.
pub open spec fn pipeline_outcome(created: Result<Vec<u64>, i32>) -> HothamResult<u64> {
    match created {
        Err(code) => Err(HothamError::ResourceCreationFailure(code)),
        Ok(p) => if p@.len() == 0 {
            Err(HothamError::EmptyListError)
        } else {
            Ok(p@.last())
        },
    }
}

/// Takes the pipeline out of what the driver's pipeline creation returned:
/// a rejected creation (malformed shader bytecode among the causes) is a
/// `ResourceCreationFailure` with the driver's code, and an empty list of
/// pipelines is an `EmptyListError`. Otherwise the last pipeline created.
pub fn pipeline_from_results(created: Result<Vec<u64>, i32>) -> (r: HothamResult<u64>)
    ensures
        r == pipeline_outcome(created),
{
    match created {
        Err(code) => Err(HothamError::ResourceCreationFailure(code)),
        Ok(mut pipelines) => match pipelines.pop() {
            Some(p) => Ok(p),
            None => Err(HothamError::EmptyListError),
        },
    }
}

} // verus!
