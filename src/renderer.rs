use vstd::prelude::*;

use crate::error::{HothamError, HothamResult};
use crate::pipeline::{pipeline_from_results, pipeline_outcome};
use crate::resources::{collect_frames, Buffer, Extent2D, Frame, Image, Release, Swapchain};

verus! {

/// One step of recording, submitting or waiting on a frame's work.
#[derive(Debug, Clone, Copy, PartialEq, Eq, Structural)]
pub enum Command {
    /// Begin a one-time-submit recording.
    BeginCommandBuffer { command_buffer: u64 },
    /// Begin the render pass inline over the whole render area, clearing
    /// colour to opaque black and depth to 0 (reverse-Z far plane).
    BeginRenderPass { command_buffer: u64, render_pass: u64, framebuffer: u64, render_area: Extent2D },
    BindPipeline { command_buffer: u64, pipeline: u64 },
    /// Bind a vertex buffer at binding 0.
    BindVertexBuffer { command_buffer: u64, buffer: u64, offset: u64 },
    /// Bind an index buffer of 32-bit indices.
    BindIndexBuffer { command_buffer: u64, buffer: u64, offset: u64 },
    DrawIndexed {
        command_buffer: u64,
        index_count: u32,
        instance_count: u32,
        first_index: u32,
        vertex_offset: i32,
        first_instance: u32,
    },
    EndRenderPass { command_buffer: u64 },
    EndCommandBuffer { command_buffer: u64 },
    /// Return the fence to the unsignaled state.
    ResetFence { fence: u64 },
    /// Submit the command buffer to the graphics queue, signalling the fence.
    Submit { command_buffer: u64, fence: u64 },
    /// Block until the fence is signaled, with no timeout.
    WaitForFence { fence: u64 },
}

/// The renderer: pipeline, render pass, one frame per swapchain image, the
/// depth image and the mesh buffers, plus a diagnostic count of draws.
pub struct Renderer<V> {
    pub swapchain: Swapchain,
    pub frames: Vec<Frame>,
    pub pipeline_layout: u64,
    pub pipeline: u64,
    pub render_pass: u64,
    pub frame_index: usize,
    pub depth_image: Image,
    pub render_area: Extent2D,
    pub vertex_buffer: Buffer<V>,
    pub index_buffer: Buffer<u32>,
}

/// The commands that record one frame's drawing into its command buffer.
pub open spec fn recording<V>(r: Renderer<V>, f: Frame) -> Seq<Command> {
    let cb = f.command_buffer;
    seq![
        Command::BeginCommandBuffer { command_buffer: cb },
        Command::BeginRenderPass {
            command_buffer: cb,
            render_pass: r.render_pass,
            framebuffer: f.framebuffer,
            render_area: r.render_area,
        },
        Command::BindPipeline { command_buffer: cb, pipeline: r.pipeline },
        Command::BindVertexBuffer { command_buffer: cb, buffer: r.vertex_buffer.handle, offset: 0 },
        Command::BindIndexBuffer { command_buffer: cb, buffer: r.index_buffer.handle, offset: 0 },
        Command::DrawIndexed {
            command_buffer: cb,
            index_count: r.index_buffer.data@.len() as u32,
            instance_count: 1,
            first_index: 0,
            vertex_offset: 0,
            first_instance: 0,
        },
        Command::EndRenderPass { command_buffer: cb },
        Command::EndCommandBuffer { command_buffer: cb },
    ]
}

/// Everything one draw of frame `i` does: record, reset the fence, submit,
/// and wait for the GPU to finish.
pub open spec fn draw_commands<V>(r: Renderer<V>, i: int) -> Seq<Command> {
    let f = r.frames@[i];
    recording(r, f) + seq![
        Command::ResetFence { fence: f.fence },
        Command::Submit { command_buffer: f.command_buffer, fence: f.fence },
        Command::WaitForFence { fence: f.fence },
    ]
}

/// The releases that tear a renderer down, in order: wait for the queue to
/// go idle, then the depth image, the vertex and index buffers, every frame,
/// the pipeline layout, the render pass and the pipeline.
pub open spec fn teardown<V>(r: Renderer<V>) -> Seq<Release> {
    seq![
        Release::WaitIdle,
        Release::DepthImage(r.depth_image),
        Release::VertexBuffer { handle: r.vertex_buffer.handle, memory: r.vertex_buffer.device_memory },
        Release::IndexBuffer { handle: r.index_buffer.handle, memory: r.index_buffer.device_memory },
    ] + Seq::new(r.frames@.len(), |i: int| Release::Frame { position: i as usize, frame: r.frames@[i] })
        + seq![
        Release::PipelineLayout(r.pipeline_layout),
        Release::RenderPass(r.render_pass),
        Release::Pipeline(r.pipeline),
    ]
}

impl<V: Copy> Renderer<V> {
    /// The renderer's invariant: one frame per swapchain image, a render
    /// area equal to the swapchain resolution, well-formed buffers, and an
    /// index count that a draw can carry.
    pub open spec fn wf(&self) -> bool {
        &&& self.frames@.len() == self.swapchain.images@.len()
        &&& self.render_area == self.swapchain.resolution
        &&& self.vertex_buffer.wf()
        &&& self.index_buffer.wf()
        &&& self.index_buffer.data@.len() <= u32::MAX
    }

    /// Builds the renderer from its created parts: `pipelines` is what the
    /// driver's pipeline creation returned, and `frames` holds the outcome
    /// of creating one frame per swapchain image, in image order. A
    /// rejected pipeline (malformed shader bytecode among the causes) is a
    /// `ResourceCreationFailure`, and an empty pipeline list an
    /// `EmptyListError`; then a failed frame creation is returned as it is;
    /// a number of frames other than the number of images, or more indices
    /// than a draw can carry, is an `InvalidFormatError`.
    pub fn new(
        swapchain: Swapchain,
        pipeline_layout: u64,
        render_pass: u64,
        pipelines: Result<Vec<u64>, i32>,
        depth_image: Image,
        frames: Vec<HothamResult<Frame>>,
        vertex_buffer: Buffer<V>,
        index_buffer: Buffer<u32>,
    ) -> (r: HothamResult<Self>)
        requires
            vertex_buffer.wf(),
            index_buffer.wf(),
        ensures
            pipeline_outcome(pipelines) matches Err(e) ==> r == Err::<Self, HothamError>(e),
            pipeline_outcome(pipelines) is Ok && (forall|i: int| 0 <= i < frames@.len() ==> frames@[i] is Ok)
                && frames@.len() == swapchain.images@.len() && index_buffer.data@.len() <= u32::MAX
                <==> r is Ok,
            pipeline_outcome(pipelines) is Ok && (exists|i: int|
                0 <= i < frames@.len() && frames@[i] is Err) ==> exists|i: int|
                0 <= i < frames@.len() && frames@[i] is Err && r == Err::<Self, HothamError>(
                    frames@[i]->Err_0,
                ) && forall|j: int| 0 <= j < i ==> #[trigger] frames@[j] is Ok,
            pipeline_outcome(pipelines) is Ok && (forall|i: int| 0 <= i < frames@.len() ==> frames@[i] is Ok)
                && !(frames@.len() == swapchain.images@.len() && index_buffer.data@.len() <= u32::MAX)
                ==> r == Err::<Self, HothamError>(HothamError::InvalidFormatError),
            r matches Ok(s) ==> {
                &&& s.wf()
                &&& s.frames@.len() == swapchain.images@.len()
                &&& forall|i: int|
                    0 <= i < frames@.len() ==> frames@[i] == Ok::<Frame, HothamError>(
                        #[trigger] s.frames@[i],
                    )
                &&& s.swapchain == swapchain
                &&& s.pipeline_layout == pipeline_layout
                &&& s.render_pass == render_pass
                &&& Ok::<u64, HothamError>(s.pipeline) == pipeline_outcome(pipelines)
                &&& s.depth_image == depth_image
                &&& s.render_area == swapchain.resolution
                &&& s.vertex_buffer == vertex_buffer
                &&& s.index_buffer == index_buffer
                &&& s.frame_index == 0
            },
    {
        let pipeline = match pipeline_from_results(pipelines) {
            Ok(p) => p,
            Err(e) => {
                return Err(e);
            },
        };
        let frames = match collect_frames(frames) {
            Ok(f) => f,
            Err(e) => {
                return Err(e);
            },
        };
        if frames.len() != swapchain.images.len() || index_buffer.data.len() > 0xffff_ffffusize {
            return Err(HothamError::InvalidFormatError);
        }
        let render_area = swapchain.resolution;
        Ok(Renderer {
            swapchain,
            frames,
            pipeline_layout,
            pipeline,
            render_pass,
            frame_index: 0,
            depth_image,
            render_area,
            vertex_buffer,
            index_buffer,
        })
    }

    /// The commands that record `frame`'s drawing: one indexed draw of the
    /// whole index buffer inside the render pass.
    pub fn prepare_frame(&self, frame: &Frame) -> (r: Vec<Command>)
        requires
            self.wf(),
        ensures
            r@ == recording(*self, *frame),
    {
        let cb = frame.command_buffer;
        let mut r: Vec<Command> = Vec::new();
        r.push(Command::BeginCommandBuffer { command_buffer: cb });
        r.push(
            Command::BeginRenderPass {
                command_buffer: cb,
                render_pass: self.render_pass,
                framebuffer: frame.framebuffer,
                render_area: self.render_area,
            },
        );
        r.push(Command::BindPipeline { command_buffer: cb, pipeline: self.pipeline });
        r.push(
            Command::BindVertexBuffer { command_buffer: cb, buffer: self.vertex_buffer.handle, offset: 0 },
        );
        r.push(
            Command::BindIndexBuffer { command_buffer: cb, buffer: self.index_buffer.handle, offset: 0 },
        );
        r.push(
            Command::DrawIndexed {
                command_buffer: cb,
                index_count: self.index_buffer.data.len() as u32,
                instance_count: 1,
                first_index: 0,
                vertex_offset: 0,
                first_instance: 0,
            },
        );
        r.push(Command::EndRenderPass { command_buffer: cb });
        r.push(Command::EndCommandBuffer { command_buffer: cb });
        assert(r@ =~= recording(*self, *frame));
        r
    }

    /// Draws the frame at `frame_index`: counts the draw, then returns the
    /// commands to run, in order. Submission is synchronous: the last
    /// command waits for the GPU to finish, so one frame is in flight at a
    /// time. Nothing but the draw count changes.
    pub fn draw(&mut self, frame_index: usize) -> (r: Vec<Command>)
        requires
            old(self).wf(),
            frame_index < old(self).frames@.len(),
            old(self).frame_index < usize::MAX,
        ensures
            final(self).wf(),
            final(self).frame_index == old(self).frame_index + 1,
            final(self).vertex_buffer == old(self).vertex_buffer,
            final(self).index_buffer == old(self).index_buffer,
            final(self).frames == old(self).frames,
            final(self).swapchain == old(self).swapchain,
            final(self).pipeline_layout == old(self).pipeline_layout,
            final(self).pipeline == old(self).pipeline,
            final(self).render_pass == old(self).render_pass,
            final(self).depth_image == old(self).depth_image,
            final(self).render_area == old(self).render_area,
            r@ == draw_commands(*old(self), frame_index as int),
    {
        self.frame_index = self.frame_index + 1;
        let frame = self.frames[frame_index];
        let mut r = self.prepare_frame(&frame);
        r.push(Command::ResetFence { fence: frame.fence });
        r.push(Command::Submit { command_buffer: frame.command_buffer, fence: frame.fence });
        r.push(Command::WaitForFence { fence: frame.fence });
        assert(r@ =~= draw_commands(*old(self), frame_index as int));
        r
    }

    /// Tears the renderer down, returning what to release in order. The
    /// renderer is consumed, so nothing it owns can be released twice.
    pub fn destroy(self) -> (r: Vec<Release>)
        ensures
            r@ == teardown(self),
    {
        let mut r: Vec<Release> = Vec::new();
        r.push(Release::WaitIdle);
        r.push(Release::DepthImage(self.depth_image));
        r.push(
            Release::VertexBuffer {
                handle: self.vertex_buffer.handle,
                memory: self.vertex_buffer.device_memory,
            },
        );
        r.push(
            Release::IndexBuffer {
                handle: self.index_buffer.handle,
                memory: self.index_buffer.device_memory,
            },
        );
        let mut i: usize = 0;
        while i < self.frames.len()
            invariant
                i <= self.frames@.len(),
                r@.len() == 4 + i,
                forall|k: int| 0 <= k < 4 + i ==> r@[k] == #[trigger] teardown(self)[k],
            decreases self.frames@.len() - i,
        {
            r.push(Release::Frame { position: i, frame: self.frames[i] });
            i = i + 1;
        }
        r.push(Release::PipelineLayout(self.pipeline_layout));
        r.push(Release::RenderPass(self.render_pass));
        r.push(Release::Pipeline(self.pipeline));
        assert(r@ =~= teardown(self));
        r
    }
}

/// Tearing a renderer down releases each thing it owns exactly once: the
/// plan waits for the GPU first, names the depth image, both buffers, every
/// frame by position, the pipeline layout, the render pass and the pipeline,
/// and no release appears twice.
pub proof fn teardown_releases_each_once<V>(r: Renderer<V>)
    requires
        r.frames@.len() <= usize::MAX,
    ensures
        teardown(r).len() == r.frames@.len() + 7,
        teardown(r)[0] == Release::WaitIdle,
        teardown(r).contains(Release::DepthImage(r.depth_image)),
        teardown(r).contains(
            Release::VertexBuffer { handle: r.vertex_buffer.handle, memory: r.vertex_buffer.device_memory },
        ),
        teardown(r).contains(
            Release::IndexBuffer { handle: r.index_buffer.handle, memory: r.index_buffer.device_memory },
        ),
        forall|i: int|
            0 <= i < r.frames@.len() ==> teardown(r).contains(
                Release::Frame { position: i as usize, frame: #[trigger] r.frames@[i] },
            ),
        teardown(r).contains(Release::PipelineLayout(r.pipeline_layout)),
        teardown(r).contains(Release::RenderPass(r.render_pass)),
        teardown(r).contains(Release::Pipeline(r.pipeline)),
        forall|i: int, j: int|
            0 <= i < j < teardown(r).len() ==> #[trigger] teardown(r)[i] != #[trigger] teardown(r)[j],
{
    let t = teardown(r);
    let n = r.frames@.len() as int;
    assert(t[1] == Release::DepthImage(r.depth_image));
    assert(t[2] == Release::VertexBuffer { handle: r.vertex_buffer.handle, memory: r.vertex_buffer.device_memory });
    assert(t[3] == Release::IndexBuffer { handle: r.index_buffer.handle, memory: r.index_buffer.device_memory });
    assert(t[n + 4] == Release::PipelineLayout(r.pipeline_layout));
    assert(t[n + 5] == Release::RenderPass(r.render_pass));
    assert(t[n + 6] == Release::Pipeline(r.pipeline));
    assert forall|i: int| 0 <= i < n implies t.contains(
        Release::Frame { position: i as usize, frame: #[trigger] r.frames@[i] },
    ) by {
        assert(t[i + 4] == Release::Frame { position: i as usize, frame: r.frames@[i] });
    }
    assert forall|i: int, j: int| 0 <= i < j < t.len() implies #[trigger] t[i] != #[trigger] t[j] by {
        if 4 <= i && j < n + 4 {
            assert(t[i] == Release::Frame { position: (i - 4) as usize, frame: r.frames@[i - 4] });
            assert(t[j] == Release::Frame { position: (j - 4) as usize, frame: r.frames@[j - 4] });
        }
    }
}

} // verus!
