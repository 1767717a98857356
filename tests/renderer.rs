use hotham::error::{check_created, HothamError, HothamResult};
use hotham::renderer::{Command, Renderer};
use hotham::resources::{collect_frames, Buffer, Extent2D, Frame, Image, ImageFailure, Release, Swapchain};

fn frame(n: u64) -> Frame {
    Frame { color_view: 400 + n, framebuffer: 100 + n, command_buffer: 200 + n, fence: 300 + n }
}

fn renderer_with(images: usize, frames: Vec<HothamResult<Frame>>) -> HothamResult<Renderer<[f32; 3]>> {
    renderer_with_pipelines(images, Ok(vec![3]), frames)
}

fn renderer_with_pipelines(
    images: usize,
    pipelines: Result<Vec<u64>, i32>,
    frames: Vec<HothamResult<Frame>>,
) -> HothamResult<Renderer<[f32; 3]>> {
    let swapchain = Swapchain::new((0..images as u64).collect(), Extent2D { width: 640, height: 480 });
    let vertices = vec![[0.0f32, 0.0, 0.0], [1.0, 0.0, 0.0], [0.0, 1.0, 0.0]];
    let indices = vec![0u32, 1, 2];
    Renderer::new(
        swapchain,
        1,
        2,
        pipelines,
        Image { image: 4, view: 5, memory: 6 },
        frames,
        Buffer::new(7, 8, &vertices),
        Buffer::new(9, 10, &indices),
    )
}

#[test]
fn three_images_give_three_frames() {
    let r = renderer_with(3, vec![Ok(frame(0)), Ok(frame(1)), Ok(frame(2))]).unwrap();
    assert_eq!(r.frames.len(), 3);
    assert_eq!(r.frames, vec![frame(0), frame(1), frame(2)]);
    assert_eq!(r.frame_index, 0);
    assert_eq!(r.render_area, Extent2D { width: 640, height: 480 });
}

#[test]
fn frame_count_must_match_images() {
    let r = renderer_with(3, vec![Ok(frame(0)), Ok(frame(1))]);
    assert!(matches!(r, Err(HothamError::InvalidFormatError)));
}

#[test]
fn failed_frame_creation_is_returned() {
    let r = renderer_with(
        3,
        vec![Ok(frame(0)), Err(HothamError::ResourceCreationFailure(-2)), Err(HothamError::ResourceCreationFailure(-3))],
    );
    assert!(matches!(r, Err(HothamError::ResourceCreationFailure(-2))));
}

#[test]
fn rejected_pipeline_fails_construction() {
    // VK_ERROR_INVALID_SHADER_NV, what a driver may return for malformed SPIR-V
    let r = renderer_with_pipelines(3, Err(-1000012000), vec![Ok(frame(0)), Ok(frame(1)), Ok(frame(2))]);
    assert!(matches!(r, Err(HothamError::ResourceCreationFailure(-1000012000))));
    let r = renderer_with_pipelines(3, Ok(vec![]), vec![Ok(frame(0)), Ok(frame(1)), Ok(frame(2))]);
    assert!(matches!(r, Err(HothamError::EmptyListError)));
    let r = renderer_with_pipelines(3, Err(-3), vec![Err(HothamError::ResourceCreationFailure(-2))]);
    assert!(matches!(r, Err(HothamError::ResourceCreationFailure(-3))));
}

#[test]
fn draw_counts_and_keeps_buffers() {
    let mut r = renderer_with(3, vec![Ok(frame(0)), Ok(frame(1)), Ok(frame(2))]).unwrap();
    let vertices = r.vertex_buffer.data.clone();
    let indices = r.index_buffer.data.clone();
    let cmds = r.draw(1);
    assert_eq!(r.frame_index, 1);
    r.draw(2);
    assert_eq!(r.frame_index, 2);
    assert_eq!(r.vertex_buffer.data, vertices);
    assert_eq!(r.index_buffer.data, indices);
    let cb = 201;
    assert_eq!(
        cmds,
        vec![
            Command::BeginCommandBuffer { command_buffer: cb },
            Command::BeginRenderPass {
                command_buffer: cb,
                render_pass: 2,
                framebuffer: 101,
                render_area: Extent2D { width: 640, height: 480 },
            },
            Command::BindPipeline { command_buffer: cb, pipeline: 3 },
            Command::BindVertexBuffer { command_buffer: cb, buffer: 7, offset: 0 },
            Command::BindIndexBuffer { command_buffer: cb, buffer: 9, offset: 0 },
            Command::DrawIndexed {
                command_buffer: cb,
                index_count: 3,
                instance_count: 1,
                first_index: 0,
                vertex_offset: 0,
                first_instance: 0,
            },
            Command::EndRenderPass { command_buffer: cb },
            Command::EndCommandBuffer { command_buffer: cb },
            Command::ResetFence { fence: 301 },
            Command::Submit { command_buffer: cb, fence: 301 },
            Command::WaitForFence { fence: 301 },
        ]
    );
}

#[test]
fn destroy_releases_everything_once_in_order() {
    let r = renderer_with(3, vec![Ok(frame(0)), Ok(frame(1)), Ok(frame(2))]).unwrap();
    let releases = r.destroy();
    assert_eq!(
        releases,
        vec![
            Release::WaitIdle,
            Release::DepthImage(Image { image: 4, view: 5, memory: 6 }),
            Release::VertexBuffer { handle: 7, memory: 8 },
            Release::IndexBuffer { handle: 9, memory: 10 },
            Release::Frame { position: 0, frame: frame(0) },
            Release::Frame { position: 1, frame: frame(1) },
            Release::Frame { position: 2, frame: frame(2) },
            Release::PipelineLayout(1),
            Release::RenderPass(2),
            Release::Pipeline(3),
        ]
    );
    for i in 0..releases.len() {
        for j in (i + 1)..releases.len() {
            assert_ne!(releases[i], releases[j]);
        }
    }
}

#[test]
fn buffer_update_within_and_over_capacity() {
    let mut b = Buffer::new(1, 2, &vec![1u32, 2, 3]);
    assert_eq!(b.update(&vec![4, 5]), Ok(()));
    assert_eq!(b.data, vec![4, 5]);
    assert_eq!(b.update(&vec![1, 2, 3, 4]), Err(HothamError::BufferCapacityExceeded));
    assert_eq!(b.data, vec![4, 5]);
    assert_eq!(b.capacity, 3);
}

#[test]
fn failed_image_names_what_to_roll_back() {
    assert_eq!(Image::create(Ok(1), Ok(2), Ok(3)), Ok(Image { image: 1, view: 3, memory: 2 }));
    assert_eq!(
        Image::create(Err(-1), Ok(2), Ok(3)),
        Err(ImageFailure { error: HothamError::ResourceCreationFailure(-1), created_image: None, created_memory: None })
    );
    assert_eq!(
        Image::create(Ok(1), Err(-4), Err(-5)),
        Err(ImageFailure {
            error: HothamError::ResourceCreationFailure(-4),
            created_image: Some(1),
            created_memory: None
        })
    );
    assert_eq!(
        Image::create(Ok(1), Ok(2), Err(-5)),
        Err(ImageFailure {
            error: HothamError::ResourceCreationFailure(-5),
            created_image: Some(1),
            created_memory: Some(2)
        })
    );
}

#[test]
fn creation_results_map_to_errors() {
    assert_eq!(check_created(Ok::<u64, i32>(5)), Ok(5));
    assert_eq!(check_created(Err::<u64, i32>(-2)), Err(HothamError::ResourceCreationFailure(-2)));
    assert_eq!(Frame::create(Ok(9), Ok(1), Ok(2), Err(-3)), Err(HothamError::ResourceCreationFailure(-3)));
    assert_eq!(Frame::create(Err(-7), Ok(1), Ok(2), Ok(3)), Err(HothamError::ResourceCreationFailure(-7)));
    assert_eq!(
        Frame::create(Ok(9), Ok(1), Ok(2), Ok(3)),
        Ok(Frame { color_view: 9, framebuffer: 1, command_buffer: 2, fence: 3 })
    );
    assert_eq!(
        collect_frames(vec![Ok(frame(0)), Err(HothamError::EmptyListError)]),
        Err(HothamError::EmptyListError)
    );
}
