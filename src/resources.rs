use vstd::prelude::*;

use crate::error::{HothamError, HothamResult};

verus! {

/// Width and height of a render target, in pixels.
#[derive(Debug, Clone, Copy, PartialEq, Eq, Structural)]
pub struct Extent2D {
    pub width: u32,
    pub height: u32,
}

/// An image, its view and its memory: created and destroyed together.
#[derive(Debug, Clone, Copy, PartialEq, Eq, Structural)]
pub struct Image {
    pub image: u64,
    pub view: u64,
    pub memory: u64,
}

/// One device object to release, in the order a teardown plan lists them.
#[derive(Debug, Clone, Copy, PartialEq, Eq, Structural)]
pub enum Release {
    /// Wait for the graphics queue to become idle before anything is freed.
    WaitIdle,
    /// Free the depth image, its view and its memory.
    DepthImage(Image),
    /// Free the vertex buffer and its memory.
    VertexBuffer { handle: u64, memory: u64 },
    /// Free the index buffer and its memory.
    IndexBuffer { handle: u64, memory: u64 },
    /// Free the colour view, framebuffer, command buffer and fence of the
    /// frame at this position of the renderer's frame list.
    Frame { position: usize, frame: Frame },
    PipelineLayout(u64),
    RenderPass(u64),
    Pipeline(u64),
}

/// Why an image could not be created, with the parts that were created
/// before the failing step: they are to be freed, so that no part of a
/// failed image is left behind.
#[derive(Debug, PartialEq, Eq)]
pub struct ImageFailure {
    pub error: HothamError,
    pub created_image: Option<u64>,
    pub created_memory: Option<u64>,
}

impl Image {
    /// Assembles an image from the outcome of its three creation steps, in
    /// the order they are made: the image, its memory, its view. The first
    /// rejected step decides the error, and the failure names the parts
    /// made before it.
    pub fn create(
        image: Result<u64, i32>,
        memory: Result<u64, i32>,
        view: Result<u64, i32>,
    ) -> (r: Result<Image, ImageFailure>)
        ensures
            match (image, memory, view) {
                (Ok(i), Ok(m), Ok(v)) => r == Ok::<Image, ImageFailure>(
                    Image { image: i, view: v, memory: m },
                ),
                (Err(c), _, _) => r == Err::<Image, ImageFailure>(
                    ImageFailure {
                        error: HothamError::ResourceCreationFailure(c),
                        created_image: None,
                        created_memory: None,
                    },
                ),
                (Ok(i), Err(c), _) => r == Err::<Image, ImageFailure>(
                    ImageFailure {
                        error: HothamError::ResourceCreationFailure(c),
                        created_image: Some(i),
                        created_memory: None,
                    },
                ),
                (Ok(i), Ok(m), Err(c)) => r == Err::<Image, ImageFailure>(
                    ImageFailure {
                        error: HothamError::ResourceCreationFailure(c),
                        created_image: Some(i),
                        created_memory: Some(m),
                    },
                ),
            },
    {
        match image {
            Err(c) => Err(
                ImageFailure {
                    error: HothamError::ResourceCreationFailure(c),
                    created_image: None,
                    created_memory: None,
                },
            ),
            Ok(i) => match memory {
                Err(c) => Err(
                    ImageFailure {
                        error: HothamError::ResourceCreationFailure(c),
                        created_image: Some(i),
                        created_memory: None,
                    },
                ),
                Ok(m) => match view {
                    Err(c) => Err(
                        ImageFailure {
                            error: HothamError::ResourceCreationFailure(c),
                            created_image: Some(i),
                            created_memory: Some(m),
                        },
                    ),
                    Ok(v) => Ok(Image { image: i, view: v, memory: m }),
                },
            },
        }
    }
}

/// A device buffer of homogeneous elements with a host-side mirror of its
/// contents. Its capacity is fixed when it is created.
#[derive(Debug)]
pub struct Buffer<T> {
    pub handle: u64,
    pub device_memory: u64,
    pub data: Vec<T>,
    pub capacity: usize,
}

impl<T: Copy> Buffer<T> {
    /// The buffer's invariant: the mirror never holds more elements than the
    /// buffer was allocated for.
    pub open spec fn wf(&self) -> bool {
        self.data@.len() <= self.capacity
    }

    /// Wraps a device allocation sized for `initial`, whose contents it
    /// mirrors; the capacity is the length of `initial`.
    pub fn new(handle: u64, device_memory: u64, initial: &Vec<T>) -> (r: Buffer<T>)
        ensures
            r.wf(),
            r.handle == handle,
            r.device_memory == device_memory,
            r.data@ == initial@,
            r.capacity == initial@.len(),
    {
        Buffer { handle, device_memory, data: copy_elements(initial), capacity: initial.len() }
    }

    /// Overwrites the buffer's contents with `elements`. More elements than
    /// the capacity is refused with `BufferCapacityExceeded`, leaving the
    /// buffer as it was.
    pub fn update(&mut self, elements: &Vec<T>) -> (r: HothamResult<()>)
        requires
            old(self).wf(),
        ensures
            final(self).wf(),
            final(self).handle == old(self).handle,
            final(self).device_memory == old(self).device_memory,
            final(self).capacity == old(self).capacity,
            elements@.len() <= old(self).capacity ==> r is Ok && final(self).data@ == elements@,
            elements@.len() > old(self).capacity ==> r == Err::<(), HothamError>(
                HothamError::BufferCapacityExceeded,
            ) && final(self).data@ == old(self).data@,
    {
        if elements.len() > self.capacity {
            return Err(HothamError::BufferCapacityExceeded);
        }
        self.data = copy_elements(elements);
        Ok(())
    }
}

/// An element-for-element copy of `v`.
fn copy_elements<T: Copy>(v: &Vec<T>) -> (r: Vec<T>)
    ensures
        r@ == v@,
{
    let mut r: Vec<T> = Vec::with_capacity(v.len());
    let mut i: usize = 0;
    while i < v.len()
        invariant
            i <= v@.len(),
            r@ == v@.subrange(0, i as int),
        decreases v@.len() - i,
    {
        r.push(v[i]);
        i = i + 1;
        assert(r@ =~= v@.subrange(0, i as int));
    }
    assert(r@ =~= v@);
    r
}

/// The swapchain's target images, in order, and their shared resolution;
/// both are fixed once it is built.
#[derive(Debug, Clone)]
pub struct Swapchain {
    pub images: Vec<u64>,
    pub resolution: Extent2D,
}

impl Swapchain {
    /// Records the per-frame images handed out by the display session.
    pub fn new(images: Vec<u64>, resolution: Extent2D) -> (r: Swapchain)
        ensures
            r.images@ == images@,
            r.resolution == resolution,
    {
        Swapchain { images, resolution }
    }
}

/// One framebuffer, one command buffer and one fence, for one swapchain
/// image, and the view of that image that the framebuffer binds. The view
/// belongs to the frame; the image belongs to the display session.
#[derive(Debug, Clone, Copy, PartialEq, Eq, Structural)]
pub struct Frame {
    pub color_view: u64,
    pub framebuffer: u64,
    pub command_buffer: u64,
    pub fence: u64,
}

impl Frame {
    /// Assembles a frame from the outcome of its creation steps, in the
    /// order they are made: the colour view, the framebuffer, the command
    /// buffer, the fence. The first rejected step decides the error.
    pub fn create(
        color_view: Result<u64, i32>,
        framebuffer: Result<u64, i32>,
        command_buffer: Result<u64, i32>,
        fence: Result<u64, i32>,
    ) -> (r: HothamResult<Frame>)
        ensures
            match (color_view, framebuffer, command_buffer, fence) {
                (Ok(v), Ok(f), Ok(c), Ok(s)) => r == Ok::<Frame, HothamError>(
                    Frame { color_view: v, framebuffer: f, command_buffer: c, fence: s },
                ),
                (Err(e), _, _, _) => r == Err::<Frame, HothamError>(
                    HothamError::ResourceCreationFailure(e),
                ),
                (Ok(_), Err(e), _, _) => r == Err::<Frame, HothamError>(
                    HothamError::ResourceCreationFailure(e),
                ),
                (Ok(_), Ok(_), Err(e), _) => r == Err::<Frame, HothamError>(
                    HothamError::ResourceCreationFailure(e),
                ),
                (Ok(_), Ok(_), Ok(_), Err(e)) => r == Err::<Frame, HothamError>(
                    HothamError::ResourceCreationFailure(e),
                ),
            },
    {
        let v = match color_view {
            Err(e) => {
                return Err(HothamError::ResourceCreationFailure(e));
            },
            Ok(v) => v,
        };
        match framebuffer {
            Err(e) => Err(HothamError::ResourceCreationFailure(e)),
            Ok(f) => match command_buffer {
                Err(e) => Err(HothamError::ResourceCreationFailure(e)),
                Ok(c) => match fence {
                    Err(e) => Err(HothamError::ResourceCreationFailure(e)),
                    Ok(s) => Ok(Frame { color_view: v, framebuffer: f, command_buffer: c, fence: s }),
                },
            },
        }
    }
}

/// Collects one created frame per swapchain image. The first rejected
/// creation decides the error; otherwise the frames keep the images' order.
pub fn collect_frames(created: Vec<HothamResult<Frame>>) -> (r: HothamResult<Vec<Frame>>)
    ensures
        r is Ok <==> forall|i: int| 0 <= i < created@.len() ==> created@[i] is Ok,
        (forall|i: int| 0 <= i < created@.len() ==> created@[i] is Ok) ==> (r matches Ok(v)
            && v@.len() == created@.len() && forall|i: int|
            0 <= i < created@.len() ==> created@[i] == Ok::<Frame, HothamError>(#[trigger] v@[i])),
        r is Err ==> exists|i: int|
            0 <= i < created@.len() && created@[i] is Err && r == Err::<Vec<Frame>, HothamError>(
                created@[i]->Err_0,
            ) && forall|j: int|
                0 <= j < i ==> #[trigger] created@[j] is Ok,
{
    let ghost all = created@;
    let mut rest = created;
    let mut frames: Vec<Frame> = Vec::new();
    while rest.len() > 0
        invariant
            all == created@,
            frames@.len() + rest@.len() == all.len(),
            rest@ == all.subrange(frames@.len() as int, all.len() as int),
            forall|j: int| 0 <= j < frames@.len() ==> all[j] == Ok::<Frame, HothamError>(#[trigger] frames@[j]),
        decreases rest@.len(),
    {
        let ghost k = frames@.len();
        let next = rest.remove(0);
        assert(all[k as int] == next);
        match next {
            Ok(f) => {
                frames.push(f);
                assert(rest@ =~= all.subrange(frames@.len() as int, all.len() as int));
            },
            Err(e) => {
                assert(forall|j: int| 0 <= j < k ==> #[trigger] all[j] is Ok) by {
                    assert forall|j: int| 0 <= j < k implies #[trigger] all[j] is Ok by {
                        assert(all[j] == Ok::<Frame, HothamError>(frames@[j]));
                    }
                }
                assert(all[k as int] is Err && all[k as int]->Err_0 == e);
                return Err(e);
            },
        }
    }
    assert forall|i: int| 0 <= i < created@.len() implies #[trigger] created@[i] is Ok by {
        assert(all[i] == Ok::<Frame, HothamError>(frames@[i]));
    }
    Ok(frames)
}

} // verus!
