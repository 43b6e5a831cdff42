//! The render context's bookkeeping.
//!
//! The context owns every GPU object. What is recorded of them here is what
//! the rules of recreation speak of: the swapchain's configuration, how
//! many images, framebuffers and command buffers there are, and the extent
//! that the pipeline's viewport was built for.

use vstd::prelude::*;
use vulkano::format::Format;
use crate::frame::FrameState;
use crate::swapchain::SwapchainConfig;

verus! {

/// Whether two extents have the same width and height.
pub open spec fn same_extent(a: [u32; 2], b: [u32; 2]) -> bool {
    a[0] == b[0] && a[1] == b[1]
}

/// What is known of the context's GPU objects.
#[derive(Clone, Copy, Debug, PartialEq, Eq)]
pub struct VulkanContext {
    /// The queue family that the queue was taken from.
    pub queue_family_index: u32,
    /// What the current swapchain was created with.
    pub swapchain: SwapchainConfig,
    /// The number of images of the current swapchain.
    pub image_count: usize,
    /// The format of the render pass's one color attachment.
    pub render_pass_format: Format,
    /// The number of framebuffers.
    pub framebuffer_count: usize,
    /// The number of recorded command buffers.
    pub command_buffer_count: usize,
    /// The extent that the pipeline's viewport covers.
    pub viewport_extent: [u32; 2],
}

impl VulkanContext {
    /// The render pass targets the swapchain's format, there is one
    /// framebuffer per swapchain image and one command buffer per
    /// framebuffer, and the viewport covers the swapchain's images.
    pub open spec fn wf(self) -> bool {
        &&& self.render_pass_format == self.swapchain.image_format
        &&& self.framebuffer_count == self.image_count
        &&& self.command_buffer_count == self.framebuffer_count
        &&& same_extent(self.viewport_extent, self.swapchain.image_extent)
    }

    /// Whether pipeline and command buffers must be rebuilt after a
    /// recreation that gave `image_count` images of extent `image_extent`:
    /// after a resize always, otherwise unless count and extent are as
    /// they were.
    pub open spec fn must_rebuild(
        self,
        image_extent: [u32; 2],
        image_count: usize,
        window_resized: bool,
    ) -> bool {
        window_resized || image_count != self.image_count || !same_extent(
            image_extent,
            self.swapchain.image_extent,
        )
    }

    /// The context after a recreation that gave `image_count` images of
    /// extent `image_extent`.
    pub open spec fn spec_recreate_swapchain(
        self,
        image_extent: [u32; 2],
        image_count: usize,
    ) -> VulkanContext {
        VulkanContext {
            queue_family_index: self.queue_family_index,
            swapchain: self.swapchain.spec_recreate(image_extent),
            image_count,
            render_pass_format: self.render_pass_format,
            framebuffer_count: image_count,
            command_buffer_count: image_count,
            viewport_extent: image_extent,
        }
    }

    /// The context right after initialization, when everything was built
    /// for the first swapchain and its `image_count` images.
    pub fn new(queue_family_index: u32, swapchain: SwapchainConfig, image_count: usize) -> (r:
        VulkanContext)
        ensures
            r == (VulkanContext {
                queue_family_index,
                swapchain,
                image_count,
                render_pass_format: swapchain.image_format,
                framebuffer_count: image_count,
                command_buffer_count: image_count,
                viewport_extent: swapchain.image_extent,
            }),
            r.wf(),
    {
        VulkanContext {
            queue_family_index,
            swapchain,
            image_count,
            render_pass_format: swapchain.image_format,
            framebuffer_count: image_count,
            command_buffer_count: image_count,
            viewport_extent: swapchain.image_extent,
        }
    }

    /// Records that the swapchain was recreated with extent
    /// `new_dimensions`, which gave `image_count` images and as many new
    /// framebuffers. Returns whether the pipeline and the command buffers
    /// must be rebuilt for the new viewport and framebuffers; where it
    /// returns `false` they fit as they are.
    pub fn recreate_swapchain(
        &mut self,
        new_dimensions: [u32; 2],
        image_count: usize,
        window_resized: bool,
    ) -> (rebuild: bool)
        ensures
            rebuild == old(self).must_rebuild(new_dimensions, image_count, window_resized),
            *final(self) == old(self).spec_recreate_swapchain(new_dimensions, image_count),
            old(self).wf() ==> final(self).wf(),
    {
        let rebuild: bool = window_resized || image_count != self.image_count
            || new_dimensions[0] != self.swapchain.image_extent[0]
            || new_dimensions[1] != self.swapchain.image_extent[1];
        self.swapchain = self.swapchain.recreate(new_dimensions);
        self.image_count = image_count;
        self.framebuffer_count = image_count;
        self.command_buffer_count = image_count;
        self.viewport_extent = new_dimensions;
        rebuild
    }
}

/// After every recreation there are as many framebuffers as swapchain
/// images, and as many command buffers; and the render pass, which is not
/// rebuilt, still targets the swapchain's format.
pub proof fn lemma_one_framebuffer_per_image(
    context: VulkanContext,
    image_extent: [u32; 2],
    image_count: usize,
)
    ensures
        context.wf() ==> context.spec_recreate_swapchain(image_extent, image_count).wf(),
        context.spec_recreate_swapchain(image_extent, image_count).framebuffer_count
            == image_count,
        context.spec_recreate_swapchain(image_extent, image_count).command_buffer_count
            == image_count,
{
}

/// Recreation never changes the image format or the queue family, and
/// recreating twice in a row with one extent and image count gives the
/// context that the first recreation gave, with nothing to rebuild the
/// second time unless the window was resized.
pub proof fn lemma_recreate_twice(
    context: VulkanContext,
    image_extent: [u32; 2],
    image_count: usize,
)
    ensures
        ({
            let once = context.spec_recreate_swapchain(image_extent, image_count);
            let twice = once.spec_recreate_swapchain(image_extent, image_count);
            &&& once.swapchain.image_format == context.swapchain.image_format
            &&& twice == once
            &&& !once.must_rebuild(image_extent, image_count, false)
        }),
{
}

/// A completion marker is dropped only together with the command buffer
/// that it guards: where a recreation empties the fence slots of a loop
/// that has one slot per image, the command buffers are rebuilt too.
pub proof fn lemma_slots_emptied_only_on_rebuild<F>(
    context: VulkanContext,
    frames: FrameState<F>,
    image_extent: [u32; 2],
    image_count: usize,
    window_resized: bool,
)
    requires
        frames.fences.len() == context.image_count,
        !context.must_rebuild(image_extent, image_count, window_resized),
    ensures
        frames.reallocated(image_count) == frames,
{
}

} // verus!
