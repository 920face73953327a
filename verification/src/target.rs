//! Size-dependent per-image resources: one render target per swapchain
//! image, plus the shared viewport derived from the first image's pixel
//! dimensions.

use vstd::prelude::*;

verus! {

/// One presentable image of the swapchain: an opaque handle together with
/// its pixel dimensions.
#[derive(Clone, Copy, PartialEq, Eq, Structural, Debug)]
pub struct SwapchainImageInfo {
    pub id: u64,
    pub width: u32,
    pub height: u32,
}

/// The drawable rectangle in pixel units: origin (0, 0) to
/// (width, height). The depth range is the fixed unit interval and carries
/// no state of its own.
#[derive(Clone, Copy, PartialEq, Eq, Structural, Debug)]
pub struct PixelViewport {
    pub width: u32,
    pub height: u32,
}

/// A per-image render target: one swapchain image bound as the sole color
/// attachment of one render pass. Its lifetime is tied to the swapchain
/// generation that produced the image.
#[derive(Clone, Copy, PartialEq, Eq, Structural, Debug)]
pub struct RenderTarget {
    pub render_pass: u64,
    pub image: u64,
    pub width: u32,
    pub height: u32,
}

/// The render target that binds one given image to the given render pass.
pub open spec fn target_of(render_pass: u64, img: SwapchainImageInfo) -> RenderTarget {
    RenderTarget { render_pass, image: img.id, width: img.width, height: img.height }
}

/// One render target per swapchain image, in image order.
pub open spec fn targets_of(render_pass: u64, images: Seq<SwapchainImageInfo>) -> Seq<RenderTarget> {
    images.map(|i: int, img: SwapchainImageInfo| target_of(render_pass, img))
}

/// The shared viewport: the first swapchain image's pixel dimensions.
pub open spec fn viewport_of(images: Seq<SwapchainImageInfo>) -> PixelViewport
    recommends
        images.len() > 0,
{
    PixelViewport { width: images[0].width, height: images[0].height }
}

/// Build one render target per swapchain image against the given render
/// pass, and set the shared viewport to the first image's pixel
/// dimensions. Called once at startup and again after every swapchain
/// rebuild.
pub fn window_size_dependent_setup(
    images: &Vec<SwapchainImageInfo>,
    render_pass: u64,
    viewport: &mut PixelViewport,
) -> (targets: Vec<RenderTarget>)
    requires
        images@.len() > 0,
    ensures
        targets@ == targets_of(render_pass, images@),
        *final(viewport) == viewport_of(images@),
{
    let mut targets: Vec<RenderTarget> = Vec::new();
    let mut i: usize = 0;
    while i < images.len()
        invariant
            i <= images@.len(),
            targets@.len() == i as int,
            forall|j: int| 0 <= j < i ==> targets@[j] == target_of(render_pass, images@[j]),
        decreases images@.len() - i,
    {
        let img = images[i];
        targets.push(RenderTarget {
            render_pass,
            image: img.id,
            width: img.width,
            height: img.height,
        });
        i += 1;
    }
    let first = images[0];
    *viewport = PixelViewport { width: first.width, height: first.height };
    proof {
        assert(targets@ =~= targets_of(render_pass, images@));
    }
    targets
}

} // verus!
