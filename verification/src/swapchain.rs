//! Swapchain configuration.
//!
//! What the swapchain is created with is computed here from what the
//! surface reports; creating it is the caller's work.

use vstd::prelude::*;
use vulkano::format::Format;
use vulkano::swapchain::ColorSpace;
use vulkano::swapchain::CompositeAlpha;

verus! {

/// vulkano's image format; opaque here.
#[verifier::external_type_specification]
#[verifier::external_body]
pub struct ExFormat(vulkano::format::Format);

/// vulkano's color space; opaque here.
#[verifier::external_type_specification]
#[verifier::external_body]
pub struct ExColorSpace(vulkano::swapchain::ColorSpace);

/// vulkano's composite alpha mode; opaque here.
#[verifier::external_type_specification]
#[verifier::external_body]
pub struct ExCompositeAlpha(vulkano::swapchain::CompositeAlpha);

/// Why no swapchain configuration can be made.
#[derive(Clone, Copy, Debug, PartialEq, Eq, Structural)]
pub enum SwapchainError {
    /// The surface supports no composite alpha mode.
    NoCompositeAlpha,
    /// The surface reports no format.
    NoSurfaceFormat,
    /// One image more than the surface's minimum does not fit in a `u32`.
    ImageCountOverflow,
}

/// What a swapchain is created with, as far as it is chosen here.
#[derive(Clone, Copy, Debug, PartialEq, Eq)]
pub struct SwapchainConfig {
    /// The least number of images to create.
    pub min_image_count: u32,
    /// The format of the images.
    pub image_format: Format,
    /// Width and height of the images.
    pub image_extent: [u32; 2],
    /// How the alpha channel is composited.
    pub composite_alpha: CompositeAlpha,
}

/// The configuration for a surface whose capabilities give
/// `min_image_count` and, in the order reported, `supported_composite_alpha`
/// and `surface_formats`: one image more than the minimum, and the first
/// alpha mode and the first format.
pub open spec fn spec_get_swapchain(
    min_image_count: u32,
    supported_composite_alpha: Seq<CompositeAlpha>,
    surface_formats: Seq<(Format, ColorSpace)>,
    image_extent: [u32; 2],
) -> Result<SwapchainConfig, SwapchainError> {
    if supported_composite_alpha.len() == 0 {
        Err(SwapchainError::NoCompositeAlpha)
    } else if surface_formats.len() == 0 {
        Err(SwapchainError::NoSurfaceFormat)
    } else if min_image_count == u32::MAX {
        Err(SwapchainError::ImageCountOverflow)
    } else {
        Ok(
            SwapchainConfig {
                min_image_count: (min_image_count + 1) as u32,
                image_format: surface_formats[0].0,
                image_extent,
                composite_alpha: supported_composite_alpha[0],
            },
        )
    }
}

/// Computes what the swapchain for a surface is created with: one image
/// more than the surface's minimum, the first supported composite alpha
/// mode, the first reported format, and the given extent.
pub fn get_swapchain(
    min_image_count: u32,
    supported_composite_alpha: &Vec<CompositeAlpha>,
    surface_formats: &Vec<(Format, ColorSpace)>,
    image_extent: [u32; 2],
) -> (r: Result<SwapchainConfig, SwapchainError>)
    ensures
        r == spec_get_swapchain(
            min_image_count,
            supported_composite_alpha@,
            surface_formats@,
            image_extent,
        ),
{
    if supported_composite_alpha.len() == 0 {
        return Err(SwapchainError::NoCompositeAlpha);
    }
    let composite_alpha = supported_composite_alpha[0];
    if surface_formats.len() == 0 {
        return Err(SwapchainError::NoSurfaceFormat);
    }
    let image_format = surface_formats[0].0;
    if min_image_count == u32::MAX {
        return Err(SwapchainError::ImageCountOverflow);
    }
    Ok(
        SwapchainConfig {
            min_image_count: min_image_count + 1,
            image_format,
            image_extent,
            composite_alpha,
        },
    )
}

impl SwapchainConfig {
    /// The configuration for recreating with `image_extent`: everything
    /// else is kept.
    pub open spec fn spec_recreate(self, image_extent: [u32; 2]) -> SwapchainConfig {
        SwapchainConfig { image_extent, ..self }
    }

    /// The configuration for recreating the swapchain with a new extent:
    /// image count, format and alpha mode are kept.
    pub fn recreate(&self, image_extent: [u32; 2]) -> (r: SwapchainConfig)
        ensures
            r == self.spec_recreate(image_extent),
    {
        SwapchainConfig {
            min_image_count: self.min_image_count,
            image_format: self.image_format,
            image_extent,
            composite_alpha: self.composite_alpha,
        }
    }
}

/// Recreation never changes the image format, whatever the extent.
pub proof fn lemma_recreate_keeps_format(config: SwapchainConfig, image_extent: [u32; 2])
    ensures
        config.spec_recreate(image_extent).image_format == config.image_format,
        config.spec_recreate(image_extent).min_image_count == config.min_image_count,
        config.spec_recreate(image_extent).composite_alpha == config.composite_alpha,
        config.spec_recreate(image_extent).image_extent == image_extent,
{
}

/// Recreating with the current extent changes nothing, so doing it twice in
/// a row gives the configuration that was there before.
pub proof fn lemma_recreate_same_extent_idempotent(config: SwapchainConfig)
    ensures
        config.spec_recreate(config.image_extent) == config,
        config.spec_recreate(config.image_extent).spec_recreate(config.image_extent) == config,
{
}

/// Recreating twice with one extent gives what recreating once gives.
pub proof fn lemma_recreate_idempotent(config: SwapchainConfig, image_extent: [u32; 2])
    ensures
        config.spec_recreate(image_extent).spec_recreate(image_extent) == config.spec_recreate(
            image_extent,
        ),
{
}

/// `make` may return a framebuffer for `image`.
pub open spec fn may_succeed<I, FB, E, M: Fn(&I) -> Result<FB, E>>(make: M, image: I) -> bool {
    exists|framebuffer: FB| call_ensures(make, (&image,), Ok(framebuffer))
}

/// Derives one framebuffer from each image, in order, with `make`, which
/// creates the image's default view and a framebuffer on it for the render
/// pass. Stops at the first image for which `make` fails and returns its
/// error; succeeds where `make` fails for no image.
pub fn get_framebuffers<I, FB, E, M: Fn(&I) -> Result<FB, E>>(images: &Vec<I>, make: M) -> (r:
    Result<Vec<FB>, E>)
    requires
        forall|k: int| 0 <= k < images.len() ==> call_requires(make, (&#[trigger] images@[k],)),
    ensures
        match r {
            Ok(framebuffers) => {
                &&& framebuffers.len() == images.len()
                &&& forall|k: int|
                    0 <= k < images.len() ==> call_ensures(
                        make,
                        (&images@[k],),
                        Ok(#[trigger] framebuffers@[k]),
                    )
            },
            Err(e) => exists|k: int|
                {
                    &&& 0 <= k < images.len()
                    &&& call_ensures(make, (&#[trigger] images@[k],), Err(e))
                    &&& forall|j: int| 0 <= j < k ==> #[trigger] may_succeed(make, images@[j])
                },
        },
        images.len() == 0 ==> r is Ok,
        (forall|k: int, e: E|
            0 <= k < images.len() ==> !#[trigger] call_ensures(make, (&images@[k],), Err(e)))
            ==> r is Ok,
{
    let n: usize = images.len();
    let mut framebuffers: Vec<FB> = Vec::new();
    let mut k: usize = 0;
    while k < n
        invariant
            n == images.len(),
            k <= n,
            framebuffers.len() == k,
            forall|j: int| 0 <= j < n ==> call_requires(make, (&#[trigger] images@[j],)),
            forall|j: int|
                0 <= j < k ==> call_ensures(make, (&images@[j],), Ok(#[trigger] framebuffers@[j])),
        decreases n - k,
    {
        match make(&images[k]) {
            Ok(framebuffer) => {
                framebuffers.push(framebuffer);
            },
            Err(e) => {
                proof {
                    assert forall|j: int| 0 <= j < k implies #[trigger] may_succeed(
                        make,
                        images@[j],
                    ) by {
                        assert(call_ensures(make, (&images@[j],), Ok(framebuffers@[j])));
                    }
                }
                return Err(e);
            },
        }
        k = k + 1;
    }
    Ok(framebuffers)
}

} // verus!
