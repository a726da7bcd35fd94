//! Per-view eligibility filtering and uniform computation.
//!
//! A camera view takes part in fog compositing this frame only when it is
//! active, renders in high dynamic range, and reports a viewport with both
//! dimensions non-zero together with a target framebuffer size. Eligible
//! views get an `UpsamplingUniforms` value recomputed from the current
//! viewport; ineligible views are silently excluded, which is a normal
//! filtering outcome and not an error.

use vstd::prelude::*;

verus! {

/// A size or position in physical pixels.
#[derive(Clone, Copy, Debug, PartialEq, Eq, Structural)]
pub struct UVec2 {
    pub x: u32,
    pub y: u32,
}

/// The pixel rectangle a camera renders to: origin and size.
#[derive(Clone, Copy, Debug, PartialEq, Eq, Structural)]
pub struct Viewport {
    pub origin: UVec2,
    pub size: UVec2,
}

/// The per-camera state the eligibility filter reads. Owned by the camera
/// system; read-only here.
#[derive(Clone, Copy, Debug, PartialEq, Eq)]
pub struct Camera {
    pub viewport: Option<Viewport>,
    pub target_size: Option<UVec2>,
    pub is_active: bool,
    pub hdr: bool,
}

/// Marker configuration requesting fog compositing for a view. Owned by
/// scene configuration; carried through unchanged.
#[derive(Clone, Copy, Debug, PartialEq, Eq, Structural)]
pub struct VolumetricFog {}

/// An aspect ratio kept exactly as the pixel pair it came from (width over
/// height), so no division is performed here; both dimensions are non-zero
/// whenever the value was built through `try_from_pixels`.
#[derive(Clone, Copy, Debug, PartialEq, Eq, Structural)]
pub struct AspectRatio {
    pub width: u32,
    pub height: u32,
}

/// The reason an aspect ratio could not be formed.
#[derive(Clone, Copy, Debug, PartialEq, Eq, Structural)]
pub enum AspectRatioError {
    Zero,
}

/// The per-view uniform for the upsampling draw, recomputed every frame
/// from the current viewport; its lifetime is the frame.
#[derive(Clone, Copy, Debug, PartialEq, Eq, Structural)]
pub struct UpsamplingUniforms {
    pub aspect: AspectRatio,
}

impl AspectRatio {
    /// Both dimensions are positive.
    pub open spec fn is_valid(self) -> bool {
        self.width > 0 && self.height > 0
    }

    /// Forms the aspect ratio of a pixel extent, rejecting any extent with
    /// a zero dimension so that a later division is never undefined.
    pub fn try_from_pixels(x: u32, y: u32) -> (r: Result<AspectRatio, AspectRatioError>)
        ensures
            r is Ok <==> x > 0 && y > 0,
            r is Ok ==> r == Ok::<AspectRatio, AspectRatioError>((AspectRatio {
                width: x,
                height: y,
            })),
            r is Err ==> r == Err::<AspectRatio, AspectRatioError>(AspectRatioError::Zero),
    {
        if x > 0 && y > 0 {
            Ok(AspectRatio { width: x, height: y })
        } else {
            Err(AspectRatioError::Zero)
        }
    }
}

impl Camera {
    /// The viewport size, when a viewport is configured.
    pub open spec fn spec_viewport_size(self) -> Option<UVec2> {
        match self.viewport {
            Some(v) => Some(v.size),
            None => None,
        }
    }

    /// A view is eligible for fog compositing exactly when it is active,
    /// renders in high dynamic range, and reports a viewport with both
    /// dimensions non-zero together with a target framebuffer size.
    pub open spec fn eligible(self) -> bool {
        &&& self.is_active
        &&& self.hdr
        &&& self.viewport is Some
        &&& self.viewport.unwrap().size.x > 0
        &&& self.viewport.unwrap().size.y > 0
        &&& self.target_size is Some
    }

    /// The viewport rectangle, in physical pixels.
    pub fn physical_viewport_rect(&self) -> (r: Option<Viewport>)
        ensures
            r == self.viewport,
    {
        self.viewport
    }

    /// The viewport size, in physical pixels.
    pub fn physical_viewport_size(&self) -> (r: Option<UVec2>)
        ensures
            r == self.spec_viewport_size(),
    {
        match self.viewport {
            Some(v) => Some(v.size),
            None => None,
        }
    }

    /// The target framebuffer size, in physical pixels.
    pub fn physical_target_size(&self) -> (r: Option<UVec2>)
        ensures
            r == self.target_size,
    {
        self.target_size
    }
}

/// The uniform an eligible view receives: its viewport's aspect ratio,
/// held exactly as the width/height pair.
pub open spec fn uniform_of(camera: Camera) -> UpsamplingUniforms {
    UpsamplingUniforms {
        aspect: AspectRatio {
            width: camera.viewport.unwrap().size.x,
            height: camera.viewport.unwrap().size.y,
        },
    }
}

impl VolumetricFog {
    /// Decides whether one camera view takes part in fog compositing this
    /// frame. Returns the fog settings together with the freshly computed
    /// per-view uniform exactly for eligible views, and `None` otherwise.
    pub fn extract_component(volumetric_fog: &VolumetricFog, camera: &Camera) -> (r: Option<
        (VolumetricFog, UpsamplingUniforms),
    >)
        ensures
            r is Some <==> camera.eligible(),
            r is Some ==> r == Some((*volumetric_fog, uniform_of(*camera))),
    {
        match (
            camera.physical_viewport_rect(),
            camera.physical_viewport_size(),
            camera.physical_target_size(),
            camera.is_active,
            camera.hdr,
        ) {
            (Some(_rect), Some(size), Some(_target_size), true, true) if size.x != 0 && size.y
                != 0 => {
                match AspectRatio::try_from_pixels(size.x, size.y) {
                    Ok(aspect) => Some(
                        (volumetric_fog.clone(), UpsamplingUniforms { aspect }),
                    ),
                    // Both dimensions were just checked non-zero, so this
                    // arm is unreachable.
                    Err(_) => None,
                }
            },
            _ => None,
        }
    }
}

} // verus!
