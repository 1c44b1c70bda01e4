//! The presentable surface's configuration: chosen once from what the surface
//! supports, then changed only in size.

use vstd::prelude::*;
use crate::error::StartupError;
use crate::format::{is_preferred, preferred, select_format, srgb_flags_of};
use crate::size::Size;

verus! {

/// `wgpu::PresentMode`, carried through as it comes.
#[verifier::external_type_specification]
#[verifier::external_body]
pub struct ExPresentMode(wgpu::PresentMode);

/// `wgpu::CompositeAlphaMode`, carried through as it comes.
#[verifier::external_type_specification]
#[verifier::external_body]
pub struct ExCompositeAlphaMode(wgpu::CompositeAlphaMode);

/// How many frames the surface is asked to queue at most.
pub const MAX_QUEUED_FRAMES: u32 = 2;

/// What a surface supports on the chosen adapter, each list in the order of
/// the backend's preference.
#[derive(Debug, PartialEq, Eq)]
pub struct Capabilities {
    pub formats: Vec<wgpu::TextureFormat>,
    pub present_modes: Vec<wgpu::PresentMode>,
    pub alpha_modes: Vec<wgpu::CompositeAlphaMode>,
}

impl Capabilities {
    /// A surface the adapter cannot present to reports an empty list.
    pub open spec fn usable(self) -> bool {
        self.formats@.len() > 0 && self.present_modes@.len() > 0 && self.alpha_modes@.len() > 0
    }
}

/// The values a surface is configured with.
#[derive(Clone, Copy, Debug, PartialEq, Eq)]
pub struct SurfaceConfig {
    pub format: wgpu::TextureFormat,
    pub present_mode: wgpu::PresentMode,
    pub alpha_mode: wgpu::CompositeAlphaMode,
    pub width: u32,
    pub height: u32,
    pub max_queued_frames: u32,
}

impl SurfaceConfig {
    /// Width and height together.
    pub open spec fn size(self) -> Size {
        Size { width: self.width, height: self.height }
    }

    /// The same configuration at another size.
    pub open spec fn with_size(self, size: Size) -> SurfaceConfig {
        SurfaceConfig { width: size.width, height: size.height, ..self }
    }

    /// The configuration that `capabilities` and `size` call for: the first
    /// sRGB-encoded format or else the first format, the first present mode,
    /// the first alpha mode.
    pub open spec fn chosen(capabilities: Capabilities, size: Size) -> SurfaceConfig {
        SurfaceConfig {
            format: capabilities.formats@[preferred(srgb_flags_of(capabilities.formats@))],
            present_mode: capabilities.present_modes@[0],
            alpha_mode: capabilities.alpha_modes@[0],
            width: size.width,
            height: size.height,
            max_queued_frames: MAX_QUEUED_FRAMES,
        }
    }

    /// What applying `size` to a surface configured as `self` leaves: a size
    /// with a zero dimension is not applied.
    pub open spec fn resized(self, size: Size) -> SurfaceConfig {
        if size.drawable() {
            self.with_size(size)
        } else {
            self
        }
    }
}

/// A configured surface. Its width and height are never zero.
#[derive(Clone, Copy, Debug)]
pub struct PresentationSurface {
    config: SurfaceConfig,
}

impl View for PresentationSurface {
    type V = SurfaceConfig;

    closed spec fn view(&self) -> SurfaceConfig {
        self.config
    }
}

impl PresentationSurface {
    /// Holds of every surface: neither dimension is zero.
    #[verifier::type_invariant]
    pub open spec fn configured(self) -> bool {
        self@.size().drawable()
    }

    /// Chooses the configuration of a new surface. Fails where the surface
    /// supports nothing, or where a dimension of `size` is zero; from then
    /// on format, present mode and alpha mode stay as chosen here.
    pub fn configure(capabilities: &Capabilities, size: Size) -> (made: Result<PresentationSurface, StartupError>)
        ensures
            made is Ok <==> capabilities.usable() && size.drawable(),
            made matches Ok(surface) ==> {
                &&& surface@ == SurfaceConfig::chosen(*capabilities, size)
                &&& is_preferred(
                    srgb_flags_of(capabilities.formats@),
                    preferred(srgb_flags_of(capabilities.formats@)),
                )
            },
            made matches Err(e) ==> e == StartupError::SurfaceCreationFailed,
    {
        if !size.is_drawable() || capabilities.present_modes.len() == 0
            || capabilities.alpha_modes.len() == 0 {
            return Err(StartupError::SurfaceCreationFailed);
        }
        match select_format(&capabilities.formats) {
            None => Err(StartupError::SurfaceCreationFailed),
            Some(format) => Ok(
                PresentationSurface {
                    config: SurfaceConfig {
                        format,
                        present_mode: capabilities.present_modes[0],
                        alpha_mode: capabilities.alpha_modes[0],
                        width: size.width,
                        height: size.height,
                        max_queued_frames: MAX_QUEUED_FRAMES,
                    },
                },
            ),
        }
    }

    /// The configuration in force.
    pub fn config(&self) -> (config: SurfaceConfig)
        ensures
            config == self@,
            config.size().drawable(),
    {
        proof {
            use_type_invariant(self);
        }
        self.config
    }

    /// Takes a new size. With a zero dimension nothing changes and nothing is
    /// to be applied (`None`); otherwise the size is stored and the whole
    /// configuration comes back to be applied to the surface.
    pub fn reconfigure(&mut self, new_size: Size) -> (apply: Option<SurfaceConfig>)
        ensures
            final(self)@ == old(self)@.resized(new_size),
            new_size.drawable() <==> apply is Some,
            apply matches Some(config) ==> config == final(self)@,
    {
        if new_size.is_drawable() {
            self.config = SurfaceConfig { width: new_size.width, height: new_size.height, ..self.config };
            Some(self.config)
        } else {
            None
        }
    }
}

/// Reconfiguring twice with the same size leaves what reconfiguring once
/// leaves.
pub proof fn resized_is_idempotent(config: SurfaceConfig, size: Size)
    ensures
        config.resized(size).resized(size) == config.resized(size),
{
}

/// A size with a zero dimension changes nothing.
pub proof fn resized_ignores_zero(config: SurfaceConfig, size: Size)
    requires
        size.width == 0 || size.height == 0,
    ensures
        config.resized(size) == config,
{
}

/// A drawable size becomes the stored size; format, present mode, alpha mode
/// and queue depth stay.
pub proof fn resized_takes_drawable(config: SurfaceConfig, size: Size)
    requires
        size.drawable(),
    ensures
        config.resized(size).size() == size,
        config.resized(size).format == config.format,
        config.resized(size).present_mode == config.present_mode,
        config.resized(size).alpha_mode == config.alpha_mode,
        config.resized(size).max_queued_frames == config.max_queued_frames,
{
}

} // verus!
