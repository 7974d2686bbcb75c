//! The presentation configuration of a surface: what it is made of, how the
//! first one is chosen from what a surface offers, and how it follows the
//! size of the window.

use vstd::prelude::*;

verus! {

/// wgpu's `TextureFormat`: the pixel format of a presentable surface. To the
/// verifier a value of it is opaque, and nothing is claimed of one. No
/// function here looks inside: a format is picked from what the surface
/// offers and carried, unchanged, into every description that needs it.
#[verifier::external_type_specification]
#[verifier::external_body]
pub struct ExTextureFormat(wgpu::TextureFormat);

/// wgpu's `CompositeAlphaMode`: how the compositor treats the alpha channel
/// of presented frames. Opaque to the verifier and carried through, like the
/// pixel format.
#[verifier::external_type_specification]
#[verifier::external_body]
pub struct ExCompositeAlphaMode(wgpu::CompositeAlphaMode);

/// How finished frames are handed to the display.
#[derive(Clone, Copy, Debug, PartialEq, Eq)]
pub enum PresentMode {
    /// Vertical sync, in the best form the platform has.
    AutoVsync,
    /// No vertical sync, in the best form the platform has.
    AutoNoVsync,
    /// A queue of frames, shown one per refresh; the producer waits when it is full.
    Fifo,
    /// As `Fifo`, but a late frame is shown at once.
    FifoRelaxed,
    /// Frames are shown as soon as they are finished.
    Immediate,
    /// A single pending slot: a newer frame replaces the one that waits.
    Mailbox,
}

/// What the textures of a surface may be used for.
#[derive(Clone, Copy, Debug, PartialEq, Eq)]
pub struct TextureUsages {
    pub copy_src: bool,
    pub copy_dst: bool,
    pub texture_binding: bool,
    pub storage_binding: bool,
    pub render_attachment: bool,
}

impl TextureUsages {
    /// Output of a render pass, and nothing else.
    pub open spec fn render_attachment_only() -> TextureUsages {
        TextureUsages {
            copy_src: false,
            copy_dst: false,
            texture_binding: false,
            storage_binding: false,
            render_attachment: true,
        }
    }
}

/// The parameters under which a surface produces presentable frames.
#[derive(Clone, Copy, Debug, PartialEq, Eq)]
pub struct SurfaceConfig {
    pub usage: TextureUsages,
    pub format: wgpu::TextureFormat,
    pub width: u32,
    pub height: u32,
    pub present_mode: PresentMode,
    pub alpha_mode: wgpu::CompositeAlphaMode,
}

impl SurfaceConfig {
    /// The configuration a surface starts with: the first format and the first
    /// alpha mode it offers, the given size, frames used as render targets
    /// only, and the newest finished frame replacing the one that waits.
    pub open spec fn initial(
        format: wgpu::TextureFormat,
        alpha_mode: wgpu::CompositeAlphaMode,
        width: u32,
        height: u32,
    ) -> SurfaceConfig {
        SurfaceConfig {
            usage: TextureUsages::render_attachment_only(),
            format,
            width,
            height,
            present_mode: PresentMode::Mailbox,
            alpha_mode,
        }
    }

    /// This configuration with another size and everything else as it was.
    pub open spec fn with_size(self, width: u32, height: u32) -> SurfaceConfig {
        SurfaceConfig { width, height, ..self }
    }

    /// Chooses the starting configuration for a surface that offers `formats`
    /// and `alpha_modes`, in the order the surface prefers them, shown in a
    /// window of `width` by `height` pixels. A surface that offers no format
    /// or no alpha mode cannot be presented to, and gets none.
    pub fn for_surface(
        formats: &Vec<wgpu::TextureFormat>,
        alpha_modes: &Vec<wgpu::CompositeAlphaMode>,
        width: u32,
        height: u32,
    ) -> (config: Option<SurfaceConfig>)
        ensures
            config is Some <==> formats@.len() > 0 && alpha_modes@.len() > 0,
            config is Some ==> config->0 == SurfaceConfig::initial(
                formats@[0],
                alpha_modes@[0],
                width,
                height,
            ),
    {
        if formats.len() == 0 || alpha_modes.len() == 0 {
            return None;
        }
        Some(
            SurfaceConfig {
                usage: TextureUsages {
                    copy_src: false,
                    copy_dst: false,
                    texture_binding: false,
                    storage_binding: false,
                    render_attachment: true,
                },
                format: formats[0],
                width,
                height,
                present_mode: PresentMode::Mailbox,
                alpha_mode: alpha_modes[0],
            },
        )
    }

    /// Takes the size of the window and keeps everything else.
    pub fn set_size(&mut self, width: u32, height: u32)
        ensures
            *final(self) == old(self).with_size(width, height),
    {
        self.width = width;
        self.height = height;
    }
}

} // verus!
