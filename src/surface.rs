use vstd::prelude::*;
use crate::format::{select_format, is_preferred_index, srgb_view};

verus! {

/// A size in physical pixels.
#[derive(Clone, Copy, Debug, PartialEq, Eq, Structural)]
pub struct Extent {
    pub width: u32,
    pub height: u32,
}

impl Extent {
    /// Whether both dimensions are strictly positive.
    pub open spec fn is_drawable(self) -> bool {
        self.width > 0 && self.height > 0
    }

    /// The size `width` by `height`.
    pub fn new(width: u32, height: u32) -> (r: Extent)
        ensures
            r.width == width,
            r.height == height,
    {
        Extent { width, height }
    }
}

/// A color with one byte per channel.
#[derive(Clone, Copy, Debug, PartialEq, Eq, Structural)]
pub struct Rgba {
    pub r: u8,
    pub g: u8,
    pub b: u8,
    pub a: u8,
}

/// The color that every frame is cleared to: opaque red.
pub open spec fn spec_clear_color() -> Rgba {
    Rgba { r: 255, g: 0, b: 0, a: 255 }
}

/// The color that every frame is cleared to: opaque red.
#[verifier::when_used_as_spec(spec_clear_color)]
pub fn clear_color() -> (r: Rgba)
    ensures
        r == spec_clear_color(),
{
    Rgba { r: 255, g: 0, b: 0, a: 255 }
}

/// The most frames that may be queued for presentation at once.
pub const MAX_FRAME_LATENCY: u32 = 3;

/// When a rendered frame becomes visible.
#[derive(Clone, Copy, Debug, PartialEq, Eq, Structural)]
pub enum PresentMode {
    /// Vertical sync if the platform supports it, else no sync.
    AutoVsync,
    /// No sync if the platform supports it, else vertical sync.
    AutoNoVsync,
    /// Frames are queued and shown one per vertical blank; never tears.
    Fifo,
    /// Like `Fifo`, but a late frame is shown at once.
    FifoRelaxed,
    /// Frames are shown at once and may tear.
    Immediate,
    /// The newest frame replaces a queued one; shown at vertical blank.
    Mailbox,
}

/// What the presentation surface is configured with. No view formats beyond
/// `format` itself are declared.
#[derive(Clone, Copy, Debug)]
pub struct SurfaceConfig {
    pub format: wgpu::TextureFormat,
    pub width: u32,
    pub height: u32,
    pub present_mode: PresentMode,
    /// Whether the surface's textures are used as render attachments, their
    /// only use.
    pub render_attachment: bool,
    pub max_frame_latency: u32,
    pub alpha_mode: wgpu::CompositeAlphaMode,
}

/// One frame: a single render pass over the whole target of the given size,
/// which clears it to `clear` and draws nothing.
#[derive(Clone, Copy, Debug, PartialEq, Eq, Structural)]
pub struct FramePlan {
    pub width: u32,
    pub height: u32,
    pub clear: Rgba,
}

/// Why the surface could not be set up. Each one is fatal.
#[derive(Clone, Copy, Debug, PartialEq, Eq, Structural)]
pub enum InitError {
    /// The surface reports no supported format.
    NoSurfaceFormat,
    /// The window has a zero width or height.
    ZeroSize,
    /// The surface reports no alpha compositing mode.
    NoAlphaMode,
}

/// The configuration side of the device/surface manager: the surface
/// configuration, kept equal to the window's last known size.
#[derive(Clone, Copy, Debug)]
pub struct State {
    pub config: SurfaceConfig,
}

/// The state after a resize to `size`: only width and height change.
pub open spec fn resized(s: State, size: Extent) -> State {
    State { config: SurfaceConfig { width: size.width, height: size.height, ..s.config } }
}

/// The frame that `render` describes for state `s`.
pub open spec fn frame_of(s: State) -> FramePlan {
    FramePlan { width: s.config.width, height: s.config.height, clear: clear_color() }
}

/// The state after the resizes in `sizes`, applied in order.
pub open spec fn resized_all(s: State, sizes: Seq<Extent>) -> State
    decreases sizes.len(),
{
    if sizes.len() == 0 {
        s
    } else {
        resized(resized_all(s, sizes.drop_last()), sizes.last())
    }
}

impl State {
    /// Builds the surface configuration from what the surface supports and
    /// the window's size: the preferred format (see `select_format`), the
    /// first alpha mode, first-in first-out presentation with the bounded
    /// frame latency, render-attachment use and the window's size.
    /// A surface with no format, a window with a zero dimension, and a
    /// surface with no alpha mode are refused, checked in that order.
    pub fn new(
        formats: &Vec<wgpu::TextureFormat>,
        alpha_modes: &Vec<wgpu::CompositeAlphaMode>,
        size: Extent,
    ) -> (r: Result<State, InitError>)
        ensures
            formats@.len() == 0 ==> r == Err::<State, InitError>(InitError::NoSurfaceFormat),
            formats@.len() > 0 && !size.is_drawable() ==> r == Err::<State, InitError>(
                InitError::ZeroSize,
            ),
            formats@.len() > 0 && size.is_drawable() && alpha_modes@.len() == 0 ==> r == Err::<
                State,
                InitError,
            >(InitError::NoAlphaMode),
            !size.is_drawable() ==> r is Err,
            r is Ok <==> formats@.len() > 0 && size.is_drawable() && alpha_modes@.len() > 0,
            r matches Ok(s) ==> {
                &&& s.config.width == size.width
                &&& s.config.height == size.height
                &&& s.config.max_frame_latency == MAX_FRAME_LATENCY
                &&& s.config.alpha_mode == alpha_modes@[0]
                &&& s.config.present_mode == PresentMode::Fifo
                &&& s.config.render_attachment
                &&& exists|i: int|
                    is_preferred_index(srgb_view(formats@), i) && formats@[i] == s.config.format
            },
    {
        let format = match select_format(formats) {
            Some(f) => f,
            None => return Err(InitError::NoSurfaceFormat),
        };
        if size.width == 0 || size.height == 0 {
            return Err(InitError::ZeroSize);
        }
        if alpha_modes.len() == 0 {
            return Err(InitError::NoAlphaMode);
        }
        let config = SurfaceConfig {
            format,
            width: size.width,
            height: size.height,
            present_mode: PresentMode::Fifo,
            render_attachment: true,
            max_frame_latency: MAX_FRAME_LATENCY,
            alpha_mode: alpha_modes[0],
        };
        Ok(State { config })
    }

    /// Records the window's new size in the configuration. Returns whether
    /// the surface may be reconfigured with it: a zero-sized surface is never
    /// configured, so a size with a zero dimension is recorded but not applied.
    pub fn resize(&mut self, size: Extent) -> (apply: bool)
        ensures
            *final(self) == resized(*old(self), size),
            apply == size.is_drawable(),
    {
        self.config.width = size.width;
        self.config.height = size.height;
        size.width > 0 && size.height > 0
    }

    /// Describes the next frame: one render pass over the whole surface,
    /// cleared to `clear_color()`, with no draw calls.
    pub fn render(&self) -> (r: FramePlan)
        ensures
            r == frame_of(*self),
            r.width == self.config.width,
            r.height == self.config.height,
            r.clear == clear_color(),
    {
        FramePlan { width: self.config.width, height: self.config.height, clear: clear_color() }
    }

    /// The current surface size.
    pub fn size(&self) -> (r: Extent)
        ensures
            r.width == self.config.width,
            r.height == self.config.height,
    {
        Extent { width: self.config.width, height: self.config.height }
    }
}

/// Resizing to the size the surface already has changes neither the
/// configuration nor the frame that is rendered next.
pub proof fn lemma_resize_to_current_size_is_identity(s: State)
    ensures
        resized(s, Extent { width: s.config.width, height: s.config.height }) == s,
        frame_of(resized(s, Extent { width: s.config.width, height: s.config.height }))
            == frame_of(s),
{
}

/// After any nonempty sequence of resizes, the configuration records the
/// size of the last one, and everything but the size is as before.
pub proof fn lemma_last_resize_wins(s: State, sizes: Seq<Extent>)
    requires
        sizes.len() > 0,
    ensures
        resized_all(s, sizes).config.width == sizes.last().width,
        resized_all(s, sizes).config.height == sizes.last().height,
        resized_all(s, sizes) == resized(s, sizes.last()),
    decreases sizes.len(),
{
    if sizes.len() > 1 {
        lemma_last_resize_wins(s, sizes.drop_last());
    } else {
        assert(sizes.drop_last().len() == 0);
        assert(resized_all(s, sizes.drop_last()) == s);
    }
}

} // verus!
