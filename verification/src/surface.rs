//! The negotiated configuration of the presentation surface.

use vstd::prelude::*;

verus! {

/// Identity of a pixel format: its position in the list of formats that the
/// surface offers for the selected adapter. Two identities are the same
/// format exactly when their positions are equal.
#[derive(Clone, Copy, Debug, PartialEq, Eq, Structural)]
pub struct FormatId {
    pub index: u32,
}

/// How finished frames are handed to the display.
#[derive(Clone, Copy, Debug, PartialEq, Eq, Structural)]
pub enum PresentMode {
    AutoVsync,
    AutoNoVsync,
    Fifo,
    FifoRelaxed,
    Immediate,
    Mailbox,
}

/// A requested dimension raised to the smallest size a surface may have.
pub open spec fn clamped(v: u32) -> u32 {
    if v == 0 {
        1
    } else {
        v
    }
}

/// Raises a requested dimension to at least one pixel.
pub fn clamp_dimension(v: u32) -> (r: u32)
    ensures
        r == clamped(v),
        r >= 1,
        r >= v,
        v >= 1 ==> r == v,
{
    if v == 0 {
        1
    } else {
        v
    }
}

/// What a surface configuration is: a format, a size in physical pixels and
/// a present mode.
pub struct SurfaceConfigModel {
    pub format: FormatId,
    pub width: nat,
    pub height: nat,
    pub present_mode: PresentMode,
}

impl SurfaceConfigModel {
    /// Both dimensions are at least one pixel and fit the backend's 32 bits.
    pub open spec fn valid(self) -> bool {
        &&& 1 <= self.width <= u32::MAX
        &&& 1 <= self.height <= u32::MAX
    }
}

/// The configuration that results from asking for `width` x `height`.
pub open spec fn configured(
    format: FormatId,
    present_mode: PresentMode,
    width: u32,
    height: u32,
) -> SurfaceConfigModel {
    SurfaceConfigModel {
        format,
        width: clamped(width) as nat,
        height: clamped(height) as nat,
        present_mode,
    }
}

/// The configuration after a resize request: only the size changes.
pub open spec fn resized(c: SurfaceConfigModel, width: u32, height: u32) -> SurfaceConfigModel {
    SurfaceConfigModel {
        width: clamped(width) as nat,
        height: clamped(height) as nat,
        ..c
    }
}

/// The configuration of the surface. Neither dimension is ever zero.
#[derive(Clone, Copy, Debug, PartialEq, Eq)]
pub struct SurfaceConfig {
    format: FormatId,
    width: u32,
    height: u32,
    present_mode: PresentMode,
}

impl View for SurfaceConfig {
    type V = SurfaceConfigModel;

    closed spec fn view(&self) -> SurfaceConfigModel {
        SurfaceConfigModel {
            format: self.format,
            width: self.width as nat,
            height: self.height as nat,
            present_mode: self.present_mode,
        }
    }
}

impl SurfaceConfig {
    /// Neither dimension is zero. This holds of every configuration.
    pub open spec fn wf(&self) -> bool {
        self@.valid()
    }

    #[verifier::type_invariant]
    closed spec fn inv(&self) -> bool {
        self.width >= 1 && self.height >= 1
    }

    /// The configuration for a format, a present mode and a requested size.
    pub fn new(format: FormatId, present_mode: PresentMode, width: u32, height: u32) -> (r: Self)
        ensures
            r@ == configured(format, present_mode, width, height),
            r.wf(),
    {
        SurfaceConfig {
            format,
            width: clamp_dimension(width),
            height: clamp_dimension(height),
            present_mode,
        }
    }

    /// Stores a new size, each dimension raised to at least one.
    pub fn resize(&mut self, width: u32, height: u32)
        ensures
            final(self)@ == resized(old(self)@, width, height),
            final(self).wf(),
    {
        proof {
            use_type_invariant(&*self);
        }
        self.width = clamp_dimension(width);
        self.height = clamp_dimension(height);
    }

    pub fn format(&self) -> (r: FormatId)
        ensures
            r == self@.format,
            self.wf(),
    {
        proof {
            use_type_invariant(self);
        }
        self.format
    }

    pub fn width(&self) -> (r: u32)
        ensures
            r == self@.width,
            r >= 1,
    {
        proof {
            use_type_invariant(self);
        }
        self.width
    }

    pub fn height(&self) -> (r: u32)
        ensures
            r == self@.height,
            r >= 1,
    {
        proof {
            use_type_invariant(self);
        }
        self.height
    }

    pub fn present_mode(&self) -> (r: PresentMode)
        ensures
            r == self@.present_mode,
    {
        self.present_mode
    }
}

/// A zero in either requested dimension is replaced by one, and no other
/// dimension is changed: the configured size is `(max(w, 1), max(h, 1))`.
pub proof fn lemma_configured_size_never_zero(
    format: FormatId,
    present_mode: PresentMode,
    width: u32,
    height: u32,
)
    ensures
        configured(format, present_mode, width, height).width == if width >= 1 {
            width as nat
        } else {
            1
        },
        configured(format, present_mode, width, height).height == if height >= 1 {
            height as nat
        } else {
            1
        },
        configured(format, present_mode, width, height).width >= 1,
        configured(format, present_mode, width, height).height >= 1,
{
}

/// The same holds of a resize, whatever the configuration was before.
pub proof fn lemma_resized_size_never_zero(c: SurfaceConfigModel, width: u32, height: u32)
    ensures
        resized(c, width, height).width == if width >= 1 {
            width as nat
        } else {
            1
        },
        resized(c, width, height).height == if height >= 1 {
            height as nat
        } else {
            1
        },
        resized(c, width, height).width >= 1,
        resized(c, width, height).height >= 1,
        resized(c, width, height).format == c.format,
        resized(c, width, height).present_mode == c.present_mode,
{
}

/// Resizing twice to one size gives the configuration that the first resize
/// gave.
pub proof fn lemma_resize_idempotent(c: SurfaceConfigModel, width: u32, height: u32)
    ensures
        resized(resized(c, width, height), width, height) == resized(c, width, height),
{
}

} // verus!
