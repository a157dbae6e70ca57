//! The presentation surface lifecycle.
//!
//! A surface binds a window to a drawable swap target. It owns the format
//! chosen by negotiation and the configuration currently applied, which is
//! re-derived from the window's extent on every (re)configuration. Per-frame
//! acquisition either hands out a transient image or reports one of four
//! failure classes; how the backend answers is modeled by a
//! [`DeviceCondition`] the environment supplies, so every statement here
//! holds for every possible backend behavior.

use vstd::prelude::*;

use crate::format::SurfaceFormat;

verus! {

/// A drawable extent in pixels.
#[derive(Clone, Copy, Debug, PartialEq, Eq, Structural)]
pub struct Extent {
    /// Width in pixels.
    pub width: u32,
    /// Height in pixels.
    pub height: u32,
}

impl Extent {
    /// A drawable extent is at least one pixel on each axis.
    pub open spec fn is_drawable(self) -> bool {
        self.width >= 1 && self.height >= 1
    }
}

/// Why the backend refused to hand out the next image. Each class has its
/// own handling policy; see [`crate::frame::failure_policy`].
#[derive(Clone, Copy, Debug, PartialEq, Eq, Structural)]
pub enum AcquireError {
    /// The backend could not produce an image in time; transient.
    Timeout,
    /// The applied configuration no longer matches the window, typically
    /// after a resize; reconfiguring heals it.
    Outdated,
    /// The underlying surface was invalidated, e.g. by a device or display
    /// change.
    Lost,
    /// Allocation failed; unrecoverable.
    OutOfMemory,
}

/// The transient image acquired for one frame. It is drawn into and then
/// presented; it must not be retained past presentation.
#[derive(Clone, Copy, Debug, PartialEq, Eq, Structural)]
pub struct FrameImage {
    /// The extent the image was configured with.
    pub extent: Extent,
}

/// What the device and display side is in a position to do when the next
/// image is requested: the environment's contribution to acquisition, which
/// the harness observes but does not control.
#[derive(Clone, Copy, Debug, PartialEq, Eq, Structural)]
pub enum DeviceCondition {
    /// The backend can serve the request.
    Nominal,
    /// The backend cannot produce an image in time.
    Busy,
    /// The underlying surface has been invalidated.
    Invalidated,
    /// The backend is out of memory.
    Exhausted,
}

/// The swap surface bound to a window: the format negotiation chose for it,
/// and the configuration currently applied, if any. The window the surface
/// was built from must outlive it; that ordering obligation is carried by
/// [`crate::lifecycle::ResourceOwner`].
#[derive(Clone, Copy, Debug, PartialEq, Eq, Structural)]
pub struct PresentationSurface {
    /// The pixel format chosen at creation; never changes afterwards.
    pub format: SurfaceFormat,
    /// The extent the surface is currently configured for; `None` until the
    /// first `configure`, which must follow creation immediately — some
    /// backends refuse to acquire from an unconfigured surface.
    pub config: Option<Extent>,
}

impl PresentationSurface {
    /// Whether some configuration has been applied.
    pub open spec fn is_configured(self) -> bool {
        self.config is Some
    }

    /// The applied configuration no longer matches the window's extent.
    pub open spec fn is_stale(self, window: Extent) -> bool {
        self.config != Some(window)
    }

    /// The outcome of requesting the next image while the window has extent
    /// `window` and the backend is in condition `cond`: the backend's own
    /// condition decides the three environment-driven failures, and a
    /// nominal backend hands out an image exactly when the configuration
    /// still matches the window.
    pub open spec fn acquire_outcome(self, window: Extent, cond: DeviceCondition) -> Result<
        FrameImage,
        AcquireError,
    > {
        match cond {
            DeviceCondition::Busy => Err(AcquireError::Timeout),
            DeviceCondition::Invalidated => Err(AcquireError::Lost),
            DeviceCondition::Exhausted => Err(AcquireError::OutOfMemory),
            DeviceCondition::Nominal => if self.is_stale(window) {
                Err(AcquireError::Outdated)
            } else {
                Ok(FrameImage { extent: window })
            },
        }
    }

    /// Bind a new, not yet configured surface with the negotiated format.
    pub fn new(format: SurfaceFormat) -> (s: Self)
        ensures
            s.format == format,
            !s.is_configured(),
    {
        PresentationSurface { format, config: None }
    }

    /// Apply the configuration derived from the window's current extent,
    /// keeping the negotiated format. Must be called once right after
    /// creation and again whenever the window's extent changes or an
    /// acquisition reports the configuration stale.
    pub fn configure(&mut self, window: Extent)
        requires
            window.is_drawable(),
        ensures
            final(self).format == old(self).format,
            final(self).config == Some(window),
            !final(self).is_stale(window),
    {
        self.config = Some(window);
    }

    /// Request the next image from the modeled backend. The real backend's
    /// answer is whatever `cond` says; the one decision owned here is that
    /// a nominal backend succeeds exactly when the configuration matches
    /// the window.
    pub fn acquire_next_image(&self, window: Extent, cond: DeviceCondition) -> (r: Result<
        FrameImage,
        AcquireError,
    >)
        requires
            self.is_configured(),
        ensures
            r == self.acquire_outcome(window, cond),
    {
        match cond {
            DeviceCondition::Busy => Err(AcquireError::Timeout),
            DeviceCondition::Invalidated => Err(AcquireError::Lost),
            DeviceCondition::Exhausted => Err(AcquireError::OutOfMemory),
            DeviceCondition::Nominal => {
                let matches_window = match self.config {
                    Some(e) => e.width == window.width && e.height == window.height,
                    None => false,
                };
                if matches_window {
                    Ok(FrameImage { extent: window })
                } else {
                    Err(AcquireError::Outdated)
                }
            },
        }
    }
}

/// Reconfiguration is idempotent with respect to staleness: immediately
/// after configuring for the window's current extent, acquisition never
/// reports the configuration outdated, whatever condition the device is in.
pub proof fn lemma_configure_heals_staleness(s: PresentationSurface, window: Extent, cond: DeviceCondition)
    requires
        s.config == Some(window),
    ensures
        s.acquire_outcome(window, cond) != Err::<FrameImage, AcquireError>(AcquireError::Outdated),
{
}

} // verus!
