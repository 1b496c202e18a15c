use vstd::prelude::*;

verus! {

/// A size in physical pixels.
#[derive(Clone, Copy, Debug, PartialEq, Eq, Structural)]
pub struct SurfaceSize {
    pub width: u32,
    pub height: u32,
}

impl SurfaceSize {
    /// Whether a surface can be configured with this size: both sides are non-zero.
    pub open spec fn is_drawable(self) -> bool {
        self.width != 0 && self.height != 0
    }
}

/// What a viewport holds: the window's inner size as measured when the
/// renderer was created, and the size the drawing surface is configured with.
pub struct ViewportView {
    pub window: SurfaceSize,
    pub surface: SurfaceSize,
}

impl ViewportView {
    /// The viewport after a request to resize the surface to `width` x `height`:
    /// the request is ignored when a side is zero; otherwise the surface takes
    /// the new size and the window size is kept.
    pub open spec fn resized(self, width: u32, height: u32) -> ViewportView {
        if width == 0 || height == 0 {
            self
        } else {
            ViewportView { window: self.window, surface: SurfaceSize { width, height } }
        }
    }
}

/// The sizes that the renderer keeps: the window's inner size measured when
/// the renderer was created, and the size the drawing surface is configured with.
///
/// A resize reconfigures the surface only; the window size stays as it was
/// measured.
#[derive(Clone, Copy, Debug)]
pub struct Viewport {
    window: SurfaceSize,
    surface: SurfaceSize,
}

impl View for Viewport {
    type V = ViewportView;

    closed spec fn view(&self) -> ViewportView {
        ViewportView { window: self.window, surface: self.surface }
    }
}

impl Viewport {
    /// A viewport for a window of inner size `width` x `height`, whose surface is
    /// configured with that same size.
    pub fn new(width: u32, height: u32) -> (v: Viewport)
        ensures
            v@.window == (SurfaceSize { width, height }),
            v@.surface == (SurfaceSize { width, height }),
    {
        let size = SurfaceSize { width, height };
        Viewport { window: size, surface: size }
    }

    /// The window's inner size as measured at creation.
    pub fn window_size(&self) -> (s: SurfaceSize)
        ensures
            s == self@.window,
    {
        self.window
    }

    /// The size the drawing surface is configured with.
    pub fn surface_size(&self) -> (s: SurfaceSize)
        ensures
            s == self@.surface,
    {
        self.surface
    }

    /// Resizes the drawing surface to `width` x `height`. A size with a zero side
    /// is ignored. Returns whether the surface was reconfigured.
    pub fn resize(&mut self, width: u32, height: u32) -> (applied: bool)
        ensures
            final(self)@ == old(self)@.resized(width, height),
            applied == (width != 0 && height != 0),
            final(self)@.window == old(self)@.window,
            applied ==> final(self)@.surface == (SurfaceSize { width: width, height: height }),
            !applied ==> final(self)@ == old(self)@,
    {
        if width == 0 || height == 0 {
            return false;
        }
        self.surface = SurfaceSize { width, height };
        true
    }
}

/// Resizing never changes the window size that the viewport measured at creation.
pub proof fn lemma_resize_keeps_window(v: ViewportView, width: u32, height: u32)
    ensures
        v.resized(width, height).window == v.window,
{
}

/// A resize to a size with no zero side configures the surface with exactly
/// that width and that height, in that order, and keeps the window size.
pub proof fn lemma_resize_sets_surface(v: ViewportView, width: u32, height: u32)
    requires
        width != 0,
        height != 0,
    ensures
        v.resized(width, height).surface.width == width,
        v.resized(width, height).surface.height == height,
        v.resized(width, height).window == v.window,
{
}

/// A resize to a size with a zero side leaves the viewport as it was.
pub proof fn lemma_resize_zero_ignored(v: ViewportView, width: u32, height: u32)
    requires
        width == 0 || height == 0,
    ensures
        v.resized(width, height) == v,
{
}

/// Resizing twice to the same size is the same as resizing once.
pub proof fn lemma_resize_idempotent(v: ViewportView, width: u32, height: u32)
    ensures
        v.resized(width, height).resized(width, height) == v.resized(width, height),
{
}

/// Of two resizes, the later one decides the surface size when it has no zero side.
pub proof fn lemma_resize_last_wins(v: ViewportView, w1: u32, h1: u32, w2: u32, h2: u32)
    requires
        w2 != 0,
        h2 != 0,
    ensures
        v.resized(w1, h1).resized(w2, h2) == v.resized(w2, h2),
{
}

/// A surface with no zero side keeps no zero side through any resize.
pub proof fn lemma_resize_drawable(v: ViewportView, width: u32, height: u32)
    requires
        v.surface.is_drawable(),
    ensures
        v.resized(width, height).surface.is_drawable(),
{
}

} // verus!
