//! Where the renderer presents: a window, or nothing at all.
//!
//! A provider tells the size of its surface. Creating the native surface and
//! naming the instance extensions it needs is left to the caller; a provider
//! that needs no extension at all stands for headless rendering.

use vstd::prelude::*;

verus! {

/// The size of a surface in pixels.
#[derive(Clone, Copy, Debug, PartialEq, Eq, Structural)]
pub struct Extent2D {
    pub width: u32,
    pub height: u32,
}

impl Extent2D {
    /// An extent without area, as a minimized window has it.
    pub open spec fn zero_area(self) -> bool {
        self.width == 0 || self.height == 0
    }

    /// Whether the extent has no area.
    pub fn is_zero_area(&self) -> (zero: bool)
        ensures
            zero == self.zero_area(),
    {
        self.width == 0 || self.height == 0
    }
}

/// Provides the surface of a window of type `W`.
pub struct WindowSurfaceProvider<W> {
    window: W,
    width: u32,
    height: u32,
}

impl<W> WindowSurfaceProvider<W> {
    /// The window the provider wraps.
    pub closed spec fn spec_window(&self) -> W {
        self.window
    }

    /// The size the provider reports.
    pub closed spec fn spec_extent(&self) -> Extent2D {
        Extent2D { width: self.width, height: self.height }
    }

    /// Wraps `window`, whose surface is `width` by `height` pixels.
    pub fn new(window: W, width: u32, height: u32) -> (provider: Self)
        ensures
            provider.spec_window() == window,
            provider.spec_extent() == (Extent2D { width, height }),
    {
        Self { window, width, height }
    }

    /// Records a new size, after the window was resized.
    pub fn set_extent(&mut self, width: u32, height: u32)
        ensures
            final(self).spec_extent() == (Extent2D { width, height }),
            final(self).spec_window() == old(self).spec_window(),
    {
        self.width = width;
        self.height = height;
    }

    /// The wrapped window.
    pub fn window(&self) -> (window: &W)
        ensures
            *window == self.spec_window(),
    {
        &self.window
    }

    /// The current size of the surface.
    pub fn extent(&self) -> (extent: Extent2D)
        ensures
            extent == self.spec_extent(),
    {
        Extent2D { width: self.width, height: self.height }
    }
}

/// Stands in for a surface where nothing is presented: the renderer draws
/// into offscreen images of the given size.
pub struct HeadlessSurfaceProvider {
    width: u32,
    height: u32,
}

impl HeadlessSurfaceProvider {
    /// The size the provider reports.
    pub closed spec fn spec_extent(&self) -> Extent2D {
        Extent2D { width: self.width, height: self.height }
    }

    /// A headless provider with a virtual surface of `width` by `height`.
    pub fn new(width: u32, height: u32) -> (provider: Self)
        ensures
            provider.spec_extent() == (Extent2D { width, height }),
    {
        Self { width, height }
    }

    /// The size of the virtual surface.
    pub fn extent(&self) -> (extent: Extent2D)
        ensures
            extent == self.spec_extent(),
    {
        Extent2D { width: self.width, height: self.height }
    }

    /// The number of instance extensions a headless surface needs: none.
    pub fn required_extension_count(&self) -> (count: usize)
        ensures
            count == 0,
    {
        0
    }
}

} // verus!
