//! Textures as the core sees them: an image view and the sampler that reads
//! it.

use vstd::prelude::*;

verus! {

/// The native handles of an uploaded texture.
#[derive(Clone, Copy, Debug, PartialEq, Eq, Structural)]
pub struct Texture {
    pub view: u64,
    pub sampler: u64,
}

impl Texture {
    /// The image view.
    pub fn view(&self) -> (view: u64)
        ensures
            view == self.view,
    {
        self.view
    }

    /// The sampler.
    pub fn sampler(&self) -> (sampler: u64)
        ensures
            sampler == self.sampler,
    {
        self.sampler
    }
}

} // verus!
