//! A verified model of a compute-shader path-tracing frame engine.
//!
//! The engine drives five compute stages per frame over a set of GPU
//! buffers, with explicit barriers at every read-after-write boundary,
//! a frames-in-flight fence protocol that bounds how far the CPU may run
//! ahead of the GPU, and an acquire-semaphore indirection keyed by the
//! swapchain image index (which is a different index space from the
//! frame-in-flight slot).  Buffer contents are modelled as words; the
//! shaders' arithmetic is out of scope and stands behind fixed
//! deterministic functions of exactly the buffers each stage reads.

use vstd::prelude::*;

pub mod stages;
pub mod resources;
pub mod gpu;
pub mod engine;

verus! {

/// Fixed configuration shared by the engine and the tiled stages.
/// `workgroup` must divide both image dimensions exactly, matching the
/// shaders' tiling assumptions.
#[derive(Clone, Copy, PartialEq, Eq, Structural, Debug)]
pub struct Config {
    pub width: u32,
    pub height: u32,
    pub workgroup: u32,
    pub frames_in_flight: usize,
}

impl Config {
    /// The configuration the shaders were compiled against: nonzero
    /// dimensions, a tile that divides them exactly, at least one frame
    /// in flight, and a pixel count that fits the word-indexed buffers.
    pub open spec fn wf(self) -> bool {
        &&& self.width >= 1
        &&& self.height >= 1
        &&& self.workgroup >= 1
        &&& self.frames_in_flight >= 1
        &&& self.width % self.workgroup == 0
        &&& self.height % self.workgroup == 0
        &&& self.width * self.height <= u32::MAX
    }

    /// One word per pixel: the length of the ray and intersection buffers.
    pub open spec fn spec_pixel_count(self) -> int {
        self.width * self.height
    }

    pub fn pixel_count(&self) -> (n: usize)
        requires
            self.wf(),
        ensures
            n == self.spec_pixel_count(),
    {
        (self.width as u64 * self.height as u64) as usize
    }

    pub fn is_wf(&self) -> (b: bool)
        ensures
            b == self.wf(),
    {
        proof {
            assert((self.width as int) * (self.height as int) <= 0xffff_ffff * 0xffff_ffff)
                by (nonlinear_arith)
                requires
                    self.width <= 0xffff_ffffu32,
                    self.height <= 0xffff_ffffu32,
            ;
        }
        self.width >= 1 && self.height >= 1 && self.workgroup >= 1
            && self.frames_in_flight >= 1
            && self.width % self.workgroup == 0
            && self.height % self.workgroup == 0
            && (self.width as u64) * (self.height as u64) <= u32::MAX as u64
    }
}

} // verus!
