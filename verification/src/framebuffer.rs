//! The 256x240 RGB24 framebuffer the renderer fills.

use vstd::prelude::*;

verus! {

pub const FRAME_WIDTH: usize = 256;
pub const FRAME_HEIGHT: usize = 240;

pub struct Framebuffer {
    pub data: Vec<u8>,
}

impl Framebuffer {
    /// Three bytes per pixel, 256 by 240 pixels.
    pub open spec fn wf(&self) -> bool {
        self.data.len() == FRAME_WIDTH * FRAME_HEIGHT * 3
    }

    pub fn new() -> (r: Framebuffer)
        ensures
            r.wf(),
    {
        Framebuffer { data: crate::mapper::filled_vec(FRAME_WIDTH * FRAME_HEIGHT * 3, 0) }
    }

    /// Writes one pixel; coordinates outside the frame are ignored.
    pub fn set_pixel(&mut self, x: usize, y: usize, rgb: (u8, u8, u8))
        requires
            old(self).wf(),
        ensures
            final(self).wf(),
            x < FRAME_WIDTH && y < FRAME_HEIGHT ==> {
                &&& final(self).data@[y * 3 * FRAME_WIDTH + x * 3] == rgb.0
                &&& final(self).data@[y * 3 * FRAME_WIDTH + x * 3 + 1] == rgb.1
                &&& final(self).data@[y * 3 * FRAME_WIDTH + x * 3 + 2] == rgb.2
            },
    {
        if x >= FRAME_WIDTH || y >= FRAME_HEIGHT {
            return ;
        }
        let base = y * 3 * FRAME_WIDTH + x * 3;
        if base + 2 < self.data.len() {
            self.data.set(base, rgb.0);
            self.data.set(base + 1, rgb.1);
            self.data.set(base + 2, rgb.2);
        }
    }
}

} // verus!
