use vstd::prelude::*;

verus! {

/// A row-major grid of packed `0xRRGGBB` pixels and the colour that the next
/// `point` writes.
pub struct Framebuffer {
    pub width: usize,
    pub height: usize,
    pub buffer: Vec<u32>,
    pub current_color: u32,
}

/// Whether `(x, y)` lies on a `width` by `height` grid.
pub open spec fn in_grid(width: int, height: int, x: int, y: int) -> bool {
    0 <= x < width && 0 <= y < height
}

/// Position of pixel `(x, y)` in a row-major buffer of rows `width` long.
pub open spec fn pixel_index(width: int, x: int, y: int) -> int {
    y * width + x
}

/// Every pixel of the grid has a distinct slot in the buffer.
pub proof fn lemma_index_in_buffer(width: int, height: int, x: int, y: int)
    requires
        in_grid(width, height, x, y),
    ensures
        0 <= pixel_index(width, x, y) < width * height,
{
    assert(0 <= y * width + x < width * height) by (nonlinear_arith)
        requires
            0 <= x < width,
            0 <= y < height,
    ;
}

impl Framebuffer {
    /// The buffer holds exactly one value per pixel.
    pub open spec fn wf(&self) -> bool {
        &&& self.width * self.height <= usize::MAX
        &&& self.buffer@.len() == self.width * self.height
    }

    /// A black `width` by `height` buffer whose drawing colour is white.
    pub fn new(width: usize, height: usize) -> (fb: Framebuffer)
        requires
            width * height <= usize::MAX,
        ensures
            fb.wf(),
            fb.width == width,
            fb.height == height,
            fb.current_color == 0xffffffu32,
            forall|i: int| 0 <= i < fb.buffer@.len() ==> fb.buffer@[i] == 0u32,
    {
        let n: usize = width * height;
        let mut buffer: Vec<u32> = Vec::with_capacity(n);
        let mut i: usize = 0;
        while i < n
            invariant
                i <= n,
                buffer@.len() == i,
                forall|j: int| 0 <= j < i ==> buffer@[j] == 0u32,
            decreases n - i,
        {
            buffer.push(0u32);
            i = i + 1;
        }
        Framebuffer { width, height, buffer, current_color: 0xffffffu32 }
    }

    /// Sets the colour that later calls of `point` write.
    pub fn set_current_color(&mut self, color: u32)
        ensures
            final(self).current_color == color,
            final(self).width == old(self).width,
            final(self).height == old(self).height,
            final(self).buffer@ == old(self).buffer@,
    {
        self.current_color = color;
    }

    /// Writes the current colour at `(x, y)`; a point off the grid changes nothing.
    pub fn point(&mut self, x: usize, y: usize)
        requires
            old(self).wf(),
        ensures
            final(self).wf(),
            final(self).width == old(self).width,
            final(self).height == old(self).height,
            final(self).current_color == old(self).current_color,
            final(self).buffer@ == (if in_grid(old(self).width as int, old(self).height as int, x as int, y as int) {
                old(self).buffer@.update(
                    pixel_index(old(self).width as int, x as int, y as int),
                    old(self).current_color,
                )
            } else {
                old(self).buffer@
            }),
    {
        if x < self.width && y < self.height {
            proof {
                lemma_index_in_buffer(self.width as int, self.height as int, x as int, y as int);
            }
            let idx: usize = y * self.width + x;
            let c = self.current_color;
            self.buffer.set(idx, c);
        }
    }
}

} // verus!
