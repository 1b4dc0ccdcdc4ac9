//! The renderer's output: a row-major grid of RGB bytes, top row first,
//! three bytes per pixel.

use vstd::prelude::*;

verus! {

/// Position of a pixel's first channel byte inside the flat buffer:
/// rows are laid out top to bottom, pixels left to right within a row,
/// and each pixel owns three consecutive bytes.
pub open spec fn byte_index(width: nat, row: nat, col: nat) -> nat {
    3 * (row * width + col)
}

/// A rendered image while it is being filled and once it is done.
pub struct Framebuffer {
    pub width: usize,
    pub height: usize,
    pub data: Vec<u8>,
}

impl Framebuffer {
    /// The buffer holds exactly three bytes for each of the `width * height` pixels.
    pub open spec fn wf(self) -> bool {
        self.data@.len() == 3 * (self.width * self.height)
    }

    /// An all-black image of the given dimensions, or `None` when the byte
    /// count `3 * width * height` does not fit in `usize`.
    pub fn new(width: usize, height: usize) -> (r: Option<Framebuffer>)
        ensures
            match r {
                Some(fb) => {
                    &&& fb.wf()
                    &&& fb.width == width
                    &&& fb.height == height
                    &&& forall|j: int| 0 <= j < fb.data@.len() ==> fb.data@[j] == 0u8
                },
                None => 3 * (width * height) > usize::MAX,
            },
    {
        proof {
            assert(width * height >= 0) by (nonlinear_arith)
                requires
                    width >= 0,
                    height >= 0,
            ;
        }
        let pixels = match width.checked_mul(height) {
            Some(p) => p,
            None => {
                return None;
            },
        };
        let bytes = match pixels.checked_mul(3) {
            Some(b) => b,
            None => {
                return None;
            },
        };
        let mut data: Vec<u8> = Vec::new();
        let mut i: usize = 0;
        while i < bytes
            invariant
                i <= bytes,
                data@.len() == i,
                forall|j: int| 0 <= j < i ==> data@[j] == 0u8,
            decreases bytes - i,
        {
            data.push(0);
            i = i + 1;
        }
        Some(Framebuffer { width, height, data })
    }

    /// Builds the finished image from one quantized RGB triple per pixel,
    /// given in row-major order, top row first. Returns `None` when the
    /// triple count is not `width * height` or the byte count does not fit
    /// in `usize`.
    pub fn from_pixels(width: usize, height: usize, pixels: &Vec<(u8, u8, u8)>) -> (r: Option<
        Framebuffer,
    >)
        ensures
            match r {
                Some(fb) => {
                    &&& fb.wf()
                    &&& fb.width == width
                    &&& fb.height == height
                    &&& pixels@.len() == width * height
                    &&& forall|k: int|
                        0 <= k < pixels@.len() ==> {
                            &&& fb.data@[3 * k] == (#[trigger] pixels@[k]).0
                            &&& fb.data@[3 * k + 1] == pixels@[k].1
                            &&& fb.data@[3 * k + 2] == pixels@[k].2
                        }
                },
                None => pixels@.len() != width * height || 3 * (width * height) > usize::MAX,
            },
    {
        proof {
            assert(width * height >= 0) by (nonlinear_arith)
                requires
                    width >= 0,
                    height >= 0,
            ;
        }
        let count = match width.checked_mul(height) {
            Some(c) => c,
            None => {
                return None;
            },
        };
        if pixels.len() != count {
            return None;
        }
        let bytes = match count.checked_mul(3) {
            Some(b) => b,
            None => {
                return None;
            },
        };
        let mut data: Vec<u8> = Vec::new();
        let mut k: usize = 0;
        while k < count
            invariant
                k <= count,
                count == width * height,
                pixels@.len() == count,
                3 * count <= usize::MAX,
                data@.len() == 3 * k,
                forall|i: int|
                    0 <= i < k ==> {
                        &&& data@[3 * i] == (#[trigger] pixels@[i]).0
                        &&& data@[3 * i + 1] == pixels@[i].1
                        &&& data@[3 * i + 2] == pixels@[i].2
                    },
            decreases count - k,
        {
            let p = pixels[k];
            data.push(p.0);
            data.push(p.1);
            data.push(p.2);
            k = k + 1;
        }
        Some(Framebuffer { width, height, data })
    }

    /// Writes one pixel's three channel bytes at its row-major position;
    /// every other byte of the buffer is left as it was.
    pub fn set_pixel(&mut self, row: usize, col: usize, r: u8, g: u8, b: u8)
        requires
            old(self).wf(),
            row < old(self).height,
            col < old(self).width,
        ensures
            final(self).wf(),
            final(self).width == old(self).width,
            final(self).height == old(self).height,
            final(self).data@ == old(self).data@.update(
                byte_index(old(self).width as nat, row as nat, col as nat) as int,
                r,
            ).update(
                byte_index(old(self).width as nat, row as nat, col as nat) as int + 1,
                g,
            ).update(
                byte_index(old(self).width as nat, row as nat, col as nat) as int + 2,
                b,
            ),
    {
        let _n = self.data.len();
        assert(row * self.width + col < self.width * self.height) by (nonlinear_arith)
            requires
                row < self.height,
                col < self.width,
        ;
        let base = 3 * (row * self.width + col);
        self.data.set(base, r);
        self.data.set(base + 1, g);
        self.data.set(base + 2, b);
    }

    /// The three channel bytes stored for a pixel.
    pub fn pixel(&self, row: usize, col: usize) -> (rgb: (u8, u8, u8))
        requires
            self.wf(),
            row < self.height,
            col < self.width,
        ensures
            rgb.0 == self.data@[byte_index(self.width as nat, row as nat, col as nat) as int],
            rgb.1 == self.data@[byte_index(self.width as nat, row as nat, col as nat) as int + 1],
            rgb.2 == self.data@[byte_index(self.width as nat, row as nat, col as nat) as int + 2],
    {
        let _n = self.data.len();
        assert(row * self.width + col < self.width * self.height) by (nonlinear_arith)
            requires
                row < self.height,
                col < self.width,
        ;
        let base = 3 * (row * self.width + col);
        (self.data[base], self.data[base + 1], self.data[base + 2])
    }

    /// Hands the finished image over as its raw byte buffer, row-major,
    /// top row first.
    pub fn into_bytes(self) -> (r: Vec<u8>)
        ensures
            r@ == self.data@,
    {
        self.data
    }
}

/// Distinct pixels own disjoint byte cells: the three bytes written for one
/// pixel never overlap the three bytes written for another.
pub proof fn lemma_byte_cells_disjoint(
    width: nat,
    height: nat,
    row1: nat,
    col1: nat,
    row2: nat,
    col2: nat,
)
    requires
        row1 < height,
        col1 < width,
        row2 < height,
        col2 < width,
        !(row1 == row2 && col1 == col2),
    ensures
        byte_index(width, row1, col1) + 3 <= byte_index(width, row2, col2) || byte_index(
            width,
            row2,
            col2,
        ) + 3 <= byte_index(width, row1, col1),
{
    if row1 == row2 {
        assert(col1 != col2);
    } else if row1 < row2 {
        assert(row1 * width + col1 < row2 * width + col2) by (nonlinear_arith)
            requires
                row1 < row2,
                col1 < width,
        ;
    } else {
        assert(row2 * width + col2 < row1 * width + col1) by (nonlinear_arith)
            requires
                row2 < row1,
                col2 < width,
        ;
    }
}

} // verus!
