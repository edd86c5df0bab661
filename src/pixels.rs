use vstd::arithmetic::div_mod::{
    lemma_div_pos_is_pos, lemma_fundamental_div_mod, lemma_mod_pos_bound, lemma_multiply_divide_lt,
};
use vstd::prelude::*;

verus! {

/// A grid of pixels: rows from top to bottom, each a sequence of pixels from
/// left to right, each pixel a sequence of channel samples.
pub type Grid = Seq<Seq<Seq<u8>>>;

/// A decoded image as a row-major buffer of 8-bit samples, with three (RGB) or
/// four (RGBA) channels per pixel.
#[derive(Debug)]
pub struct PixelBuffer {
    pub width: u32,
    pub height: u32,
    pub channels: u32,
    pub data: Vec<u8>,
}

impl PixelBuffer {
    pub open spec fn wf(&self) -> bool {
        &&& self.channels == 3 || self.channels == 4
        &&& self.data@.len() == self.width as int * self.height as int * self.channels as int
    }

    /// The samples of the pixel in column `x` of row `y`.
    pub open spec fn pixel(&self, x: int, y: int) -> Seq<u8> {
        pixel_of(self.width as int, self.channels as int, self.data@, x, y)
    }

    pub open spec fn grid(&self) -> Grid {
        grid_of(self.width as int, self.height as int, self.channels as int, self.data@)
    }
}

/// The samples of pixel (`x`, `y`) in row-major samples `data` of width `w`
/// with `ch` samples per pixel.
pub open spec fn pixel_of(w: int, ch: int, data: Seq<u8>, x: int, y: int) -> Seq<u8> {
    let start = (y * w + x) * ch;
    data.subrange(start, start + ch)
}

/// The `w` x `h` grid of pixels held in row-major samples `data`.
pub open spec fn grid_of(w: int, h: int, ch: int, data: Seq<u8>) -> Grid {
    Seq::new(h as nat, |y: int| Seq::new(w as nat, |x: int| pixel_of(w, ch, data, x, y)))
}

/// Samples past the last pixel do not change the grid.
pub proof fn lemma_grid_of_prefix(w: int, h: int, ch: int, data: Seq<u8>, prefix: Seq<u8>)
    requires
        w >= 0,
        h >= 0,
        ch >= 0,
        data.len() >= w * h * ch,
        prefix == data.subrange(0, w * h * ch),
    ensures
        grid_of(w, h, ch, prefix) == grid_of(w, h, ch, data),
{
    assert forall|y: int, x: int| 0 <= y < h && 0 <= x < w implies pixel_of(w, ch, prefix, x, y)
        == pixel_of(w, ch, data, x, y) by {
        assert((y * w + x) * ch + ch <= w * h * ch) by (nonlinear_arith)
            requires
                0 <= y < h,
                0 <= x < w,
                ch >= 0,
        ;
        assert((y * w + x) * ch >= 0) by (nonlinear_arith)
            requires
                0 <= y,
                0 <= x,
                w >= 0,
                ch >= 0,
        ;
        assert(pixel_of(w, ch, prefix, x, y) =~= pixel_of(w, ch, data, x, y));
    }
    assert(grid_of(w, h, ch, prefix) =~~= grid_of(w, h, ch, data));
}

/// Two well-formed buffers of the same shape and the same pixels hold the same
/// samples.
pub proof fn lemma_grid_determines_data(a: &PixelBuffer, b: &PixelBuffer)
    requires
        a.wf(),
        b.wf(),
        a.width == b.width,
        a.height == b.height,
        a.channels == b.channels,
        a.grid() == b.grid(),
    ensures
        a.data@ == b.data@,
{
    let w = a.width as int;
    let h = a.height as int;
    let ch = a.channels as int;
    let row = w * ch;
    assert forall|i: int| 0 <= i < a.data@.len() implies a.data@[i] == b.data@[i] by {
        assert(a.data@.len() == row * h) by (nonlinear_arith)
            requires
                a.data@.len() == w * h * ch,
                row == w * ch,
        ;
        assert(row > 0) by (nonlinear_arith)
            requires
                0 <= i < row * h,
                h >= 0,
        ;
        let y = i / row;
        let r = i % row;
        lemma_fundamental_div_mod(i, row);
        lemma_mod_pos_bound(i, row);
        lemma_div_pos_is_pos(i, row);
        lemma_multiply_divide_lt(i, row, h);
        let x = r / ch;
        let c = r % ch;
        lemma_fundamental_div_mod(r, ch);
        lemma_mod_pos_bound(r, ch);
        lemma_div_pos_is_pos(r, ch);
        lemma_multiply_divide_lt(r, ch, w);
        assert((y * w + x) * ch + c == i) by (nonlinear_arith)
            requires
                i == row * y + r,
                r == ch * x + c,
                row == w * ch,
        ;
        assert(a.grid()[y][x] == b.grid()[y][x]);
        assert(a.pixel(x, y)[c] == b.pixel(x, y)[c]);
    }
    assert(a.data@ =~= b.data@);
}

/// Mirror each row of a `w` x `h` grid.
pub open spec fn flip_h(g: Grid, w: int, h: int) -> Grid {
    Seq::new(h as nat, |y: int| Seq::new(w as nat, |x: int| g[y][w - 1 - x]))
}

/// Turn a `w` x `h` grid half a turn.
pub open spec fn rot180(g: Grid, w: int, h: int) -> Grid {
    Seq::new(h as nat, |y: int| Seq::new(w as nat, |x: int| g[h - 1 - y][w - 1 - x]))
}

/// Turn a `w` x `h` grid a quarter turn clockwise; the result is `h` wide and
/// `w` tall.
pub open spec fn rot90(g: Grid, w: int, h: int) -> Grid {
    Seq::new(w as nat, |y: int| Seq::new(h as nat, |x: int| g[h - 1 - x][y]))
}

/// `g` has `h` rows of `w` pixels each.
pub open spec fn is_rect(g: Grid, w: int, h: int) -> bool {
    &&& g.len() == h
    &&& forall|y: int| 0 <= y < h ==> #[trigger] g[y].len() == w
}

} // verus!
