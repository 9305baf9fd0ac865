//! The output pixel buffer. Pixels are addressed from the centre of the
//! canvas and stored row by row from the top-left corner.

use vstd::prelude::*;
use crate::ray_tracer::color::Color;

verus! {

#[derive(Debug, Clone)]
pub struct Canvas {
    pub width: i32,
    pub height: i32,
    pub pixels: Vec<Color>,
}

impl View for Canvas {
    type V = Seq<Color>;

    /// The pixels, row by row from the top-left corner.
    open spec fn view(&self) -> Seq<Color> {
        self.pixels@
    }
}

impl Canvas {
    /// The dimensions are not negative, the number of cells fits a 32-bit
    /// integer, and there is one pixel for each cell.
    pub open spec fn wf(&self) -> bool {
        &&& 0 <= self.width
        &&& 0 <= self.height
        &&& self.width * self.height <= i32::MAX
        &&& self@.len() == self.width * self.height
    }

    /// The place in the buffer of the pixel `(x, y)`, counted from the centre.
    pub open spec fn index_of(&self, x: int, y: int) -> int {
        (self.height / 2 + y) * self.width + (self.width / 2 + x)
    }

    /// Whether `(x, y)` can be addressed: every step of the index computation
    /// fits a 32-bit integer and the index lies in the buffer.
    pub open spec fn addressable(&self, x: int, y: int) -> bool {
        &&& i32::MIN <= self.width / 2 + x <= i32::MAX
        &&& i32::MIN <= self.height / 2 + y <= i32::MAX
        &&& i32::MIN <= (self.height / 2 + y) * self.width <= i32::MAX
        &&& 0 <= self.index_of(x, y) < self@.len()
    }

    /// Whether `(x, y)` lies in the centred rectangle that a render covers:
    /// `width / 2` columns and `height / 2` rows on either side of the centre.
    pub open spec fn covers(&self, x: int, y: int) -> bool {
        &&& -(self.width / 2) <= x < self.width / 2
        &&& -(self.height / 2) <= y < self.height / 2
    }

    /// The pixel `(x, y)`, counted from the centre.
    pub open spec fn spec_pixel_at(&self, x: int, y: int) -> Color {
        self@[self.index_of(x, y)]
    }

    /// Every pixel of the covered rectangle can be addressed, and its column
    /// and row in the buffer are its coordinates shifted by the half sizes.
    pub proof fn lemma_covered_is_addressable(&self, x: int, y: int)
        requires
            self.wf(),
            self.covers(x, y),
        ensures
            self.addressable(x, y),
            self.index_of(x, y) % (self.width as int) == self.width / 2 + x,
            self.index_of(x, y) / (self.width as int) == self.height / 2 + y,
    {
        let w = self.width as int;
        let h = self.height as int;
        let col = w / 2 + x;
        let row = h / 2 + y;
        assert(0 <= col < w);
        assert(0 <= row < h);
        assert(0 <= row * w <= (h - 1) * w) by (nonlinear_arith)
            requires
                0 <= row <= h - 1,
                0 <= w,
        ;
        assert((h - 1) * w == h * w - w) by (nonlinear_arith);
        assert(w * h == h * w) by (nonlinear_arith);
        vstd::arithmetic::div_mod::lemma_fundamental_div_mod_converse(row * w + col, w, row, col);
    }

    /// A canvas of white pixels.
    pub fn new(width: i32, height: i32) -> (c: Canvas)
        requires
            0 <= width,
            0 <= height,
            width * height <= i32::MAX,
        ensures
            c.wf(),
            c.width == width,
            c.height == height,
            forall|i: int| 0 <= i < c@.len() ==> c@[i] == Color::white(),
    {
        assert(0 <= width * height) by (nonlinear_arith)
            requires
                0 <= width,
                0 <= height,
        ;
        let size = width * height;
        let pixels = vec![Color::white(); size as usize];
        Canvas { width, height, pixels }
    }

    fn index_at(&self, x: i32, y: i32) -> (index: usize)
        requires
            self.wf(),
            self.addressable(x as int, y as int),
        ensures
            index == self.index_of(x as int, y as int),
    {
        let canvas_x = (self.width / 2) + x;
        let canvas_y = (self.height / 2) + y;
        (canvas_y * self.width + canvas_x) as usize
    }

    /// Writes one pixel and leaves all others as they were.
    pub fn put_pixel(&mut self, x: i32, y: i32, color: &Color)
        requires
            old(self).wf(),
            old(self).addressable(x as int, y as int),
        ensures
            final(self).width == old(self).width,
            final(self).height == old(self).height,
            final(self)@ == old(self)@.update(old(self).index_of(x as int, y as int), *color),
            final(self).wf(),
    {
        let index = self.index_at(x, y);
        self.pixels[index] = color.clone();
    }

    /// Reads one pixel.
    pub fn pixel_at(&self, x: i32, y: i32) -> (color: Color)
        requires
            self.wf(),
            self.addressable(x as int, y as int),
        ensures
            color == self.spec_pixel_at(x as int, y as int),
    {
        let index = self.index_at(x, y);
        self.pixels[index]
    }

    /// The finished image as bytes: four per pixel, red, green, blue and
    /// opacity, row by row from the top-left corner.
    pub fn draw(&self) -> (image: Vec<u8>)
        ensures
            image@.len() == 4 * self@.len(),
            forall|i: int, c: int|
                0 <= i < self@.len() && 0 <= c < 4 ==> image@[4 * i + c]
                    == #[trigger] self@[i].as_u8_array()[c],
    {
        let mut image: Vec<u8> = Vec::new();
        let mut i: usize = 0;
        while i < self.pixels.len()
            invariant
                i <= self.pixels.len(),
                image@.len() == 4 * i,
                forall|j: int, c: int|
                    0 <= j < i && 0 <= c < 4 ==> image@[4 * j + c]
                        == #[trigger] self@[j].as_u8_array()[c],
            decreases self.pixels.len() - i,
        {
            let bytes = self.pixels[i].as_u8_array();
            image.push(bytes[0]);
            image.push(bytes[1]);
            image.push(bytes[2]);
            image.push(bytes[3]);
            i += 1;
        }
        image
    }
}

} // verus!
