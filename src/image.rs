use vstd::prelude::*;

verus! {

/// One output pixel: gamma-corrected, quantised channels.
#[derive(Clone, Copy, Debug, PartialEq, Eq, Structural)]
pub struct Rgb8 {
    pub r: u8,
    pub g: u8,
    pub b: u8,
}

impl Rgb8 {
    pub open spec fn is_black(self) -> bool {
        self.r == 0 && self.g == 0 && self.b == 0
    }

    pub fn new(r: u8, g: u8, b: u8) -> (p: Rgb8)
        ensures
            p.r == r && p.g == g && p.b == b,
    {
        Rgb8 { r, g, b }
    }
}

/// What an image holds: its size and its pixels in row-major order, top row
/// first.
pub struct ImageModel {
    pub width: nat,
    pub height: nat,
    pub pixels: Seq<Rgb8>,
}

impl ImageModel {
    pub open spec fn wf(self) -> bool {
        self.pixels.len() == self.width * self.height
    }

    /// The pixel at `row` (counted from the top) and `col`.
    pub open spec fn at(self, row: int, col: int) -> Rgb8 {
        self.pixels[row * self.width + col]
    }
}

/// The flat index of the pixel at `row`, `col` in a row-major grid.
pub open spec fn flat_index(row: int, col: int, width: int) -> int {
    row * width + col
}

/// A rendered picture, indexed by row and column: the place of each pixel
/// depends on its coordinates alone, never on the order in which pixels were
/// computed.
pub struct Image {
    width: usize,
    height: usize,
    pixels: Vec<Rgb8>,
}

impl View for Image {
    type V = ImageModel;

    closed spec fn view(&self) -> ImageModel {
        ImageModel { width: self.width as nat, height: self.height as nat, pixels: self.pixels@ }
    }
}

/// A position inside a `width` by `height` grid has a flat index inside it.
pub proof fn lemma_flat_index_bound(row: int, col: int, width: int, height: int)
    requires
        0 <= row < height,
        0 <= col < width,
    ensures
        0 <= row * width <= flat_index(row, col, width) < width * height,
{
    assert(row * width + col < width * height) by (nonlinear_arith)
        requires
            0 <= row < height,
            0 <= col < width,
    ;
    assert(0 <= row * width) by (nonlinear_arith)
        requires
            0 <= row,
            0 <= width,
    ;
}

impl Image {
    /// A black image of the given size.
    pub fn new(width: usize, height: usize) -> (r: Image)
        requires
            width * height <= usize::MAX,
        ensures
            r@.wf(),
            r@.width == width,
            r@.height == height,
            forall|i: int| 0 <= i < r@.pixels.len() ==> r@.pixels[i].is_black(),
    {
        let n: usize = width * height;
        let mut pixels: Vec<Rgb8> = Vec::with_capacity(n);
        let mut i: usize = 0;
        while i < n
            invariant
                i <= n,
                pixels@.len() == i,
                forall|k: int| 0 <= k < i ==> pixels@[k].is_black(),
            decreases n - i,
        {
            pixels.push(Rgb8 { r: 0, g: 0, b: 0 });
            i = i + 1;
        }
        Image { width, height, pixels }
    }

    /// An image made of pixels given in row-major order, top row first; none
    /// when their number is not `width * height`.
    pub fn from_rows(width: usize, height: usize, pixels: Vec<Rgb8>) -> (r: Option<Image>)
        ensures
            r is Some <==> pixels@.len() == width * height,
            r matches Some(img) ==> img@.wf() && img@.width == width && img@.height == height
                && img@.pixels == pixels@,
    {
        let len: usize = pixels.len();
        let fits = match width.checked_mul(height) {
            Some(n) => n == len,
            None => false,
        };
        if fits {
            Some(Image { width, height, pixels })
        } else {
            proof {
                if pixels@.len() == width * height {
                    assert(width * height <= usize::MAX);
                }
            }
            None
        }
    }

    pub fn width(&self) -> (w: usize)
        ensures
            w == self@.width,
    {
        self.width
    }

    pub fn height(&self) -> (h: usize)
        ensures
            h == self@.height,
    {
        self.height
    }

    /// The pixels in row-major order, top row first.
    pub fn pixels(&self) -> (p: &Vec<Rgb8>)
        ensures
            p@ == self@.pixels,
    {
        &self.pixels
    }

    /// The pixel at `row` (counted from the top) and `col`.
    pub fn get(&self, row: usize, col: usize) -> (p: Rgb8)
        requires
            self@.wf(),
            row < self@.height,
            col < self@.width,
        ensures
            p == self@.at(row as int, col as int),
    {
        let n: usize = self.pixels.len();
        proof {
            lemma_flat_index_bound(row as int, col as int, self.width as int, self.height as int);
        }
        self.pixels[row * self.width + col]
    }

    /// Stores `p` at `row`, `col`; every other pixel stays.
    pub fn set(&mut self, row: usize, col: usize, p: Rgb8)
        requires
            old(self)@.wf(),
            row < old(self)@.height,
            col < old(self)@.width,
        ensures
            final(self)@.wf(),
            final(self)@.width == old(self)@.width,
            final(self)@.height == old(self)@.height,
            final(self)@.pixels == old(self)@.pixels.update(
                flat_index(row as int, col as int, old(self)@.width as int),
                p,
            ),
    {
        let n: usize = self.pixels.len();
        proof {
            lemma_flat_index_bound(row as int, col as int, self.width as int, self.height as int);
        }
        let k: usize = row * self.width + col;
        self.pixels.set(k, p);
    }
}

/// The camera scanline of the image row `row`: rows count from the top,
/// scanlines from the bottom.
pub fn scanline(row: usize, height: usize) -> (j: usize)
    requires
        row < height,
    ensures
        j == height - 1 - row,
{
    height - 1 - row
}

/// The column and camera scanline of the pixel at flat index `index` of a
/// row-major grid, top row first.
pub fn pixel_position(index: usize, width: usize, height: usize) -> (r: (usize, usize))
    requires
        0 < width,
        index < width * height,
    ensures
        r.0 == index % width,
        r.1 == height - 1 - index / width,
        flat_index((height - 1 - r.1) as int, r.0 as int, width as int) == index,
{
    let col: usize = index % width;
    let row: usize = index / width;
    assert(row < height) by (nonlinear_arith)
        requires
            0 < width,
            index < width * height,
            row == index / width,
    ;
    assert(index == row * width + col) by (nonlinear_arith)
        requires
            0 < width,
            row == index / width,
            col == index % width,
    ;
    (col, height - 1 - row)
}

} // verus!
