//! Single-channel rasters and three-channel images, stored row by row.

use vstd::prelude::*;

verus! {

/// A single-channel grid of 8-bit samples, stored row by row.
#[derive(Debug)]
pub struct RasterBand {
    pub rows: usize,
    pub cols: usize,
    pub data: Vec<u8>,
}

/// A three-channel 8-bit image, stored row by row. Each pixel takes three
/// consecutive bytes in the order blue, green, red.
#[derive(Debug)]
pub struct Image {
    pub rows: usize,
    pub cols: usize,
    pub data: Vec<u8>,
}

/// What a band is: its dimensions and its samples, row by row.
pub ghost struct Plane {
    pub rows: nat,
    pub cols: nat,
    pub samples: Seq<u8>,
}

/// What an image is: its dimensions and its bytes, three per pixel in the
/// order blue, green, red, row by row.
pub ghost struct Picture {
    pub rows: nat,
    pub cols: nat,
    pub bytes: Seq<u8>,
}

/// The position of cell `(r, c)` in a row-major grid with `cols` columns.
pub open spec fn cell(cols: int, r: int, c: int) -> int {
    r * cols + c
}

/// Every cell of a `rows` by `cols` grid lies below `rows * cols`, and its
/// position determines its row and column.
pub proof fn lemma_cell_in_grid(rows: int, cols: int, r: int, c: int)
    requires
        0 <= r < rows,
        0 <= c < cols,
    ensures
        0 <= cell(cols, r, c) < rows * cols,
        cell(cols, r, c) / cols == r,
        cell(cols, r, c) % cols == c,
{
    assert(r * cols + cols == (r + 1) * cols) by (nonlinear_arith);
    assert((r + 1) * cols <= rows * cols) by (nonlinear_arith)
        requires
            r + 1 <= rows,
            cols > 0,
    ;
    assert(0 <= r * cols) by (nonlinear_arith)
        requires
            0 <= r,
            0 < cols,
    ;
    vstd::arithmetic::div_mod::lemma_fundamental_div_mod_converse(r * cols + c, cols, r, c);
}

impl Plane {
    /// There is exactly one sample per cell.
    pub open spec fn wf(self) -> bool {
        self.samples.len() == self.rows * self.cols
    }

    /// The sample in row `r`, column `c`.
    pub open spec fn sample(self, r: int, c: int) -> u8 {
        self.samples[cell(self.cols as int, r, c)]
    }

    /// Whether two planes have the same number of rows and of columns.
    pub open spec fn same_shape(self, other: Plane) -> bool {
        self.rows == other.rows && self.cols == other.cols
    }
}

impl Picture {
    /// There are exactly three bytes per pixel.
    pub open spec fn wf(self) -> bool {
        self.bytes.len() == 3 * (self.rows * self.cols)
    }

    /// The blue value of the pixel in row `r`, column `c`.
    pub open spec fn blue(self, r: int, c: int) -> u8 {
        self.bytes[3 * cell(self.cols as int, r, c)]
    }

    /// The green value of the pixel in row `r`, column `c`.
    pub open spec fn green(self, r: int, c: int) -> u8 {
        self.bytes[3 * cell(self.cols as int, r, c) + 1]
    }

    /// The red value of the pixel in row `r`, column `c`.
    pub open spec fn red(self, r: int, c: int) -> u8 {
        self.bytes[3 * cell(self.cols as int, r, c) + 2]
    }
}

impl View for RasterBand {
    type V = Plane;

    open spec fn view(&self) -> Plane {
        Plane { rows: self.rows as nat, cols: self.cols as nat, samples: self.data@ }
    }
}

impl View for Image {
    type V = Picture;

    open spec fn view(&self) -> Picture {
        Picture { rows: self.rows as nat, cols: self.cols as nat, bytes: self.data@ }
    }
}

impl RasterBand {
    /// The sample vector holds exactly one byte per cell.
    pub open spec fn wf(&self) -> bool {
        self@.wf()
    }

    /// Builds a band from its dimensions and samples; `None` when the number
    /// of samples is not `rows * cols`.
    pub fn new(rows: usize, cols: usize, data: Vec<u8>) -> (r: Option<RasterBand>)
        ensures
            r is Some <==> data@.len() == rows * cols,
            r matches Some(b) ==> b.rows == rows && b.cols == cols && b.data@ == data@ && b.wf(),
    {
        let len: usize = data.len();
        match rows.checked_mul(cols) {
            Some(n) => {
                if n == len {
                    Some(RasterBand { rows, cols, data })
                } else {
                    None
                }
            },
            None => None,
        }
    }

    /// Whether the sample vector holds exactly one byte per cell.
    pub fn is_well_formed(&self) -> (r: bool)
        ensures
            r == self.wf(),
    {
        let len: usize = self.data.len();
        match self.rows.checked_mul(self.cols) {
            Some(n) => n == len,
            None => false,
        }
    }

    /// A copy of the band.
    pub fn duplicate(&self) -> (r: RasterBand)
        ensures
            r@ == self@,
    {
        RasterBand { rows: self.rows, cols: self.cols, data: self.data.clone() }
    }

    /// Whether two bands have the same number of rows and of columns.
    pub fn has_shape_of(&self, other: &RasterBand) -> (r: bool)
        ensures
            r == self@.same_shape(other@),
    {
        self.rows == other.rows && self.cols == other.cols
    }
}

impl Image {
    /// The byte vector holds exactly three bytes per pixel.
    pub open spec fn wf(&self) -> bool {
        self@.wf()
    }
}

} // verus!
