//! A decoded product: the twelve raster bands of one acquisition, in band
//! order.

use vstd::prelude::*;
use crate::raster::{Plane, RasterBand};

verus! {

/// Number of bands of a product.
pub const BAND_COUNT: usize = 12;

/// Why an archive or a set of rasters does not make a usable product.
#[derive(Clone, Copy, Debug, PartialEq, Eq, Structural)]
pub enum DecodeError {
    /// The bytes are not an archive that can be read.
    InvalidArchive,
    /// The archive entry at this position cannot be opened.
    UnreadableEntry(usize),
    /// No entry of the archive carries this band (counted from 1).
    MissingBand(usize),
    /// More than one entry of the archive carries this band (counted from 1).
    DuplicateBand(usize),
    /// The payload of this band (counted from 1) cannot be read in full.
    CorruptBand(usize),
    /// The number of rasters handed over is not twelve.
    WrongBandCount(usize),
    /// The raster of this band (counted from 1) does not hold one sample per
    /// cell.
    MalformedBand(usize),
}

/// The twelve bands of one product, band 1 first.
#[derive(Debug)]
pub struct SatData {
    mat_array: Vec<RasterBand>,
}

/// Plane `k` is the first that is not well formed.
pub open spec fn first_malformed(planes: Seq<Plane>, k: int) -> bool {
    &&& 0 <= k < planes.len()
    &&& !planes[k].wf()
    &&& forall|j: int| 0 <= j < k ==> (#[trigger] planes[j]).wf()
}

/// The planes of a vector of bands.
pub open spec fn planes_of(bands: Seq<RasterBand>) -> Seq<Plane> {
    Seq::new(bands.len(), |k: int| bands[k]@)
}

impl View for SatData {
    type V = Seq<Plane>;

    closed spec fn view(&self) -> Seq<Plane> {
        planes_of(self.mat_array@)
    }
}

impl SatData {
    /// All twelve bands are present and each holds one sample per cell.
    pub open spec fn wf(&self) -> bool {
        &&& self@.len() == BAND_COUNT
        &&& forall|k: int| 0 <= k < BAND_COUNT ==> (#[trigger] self@[k]).wf()
    }

    /// The plane of band `index`, counted from 1.
    pub open spec fn plane(&self, index: int) -> Plane {
        self@[index - 1]
    }

    /// Makes a product of twelve rasters, band 1 first. Fails unless there are
    /// exactly twelve and each holds one sample per cell; of several
    /// malformed rasters the first is reported.
    pub fn new(bands: Vec<RasterBand>) -> (r: Result<SatData, DecodeError>)
        ensures
            r is Ok <==> bands@.len() == BAND_COUNT && forall|k: int|
                0 <= k < BAND_COUNT ==> (#[trigger] planes_of(bands@)[k]).wf(),
            r matches Ok(s) ==> s@ == planes_of(bands@) && s.wf(),
            r matches Err(e) ==> if bands@.len() != BAND_COUNT {
                e == DecodeError::WrongBandCount(bands.len())
            } else {
                e matches DecodeError::MalformedBand(b) && first_malformed(
                    planes_of(bands@),
                    b - 1,
                )
            },
    {
        if bands.len() != BAND_COUNT {
            return Err(DecodeError::WrongBandCount(bands.len()));
        }
        let mut k: usize = 0;
        while k < BAND_COUNT
            invariant
                bands@.len() == BAND_COUNT,
                0 <= k <= BAND_COUNT,
                forall|j: int| 0 <= j < k ==> (#[trigger] planes_of(bands@)[j]).wf(),
            decreases BAND_COUNT - k,
        {
            if !bands[k].is_well_formed() {
                assert(!planes_of(bands@)[k as int].wf());
                return Err(DecodeError::MalformedBand(k + 1));
            }
            k += 1;
        }
        Ok(SatData { mat_array: bands })
    }

    /// The raster of band `index`, counted from 1.
    pub fn band(&self, index: usize) -> (r: &RasterBand)
        requires
            self.wf(),
            1 <= index <= BAND_COUNT,
        ensures
            r@ == self.plane(index as int),
            r.wf(),
    {
        &self.mat_array[index - 1]
    }

    /// A copy of the raster of band 1.
    pub fn get_b1(&self) -> (r: RasterBand)
        requires
            self.wf(),
        ensures
            r@ == self.plane(1),
            r.wf(),
    {
        self.band(1).duplicate()
    }

    /// A copy of the raster of band 2.
    pub fn get_b2(&self) -> (r: RasterBand)
        requires
            self.wf(),
        ensures
            r@ == self.plane(2),
            r.wf(),
    {
        self.band(2).duplicate()
    }

    /// A copy of the raster of band 3.
    pub fn get_b3(&self) -> (r: RasterBand)
        requires
            self.wf(),
        ensures
            r@ == self.plane(3),
            r.wf(),
    {
        self.band(3).duplicate()
    }

    /// A copy of the raster of band 4.
    pub fn get_b4(&self) -> (r: RasterBand)
        requires
            self.wf(),
        ensures
            r@ == self.plane(4),
            r.wf(),
    {
        self.band(4).duplicate()
    }

    /// A copy of the raster of band 5.
    pub fn get_b5(&self) -> (r: RasterBand)
        requires
            self.wf(),
        ensures
            r@ == self.plane(5),
            r.wf(),
    {
        self.band(5).duplicate()
    }

    /// A copy of the raster of band 6.
    pub fn get_b6(&self) -> (r: RasterBand)
        requires
            self.wf(),
        ensures
            r@ == self.plane(6),
            r.wf(),
    {
        self.band(6).duplicate()
    }

    /// A copy of the raster of band 7.
    pub fn get_b7(&self) -> (r: RasterBand)
        requires
            self.wf(),
        ensures
            r@ == self.plane(7),
            r.wf(),
    {
        self.band(7).duplicate()
    }

    /// A copy of the raster of band 8.
    pub fn get_b8(&self) -> (r: RasterBand)
        requires
            self.wf(),
        ensures
            r@ == self.plane(8),
            r.wf(),
    {
        self.band(8).duplicate()
    }

    /// A copy of the raster of band 9.
    pub fn get_b9(&self) -> (r: RasterBand)
        requires
            self.wf(),
        ensures
            r@ == self.plane(9),
            r.wf(),
    {
        self.band(9).duplicate()
    }

    /// A copy of the raster of band 10.
    pub fn get_b10(&self) -> (r: RasterBand)
        requires
            self.wf(),
        ensures
            r@ == self.plane(10),
            r.wf(),
    {
        self.band(10).duplicate()
    }

    /// A copy of the raster of band 11.
    pub fn get_b11(&self) -> (r: RasterBand)
        requires
            self.wf(),
        ensures
            r@ == self.plane(11),
            r.wf(),
    {
        self.band(11).duplicate()
    }

    /// A copy of the raster of band 12.
    pub fn get_b12(&self) -> (r: RasterBand)
        requires
            self.wf(),
        ensures
            r@ == self.plane(12),
            r.wf(),
    {
        self.band(12).duplicate()
    }
}

} // verus!
