//! The four colour composites, as functions of a product's bands.

use vstd::prelude::*;
use crate::index::{
    land_level, land_levels, land_table, lemma_equal_samples, lemma_tables, water_level,
    water_levels, water_table, LEVEL_COUNT,
};
use crate::raster::{lemma_cell_in_grid, Image, Picture, Plane, RasterBand};
use crate::sat_data::SatData;
use crate::variant::FilterVariant;

verus! {

/// Why a composite cannot be built.
#[derive(Clone, Copy, Debug, PartialEq, Eq, Structural)]
pub enum FilterError {
    /// The channels to be merged do not all have the same dimensions.
    DimensionMismatch,
    /// The image would take more bytes than can be addressed.
    TooLarge,
}

/// The plane that keeps one sample of each `ratio` by `ratio` block: the one
/// in the block's first row and first column. Rows and columns that do not
/// fill a block are left out.
pub open spec fn decimate(p: Plane, ratio: nat) -> Plane
    recommends
        ratio > 0,
{
    let rows = p.rows / ratio;
    let cols = p.cols / ratio;
    Plane {
        rows,
        cols,
        samples: Seq::new(
            rows * cols,
            |i: int| p.sample((i / cols as int) * ratio, (i % cols as int) * ratio),
        ),
    }
}

/// The bytes of the image whose channels are the three sample sequences:
/// for each position the blue, the green and the red sample, in this order.
pub open spec fn interleave(red: Seq<u8>, green: Seq<u8>, blue: Seq<u8>) -> Seq<u8> {
    Seq::new(
        3 * blue.len(),
        |i: int|
            if i % 3 == 0 {
                blue[i / 3]
            } else if i % 3 == 1 {
                green[i / 3]
            } else {
                red[i / 3]
            },
    )
}

/// The image that has the three planes as its red, green and blue channel,
/// or the reason why there is none.
pub open spec fn composite(red: Plane, green: Plane, blue: Plane) -> Result<Picture, FilterError> {
    if !(red.same_shape(green) && green.same_shape(blue)) {
        Err(FilterError::DimensionMismatch)
    } else if 3 * blue.samples.len() > usize::MAX {
        Err(FilterError::TooLarge)
    } else {
        Ok(
            Picture {
                rows: blue.rows,
                cols: blue.cols,
                bytes: interleave(red.samples, green.samples, blue.samples),
            },
        )
    }
}

/// The plane of the shape of `green` that holds at each position the entry
/// of `table` for the samples of `green` and `nir` there.
pub open spec fn level_plane(table: Seq<u8>, green: Plane, nir: Plane) -> Plane {
    Plane {
        rows: green.rows,
        cols: green.cols,
        samples: Seq::new(
            green.samples.len(),
            |p: int| table[green.samples[p] * 256 + nir.samples[p]],
        ),
    }
}

/// The plane of the shape of `green` that holds at each position the water
/// level of the samples of `green` and `nir` there.
pub open spec fn water_plane(green: Plane, nir: Plane) -> Plane {
    Plane {
        rows: green.rows,
        cols: green.cols,
        samples: Seq::new(
            green.samples.len(),
            |p: int| water_level(green.samples[p], nir.samples[p]),
        ),
    }
}

/// The plane of the shape of `green` that holds at each position the land
/// level of the samples of `green` and `nir` there.
pub open spec fn land_plane(green: Plane, nir: Plane) -> Plane {
    Plane {
        rows: green.rows,
        cols: green.cols,
        samples: Seq::new(
            green.samples.len(),
            |p: int| land_level(green.samples[p], nir.samples[p]),
        ),
    }
}

/// The plane of the shape of `like` that is zero everywhere.
pub open spec fn zero_plane(like: Plane) -> Plane {
    Plane { rows: like.rows, cols: like.cols, samples: Seq::new(like.samples.len(), |p: int| 0u8) }
}

/// The water-index composite of a green and a near-infrared plane: red is
/// zero, green the land level, blue the water level.
pub open spec fn ndwi_composite(green: Plane, nir: Plane) -> Result<Picture, FilterError> {
    if !green.same_shape(nir) {
        Err(FilterError::DimensionMismatch)
    } else {
        composite(zero_plane(nir), land_plane(green, nir), water_plane(green, nir))
    }
}

/// What a composite function returns, with the image taken by its view.
pub open spec fn outcome(r: Result<Image, FilterError>) -> Result<Picture, FilterError> {
    match r {
        Ok(img) => Ok(img@),
        Err(e) => Err(e),
    }
}

/// The composite that a variant derives from the planes of a product.
pub open spec fn variant_composite(variant: FilterVariant, bands: Seq<Plane>) -> Result<
    Picture,
    FilterError,
> {
    match variant {
        FilterVariant::TrueColor => composite(bands[3], bands[2], bands[1]),
        FilterVariant::FalseColor => composite(bands[7], bands[2], bands[1]),
        FilterVariant::Ndwi => ndwi_composite(bands[2], bands[7]),
        FilterVariant::Swir => composite(decimate(bands[3], 2), decimate(bands[7], 2), bands[11]),
    }
}

/// Decimation gives a well-formed plane with the dimensions divided by the
/// ratio, whose sample in row `r` and column `c` is the sample of the source
/// in row `r * ratio` and column `c * ratio`.
pub proof fn lemma_decimate(p: Plane, ratio: nat, r: int, c: int)
    requires
        ratio > 0,
        0 <= r < p.rows / ratio,
        0 <= c < p.cols / ratio,
    ensures
        decimate(p, ratio).wf(),
        decimate(p, ratio).rows == p.rows / ratio,
        decimate(p, ratio).cols == p.cols / ratio,
        decimate(p, ratio).sample(r, c) == p.sample(r * ratio, c * ratio),
{
    lemma_cell_in_grid((p.rows / ratio) as int, (p.cols / ratio) as int, r, c);
}

/// Decimation gives a well-formed plane.
pub proof fn lemma_decimate_wf(p: Plane, ratio: nat)
    requires
        ratio > 0,
    ensures
        decimate(p, ratio).wf(),
        decimate(p, ratio).rows == p.rows / ratio,
        decimate(p, ratio).cols == p.cols / ratio,
{
}

/// Reduces the number of samples of a band by `ratio` in each direction,
/// keeping the first sample of each block.
pub fn down_sample_u8(m: &RasterBand, ratio: usize) -> (out: RasterBand)
    requires
        m.wf(),
        ratio > 0,
    ensures
        out@ == decimate(m@, ratio as nat),
        out.wf(),
{
    let rows: usize = m.rows / ratio;
    let cols: usize = m.cols / ratio;
    let total: usize = m.data.len();
    let ghost goal = decimate(m@, ratio as nat);
    let mut data: Vec<u8> = Vec::new();
    let mut r: usize = 0;
    proof {
        vstd::arithmetic::div_mod::lemma_fundamental_div_mod(m.rows as int, ratio as int);
        vstd::arithmetic::div_mod::lemma_fundamental_div_mod(m.cols as int, ratio as int);
        vstd::arithmetic::div_mod::lemma_mod_division_less_than_divisor(m.rows as int, ratio as int);
        vstd::arithmetic::div_mod::lemma_mod_division_less_than_divisor(m.cols as int, ratio as int);
        assert(rows * ratio <= m.rows) by (nonlinear_arith)
            requires
                m.rows == ratio * rows + (m.rows as int % ratio as int),
                0 <= (m.rows as int % ratio as int),
        ;
        assert(cols * ratio <= m.cols) by (nonlinear_arith)
            requires
                m.cols == ratio * cols + (m.cols as int % ratio as int),
                0 <= (m.cols as int % ratio as int),
        ;
    }
    while r < rows
        invariant
            m.wf(),
            ratio > 0,
            rows == m.rows / ratio,
            cols == m.cols / ratio,
            rows * ratio <= m.rows,
            cols * ratio <= m.cols,
            goal == decimate(m@, ratio as nat),
            goal.samples.len() == rows * cols,
            total == m.rows * m.cols,
            0 <= r <= rows,
            data@.len() == r * cols,
            forall|i: int| 0 <= i < r * cols ==> data@[i] == #[trigger] goal.samples[i],
        decreases rows - r,
    {
        let mut c: usize = 0;
        while c < cols
            invariant
                m.wf(),
                ratio > 0,
                rows == m.rows / ratio,
                cols == m.cols / ratio,
                rows * ratio <= m.rows,
                cols * ratio <= m.cols,
                goal == decimate(m@, ratio as nat),
                goal.samples.len() == rows * cols,
                total == m.rows * m.cols,
                0 <= r < rows,
                0 <= c <= cols,
                data@.len() == r * cols + c,
                forall|i: int| 0 <= i < r * cols + c ==> data@[i] == #[trigger] goal.samples[i],
            decreases cols - c,
        {
            proof {
                assert(r * ratio + ratio <= rows * ratio) by (nonlinear_arith)
                    requires
                        r + 1 <= rows,
                ;
                assert(c * ratio + ratio <= cols * ratio) by (nonlinear_arith)
                    requires
                        c + 1 <= cols,
                ;
                lemma_cell_in_grid(m.rows as int, m.cols as int, r * ratio, c * ratio);
                lemma_cell_in_grid(rows as int, cols as int, r as int, c as int);
                assert(r * ratio * m.cols >= 0) by (nonlinear_arith)
                    requires
                        r >= 0,
                        ratio > 0,
                        m.cols >= 0,
                ;
            }
            let src_row: usize = r * ratio;
            let src_col: usize = c * ratio;
            let src: usize = src_row * m.cols + src_col;
            data.push(m.data[src]);
            c += 1;
        }
        proof {
            assert(r * cols + cols == (r + 1) * cols) by (nonlinear_arith);
        }
        r += 1;
    }
    proof {
        assert(data@ =~= goal.samples);
    }
    RasterBand { rows, cols, data }
}

/// Merges three bands into one image with `r` as its red, `g` as its green
/// and `b` as its blue channel. The bytes of each pixel are written in the
/// order blue, green, red.
pub fn simple_composite(r: &RasterBand, g: &RasterBand, b: &RasterBand) -> (out: Result<
    Image,
    FilterError,
>)
    requires
        r.wf(),
        g.wf(),
        b.wf(),
    ensures
        outcome(out) == composite(r@, g@, b@),
        out matches Ok(img) ==> img.wf(),
{
    if !(r.has_shape_of(g) && g.has_shape_of(b)) {
        return Err(FilterError::DimensionMismatch);
    }
    let n: usize = b.data.len();
    if n > usize::MAX / 3 {
        return Err(FilterError::TooLarge);
    }
    let ghost goal = interleave(r.data@, g.data@, b.data@);
    let mut data: Vec<u8> = Vec::with_capacity(3 * n);
    let mut p: usize = 0;
    while p < n
        invariant
            n == b.data@.len(),
            n == g.data@.len(),
            n == r.data@.len(),
            3 * n <= usize::MAX,
            goal == interleave(r.data@, g.data@, b.data@),
            0 <= p <= n,
            data@.len() == 3 * p,
            forall|i: int| 0 <= i < 3 * p ==> data@[i] == #[trigger] goal[i],
        decreases n - p,
    {
        data.push(b.data[p]);
        data.push(g.data[p]);
        data.push(r.data[p]);
        p += 1;
    }
    proof {
        assert(data@ =~= goal);
    }
    Ok(Image { rows: b.rows, cols: b.cols, data })
}

/// Red, green and blue as a human observer would see them: bands 4, 3 and 2.
pub fn true_color(data: &SatData) -> (out: Result<Image, FilterError>)
    requires
        data.wf(),
    ensures
        outcome(out) == composite(data.plane(4), data.plane(3), data.plane(2)),
        out matches Ok(img) ==> img.wf(),
{
    simple_composite(data.band(4), data.band(3), data.band(2))
}

/// As the true-colour composite, with the near infrared of band 8 in place
/// of red.
pub fn false_color(data: &SatData) -> (out: Result<Image, FilterError>)
    requires
        data.wf(),
    ensures
        outcome(out) == composite(data.plane(8), data.plane(3), data.plane(2)),
        out matches Ok(img) ==> img.wf(),
{
    simple_composite(data.band(8), data.band(3), data.band(2))
}

/// Bands 4 and 8, each reduced by two in both directions, as red and green,
/// and band 12 as blue. Fails with `DimensionMismatch` unless the reduced
/// bands have exactly the dimensions of band 12.
pub fn swir(data: &SatData) -> (out: Result<Image, FilterError>)
    requires
        data.wf(),
    ensures
        outcome(out) == composite(
            decimate(data.plane(4), 2),
            decimate(data.plane(8), 2),
            data.plane(12),
        ),
        out matches Ok(img) ==> img.wf(),
{
    let b4_down_sampled = down_sample_u8(data.band(4), 2);
    let b8_down_sampled = down_sample_u8(data.band(8), 2);
    simple_composite(&b4_down_sampled, &b8_down_sampled, data.band(12))
}

/// The band of the shape of `green` that holds at each position the level
/// which `table` gives for the samples of `green` and `nir` there.
fn apply_levels(table: &Vec<u8>, green: &RasterBand, nir: &RasterBand) -> (out: RasterBand)
    requires
        table@.len() == LEVEL_COUNT,
        green.wf(),
        nir.wf(),
        green@.same_shape(nir@),
    ensures
        out@ == level_plane(table@, green@, nir@),
        out.wf(),
{
    let n: usize = green.data.len();
    let ghost goal = level_plane(table@, green@, nir@).samples;
    let mut data: Vec<u8> = Vec::with_capacity(n);
    let mut p: usize = 0;
    while p < n
        invariant
            table@.len() == LEVEL_COUNT,
            n == green.data@.len(),
            n == nir.data@.len(),
            goal == level_plane(table@, green@, nir@).samples,
            0 <= p <= n,
            data@.len() == p,
            forall|i: int| 0 <= i < p ==> data@[i] == #[trigger] goal[i],
        decreases n - p,
    {
        let at: usize = (green.data[p] as usize) * 256 + (nir.data[p] as usize);
        data.push(table[at]);
        p += 1;
    }
    proof {
        assert(data@ =~= goal);
    }
    RasterBand { rows: green.rows, cols: green.cols, data }
}

/// The band of the shape of `like` that is zero everywhere.
fn zero_band(like: &RasterBand) -> (out: RasterBand)
    requires
        like.wf(),
    ensures
        out@ == zero_plane(like@),
        out.wf(),
{
    let n: usize = like.data.len();
    let mut data: Vec<u8> = Vec::with_capacity(n);
    let mut p: usize = 0;
    while p < n
        invariant
            n == like.data@.len(),
            0 <= p <= n,
            data@.len() == p,
            forall|i: int| 0 <= i < p ==> #[trigger] data@[i] == 0u8,
        decreases n - p,
    {
        data.push(0u8);
        p += 1;
    }
    proof {
        assert(data@ =~= zero_plane(like@).samples);
    }
    RasterBand { rows: like.rows, cols: like.cols, data }
}

/// The tables of levels give, applied to two planes, the planes of the
/// water and of the land level.
proof fn lemma_level_planes(green: Plane, nir: Plane)
    ensures
        level_plane(water_levels(), green, nir) == water_plane(green, nir),
        level_plane(land_levels(), green, nir) == land_plane(green, nir),
{
    assert forall|p: int| 0 <= p < green.samples.len() implies level_plane(
        water_levels(),
        green,
        nir,
    ).samples[p] == water_plane(green, nir).samples[p] && level_plane(
        land_levels(),
        green,
        nir,
    ).samples[p] == land_plane(green, nir).samples[p] by {
        lemma_tables(green.samples[p], nir.samples[p]);
    }
    assert(level_plane(water_levels(), green, nir).samples =~= water_plane(green, nir).samples);
    assert(level_plane(land_levels(), green, nir).samples =~= land_plane(green, nir).samples);
}

/// Land in green and water in blue: for each pixel the land level of the
/// samples of band 3 (green) and band 8 (near infrared) as green, their
/// water level as blue, and zero as red. Fails with `DimensionMismatch`
/// unless the two bands have the same dimensions.
pub fn ndwi(data: &SatData) -> (out: Result<Image, FilterError>)
    requires
        data.wf(),
    ensures
        outcome(out) == ndwi_composite(data.plane(3), data.plane(8)),
        out matches Ok(img) ==> img.wf(),
{
    let green = data.band(3);
    let nir = data.band(8);
    if !green.has_shape_of(nir) {
        return Err(FilterError::DimensionMismatch);
    }
    let empty = zero_band(nir);
    let land = land_table();
    let water = water_table();
    let ndwi_land = apply_levels(&land, green, nir);
    let ndwi_water = apply_levels(&water, green, nir);
    proof {
        lemma_level_planes(green@, nir@);
    }
    simple_composite(&empty, &ndwi_land, &ndwi_water)
}

/// The composite of the given variant.
pub fn compute(variant: FilterVariant, data: &SatData) -> (out: Result<Image, FilterError>)
    requires
        data.wf(),
    ensures
        outcome(out) == variant_composite(variant, data@),
        out matches Ok(img) ==> img.wf(),
{
    match variant {
        FilterVariant::TrueColor => true_color(data),
        FilterVariant::FalseColor => false_color(data),
        FilterVariant::Ndwi => ndwi(data),
        FilterVariant::Swir => swir(data),
    }
}

/// Number of entries of a tone table: one per sample value.
pub const TONE_COUNT: usize = 256;

/// The bytes in which each byte of `bytes` is replaced by the entry that
/// `table` has for it.
pub open spec fn remapped(bytes: Seq<u8>, table: Seq<u8>) -> Seq<u8> {
    Seq::new(bytes.len(), |i: int| table[bytes[i] as int])
}

/// Replaces every sample of every channel of an image by the entry that
/// `table` has for it. A contrast adjustment is such a table: the entry for
/// a sample is the sample times the multiplier, limited to the 8-bit range.
pub fn apply_tone_table(image: &Image, table: &Vec<u8>) -> (out: Image)
    requires
        table@.len() == TONE_COUNT,
    ensures
        out.rows == image.rows,
        out.cols == image.cols,
        out.data@ == remapped(image.data@, table@),
{
    let n: usize = image.data.len();
    let mut data: Vec<u8> = Vec::with_capacity(n);
    let mut i: usize = 0;
    while i < n
        invariant
            table@.len() == TONE_COUNT,
            n == image.data@.len(),
            0 <= i <= n,
            data@.len() == i,
            forall|j: int| 0 <= j < i ==> #[trigger] data@[j] == table@[image.data@[j] as int],
        decreases n - i,
    {
        data.push(table[image.data[i] as usize]);
        i += 1;
    }
    Image { rows: image.rows, cols: image.cols, data }
}

/// The channel of a picture at offset `k` within each pixel (0 blue, 1
/// green, 2 red), as a plane of the picture's dimensions.
pub open spec fn channel(pic: Picture, k: int) -> Plane {
    Plane {
        rows: pic.rows,
        cols: pic.cols,
        samples: Seq::new(pic.rows * pic.cols, |p: int| pic.bytes[3 * p + k]),
    }
}

/// A composite exists only of three planes of one shape, and then its blue,
/// green and red channels are exactly these planes: all three channels have
/// the dimensions of the image.
pub proof fn lemma_composite_channels(red: Plane, green: Plane, blue: Plane)
    requires
        red.wf(),
        green.wf(),
        blue.wf(),
        composite(red, green, blue) is Ok,
    ensures
        red.same_shape(green),
        green.same_shape(blue),
        composite(red, green, blue)->Ok_0.wf(),
        channel(composite(red, green, blue)->Ok_0, 0) == blue,
        channel(composite(red, green, blue)->Ok_0, 1) == green,
        channel(composite(red, green, blue)->Ok_0, 2) == red,
{
    let pic = composite(red, green, blue)->Ok_0;
    assert(channel(pic, 0).samples =~= blue.samples);
    assert(channel(pic, 1).samples =~= green.samples);
    assert(channel(pic, 2).samples =~= red.samples);
}

/// The pixel of a composite in row `r` and column `c` holds the samples of
/// the three planes at that place: the blue one first, then the green one,
/// then the red one.
pub proof fn lemma_composite_pixel(red: Plane, green: Plane, blue: Plane, r: int, c: int)
    requires
        red.wf(),
        green.wf(),
        blue.wf(),
        composite(red, green, blue) is Ok,
        0 <= r < blue.rows,
        0 <= c < blue.cols,
    ensures
        composite(red, green, blue)->Ok_0.blue(r, c) == blue.sample(r, c),
        composite(red, green, blue)->Ok_0.green(r, c) == green.sample(r, c),
        composite(red, green, blue)->Ok_0.red(r, c) == red.sample(r, c),
{
    lemma_cell_in_grid(blue.rows as int, blue.cols as int, r, c);
}

/// Whatever the variant, the image it derives from a product holds three
/// channels of the image's own dimensions, each with one sample per pixel.
pub proof fn lemma_variant_channels_agree(variant: FilterVariant, bands: Seq<Plane>)
    requires
        bands.len() == 12,
        forall|k: int| 0 <= k < 12 ==> (#[trigger] bands[k]).wf(),
        variant_composite(variant, bands) is Ok,
    ensures
        variant_composite(variant, bands)->Ok_0.wf(),
        forall|k: int|
            0 <= k < 3 ==> (#[trigger] channel(variant_composite(variant, bands)->Ok_0, k)).wf(),
{
    match variant {
        FilterVariant::TrueColor => {
            lemma_composite_channels(bands[3], bands[2], bands[1]);
        },
        FilterVariant::FalseColor => {
            lemma_composite_channels(bands[7], bands[2], bands[1]);
        },
        FilterVariant::Ndwi => {
            lemma_composite_channels(
                zero_plane(bands[7]),
                land_plane(bands[2], bands[7]),
                water_plane(bands[2], bands[7]),
            );
        },
        FilterVariant::Swir => {
            lemma_decimate_wf(bands[3], 2);
            lemma_decimate_wf(bands[7], 2);
            lemma_composite_channels(decimate(bands[3], 2), decimate(bands[7], 2), bands[11]);
        },
    }
}

/// In the water-index composite every pixel holds, as blue, the water level
/// of the green and the near-infrared sample at that position, as green
/// their land level, and zero as red.
pub proof fn lemma_ndwi_pixel(green: Plane, nir: Plane, p: int)
    requires
        green.wf(),
        nir.wf(),
        ndwi_composite(green, nir) is Ok,
        0 <= p < green.samples.len(),
    ensures
        ({
            let pic = ndwi_composite(green, nir)->Ok_0;
            &&& pic.bytes[3 * p] == water_level(green.samples[p], nir.samples[p])
            &&& pic.bytes[3 * p + 1] == land_level(green.samples[p], nir.samples[p])
            &&& pic.bytes[3 * p + 2] == 0
        }),
{
}

/// Where the green and the near-infrared sample of a pixel are equal and not
/// zero, the index is zero there: the pixel's blue value is the zero point
/// 0 of the water level, its green value the land level 100, its red value
/// 0.
pub proof fn lemma_ndwi_equal_samples(green: Plane, nir: Plane, p: int)
    requires
        green.wf(),
        nir.wf(),
        ndwi_composite(green, nir) is Ok,
        0 <= p < green.samples.len(),
        green.samples[p] == nir.samples[p],
        green.samples[p] > 0,
    ensures
        ({
            let pic = ndwi_composite(green, nir)->Ok_0;
            &&& pic.bytes[3 * p] == 0
            &&& pic.bytes[3 * p + 1] == 100
            &&& pic.bytes[3 * p + 2] == 0
        }),
{
    lemma_ndwi_pixel(green, nir, p);
    lemma_equal_samples(green.samples[p]);
}

/// The short-wave composite exists only if halving bands 4 and 8 gives
/// exactly the dimensions of band 12; otherwise it fails with
/// `DimensionMismatch`, and nothing is cropped or padded.
pub proof fn lemma_swir_dimensions(bands: Seq<Plane>)
    requires
        bands.len() == 12,
    ensures
        variant_composite(FilterVariant::Swir, bands) is Ok ==> {
            &&& bands[3].rows / 2 == bands[11].rows
            &&& bands[3].cols / 2 == bands[11].cols
            &&& bands[7].rows / 2 == bands[11].rows
            &&& bands[7].cols / 2 == bands[11].cols
        },
        !(decimate(bands[3], 2).same_shape(bands[11]) && decimate(bands[7], 2).same_shape(
            bands[11],
        )) ==> variant_composite(FilterVariant::Swir, bands) == Err::<Picture, FilterError>(
            FilterError::DimensionMismatch,
        ),
{
}

} // verus!
