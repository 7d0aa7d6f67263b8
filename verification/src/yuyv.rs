//! Conversion of a packed luma/chroma frame to an RGB raster.
//!
//! The frame is read in groups of four bytes `[Y0, U, Y1, V]`. Group `i` of a
//! frame `width` pixels wide lands in row `i / width`, at the column pair
//! that starts at `(i % width) * 2`: the first pixel of the group goes to
//! that column, the second to the next one. A pixel whose column lies outside
//! the raster is dropped, and a pixel that no group lands on stays zero.

use vstd::prelude::*;
use vstd::arithmetic::div_mod::{lemma_fundamental_div_mod, lemma_fundamental_div_mod_converse};
use crate::channel::{
    blue_channel, channel, green_channel, lemma_neutral_chroma_is_grey, red_channel,
};
use crate::error::FormatError;
use crate::frame::{
    frame_length_fits, lemma_pixel_in_bounds, length_fits, pixel_offset, RawFrame, RgbRaster,
};

verus! {

/// The group that lands on pixel number `pixel` (counted row by row) of a
/// raster `width` wide.
pub open spec fn source_group(width: int, pixel: int) -> int {
    (pixel / width) * width + (pixel % width) / 2
}

/// Byte `k` of the raster that a frame `width` pixels wide converts to.
pub open spec fn raster_byte(yuyv: Seq<u8>, width: int, k: int) -> u8 {
    let pixel = k / 3;
    let group = source_group(width, pixel);
    if group < yuyv.len() / 4 {
        channel(
            k % 3,
            yuyv[4 * group + 2 * ((pixel % width) % 2)],
            yuyv[4 * group + 1],
            yuyv[4 * group + 3],
        )
    } else {
        0
    }
}

/// The raster bytes that a frame converts to.
pub open spec fn rgb_bytes(yuyv: Seq<u8>, width: u32, height: u32) -> Seq<u8> {
    Seq::new((width * height * 3) as nat, |k: int| raster_byte(yuyv, width as int, k))
}

/// Byte `k` of the raster after the first `done` groups have been placed.
spec fn partial_byte(yuyv: Seq<u8>, width: int, done: int, k: int) -> u8 {
    if source_group(width, k / 3) < done {
        raster_byte(yuyv, width, k)
    } else {
        0
    }
}

/// A group lands on a pixel exactly when the pixel lies in the group's row
/// and in its column pair.
proof fn lemma_source_group(width: int, pixel: int, group: int)
    requires
        width > 0,
        pixel >= 0,
        group >= 0,
    ensures
        source_group(width, pixel) == group <==> (pixel / width == group / width && (pixel % width)
            / 2 == group % width),
{
    let row = pixel / width;
    let pair = (pixel % width) / 2;
    lemma_fundamental_div_mod(pixel, width);
    lemma_fundamental_div_mod(group, width);
    assert(row * width == width * row) by (nonlinear_arith);
    assert((group / width) * width == width * (group / width)) by (nonlinear_arith);
    if source_group(width, pixel) == group {
        lemma_fundamental_div_mod_converse(group, width, row, pair);
    }
}

/// Groups are numbered from zero.
proof fn lemma_source_group_nonnegative(width: int, pixel: int)
    requires
        width > 0,
        pixel >= 0,
    ensures
        source_group(width, pixel) >= 0,
{
    lemma_fundamental_div_mod(pixel, width);
    assert((pixel / width) * width >= 0) by (nonlinear_arith)
        requires
            pixel == width * (pixel / width) + pixel % width,
            0 <= pixel % width < width,
            width > 0,
            pixel >= 0,
    ;
}

/// A group of a well-formed frame lies in a row of the raster.
proof fn lemma_group_row(width: u32, height: u32, len: nat, group: int)
    requires
        frame_length_fits(len, width, height),
        0 <= group < len / 4,
    ensures
        width > 0,
        0 <= group / (width as int) < height,
        0 <= group % (width as int) < width,
{
    let w = width as int;
    assert(width > 0) by (nonlinear_arith)
        requires
            len == width * height * 2,
            len > 0,
    ;
    lemma_fundamental_div_mod(group, w);
    assert(group / w < height) by (nonlinear_arith)
        requires
            group == w * (group / w) + group % w,
            0 <= group % w,
            w > 0,
            group < w * height,
    ;
    assert(0 <= group / w) by (nonlinear_arith)
        requires
            group == w * (group / w) + group % w,
            group % w < w,
            w > 0,
            group >= 0,
    ;
}

/// Where a group lands: if the column pair of group `group` starts inside
/// the raster, the pixel at its start holds the channels of the group's first
/// luma sample, and the pixel after it, if it is inside the raster too, those
/// of the second.
pub proof fn lemma_group_lands(yuyv: Seq<u8>, width: u32, height: u32, group: int, c: int)
    requires
        frame_length_fits(yuyv.len(), width, height),
        0 <= group < yuyv.len() / 4,
        0 <= c < 3,
    ensures
        width > 0,
        group / (width as int) < height,
        ({
            let row = (group / (width as int)) as u32;
            let x = (group % (width as int)) * 2;
            let cb = yuyv[4 * group + 1];
            let cr = yuyv[4 * group + 3];
            &&& x < width ==> rgb_bytes(yuyv, width, height)[pixel_offset(width, x as u32, row) + c]
                == channel(c, yuyv[4 * group], cb, cr)
            &&& x + 1 < width ==> rgb_bytes(yuyv, width, height)[pixel_offset(
                width,
                (x + 1) as u32,
                row,
            ) + c] == channel(c, yuyv[4 * group + 2], cb, cr)
        }),
{
    let w = width as int;
    lemma_group_row(width, height, yuyv.len(), group);
    let row = (group / w) as u32;
    let x = (group % w) * 2;
    if x < w {
        lemma_pixel_in_bounds(width, height, x as u32, row);
        lemma_fundamental_div_mod_converse(row * w + x, w, row as int, x);
        lemma_source_group(w, row * w + x, group);
    }
    if x + 1 < w {
        lemma_pixel_in_bounds(width, height, (x + 1) as u32, row);
        lemma_fundamental_div_mod_converse(row * w + x + 1, w, row as int, x + 1);
        lemma_source_group(w, row * w + x + 1, group);
    }
}

/// A group with neutral chroma decodes to grey: where both chroma samples of
/// a group are 128, every channel of a pixel it lands on equals that pixel's
/// luma sample.
pub proof fn lemma_neutral_group_is_grey(
    yuyv: Seq<u8>,
    width: u32,
    height: u32,
    group: int,
    c: int,
)
    requires
        frame_length_fits(yuyv.len(), width, height),
        0 <= group < yuyv.len() / 4,
        yuyv[4 * group + 1] == 128,
        yuyv[4 * group + 3] == 128,
        0 <= c < 3,
    ensures
        width > 0,
        group / (width as int) < height,
        ({
            let row = (group / (width as int)) as u32;
            let x = (group % (width as int)) * 2;
            &&& x < width ==> rgb_bytes(yuyv, width, height)[pixel_offset(width, x as u32, row) + c]
                == yuyv[4 * group]
            &&& x + 1 < width ==> rgb_bytes(yuyv, width, height)[pixel_offset(
                width,
                (x + 1) as u32,
                row,
            ) + c] == yuyv[4 * group + 2]
        }),
{
    lemma_group_lands(yuyv, width, height, group, c);
    lemma_neutral_chroma_is_grey(yuyv[4 * group]);
    lemma_neutral_chroma_is_grey(yuyv[4 * group + 2]);
}

/// Odd widths: the last column of row `row` is taken from the first pixel of
/// the group that lands there, and the second pixel of that group is dropped:
/// no pixel of the raster is taken from it.
pub proof fn lemma_odd_width_last_column(yuyv: Seq<u8>, width: u32, height: u32, row: u32, c: int)
    requires
        frame_length_fits(yuyv.len(), width, height),
        width % 2 == 1,
        row < height,
        row * width + (width - 1) / 2 < yuyv.len() / 4,
        0 <= c < 3,
    ensures
        rgb_bytes(yuyv, width, height).len() == width * height * 3,
        ({
            let group = row * width + (width - 1) / 2;
            &&& rgb_bytes(yuyv, width, height)[pixel_offset(width, (width - 1) as u32, row) + c]
                == channel(c, yuyv[4 * group], yuyv[4 * group + 1], yuyv[4 * group + 3])
            &&& forall|pixel: int|
                0 <= pixel < width * height && #[trigger] source_group(width as int, pixel)
                    == group ==> (pixel % (width as int)) % 2 == 0
        }),
{
    let w = width as int;
    let group = row * width + (width - 1) / 2;
    assert(0 <= row * width) by (nonlinear_arith)
        requires
            row >= 0,
            width >= 0,
    ;
    lemma_fundamental_div_mod_converse(group, w, row as int, (w - 1) / 2);
    lemma_group_lands(yuyv, width, height, group, c);
    assert forall|pixel: int|
        0 <= pixel < width * height && #[trigger] source_group(w, pixel) == group implies (pixel
        % w) % 2 == 0 by {
        lemma_source_group(w, pixel, group);
        lemma_fundamental_div_mod(pixel, w);
    }
}

/// Converts a packed luma/chroma frame to an RGB raster.
///
/// The frame is rejected when its length is not a multiple of four or is not
/// `width * height * 2`; nothing is read or written out of bounds.
pub fn yuyv_to_rgb(yuyv: &[u8], width: u32, height: u32) -> (result: Result<
    RgbRaster,
    FormatError,
>)
    requires
        frame_length_fits(yuyv@.len(), width, height) ==> width * height * 3 <= usize::MAX,
    ensures
        result is Ok <==> frame_length_fits(yuyv@.len(), width, height),
        result matches Ok(raster) ==> {
            &&& raster.width == width
            &&& raster.height == height
            &&& raster.pixels@ == rgb_bytes(yuyv@, width, height)
            &&& raster.well_formed()
        },
        result matches Err(e) ==> e == FormatError::MalformedFrame,
{
    if !length_fits(yuyv.len(), width, height) {
        return Err(FormatError::MalformedFrame);
    }
    let mut raster = RgbRaster::new(width, height);
    let groups: usize = yuyv.len() / 4;
    let mut i: usize = 0;
    proof {
        assert forall|k: int| 0 <= k < raster.pixels@.len() implies #[trigger] raster.pixels@[k]
            == partial_byte(yuyv@, width as int, 0, k) by {
            assert(width > 0) by (nonlinear_arith)
                requires
                    width * height * 3 > 0,
            ;
            lemma_source_group_nonnegative(width as int, k / 3);
        }
    }
    while i < groups
        invariant
            0 <= i <= groups,
            groups == yuyv@.len() / 4,
            yuyv@.len() <= usize::MAX,
            frame_length_fits(yuyv@.len(), width, height),
            raster.width == width,
            raster.height == height,
            raster.well_formed(),
            forall|k: int|
                0 <= k < raster.pixels@.len() ==> #[trigger] raster.pixels@[k] == partial_byte(
                    yuyv@,
                    width as int,
                    i as int,
                    k,
                ),
        decreases groups - i,
    {
        proof {
            lemma_group_row(width, height, yuyv@.len(), i as int);
        }
        let luma0 = yuyv[4 * i];
        let cb = yuyv[4 * i + 1];
        let luma1 = yuyv[4 * i + 2];
        let cr = yuyv[4 * i + 3];
        let pair: usize = i % (width as usize);
        let row: u32 = (i / (width as usize)) as u32;
        let x: u64 = (pair as u64) * 2;
        let ghost before = raster.pixels@;
        if x < width as u64 {
            raster.put_pixel(
                x as u32,
                row,
                [red_channel(luma0, cr), green_channel(luma0, cb, cr), blue_channel(luma0, cb)],
            );
        }
        if x + 1 < width as u64 {
            raster.put_pixel(
                (x + 1) as u32,
                row,
                [red_channel(luma1, cr), green_channel(luma1, cb, cr), blue_channel(luma1, cb)],
            );
        }
        proof {
            let w = width as int;
            let g = i as int;
            assert forall|k: int| 0 <= k < raster.pixels@.len() implies #[trigger] raster.pixels@[k]
                == partial_byte(yuyv@, w, g + 1, k) by {
                let pixel = k / 3;
                lemma_source_group(w, pixel, g);
                lemma_fundamental_div_mod(pixel, w);
                assert((pixel / w) * w == w * (pixel / w)) by (nonlinear_arith);
                if source_group(w, pixel) == g {
                    // The pixel lies in this group's row and column pair, so
                    // it has just been written.
                    let x = pixel % w;
                    assert(pixel == row * w + x);
                    assert(k == pixel_offset(width, x as u32, row) + k % 3);
                    assert(x == 2 * pair || x == 2 * pair + 1);
                } else {
                    // Another group's pixel: untouched by this step.
                    if 2 * pair < w {
                        lemma_pixel_in_bounds(width, height, (2 * pair) as u32, row);
                        lemma_fundamental_div_mod_converse(
                            row * w + 2 * pair,
                            w,
                            row as int,
                            2 * pair,
                        );
                        assert(pixel != row * w + 2 * pair);
                        if 2 * pair + 1 < w {
                            lemma_pixel_in_bounds(width, height, (2 * pair + 1) as u32, row);
                            lemma_fundamental_div_mod_converse(
                                row * w + 2 * pair + 1,
                                w,
                                row as int,
                                2 * pair + 1,
                            );
                            assert(pixel != row * w + 2 * pair + 1);
                        }
                    }
                    assert(raster.pixels@[k] == before[k]);
                }
            }
        }
        i = i + 1;
    }
    proof {
        assert(raster.pixels@ =~= rgb_bytes(yuyv@, width, height));
    }
    Ok(raster)
}

impl RawFrame {
    /// Converts the frame to an RGB raster, or rejects it as malformed.
    pub fn convert(&self) -> (result: Result<RgbRaster, FormatError>)
        requires
            self.well_formed() ==> self.width * self.height * 3 <= usize::MAX,
        ensures
            result is Ok <==> self.well_formed(),
            result matches Ok(raster) ==> {
                &&& raster.width == self.width
                &&& raster.height == self.height
                &&& raster.pixels@ == rgb_bytes(self.data@, self.width, self.height)
                &&& raster.well_formed()
            },
            result matches Err(e) ==> e == FormatError::MalformedFrame,
    {
        yuyv_to_rgb(self.data.as_slice(), self.width, self.height)
    }
}

} // verus!
