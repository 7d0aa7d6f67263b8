//! The three kinds of image data that move through the pipeline: the raw
//! frame as captured, the RGB raster it is converted to, and the encoded
//! image that is cached and served.

use vstd::prelude::*;

verus! {

/// What an image value holds, as mathematics: its dimensions and its bytes.
pub struct ImageData {
    pub width: nat,
    pub height: nat,
    pub bytes: Seq<u8>,
}

/// A captured frame in packed luma/chroma format: each group of four bytes
/// `[Y0, U, Y1, V]` carries two pixels that share one chroma pair.
///
/// A frame is held as captured and may be malformed; conversion checks it.
#[derive(Debug)]
pub struct RawFrame {
    pub width: u32,
    pub height: u32,
    pub data: Vec<u8>,
}

/// A row-major grid of three-byte pixels, top row first.
#[derive(Debug)]
pub struct RgbRaster {
    pub width: u32,
    pub height: u32,
    pub pixels: Vec<u8>,
}

/// A complete JPEG stream with the dimensions of the image it encodes.
#[derive(Debug)]
pub struct EncodedImage {
    pub width: u32,
    pub height: u32,
    pub bytes: Vec<u8>,
}

/// A packed frame of `len` bytes fits `width` by `height` pixels when it
/// holds two bytes per pixel in whole four-byte groups.
pub open spec fn frame_length_fits(len: nat, width: u32, height: u32) -> bool {
    len % 4 == 0 && len == width * height * 2
}

/// Offset of the first byte of pixel `(x, y)` in a raster `width` wide.
pub open spec fn pixel_offset(width: u32, x: u32, y: u32) -> int {
    (y * width + x) * 3
}

impl View for RawFrame {
    type V = ImageData;

    open spec fn view(&self) -> ImageData {
        ImageData { width: self.width as nat, height: self.height as nat, bytes: self.data@ }
    }
}

impl View for RgbRaster {
    type V = ImageData;

    open spec fn view(&self) -> ImageData {
        ImageData { width: self.width as nat, height: self.height as nat, bytes: self.pixels@ }
    }
}

impl View for EncodedImage {
    type V = ImageData;

    open spec fn view(&self) -> ImageData {
        ImageData { width: self.width as nat, height: self.height as nat, bytes: self.bytes@ }
    }
}

impl RawFrame {
    /// The frame's length fits its dimensions.
    pub open spec fn well_formed(&self) -> bool {
        frame_length_fits(self.data@.len(), self.width, self.height)
    }

    /// Tags captured bytes with the dimensions the device was configured for.
    pub fn new(width: u32, height: u32, data: Vec<u8>) -> (frame: RawFrame)
        ensures
            frame.width == width,
            frame.height == height,
            frame.data@ == data@,
    {
        RawFrame { width, height, data }
    }

    /// Whether the frame's length fits its dimensions.
    pub fn is_well_formed(&self) -> (ok: bool)
        ensures
            ok == self.well_formed(),
    {
        length_fits(self.data.len(), self.width, self.height)
    }
}

/// Whether a packed frame of `len` bytes fits `width` by `height` pixels.
pub fn length_fits(len: usize, width: u32, height: u32) -> (ok: bool)
    ensures
        ok == frame_length_fits(len as nat, width, height),
{
    assert(width * height * 2 <= 0xffff_ffff * 0xffff_ffff * 2) by (nonlinear_arith)
        requires
            width <= 0xffff_ffff,
            height <= 0xffff_ffff,
    ;
    let expected: u128 = (width as u128) * (height as u128) * 2;
    len % 4 == 0 && len as u128 == expected
}

impl RgbRaster {
    /// The buffer holds exactly three bytes for each pixel.
    pub open spec fn well_formed(&self) -> bool {
        self.pixels@.len() == self.width * self.height * 3
    }

    /// Whether the buffer holds exactly three bytes for each pixel.
    pub fn is_well_formed(&self) -> (ok: bool)
        ensures
            ok == self.well_formed(),
    {
        assert(self.width * self.height * 3 <= 0xffff_ffff * 0xffff_ffff * 3) by (nonlinear_arith)
            requires
                self.width <= 0xffff_ffff,
                self.height <= 0xffff_ffff,
        ;
        let expected: u128 = (self.width as u128) * (self.height as u128) * 3;
        self.pixels.len() as u128 == expected
    }

    /// A raster of the given size with every byte zero.
    pub fn new(width: u32, height: u32) -> (raster: RgbRaster)
        requires
            width * height * 3 <= usize::MAX,
        ensures
            raster.width == width,
            raster.height == height,
            raster.pixels@ == Seq::new((width * height * 3) as nat, |k: int| 0u8),
            raster.well_formed(),
    {
        assert(width * height <= width * height * 3) by (nonlinear_arith);
        let count: usize = (width as usize) * (height as usize);
        let pixels: Vec<u8> = vec![0u8; count * 3];
        assert(pixels@ =~= Seq::new((width * height * 3) as nat, |k: int| 0u8));
        RgbRaster { width, height, pixels }
    }

    /// Writes one pixel.
    pub fn put_pixel(&mut self, x: u32, y: u32, rgb: [u8; 3])
        requires
            old(self).well_formed(),
            x < old(self).width,
            y < old(self).height,
        ensures
            final(self).width == old(self).width,
            final(self).height == old(self).height,
            final(self).well_formed(),
            final(self).pixels@ == old(self).pixels@.update(
                pixel_offset(old(self).width, x, y),
                rgb[0],
            ).update(pixel_offset(old(self).width, x, y) + 1, rgb[1]).update(
                pixel_offset(old(self).width, x, y) + 2,
                rgb[2],
            ),
    {
        proof {
            lemma_pixel_in_bounds(self.width, self.height, x, y);
            assert(self.pixels@.len() == self.pixels.len());
        }
        let at: usize = ((y as usize) * (self.width as usize) + (x as usize)) * 3;
        self.pixels.set(at, rgb[0]);
        self.pixels.set(at + 1, rgb[1]);
        self.pixels.set(at + 2, rgb[2]);
    }

    /// Reads one pixel.
    pub fn get_pixel(&self, x: u32, y: u32) -> (rgb: [u8; 3])
        requires
            self.well_formed(),
            x < self.width,
            y < self.height,
        ensures
            rgb[0] == self.pixels@[pixel_offset(self.width, x, y)],
            rgb[1] == self.pixels@[pixel_offset(self.width, x, y) + 1],
            rgb[2] == self.pixels@[pixel_offset(self.width, x, y) + 2],
    {
        proof {
            lemma_pixel_in_bounds(self.width, self.height, x, y);
            assert(self.pixels@.len() == self.pixels.len());
        }
        let at: usize = ((y as usize) * (self.width as usize) + (x as usize)) * 3;
        [self.pixels[at], self.pixels[at + 1], self.pixels[at + 2]]
    }
}

/// Every pixel inside a raster has its three bytes inside the buffer.
pub proof fn lemma_pixel_in_bounds(width: u32, height: u32, x: u32, y: u32)
    requires
        x < width,
        y < height,
    ensures
        0 <= y * width <= y * width + x < width * height,
        0 <= pixel_offset(width, x, y),
        pixel_offset(width, x, y) + 3 <= width * height * 3,
{
    assert(y * width + width <= height * width) by (nonlinear_arith)
        requires
            y + 1 <= height,
            width >= 0,
    ;
    assert(height * width == width * height) by (nonlinear_arith);
    assert(0 <= y * width) by (nonlinear_arith)
        requires
            y >= 0,
            width >= 0,
    ;
}

impl EncodedImage {
    /// A copy of the image, byte for byte.
    pub fn duplicate(&self) -> (copy: EncodedImage)
        ensures
            copy@ == self@,
    {
        EncodedImage { width: self.width, height: self.height, bytes: self.bytes.clone() }
    }
}

} // verus!
