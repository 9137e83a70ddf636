//! The display data model: palette entries, paletted images and their
//! geometry. The compositor itself is outside the library; these types hold
//! the pixel data and the arithmetic that feeds it.

use vstd::prelude::*;

verus! {

/// Pixel formats of a paletted image.
#[derive(Copy, Clone)]
pub enum ImageType {
    _8BPP,
    _1BPP,
}

/// A rectangle in display coordinates.
pub struct Rect {
    pub x: i32,
    pub y: i32,
    pub width: i32,
    pub height: i32,
}

/// An 8-bit-per-channel color.
#[derive(Copy, Clone)]
pub struct RGB8 {
    pub r: u8,
    pub g: u8,
    pub b: u8,
}

/// The RGB565 encoding of a color: red in bits [15:11], green in [10:5],
/// blue in [4:0].
pub open spec fn rgb16_spec(rgb: RGB8) -> u16 {
    ((rgb.r as u16 >> 3) << 11) | ((rgb.g as u16 >> 2) << 5) | (rgb.b as u16 >> 3)
}

/// Packs a color into its 16-bit RGB565 form.
pub fn rgb_to_16bit(rgb: RGB8) -> (r: u16)
    ensures
        r == rgb16_spec(rgb),
        r == rgb.r as u16 / 8 * 2048 + rgb.g as u16 / 4 * 32 + rgb.b as u16 / 8,
{
    let red = rgb.r;
    let green = rgb.g;
    let blue = rgb.b;
    proof {
        assert((((red as u16) >> 3) << 11) | (((green as u16) >> 2) << 5) | ((blue as u16) >> 3)
            == (red as u16) / 8 * 2048 + (green as u16) / 4 * 32 + (blue as u16) / 8)
            by (bit_vector);
    }
    ((red as u16 >> 3) << 11) | ((green as u16 >> 2) << 5) | (blue as u16 >> 3)
}

/// A palette of RGB565 entries.
pub struct Palette {
    pub data: Vec<u16>,
}

impl Palette {
    /// The stored RGB565 entries.
    pub closed spec fn data_spec(&self) -> Seq<u16> {
        self.data@
    }

    /// A palette holding the RGB565 form of each given color, in order.
    pub fn from_colors(colors: Vec<RGB8>) -> (r: Self)
        ensures
            r.data_spec().len() == colors@.len(),
            forall|i: int|
                0 <= i < colors@.len() ==> r.data_spec()[i] == rgb16_spec(#[trigger] colors@[i]),
    {
        let mut data: Vec<u16> = Vec::with_capacity(colors.len());
        let mut i: usize = 0;
        while i < colors.len()
            invariant
                i <= colors@.len(),
                data@.len() == i,
                forall|j: int|
                    0 <= j < i ==> data@[j] == rgb16_spec(#[trigger] colors@[j]),
            decreases colors@.len() - i,
        {
            data.push(rgb_to_16bit(colors[i]));
            i = i + 1;
        }
        Palette { data }
    }

    /// Read access to the palette entries for the display backend.
    pub fn entries(&self) -> (r: &Vec<u16>)
        ensures
            r@ == self.data_spec(),
    {
        &self.data
    }
}

/// `x` rounded up to the next multiple of 16.
pub open spec fn align16_of(x: i32) -> i32
    recommends
        0 <= x <= 0x7FFFFFF0,
{
    ((x + 15) as i32) & !15i32
}

/// Rounds a non-negative dimension up to the next multiple of 16.
pub fn align_to_16(x: i32) -> (r: i32)
    requires
        0 <= x <= 0x7FFFFFF0,
    ensures
        r == align16_of(x),
        r % 16 == 0,
        x <= r <= x + 15,
{
    proof {
        assert((((x + 15) as i32) & !15i32) % 16 == 0 && x <= (((x + 15) as i32) & !15i32) <= x
            + 15) by (bit_vector)
            requires
                0 <= x <= 0x7FFFFFF0,
        ;
    }
    (x + 15) & !15
}

/// A paletted bitmap with rows padded to the backend's pitch and height
/// padding to a multiple of 16 rows.
pub struct Image {
    pub image_type: ImageType,
    pub width: i32,
    pub height: i32,
    pub pitch: i32,
    pub aligned_height: i32,
    pub data: Vec<u8>,
}

impl Image {
    /// The raw pixel bytes, row-major with `pitch` bytes per row.
    pub closed spec fn data_spec(&self) -> Seq<u8> {
        self.data@
    }

    /// The buffer covers exactly `pitch` bytes for each padded row.
    pub open spec fn wf(&self) -> bool {
        &&& self.pitch >= 0
        &&& self.aligned_height >= 0
        &&& self.data_spec().len() == self.pitch * self.aligned_height
    }

    /// A zeroed image of the given type and dimensions. The pitch is the
    /// byte width of a row padded to 16 pixels; the stored height is padded
    /// to a multiple of 16 rows.
    pub fn new(image_type: ImageType, width: i32, height: i32) -> (r: Self)
        requires
            0 <= width,
            0 <= height,
            (width + 15) * (height + 15) <= 0x7FFFFFFF,
        ensures
            r.image_type == image_type,
            r.width == width,
            r.height == height,
            r.aligned_height == align16_of(height),
            height <= r.aligned_height <= height + 15,
            r.aligned_height % 16 == 0,
            image_type is _8BPP ==> r.pitch == align16_of(width),
            image_type is _8BPP ==> width <= r.pitch <= width + 15,
            image_type is _1BPP ==> r.pitch == align16_of(width) / 8,
            r.wf(),
            r.data_spec() == Seq::new((r.pitch * r.aligned_height) as nat, |i: int| 0u8),
    {
        proof {
            assert((width + 15) * 8 <= (width + 15) * (height + 15) && width + 15 <= (width + 15)
                * (height + 15) && height + 15 <= (width + 15) * (height + 15))
                by (nonlinear_arith)
                requires
                    width >= 0,
                    height >= 0,
            ;
        }
        let aligned_height: i32 = align_to_16(height);
        let aligned_width: i32 = align_to_16(width);
        proof {
            assert(aligned_width * aligned_height <= (width + 15) * (height + 15))
                by (nonlinear_arith)
                requires
                    0 <= aligned_width <= width + 15,
                    0 <= aligned_height <= height + 15,
            ;
        }
        match image_type {
            ImageType::_8BPP => {
                let bps: i32 = 8;
                let pitch: i32 = (aligned_width * bps as i32) / 8;
                let data = zero_bytes((pitch * aligned_height) as usize);
                Self { image_type, width, height, pitch, aligned_height, data }
            },
            ImageType::_1BPP => {
                let pitch: i32 = aligned_width / 8;
                proof {
                    assert(0 <= aligned_width / 8 <= aligned_width) by (nonlinear_arith)
                        requires
                            aligned_width >= 0,
                    ;
                    assert(pitch * aligned_height <= aligned_width * aligned_height)
                        by (nonlinear_arith)
                        requires
                            0 <= pitch <= aligned_width,
                            0 <= aligned_height,
                    ;
                }
                let data = zero_bytes((pitch * aligned_height) as usize);
                Self { image_type, width, height, pitch, aligned_height, data }
            },
        }
    }

    /// Writes `bytes` into the buffer starting at pixel (x, y), left to
    /// right; every other byte is unchanged.
    pub fn set_pixel_bytes(&mut self, x: i32, y: i32, bytes: &Vec<u8>)
        requires
            old(self).wf(),
            0 <= x,
            0 <= y,
            x + y * old(self).pitch + bytes@.len() <= old(self).data_spec().len(),
        ensures
            final(self).wf(),
            final(self).image_type == old(self).image_type,
            final(self).width == old(self).width,
            final(self).height == old(self).height,
            final(self).pitch == old(self).pitch,
            final(self).aligned_height == old(self).aligned_height,
            final(self).data_spec().len() == old(self).data_spec().len(),
            forall|i: int|
                0 <= i < old(self).data_spec().len() ==> final(self).data_spec()[i] == (if x + y
                    * old(self).pitch <= i < x + y * old(self).pitch + bytes@.len() {
                    bytes@[i - (x + y * old(self).pitch)]
                } else {
                    old(self).data_spec()[i]
                }),
    {
        let dlen = self.data.len();
        let offset: usize = (x as usize) + (y as usize) * (self.pitch as usize);
        let mut i: usize = 0;
        while i < bytes.len()
            invariant
                i <= bytes@.len(),
                offset == x + y * self.pitch,
                dlen == self.data@.len(),
                offset + bytes@.len() <= self.data@.len(),
                self.image_type == old(self).image_type,
                self.width == old(self).width,
                self.height == old(self).height,
                self.pitch == old(self).pitch,
                self.aligned_height == old(self).aligned_height,
                self.data@.len() == old(self).data@.len(),
                forall|j: int|
                    0 <= j < self.data@.len() ==> self.data@[j] == (if offset <= j < offset + i {
                        bytes@[j - offset]
                    } else {
                        old(self).data@[j]
                    }),
            decreases bytes@.len() - i,
        {
            let b = bytes[i];
            self.data[offset + i] = b;
            i = i + 1;
        }
    }

    /// Read access to the pixel bytes for the display backend.
    pub fn data(&self) -> (r: &Vec<u8>)
        ensures
            r@ == self.data_spec(),
    {
        &self.data
    }

    /// The source rectangle of the whole image in the backend's 16.16
    /// fixed-point convention.
    pub fn get_src_rect(&self) -> (r: Rect)
        requires
            0 <= self.width < 0x8000,
            0 <= self.height < 0x8000,
        ensures
            r.x == 0,
            r.y == 0,
            r.width == self.width << 16,
            r.height == self.height << 16,
    {
        Rect { x: 0, y: 0, width: self.width << 16, height: self.height << 16 }
    }
}

/// A buffer of `n` zero bytes.
fn zero_bytes(n: usize) -> (r: Vec<u8>)
    ensures
        r@ == Seq::new(n as nat, |i: int| 0u8),
{
    let mut data: Vec<u8> = Vec::with_capacity(n);
    let mut i: usize = 0;
    while i < n
        invariant
            i <= n,
            data@ == Seq::new(i as nat, |j: int| 0u8),
        decreases n - i,
    {
        data.push(0);
        proof {
            assert(data@ =~= Seq::new((i + 1) as nat, |j: int| 0u8));
        }
        i = i + 1;
    }
    data
}

} // verus!
