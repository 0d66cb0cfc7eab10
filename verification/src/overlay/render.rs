//! Pictures of the cursor and the buffer that they are drawn into.

use vstd::prelude::*;

use crate::bytes;

verus! {

/// How the pixels of a decoded image are made up.
#[derive(Clone, Copy, Debug, PartialEq, Eq, Structural)]
pub enum PngColor {
    Grayscale,
    Rgb,
    Indexed,
    GrayscaleAlpha,
    Rgba,
}

/// A decoded image, eight bits to a sample.
#[derive(Debug)]
pub struct PngFrame {
    pub width: u32,
    pub height: u32,
    pub color: PngColor,
    pub pixels: Vec<u8>,
}

/// A decoded image as mathematical values.
#[verifier::ext_equal]
pub ghost struct PngFrameValue {
    pub width: u32,
    pub height: u32,
    pub color: PngColor,
    pub pixels: Seq<u8>,
}

impl View for PngFrame {
    type V = PngFrameValue;

    open spec fn view(&self) -> PngFrameValue {
        PngFrameValue {
            width: self.width,
            height: self.height,
            color: self.color,
            pixels: self.pixels@,
        }
    }
}

impl PngFrameValue {
    /// An image has pixels, and one in red, green, blue and alpha has four bytes for each.
    pub open spec fn wf(self) -> bool {
        &&& self.width > 0
        &&& self.height > 0
        &&& self.color == PngColor::Rgba ==> self.pixels.len() >= self.width * self.height * 4
    }
}

/// The first frame that the `png` crate decodes from a file on a machine with addresses of
/// so many bits, with its samples brought to eight bits; nothing where the crate reports an
/// error, as it does for an image whose bytes the machine cannot count.
pub uninterp spec fn png_first_frame(data: Seq<u8>, bits: int) -> Option<PngFrameValue>;

/// The 32-bit number at `at`, the high byte first.
pub open spec fn be32(data: Seq<u8>, at: int) -> int {
    16777216 * data[at] + 65536 * data[at + 1] + 256 * data[at + 2] + data[at + 3]
}

/// Whether a file starts with the signature of PNG files.
pub open spec fn has_signature(data: Seq<u8>) -> bool {
    &&& data.len() >= 8
    &&& bytes::has_tag(data, 0, seq![137u8, 80u8, 78u8, 71u8])
    &&& bytes::has_tag(data, 4, seq![13u8, 10u8, 26u8, 10u8])
}

/// Where the chunk after the one at `at` starts: a chunk has four bytes for its length,
/// four for its kind and four for its checksum.
pub open spec fn next_chunk(data: Seq<u8>, at: int) -> int {
    at + 12 + be32(data, at)
}

/// Whether a file holds the chunk at `at` in full.
pub open spec fn holds_chunk(data: Seq<u8>, at: int) -> bool {
    0 <= at && at + 12 <= data.len() && next_chunk(data, at) <= data.len()
}

/// `IHDR`
pub open spec fn header_tag() -> Seq<u8> {
    seq![73u8, 72u8, 68u8, 82u8]
}

/// `PLTE`
pub open spec fn palette_tag() -> Seq<u8> {
    seq![80u8, 76u8, 84u8, 69u8]
}

/// `acTL`
pub open spec fn animation_tag() -> Seq<u8> {
    seq![97u8, 99u8, 84u8, 76u8]
}

/// Whether the chunk at `at` holds image data or ends the file: `IDAT`, `fdAT` or `IEND`.
pub open spec fn ends_the_preamble(data: Seq<u8>, at: int) -> bool {
    ||| bytes::has_tag(data, at + 4, seq![73u8, 68u8, 65u8, 84u8])
    ||| bytes::has_tag(data, at + 4, seq![102u8, 100u8, 65u8, 84u8])
    ||| bytes::has_tag(data, at + 4, seq![73u8, 69u8, 78u8, 68u8])
}

/// Where the header of the image is: the first chunk from `at` on. A header chunk without
/// contents is passed over, and one that is too short for a header is none.
pub open spec fn header_place(data: Seq<u8>, at: int) -> Option<int>
    decreases data.len() - at,
{
    if !holds_chunk(data, at) || !bytes::has_tag(data, at + 4, header_tag()) {
        None
    } else if be32(data, at) == 0 {
        header_place(data, next_chunk(data, at))
    } else if be32(data, at) < 13 {
        None
    } else {
        Some(at)
    }
}

/// Whether the first palette from `at` on, before any image data, is made of whole
/// colours, of which there are at most 256. A palette chunk without contents is passed
/// over, and so is everything that is cut off by the end of the file.
pub open spec fn palette_fits(data: Seq<u8>, at: int) -> bool
    decreases data.len() - at,
{
    if !holds_chunk(data, at) || ends_the_preamble(data, at) {
        true
    } else if bytes::has_tag(data, at + 4, palette_tag()) && be32(data, at) != 0 {
        be32(data, at) % 3 == 0 && be32(data, at) <= 768
    } else {
        palette_fits(data, next_chunk(data, at))
    }
}

/// Whether every number of frames that is announced from `at` on, before any image data,
/// can be counted together with one image that is no part of the animation. An
/// announcement that is too short is refused.
pub open spec fn frames_fit(data: Seq<u8>, at: int) -> bool
    decreases data.len() - at,
{
    if !holds_chunk(data, at) || ends_the_preamble(data, at) {
        true
    } else if bytes::has_tag(data, at + 4, animation_tag()) && be32(data, at) >= 8 && be32(
        data,
        at + 8,
    ) >= usize::MAX {
        false
    } else {
        frames_fit(data, next_chunk(data, at))
    }
}

/// The length up to which the numbers of a file's animation chunks, which count from 0 on
/// and take at least 16 bytes each, can be held in 32 bits.
pub const LONGEST_FILE: u64 = 0x10_0000_0000;

/// The bytes of a decoded pixel, transparency left aside, for the kind of colour that a
/// header gives.
pub open spec fn least_bytes(color: u8) -> int {
    if color == 0 {
        1
    } else if color == 4 {
        2
    } else if color == 6 {
        4
    } else {
        3
    }
}

/// The bytes of a decoded pixel at most: with transparency there is one more.
pub open spec fn most_bytes(color: u8) -> int {
    if color == 0 || color == 4 {
        2
    } else {
        4
    }
}

/// Whether an image with so many pixels can be held: it has at most as many bytes as a
/// vector can, and for an interlaced one its bits can be counted. One that has so many
/// bytes that they cannot even be counted is refused and needs no room, and so is one with
/// colours or an order of rows that are not known.
pub open spec fn size_fits(pixels: int, color: u8, interlace: u8) -> bool {
    ||| color == 1 || color == 5 || color > 6
    ||| interlace > 1
    ||| pixels * least_bytes(color) > usize::MAX
    ||| {
        &&& pixels * most_bytes(color) <= isize::MAX
        &&& interlace != 0 ==> pixels * most_bytes(color) * 8 <= usize::MAX
    }
}

/// Whether the image that the header of a file announces can be held and, if its pixels
/// are numbers of colours, has a palette that fits, and whether the frames of an animation
/// and the chunks that they are made of can be counted.
pub open spec fn image_fits(data: Seq<u8>) -> bool {
    has_signature(data) ==> match header_place(data, 8) {
        Some(at) => {
            &&& size_fits(be32(data, at + 8) * be32(data, at + 12), data[at + 17], data[at + 20])
            &&& data[at + 17] == 3 ==> palette_fits(data, next_chunk(data, at))
            &&& frames_fit(data, next_chunk(data, at))
            &&& data.len() <= LONGEST_FILE
        },
        None => true,
    }
}

/// Calls `png::Decoder::new`, `set_transformations`, `read_info` and, on the reader,
/// `output_buffer_size` and `next_frame`: the decoding of a file's first frame, with
/// palettes and small samples expanded and large samples cut to eight bits.
///
/// The crate panics where the bytes of the buffer, the bits of an interlaced image, the
/// frames of an animation with an image beside it, or the numbers of its chunks exceed
/// their types, and where the palette of an indexed image is not made of whole colours or
/// has more than 256 of them; such files are left out. The result is a function of the
/// bytes and of the width of `usize`, by which the crate decides whether an image is too
/// large. Of a frame that is decoded the crate checks that it is not empty and not larger
/// than the image, and the buffer has room for the whole image, which is four bytes to a
/// pixel in red, green, blue and alpha.
#[verifier::external_body]
fn read_png(data: &[u8]) -> (r: Option<PngFrame>)
    requires
        image_fits(data@),
    ensures
        match r {
            Some(frame) => png_first_frame(data@, usize::BITS as int) == Some(frame@)
                && frame@.wf(),
            None => png_first_frame(data@, usize::BITS as int) is None,
        },
{
    let mut decoder = png::Decoder::new(data);
    decoder.set_transformations(png::Transformations::normalize_to_color8());
    let mut reader = decoder.read_info().ok()?;
    let mut pixels: Vec<u8> = vec![0u8; reader.output_buffer_size()];
    let info = reader.next_frame(&mut pixels).ok()?;
    let color: PngColor = match info.color_type {
        png::ColorType::Grayscale => PngColor::Grayscale,
        png::ColorType::Rgb => PngColor::Rgb,
        png::ColorType::Indexed => PngColor::Indexed,
        png::ColorType::GrayscaleAlpha => PngColor::GrayscaleAlpha,
        png::ColorType::Rgba => PngColor::Rgba,
    };
    Some(PngFrame { width: info.width, height: info.height, color, pixels })
}

/// A picture in red, green, blue and alpha, row by row.
#[derive(Debug)]
pub struct Texture {
    pub w: u32,
    pub h: u32,
    pub data: Vec<u8>,
}

/// A picture as mathematical values.
#[verifier::ext_equal]
pub ghost struct TextureValue {
    pub w: u32,
    pub h: u32,
    pub data: Seq<u8>,
}

impl View for Texture {
    type V = TextureValue;

    open spec fn view(&self) -> TextureValue {
        TextureValue { w: self.w, h: self.h, data: self.data@ }
    }
}

/// The picture that a decoded image gives: only one in red, green, blue and alpha does,
/// and what follows its pixels in the buffer is cut off.
pub open spec fn texture_of(frame: Option<PngFrameValue>) -> Option<TextureValue> {
    match frame {
        Some(f) => if f.color == PngColor::Rgba {
            Some(
                TextureValue {
                    w: f.width,
                    h: f.height,
                    data: f.pixels.take(f.width * f.height * 4),
                },
            )
        } else {
            None
        },
        None => None,
    }
}

/// The four samples of a pixel.
#[derive(Clone, Copy, Debug, PartialEq, Eq)]
pub struct Texel {
    pub r: u8,
    pub g: u8,
    pub b: u8,
    pub a: u8,
}

/// The four pixels around a point, the first two above the other two.
#[derive(Clone, Copy, Debug, PartialEq, Eq)]
pub struct Neighbours {
    pub x0: usize,
    pub y0: usize,
    pub top_left: Texel,
    pub top_right: Texel,
    pub bottom_left: Texel,
    pub bottom_right: Texel,
}

/// The nearest number from 0 to `size - 1`.
pub open spec fn into_range(value: int, size: int) -> int {
    if value < 0 {
        0
    } else if value >= size {
        size - 1
    } else {
        value
    }
}

impl TextureValue {
    /// There are pixels, and four bytes for each.
    pub open spec fn wf(self) -> bool {
        &&& self.w > 0
        &&& self.h > 0
        &&& self.data.len() == self.w * self.h * 4
    }

    /// The pixel in column `x` of row `y`.
    pub open spec fn texel(self, x: int, y: int) -> Texel {
        let at = (y * self.w + x) * 4;
        Texel {
            r: self.data[at],
            g: self.data[at + 1],
            b: self.data[at + 2],
            a: self.data[at + 3],
        }
    }

    /// The pixels around a point whose coordinates are rounded down and up; nothing for a
    /// point that is not on the picture.
    pub open spec fn around(
        self,
        floor_x: int,
        floor_y: int,
        ceil_x: int,
        ceil_y: int,
    ) -> Option<Neighbours> {
        if floor_x < 0 || floor_x >= self.w || floor_y < 0 || floor_y >= self.h {
            None
        } else {
            let x1 = into_range(ceil_x, self.w as int);
            let y1 = into_range(ceil_y, self.h as int);
            Some(
                Neighbours {
                    x0: floor_x as usize,
                    y0: floor_y as usize,
                    top_left: self.texel(floor_x, floor_y),
                    top_right: self.texel(x1, floor_y),
                    bottom_left: self.texel(floor_x, y1),
                    bottom_right: self.texel(x1, y1),
                },
            )
        }
    }
}

fn read_be32(data: &[u8], at: usize) -> (r: u32)
    requires
        at + 4 <= data.len(),
    ensures
        r == be32(data@, at as int),
{
    16777216 * data[at] as u32 + 65536 * data[at + 1] as u32 + 256 * data[at + 2] as u32 + data[at
        + 3] as u32
}

fn is_chunk_held(data: &[u8], at: usize) -> (r: bool)
    ensures
        r == holds_chunk(data@, at as int),
        r ==> next_chunk(data@, at as int) <= data.len(),
{
    if at > data.len() || data.len() - at < 12 {
        return false;
    }
    read_be32(data, at) as u64 <= (data.len() - at - 12) as u64
}

fn find_header(data: &[u8]) -> (r: Option<usize>)
    ensures
        match r {
            Some(at) => header_place(data@, 8) == Some(at as int) && holds_chunk(data@, at as int)
                && be32(data@, at as int) >= 13,
            None => header_place(data@, 8) is None,
        },
{
    let mut at: usize = 8;
    while is_chunk_held(data, at) && bytes::is_tag(data, at + 4, [73, 72, 68, 82])
        invariant
            header_place(data@, 8) == header_place(data@, at as int),
        ensures
            header_place(data@, 8) is None,
        decreases data@.len() - at,
    {
        let size: u32 = read_be32(data, at);
        assert([73u8, 72u8, 68u8, 82u8]@ =~= header_tag());
        if size != 0 {
            return if size < 13 {
                None
            } else {
                Some(at)
            };
        }
        at = at + 12;
    }
    None
}

fn is_preamble_end(data: &[u8], at: usize) -> (r: bool)
    requires
        at + 12 <= data.len(),
    ensures
        r == ends_the_preamble(data@, at as int),
{
    bytes::is_tag(data, at + 4, [73, 68, 65, 84]) || bytes::is_tag(
        data,
        at + 4,
        [102, 100, 65, 84],
    ) || bytes::is_tag(data, at + 4, [73, 69, 78, 68])
}

fn are_frames_fitting(data: &[u8], start: usize) -> (r: bool)
    ensures
        r == frames_fit(data@, start as int),
{
    let mut at: usize = start;
    while is_chunk_held(data, at)
        invariant
            frames_fit(data@, start as int) == frames_fit(data@, at as int),
        decreases data@.len() - at,
    {
        if is_preamble_end(data, at) {
            return true;
        }
        let size: u32 = read_be32(data, at);
        if bytes::is_tag(data, at + 4, [97, 99, 84, 76]) && size >= 8 && read_be32(data, at + 8)
            as u64 >= usize::MAX as u64 {
            return false;
        }
        at = at + 12 + size as usize;
    }
    true
}

fn is_palette_fitting(data: &[u8], start: usize) -> (r: bool)
    ensures
        r == palette_fits(data@, start as int),
{
    let mut at: usize = start;
    while is_chunk_held(data, at)
        invariant
            palette_fits(data@, start as int) == palette_fits(data@, at as int),
        decreases data@.len() - at,
    {
        if is_preamble_end(data, at) {
            return true;
        }
        let size: u32 = read_be32(data, at);
        if bytes::is_tag(data, at + 4, [80, 76, 84, 69]) && size != 0 {
            return size % 3 == 0 && size <= 768;
        }
        at = at + 12 + size as usize;
    }
    true
}

fn is_size_fitting(pixels: u128, color: u8, interlace: u8) -> (r: bool)
    requires
        pixels <= 0xFFFF_FFFF * 0xFFFF_FFFF,
    ensures
        r == size_fits(pixels as int, color, interlace),
{
    if color == 1 || color == 5 || color > 6 || interlace > 1 {
        return true;
    }
    let least: u128 = if color == 0 {
        pixels
    } else if color == 4 {
        pixels * 2
    } else if color == 6 {
        pixels * 4
    } else {
        pixels * 3
    };
    let most: u128 = if color == 0 || color == 4 {
        pixels * 2
    } else {
        pixels * 4
    };
    least > usize::MAX as u128 || (most <= isize::MAX as u128 && (interlace == 0 || most * 8
        <= usize::MAX as u128))
}

/// Tells whether `decode_png` accepts the bytes.
pub fn is_decodable(data: &[u8]) -> (r: bool)
    ensures
        r == image_fits(data@),
{
    if data.len() < 8 || !bytes::is_tag(data, 0, [137, 80, 78, 71]) || !bytes::is_tag(
        data,
        4,
        [13, 10, 26, 10],
    ) {
        return true;
    }
    match find_header(data) {
        None => true,
        Some(at) => {
            let width: u128 = read_be32(data, at + 8) as u128;
            let height: u128 = read_be32(data, at + 12) as u128;
            assert(width * height <= 0xFFFF_FFFF * 0xFFFF_FFFF) by (nonlinear_arith)
                requires
                    0 <= width <= 0xFFFF_FFFF,
                    0 <= height <= 0xFFFF_FFFF,
            ;
            if !is_size_fitting(width * height, data[at + 17], data[at + 20]) {
                return false;
            }
            let after: usize = at + 12 + read_be32(data, at) as usize;
            (data[at + 17] != 3 || is_palette_fitting(data, after)) && are_frames_fitting(
                data,
                after,
            ) && data.len() as u64 <= LONGEST_FILE
        },
    }
}

/// Makes a picture of a decoded image.
pub fn texture_from_frame(frame: Option<PngFrame>) -> (r: Option<Texture>)
    requires
        frame matches Some(f) ==> f@.wf(),
    ensures
        match r {
            Some(texture) => texture@.wf() && (frame matches Some(f) && texture_of(Some(f@))
                == Some(texture@)),
            None => frame matches Some(f) ==> texture_of(Some(f@)) is None,
        },
{
    match frame {
        Some(f) => {
            if f.color != PngColor::Rgba {
                return None;
            }
            let w: u32 = f.width;
            let h: u32 = f.height;
            let mut data: Vec<u8> = f.pixels;
            assert(w * h * 4 <= data.len());
            assert(0 <= w * h) by (nonlinear_arith);
            let size: usize = (w as usize) * (h as usize) * 4;
            data.truncate(size);
            let texture: Texture = Texture { w, h, data };
            assert(texture@.data =~= f@.pixels.take(w * h * 4));
            Some(texture)
        },
        None => None,
    }
}

/// Decodes a picture.
pub fn decode_png(data: &[u8]) -> (r: Option<Texture>)
    requires
        image_fits(data@),
    ensures
        match r {
            Some(texture) => texture@.wf() && texture_of(
                png_first_frame(data@, usize::BITS as int),
            ) == Some(texture@),
            None => texture_of(png_first_frame(data@, usize::BITS as int)) is None,
        },
{
    texture_from_frame(read_png(data))
}

/// The two layers of the cursor.
#[derive(Debug)]
pub struct CursorTextures {
    pub cursor: Texture,
    pub additive: Texture,
}

impl Texture {
    fn texel_at(&self, x: usize, y: usize) -> (r: Texel)
        requires
            self@.wf(),
            x < self.w,
            y < self.h,
        ensures
            r == self@.texel(x as int, y as int),
    {
        let w: usize = self.w as usize;
        proof {
            lemma_inside(x as int, y as int, self.w as int, self.h as int);
            assert(0 <= y * w) by (nonlinear_arith);
            assert(self.data.len() == self.w * self.h * 4);
        }
        let at: usize = (y * w + x) * 4;
        Texel {
            r: self.data[at],
            g: self.data[at + 1],
            b: self.data[at + 2],
            a: self.data[at + 3],
        }
    }

    /// The pixels around a point whose coordinates are rounded down and up. A coordinate
    /// beyond the last pixel counts as that of the last pixel.
    pub fn sample(&self, floor_x: i64, floor_y: i64, ceil_x: i64, ceil_y: i64) -> (r: Option<
        Neighbours,
    >)
        requires
            self@.wf(),
        ensures
            r == self@.around(floor_x as int, floor_y as int, ceil_x as int, ceil_y as int),
    {
        let w: i64 = self.w as i64;
        let h: i64 = self.h as i64;
        if floor_x < 0 || floor_x >= w || floor_y < 0 || floor_y >= h {
            return None;
        }
        let x0: usize = floor_x as usize;
        let y0: usize = floor_y as usize;
        let x1: usize = pick(ceil_x, self.w);
        let y1: usize = pick(ceil_y, self.h);
        Some(
            Neighbours {
                x0,
                y0,
                top_left: self.texel_at(x0, y0),
                top_right: self.texel_at(x1, y0),
                bottom_left: self.texel_at(x0, y1),
                bottom_right: self.texel_at(x1, y1),
            },
        )
    }
}

fn pick(value: i64, size: u32) -> (r: usize)
    requires
        size > 0,
    ensures
        r == into_range(value as int, size as int),
{
    if value < 0 {
        0
    } else if value >= size as i64 {
        (size - 1) as usize
    } else {
        value as usize
    }
}

proof fn lemma_inside(x: int, y: int, w: int, h: int)
    requires
        0 <= x < w,
        0 <= y < h,
    ensures
        0 <= y * w,
        y * w + x < w * h,
        w * h == h * w,
{
    assert(0 <= y * w && y * w + w <= h * w && w * h == h * w) by (nonlinear_arith)
        requires
            0 <= y < h,
            0 < w,
    ;
}

/// A pixel to be drawn: its opacity and its colours, which have been multiplied by it.
#[derive(Clone, Copy, Debug, PartialEq, Eq)]
pub struct Argb {
    pub a: u8,
    pub r: u8,
    pub g: u8,
    pub b: u8,
}

impl Argb {
    /// The pixel as one number: opacity, red, green, blue, from the high byte down.
    pub open spec fn packed(self) -> int {
        16777216 * self.a + 65536 * self.r + 256 * self.g + self.b
    }

    /// Packs the pixel into one number.
    pub fn pack(&self) -> (r: u32)
        ensures
            r == self.packed(),
    {
        16777216 * self.a as u32 + 65536 * self.r as u32 + 256 * self.g as u32 + self.b as u32
    }
}

/// The columns `x0` to `x1` and the rows `y0` to `y1`, ends included; empty where an end
/// comes before its start.
#[derive(Clone, Copy, Debug, PartialEq, Eq)]
pub struct Area {
    pub x0: u32,
    pub x1: u32,
    pub y0: u32,
    pub y1: u32,
}

impl Area {
    /// Whether there is no pixel in it.
    pub open spec fn spec_is_empty(self) -> bool {
        self.x0 > self.x1 || self.y0 > self.y1
    }

    /// Whether a pixel is in it.
    pub open spec fn holds(self, x: int, y: int) -> bool {
        self.x0 <= x <= self.x1 && self.y0 <= y <= self.y1
    }

    /// The number of columns, if there are any.
    pub open spec fn columns(self) -> int {
        self.x1 - self.x0 + 1
    }

    /// The number of pixels.
    pub open spec fn count(self) -> int {
        if self.spec_is_empty() {
            0
        } else {
            (self.y1 - self.y0 + 1) * self.columns()
        }
    }

    /// The place of a pixel in it, row by row.
    pub open spec fn place(self, x: int, y: int) -> int {
        (y - self.y0) * self.columns() + (x - self.x0)
    }
}

/// The buffer that the cursor is drawn into.
#[derive(Debug)]
pub struct Compositor {
    pub w: u32,
    pub h: u32,
    pub buffer: Vec<u32>,
}

/// A buffer as mathematical values.
#[verifier::ext_equal]
pub ghost struct CanvasValue {
    pub w: u32,
    pub h: u32,
    pub buffer: Seq<u32>,
}

impl View for Compositor {
    type V = CanvasValue;

    open spec fn view(&self) -> CanvasValue {
        CanvasValue { w: self.w, h: self.h, buffer: self.buffer@ }
    }
}

/// The number that is drawn at `(x, y)` when `pixels` are drawn into `area`: that of the
/// pixel for this place, and zero outside.
pub open spec fn drawn(area: Area, pixels: Seq<Argb>, x: int, y: int) -> int {
    if area.holds(x, y) {
        pixels[area.place(x, y)].packed()
    } else {
        0
    }
}

/// The same when the drawing has come to column `to_x` of row `to_y`.
pub open spec fn drawn_up_to(
    area: Area,
    pixels: Seq<Argb>,
    x: int,
    y: int,
    to_x: int,
    to_y: int,
) -> int {
    if y < to_y || (y == to_y && x < to_x) {
        drawn(area, pixels, x, y)
    } else {
        0
    }
}

/// A rounded bound, brought to at least 0 and at most `last`.
pub open spec fn bounded(value: int, last: int) -> int {
    if value < 0 {
        0
    } else if value > last {
        last
    } else {
        value
    }
}

impl CanvasValue {
    /// There is a number for each pixel.
    pub open spec fn wf(self) -> bool {
        &&& self.w * self.h <= u32::MAX
        &&& self.buffer.len() == self.w * self.h
    }

    /// The number at `(x, y)`.
    pub open spec fn at(self, x: int, y: int) -> u32 {
        self.buffer[y * self.w + x]
    }

    /// Whether the buffer holds the pixels of an area and nothing else.
    pub open spec fn shows(self, area: Area, pixels: Seq<Argb>) -> bool {
        forall|x: int, y: int|
            0 <= x < self.w && 0 <= y < self.h ==> #[trigger] self.at(x, y) == drawn(
                area,
                pixels,
                x,
                y,
            )
    }
}

impl Compositor {
    /// An empty buffer.
    pub fn new(w: u32, h: u32) -> (r: Compositor)
        requires
            w * h <= u32::MAX,
        ensures
            r@.wf(),
            r.w == w,
            r.h == h,
            forall|i: int| 0 <= i < r.buffer@.len() ==> r.buffer@[i] == 0,
    {
        assert(0 <= w * h) by (nonlinear_arith);
        let size: usize = (w * h) as usize;
        Compositor { w, h, buffer: vec![0u32; size] }
    }

    /// Tells whether the buffer has another size.
    pub fn differs(&self, w: u32, h: u32) -> (r: bool)
        ensures
            r == (self.w != w || self.h != h),
    {
        self.w != w || self.h != h
    }

    /// The pixels that a shape can touch, for its bounds rounded outwards.
    pub fn bounds(&self, min_x: i64, max_x: i64, min_y: i64, max_y: i64) -> (r: Area)
        requires
            self.w > 0,
            self.h > 0,
        ensures
            r.x0 == bounded(min_x as int, u32::MAX as int),
            r.x1 == bounded(max_x as int, self.w - 1),
            r.y0 == bounded(min_y as int, u32::MAX as int),
            r.y1 == bounded(max_y as int, self.h - 1),
    {
        Area {
            x0: bound(min_x, u32::MAX),
            x1: bound(max_x, self.w - 1),
            y0: bound(min_y, u32::MAX),
            y1: bound(max_y, self.h - 1),
        }
    }

    /// Draws the pixels of an area, given row by row, and clears the rest of the buffer.
    pub fn draw(&mut self, area: Area, pixels: &[Argb])
        requires
            old(self)@.wf(),
            area.x1 < old(self).w,
            area.y1 < old(self).h,
            pixels@.len() == area.count(),
        ensures
            final(self)@.wf(),
            final(self).w == old(self).w,
            final(self).h == old(self).h,
            final(self)@.shows(area, pixels@),
    {
        self.clear();
        if area.x0 > area.x1 || area.y0 > area.y1 {
            assert forall|x: int, y: int| 0 <= x < self.w && 0 <= y < self.h implies #[trigger] self@.at(
                x,
                y,
            ) == drawn(area, pixels@, x, y) by {
                lemma_inside(x, y, self.w as int, self.h as int);
            }
            return;
        }
        let ghost w = self.w as int;
        let ghost h = self.h as int;
        let mut y: u32 = area.y0;
        let mut k: usize = 0;
        assert forall|px: int, py: int| 0 <= px < w && 0 <= py < h implies #[trigger] self@.at(
            px,
            py,
        ) == drawn_up_to(area, pixels@, px, py, area.x0 as int, area.y0 as int) by {
            lemma_inside(px, py, w, h);
        }
        assert(area.place(area.x0 as int, area.y0 as int) == 0) by (nonlinear_arith)
            requires
                area.place(area.x0 as int, area.y0 as int) == 0 * area.columns() + 0,
        ;
        while y <= area.y1
            invariant
                self@.wf(),
                self.w == w,
                self.h == h,
                w == old(self).w,
                h == old(self).h,
                area.x0 <= area.x1 < w,
                area.y0 <= y <= area.y1 + 1,
                area.y1 < h,
                pixels@.len() == area.count(),
                k == area.place(area.x0 as int, y as int),
                forall|px: int, py: int|
                    0 <= px < w && 0 <= py < h ==> #[trigger] self@.at(px, py) == drawn_up_to(
                        area,
                        pixels@,
                        px,
                        py,
                        area.x0 as int,
                        y as int,
                    ),
            decreases area.y1 + 1 - y,
        {
            let mut x: u32 = area.x0;
            while x <= area.x1
                invariant
                    self@.wf(),
                    self.w == w,
                    self.h == h,
                    area.x0 <= x <= area.x1 + 1,
                    area.x1 < w,
                    area.y0 <= y <= area.y1,
                    area.y1 < h,
                    pixels@.len() == area.count(),
                    k == area.place(x as int, y as int),
                    forall|px: int, py: int|
                        0 <= px < w && 0 <= py < h ==> #[trigger] self@.at(px, py) == drawn_up_to(
                            area,
                            pixels@,
                            px,
                            py,
                            x as int,
                            y as int,
                        ),
                decreases area.x1 + 1 - x,
            {
                proof {
                    lemma_inside(x as int, y as int, w, h);
                    lemma_place_in_area(area, x as int, y as int);
                    assert(0 <= y * self.w) by (nonlinear_arith);
                }
                let at: usize = y as usize * self.w as usize + x as usize;
                let ghost before = self@;
                self.buffer.set(at, pixels[k].pack());
                proof {
                    assert forall|px: int, py: int|
                        0 <= px < w && 0 <= py < h implies #[trigger] self@.at(px, py)
                        == drawn_up_to(area, pixels@, px, py, x + 1, y as int) by {
                        lemma_inside(px, py, w, h);
                        if py * w + px == at {
                            lemma_same_place(px, py, x as int, y as int, w);
                        } else {
                            assert(self@.at(px, py) == before.at(px, py));
                        }
                    }
                }
                x = x + 1;
                k = k + 1;
            }
            proof {
                lemma_next_row(area, y as int);
            }
            y = y + 1;
        }
    }

    fn clear(&mut self)
        requires
            old(self)@.wf(),
        ensures
            final(self)@.wf(),
            final(self).w == old(self).w,
            final(self).h == old(self).h,
            forall|i: int| 0 <= i < final(self).buffer@.len() ==> final(self).buffer@[i] == 0,
    {
        let mut i: usize = 0;
        while i < self.buffer.len()
            invariant
                self@.wf(),
                self.w == old(self).w,
                self.h == old(self).h,
                i <= self.buffer@.len(),
                forall|j: int| 0 <= j < i ==> self.buffer@[j] == 0,
            decreases self.buffer@.len() - i,
        {
            self.buffer.set(i, 0);
            i = i + 1;
        }
    }
}

fn bound(value: i64, last: u32) -> (r: u32)
    ensures
        r == bounded(value as int, last as int),
{
    if value < 0 {
        0
    } else if value > last as i64 {
        last
    } else {
        value as u32
    }
}

proof fn lemma_same_place(px: int, py: int, x: int, y: int, w: int)
    requires
        0 <= px < w,
        0 <= x < w,
        py * w + px == y * w + x,
    ensures
        px == x,
        py == y,
{
    assert(py == y) by (nonlinear_arith)
        requires
            0 <= px < w,
            0 <= x < w,
            py * w + px == y * w + x,
    ;
}

proof fn lemma_place_in_area(area: Area, x: int, y: int)
    requires
        area.holds(x, y),
    ensures
        0 <= area.place(x, y) < area.count(),
{
    let columns = area.columns();
    assert(0 <= (y - area.y0) * columns) by (nonlinear_arith)
        requires
            y >= area.y0,
            columns >= 1,
    ;
    assert((y - area.y0) * columns + columns <= (area.y1 - area.y0 + 1) * columns)
        by (nonlinear_arith)
        requires
            y <= area.y1,
            columns >= 1,
    ;
}

proof fn lemma_next_row(area: Area, y: int)
    ensures
        area.place(area.x1 + 1, y) == area.place(area.x0 as int, y + 1),
{
    let columns = area.columns();
    assert((y - area.y0) * columns + columns == (y + 1 - area.y0) * columns) by (nonlinear_arith);
}

/// Nothing is drawn outside the area.
pub proof fn law_outside_the_area_is_clear(area: Area, pixels: Seq<Argb>, x: int, y: int)
    requires
        !area.holds(x, y),
    ensures
        drawn(area, pixels, x, y) == 0,
{
}

/// Nothing of what a buffer held is left in it: two buffers of one size into which the same
/// is drawn are equal, whatever they held. So drawing twice is drawing once.
pub proof fn law_drawing_forgets_the_buffer(
    first: CanvasValue,
    second: CanvasValue,
    area: Area,
    pixels: Seq<Argb>,
)
    requires
        first.wf(),
        second.wf(),
        first.w == second.w,
        first.h == second.h,
        first.shows(area, pixels),
        second.shows(area, pixels),
    ensures
        first == second,
{
    let w = first.w as int;
    let h = first.h as int;
    assert forall|i: int| 0 <= i < first.buffer.len() implies first.buffer[i]
        == second.buffer[i] by {
        lemma_position(i, w, h);
        assert(first.at(i % w, i / w) == second.at(i % w, i / w));
    }
    assert(first.buffer =~= second.buffer);
}

proof fn lemma_position(i: int, w: int, h: int)
    requires
        0 <= i < w * h,
        0 <= w,
        0 <= h,
    ensures
        0 <= i % w < w,
        0 <= i / w < h,
        (i / w) * w + i % w == i,
{
    assert(w > 0) by (nonlinear_arith)
        requires
            0 < w * h,
            0 <= w,
    ;
    assert((i / w) * w + i % w == i && 0 <= i % w < w && 0 <= i / w) by (nonlinear_arith)
        requires
            w > 0,
            i >= 0,
    ;
    assert(i / w < h) by (nonlinear_arith)
        requires
            (i / w) * w + i % w == i,
            0 <= i % w,
            i < w * h,
            w > 0,
    ;
}

/// The bounds of a shape lie in the buffer, and every pixel of the buffer between the
/// rounded bounds is among them.
pub proof fn law_bounds_cover_the_shape(
    canvas: CanvasValue,
    min_x: int,
    max_x: int,
    min_y: int,
    max_y: int,
    x: int,
    y: int,
)
    requires
        0 <= x < canvas.w,
        0 <= y < canvas.h,
        min_x <= x <= max_x,
        min_y <= y <= max_y,
    ensures
        bounded(min_x, u32::MAX as int) <= x <= bounded(max_x, canvas.w - 1),
        bounded(min_y, u32::MAX as int) <= y <= bounded(max_y, canvas.h - 1),
{
}

/// A pixel can be told from its number.
pub proof fn law_packed_pixels_differ(p: Argb, q: Argb)
    requires
        p.packed() == q.packed(),
    ensures
        p == q,
{
    let low_p = 65536 * p.r + 256 * p.g + p.b;
    let low_q = 65536 * q.r + 256 * q.g + q.b;
    assert(p.a == q.a) by {
        assert(0 <= low_p < 16777216);
        assert(0 <= low_q < 16777216);
    }
    assert(p.r == q.r) by {
        assert(0 <= 256 * p.g + p.b < 65536);
        assert(0 <= 256 * q.g + q.b < 65536);
    }
    assert(p.g == q.g);
}

/// Every part of a pixel can be read back from its number at its own place: the opacity in
/// the highest byte, then red, then green, and blue in the lowest.
pub proof fn law_channels_read_back(p: Argb)
    ensures
        p.packed() / 0x100_0000 == p.a,
        p.packed() / 0x1_0000 % 0x100 == p.r,
        p.packed() / 0x100 % 0x100 == p.g,
        p.packed() % 0x100 == p.b,
{
    lemma_weights(p.a, p.r, p.g, p.b);
}

/// What is drawn at a pixel of the area is the pixel that was given for it, row by row from
/// the upper left, each part of it at its own place in the number; elsewhere it is zero.
pub proof fn law_drawn_pixels_are_the_given_ones(area: Area, pixels: Seq<Argb>, x: int, y: int)
    ensures
        ({
            let inside = area.x0 <= x && x <= area.x1 && area.y0 <= y && y <= area.y1;
            let given = pixels[(y - area.y0) * (area.x1 - area.x0 + 1) + (x - area.x0)];
            let number = drawn(area, pixels, x, y);
            &&& !inside ==> number == 0
            &&& inside ==> number / 0x100_0000 == given.a && number / 0x1_0000 % 0x100 == given.r
                && number / 0x100 % 0x100 == given.g && number % 0x100 == given.b
        }),
{
    if area.holds(x, y) {
        law_channels_read_back(pixels[area.place(x, y)]);
    }
}

/// The pixels of an area are counted row by row: the upper left one is the first, the one
/// to the right of another follows it, the first one of a row follows the last one of the
/// row above, and the lower right one is the last. An area whose end comes before its start
/// has none.
pub proof fn law_pixels_are_counted_row_by_row(area: Area, x: int, y: int)
    ensures
        area.place(area.x0 as int, area.y0 as int) == 0,
        area.place(x + 1, y) == area.place(x, y) + 1,
        area.place(area.x0 as int, y + 1) == area.place(area.x1 as int, y) + 1,
        area.x0 <= area.x1 && area.y0 <= area.y1 ==> area.count() == area.place(
            area.x1 as int,
            area.y1 as int,
        ) + 1,
        area.x0 > area.x1 || area.y0 > area.y1 ==> area.count() == 0,
        area.holds(x, y) <==> area.x0 <= x && x <= area.x1 && area.y0 <= y && y <= area.y1,
        area.spec_is_empty() <==> forall|px: int, py: int| !#[trigger] area.holds(px, py),
{
    let columns = area.x1 - area.x0 + 1;
    assert((area.y0 - area.y0) * columns == 0) by (nonlinear_arith);
    lemma_next_row(area, y);
    assert((area.y1 - area.y0 + 1) * columns == (area.y1 - area.y0) * columns + columns)
        by (nonlinear_arith);
    if !area.spec_is_empty() {
        assert(area.holds(area.x0 as int, area.y0 as int));
    }
}

/// The buffer holds its rows one after the other, and a drawing is shown if the number of
/// every pixel is the one that is drawn there.
pub proof fn law_buffer_holds_rows(canvas: CanvasValue, area: Area, pixels: Seq<Argb>)
    ensures
        forall|x: int, y: int| #[trigger]
            canvas.at(x, y) == canvas.buffer[y * canvas.w + x],
        canvas.shows(area, pixels) ==> forall|x: int, y: int|
            0 <= x < canvas.w && 0 <= y < canvas.h ==> #[trigger] canvas.at(x, y) == drawn(
                area,
                pixels,
                x,
                y,
            ),
        canvas.wf() ==> canvas.buffer.len() == canvas.w * canvas.h,
{
}

/// A bound is kept inside the buffer, and brought to the nearer end outside.
pub proof fn law_bounds_stay_inside(value: int, last: int)
    requires
        0 <= last,
    ensures
        0 <= bounded(value, last) <= last,
        0 <= value <= last ==> bounded(value, last) == value,
        value < 0 ==> bounded(value, last) == 0,
        value > last ==> bounded(value, last) == last,
{
}

/// A decoded image gives a picture if and only if it is in red, green, blue and alpha: of
/// the same size, with the bytes of its pixels, four for each, and none after them.
pub proof fn law_pictures_are_what_was_decoded(frame: PngFrameValue, i: int)
    requires
        frame.wf(),
    ensures
        texture_of(None) is None,
        texture_of(Some(frame)) is Some <==> frame.color == PngColor::Rgba,
        texture_of(Some(frame)) matches Some(picture) ==> picture.w == frame.width && picture.h
            == frame.height && picture.data.len() == frame.width * frame.height * 4 && (0 <= i
            < frame.width * frame.height * 4 ==> picture.data[i] == frame.pixels[i]),
{
    let count = frame.width * frame.height;
    assert(0 <= count) by (nonlinear_arith)
        requires
            count == frame.width * frame.height,
    ;
}

/// A pixel of a picture has its four bytes, red first and opacity last, at four times its
/// number, counted row by row.
pub proof fn law_texels_have_four_bytes(picture: TextureValue, x: int, y: int)
    ensures
        picture.texel(x, y).r == picture.data[4 * (y * picture.w + x)],
        picture.texel(x, y).g == picture.data[4 * (y * picture.w + x) + 1],
        picture.texel(x, y).b == picture.data[4 * (y * picture.w + x) + 2],
        picture.texel(x, y).a == picture.data[4 * (y * picture.w + x) + 3],
{
    assert((y * picture.w + x) * 4 == 4 * (y * picture.w + x)) by (nonlinear_arith);
}

/// A point on the picture has four pixels around it: the one at its coordinates rounded
/// down, the ones to the right and below at those rounded up, or at the edge where that is
/// beyond, and the one at both. A point that is not on the picture has none.
pub proof fn law_points_lie_between_pixels(
    picture: TextureValue,
    floor_x: int,
    floor_y: int,
    ceil_x: int,
    ceil_y: int,
)
    requires
        picture.wf(),
    ensures
        ({
            let on = 0 <= floor_x < picture.w && 0 <= floor_y < picture.h;
            let right = if ceil_x < 0 {
                0
            } else if ceil_x > picture.w - 1 {
                picture.w - 1
            } else {
                ceil_x
            };
            let below = if ceil_y < 0 {
                0
            } else if ceil_y > picture.h - 1 {
                picture.h - 1
            } else {
                ceil_y
            };
            let around = picture.around(floor_x, floor_y, ceil_x, ceil_y);
            &&& around is Some <==> on
            &&& around matches Some(n) ==> n.top_left == picture.texel(floor_x, floor_y)
                && n.top_right == picture.texel(right, floor_y) && n.bottom_left == picture.texel(
                floor_x,
                below,
            ) && n.bottom_right == picture.texel(right, below) && (picture.w <= usize::MAX
                && picture.h <= usize::MAX ==> n.x0 == floor_x && n.y0 == floor_y)
            &&& into_range(ceil_x, picture.w as int) == right
            &&& into_range(ceil_y, picture.h as int) == below
        }),
{
}

/// What is known of a picture, a decoded image and a buffer is what they hold.
pub proof fn law_pictures_are_what_they_hold(
    picture: Texture,
    frame: PngFrame,
    canvas: Compositor,
)
    ensures
        picture@.w == picture.w && picture@.h == picture.h && picture@.data == picture.data@,
        frame@.width == frame.width && frame@.height == frame.height && frame@.color == frame.color
            && frame@.pixels == frame.pixels@,
        canvas@.w == canvas.w && canvas@.h == canvas.h && canvas@.buffer == canvas.buffer@,
        picture@.wf() <==> picture.w > 0 && picture.h > 0 && picture.data@.len() == picture.w
            * picture.h * 4,
        frame@.wf() <==> frame.width > 0 && frame.height > 0 && (frame.color == PngColor::Rgba
            ==> frame.pixels@.len() >= frame.width * frame.height * 4),
        canvas@.wf() <==> canvas.w * canvas.h <= u32::MAX && canvas.buffer@.len() == canvas.w
            * canvas.h,
{
}

/// A number in a picture file has its high byte first, a chunk is followed by another one
/// twelve bytes after its contents, and a file holds a chunk if the next one starts no
/// later than the file ends.
pub proof fn law_chunks_of_a_picture(data: Seq<u8>, at: int)
    ensures
        be32(data, at) / 0x100_0000 == data[at],
        be32(data, at) / 0x1_0000 % 0x100 == data[at + 1],
        be32(data, at) / 0x100 % 0x100 == data[at + 2],
        be32(data, at) % 0x100 == data[at + 3],
        next_chunk(data, at) - at == 12 + be32(data, at),
        0 <= at ==> (holds_chunk(data, at) <==> next_chunk(data, at) <= data.len() && at + 12
            <= data.len()),
        at < 0 ==> !holds_chunk(data, at),
{
    lemma_weights(data[at], data[at + 1], data[at + 2], data[at + 3]);
}

proof fn lemma_weights(a: u8, b: u8, c: u8, d: u8)
    ensures
        (16777216 * a + 65536 * b + 256 * c + d) / 0x100_0000 == a,
        (16777216 * a + 65536 * b + 256 * c + d) / 0x1_0000 % 0x100 == b,
        (16777216 * a + 65536 * b + 256 * c + d) / 0x100 % 0x100 == c,
        (16777216 * a + 65536 * b + 256 * c + d) % 0x100 == d,
{
    let n = 16777216 * a + 65536 * b + 256 * c + d;
    let high = 256 * a + b;
    let upper = 256 * high + c;
    vstd::arithmetic::div_mod::lemma_fundamental_div_mod_converse(n, 0x100, upper, d as int);
    vstd::arithmetic::div_mod::lemma_fundamental_div_mod_converse(
        n,
        0x1_0000,
        high,
        256 * c + d,
    );
    vstd::arithmetic::div_mod::lemma_fundamental_div_mod_converse(
        n,
        0x100_0000,
        a as int,
        65536 * b + 256 * c + d,
    );
    vstd::arithmetic::div_mod::lemma_fundamental_div_mod_converse(upper, 0x100, high, c as int);
    vstd::arithmetic::div_mod::lemma_fundamental_div_mod_converse(
        high,
        0x100,
        a as int,
        b as int,
    );
}

/// The names in a picture file: the eight bytes at its start, and the kinds of its chunks.
pub proof fn law_names_in_a_picture(data: Seq<u8>, at: int)
    requires
        0 <= at,
        at + 8 <= data.len(),
    ensures
        ({
            let kind = |a: u8, b: u8, c: u8, d: u8|
                data[at + 4] == a && data[at + 5] == b && data[at + 6] == c && data[at + 7] == d;
            &&& has_signature(data) <==> data.len() >= 8 && data[0] == 137 && data[1] == 'P' as u8
                && data[2] == 'N' as u8 && data[3] == 'G' as u8 && data[4] == 13 && data[5] == 10
                && data[6] == 26 && data[7] == 10
            &&& bytes::has_tag(data, at + 4, header_tag()) <==> kind(
                'I' as u8,
                'H' as u8,
                'D' as u8,
                'R' as u8,
            )
            &&& bytes::has_tag(data, at + 4, palette_tag()) <==> kind(
                'P' as u8,
                'L' as u8,
                'T' as u8,
                'E' as u8,
            )
            &&& bytes::has_tag(data, at + 4, animation_tag()) <==> kind(
                'a' as u8,
                'c' as u8,
                'T' as u8,
                'L' as u8,
            )
            &&& ends_the_preamble(data, at) <==> {
                ||| kind('I' as u8, 'D' as u8, 'A' as u8, 'T' as u8)
                ||| kind('f' as u8, 'd' as u8, 'A' as u8, 'T' as u8)
                ||| kind('I' as u8, 'E' as u8, 'N' as u8, 'D' as u8)
            }
        }),
{
    bytes::law_tag_is_four_bytes(data, 0, seq![137u8, 80u8, 78u8, 71u8]);
    bytes::law_tag_is_four_bytes(data, 4, seq![13u8, 10u8, 26u8, 10u8]);
    bytes::law_tag_is_four_bytes(data, at + 4, header_tag());
    bytes::law_tag_is_four_bytes(data, at + 4, palette_tag());
    bytes::law_tag_is_four_bytes(data, at + 4, animation_tag());
    bytes::law_tag_is_four_bytes(data, at + 4, seq![73u8, 68u8, 65u8, 84u8]);
    bytes::law_tag_is_four_bytes(data, at + 4, seq![102u8, 100u8, 65u8, 84u8]);
    bytes::law_tag_is_four_bytes(data, at + 4, seq![73u8, 69u8, 78u8, 68u8]);
}

/// Where the header of a picture is looked for: at the first chunk, if that is a header of
/// at least thirteen bytes; behind it, if it is an empty one; otherwise there is none.
pub proof fn law_header_comes_first(data: Seq<u8>, at: int)
    ensures
        ({
            let is_header = holds_chunk(data, at) && bytes::has_tag(data, at + 4, header_tag());
            &&& is_header && be32(data, at) >= 13 ==> header_place(data, at) == Some(at)
            &&& is_header && be32(data, at) == 0 ==> header_place(data, at) == header_place(
                data,
                at + 12,
            )
            &&& !is_header || 0 < be32(data, at) < 13 ==> header_place(data, at) is None
        }),
{
}

/// Which palette counts: the first one with contents before the image data. It fits if it
/// is made of whole colours, of three bytes each, and has at most 256 of them.
pub proof fn law_first_palette_counts(data: Seq<u8>, at: int)
    ensures
        ({
            let reached = holds_chunk(data, at) && !ends_the_preamble(data, at);
            let is_palette = bytes::has_tag(data, at + 4, palette_tag()) && be32(data, at) > 0;
            &&& !reached ==> palette_fits(data, at)
            &&& reached && is_palette ==> (palette_fits(data, at) <==> exists|colours: int|
                1 <= colours <= 256 && #[trigger] (3 * colours) == be32(data, at))
            &&& reached && !is_palette ==> palette_fits(data, at) == palette_fits(
                data,
                next_chunk(data, at),
            )
        }),
{
    let size = be32(data, at);
    if holds_chunk(data, at) && !ends_the_preamble(data, at) && bytes::has_tag(
        data,
        at + 4,
        palette_tag(),
    ) && size > 0 && palette_fits(data, at) {
        assert(3 * (size / 3) == size);
    }
}

/// Which numbers of frames fit: any that can be counted together with one more image, in
/// every announcement before the image data.
pub proof fn law_every_announcement_counts(data: Seq<u8>, at: int)
    ensures
        ({
            let reached = holds_chunk(data, at) && !ends_the_preamble(data, at);
            let announces = bytes::has_tag(data, at + 4, animation_tag()) && be32(data, at) >= 8;
            &&& !reached ==> frames_fit(data, at)
            &&& reached && announces && be32(data, at + 8) + 1 > usize::MAX ==> !frames_fit(
                data,
                at,
            )
            &&& reached && !(announces && be32(data, at + 8) + 1 > usize::MAX) ==> frames_fit(
                data,
                at,
            ) == frames_fit(data, next_chunk(data, at))
        }),
{
}

/// Which sizes can be held, by the kind of colour: a grey pixel takes one byte or, with
/// transparency, two, one of colours three or four. An image fits if the larger number of
/// bytes does, and if the bits of an interlaced one can be counted; where even the smaller
/// number cannot be counted, or the header is not valid, it is refused without being held.
pub proof fn law_sizes_that_can_be_held(pixels: int, color: u8, interlace: u8)
    requires
        0 <= pixels,
    ensures
        color != 0 && color != 2 && color != 3 && color != 4 && color != 6 ==> size_fits(
            pixels,
            color,
            interlace,
        ),
        interlace != 0 && interlace != 1 ==> size_fits(pixels, color, interlace),
        interlace <= 1 && (color == 0 || color == 2 || color == 3 || color == 4 || color == 6) ==> {
            let (least, most) = if color == 0 {
                (1int, 2int)
            } else if color == 4 {
                (2int, 2int)
            } else if color == 6 {
                (4int, 4int)
            } else {
                (3int, 4int)
            };
            size_fits(pixels, color, interlace) <==> pixels * least > usize::MAX || (pixels * most
                <= isize::MAX && (interlace == 1 ==> pixels * most * 8 <= usize::MAX))
        },
{
}

/// What is decoded at all: anything that is no picture file or has no header, which is
/// refused, and a picture whose size fits, whose palette fits where it needs one, and whose
/// frames and chunks can be counted.
pub proof fn law_pictures_that_can_be_decoded(data: Seq<u8>)
    ensures
        !has_signature(data) ==> image_fits(data),
        header_place(data, 8) is None ==> image_fits(data),
        has_signature(data) && header_place(data, 8) is Some ==> {
            let at = header_place(data, 8)->0;
            let width = be32(data, at + 8);
            let height = be32(data, at + 12);
            let color = data[at + 17];
            let next = at + 12 + be32(data, at);
            image_fits(data) <==> {
                &&& size_fits(width * height, color, data[at + 20])
                &&& color == 3 ==> palette_fits(data, next)
                &&& frames_fit(data, next)
                &&& data.len() <= 0x10_0000_0000
            }
        },
{
}

} // verus!
