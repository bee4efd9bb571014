//! The canvas on which the rate texts are drawn beside the tray icon.
//!
//! The overlay keeps the icon as it is and adds room to its right: the canvas
//! is four times as wide as the icon and as high, the icon sits unscaled at
//! its left edge, and the rest is transparent until the texts are drawn. The
//! `image` crate decodes the icon, copies it onto the canvas and encodes the
//! finished canvas as PNG; between these steps the canvas is a [`Bitmap`],
//! plain bytes that any renderer can draw the texts on.

use vstd::prelude::*;

verus! {

/// A decoded image of any pixel format, as the `image` crate holds it.
#[verifier::external_type_specification]
#[verifier::external_body]
pub struct ExDynamicImage(image::DynamicImage);

/// The error of the `image` crate's decoders and encoders.
#[verifier::external_type_specification]
#[verifier::external_body]
pub struct ExImageError(image::ImageError);

/// An `image::RgbaImage` as `ImageBuffer::new` makes it, with a buffer of
/// exactly four bytes for each pixel: the image that the icon is copied onto.
#[verifier::external_body]
pub struct Canvas {
    image: image::RgbaImage,
}

/// A colour with 8 bits each of red, green, blue and alpha.
#[derive(Clone, Copy, Debug, PartialEq, Eq, Structural)]
pub struct Color {
    pub r: u8,
    pub g: u8,
    pub b: u8,
    pub a: u8,
}

/// What an image holds: its size and the colour of each of its pixels, by
/// column and row.
pub struct Raster {
    pub width: u32,
    pub height: u32,
    pub pixels: Map<(int, int), Color>,
}

impl Raster {
    /// Whether column `x`, row `y` lies inside the image.
    pub open spec fn contains(self, x: int, y: int) -> bool {
        0 <= x < self.width && 0 <= y < self.height
    }

    /// The colour at column `x`, row `y`.
    pub open spec fn pixel(self, x: int, y: int) -> Color
        recommends
            self.contains(x, y),
    {
        self.pixels[(x, y)]
    }
}

/// The colour of a pixel that nothing was drawn on: all four channels zero.
pub open spec fn transparent() -> Color {
    Color { r: 0, g: 0, b: 0, a: 0 }
}

/// The number of bytes that hold an image of 8-bit RGBA pixels.
pub open spec fn byte_len(width: u32, height: u32) -> int {
    4 * width * height
}

/// The colour at column `x`, row `y` in the bytes of an image that is `width`
/// pixels wide: rows follow one another from the top, and each pixel is four
/// bytes, red, green, blue and alpha.
pub open spec fn color_in(data: Seq<u8>, width: u32, x: int, y: int) -> Color {
    let at = 4 * (y * width + x);
    Color { r: data[at], g: data[at + 1], b: data[at + 2], a: data[at + 3] }
}

/// What the bytes of an image hold.
pub open spec fn raster_of(width: u32, height: u32, data: Seq<u8>) -> Raster {
    Raster {
        width,
        height,
        pixels: Map::new(
            |at: (int, int)| 0 <= at.0 < width && 0 <= at.1 < height,
            |at: (int, int)| color_in(data, width, at.0, at.1),
        ),
    }
}

/// What a decoded icon holds. The colour of a pixel is the one that
/// `get_pixel` gives for it, as 8-bit RGBA.
pub uninterp spec fn icon_raster(icon: image::DynamicImage) -> Raster;

/// What a canvas holds.
pub uninterp spec fn canvas_raster(canvas: Canvas) -> Raster;

/// What `image::load_from_memory` makes of the bytes of an image file: what
/// the decoded image holds, or `None` where it reports an error.
pub uninterp spec fn decoded_icon(bytes: Seq<u8>) -> Option<Raster>;

/// What the PNG encoder makes of the bytes of an image of 8-bit RGBA pixels:
/// the bytes of the file, or `None` where it reports an error.
pub uninterp spec fn encoded_png(width: u32, height: u32, data: Seq<u8>) -> Option<Seq<u8>>;

/// Calls `image::load_from_memory`, which guesses the format of the file
/// from its first bytes and decodes it.
///
/// Not proved: that the outcome is the one that [`decoded_icon`] names for
/// these bytes. The call reads nothing but the bytes, so one file always has
/// one outcome.
#[verifier::external_body]
fn decode_icon(bytes: &[u8]) -> (decoded: Result<image::DynamicImage, image::ImageError>)
    ensures
        match decoded {
            Ok(icon) => decoded_icon(bytes@) == Some(icon_raster(icon)),
            Err(_) => decoded_icon(bytes@) is None,
        },
{
    image::load_from_memory(bytes)
}

/// Calls `DynamicImage::width`. Not proved: that it is the width of
/// [`icon_raster`].
#[verifier::external_body]
fn icon_width(icon: &image::DynamicImage) -> (width: u32)
    ensures
        width == icon_raster(*icon).width,
{
    icon.width()
}

/// Calls `DynamicImage::height`. Not proved: that it is the height of
/// [`icon_raster`].
#[verifier::external_body]
fn icon_height(icon: &image::DynamicImage) -> (height: u32)
    ensures
        height == icon_raster(*icon).height,
{
    icon.height()
}

/// Calls `ImageBuffer::new`, which allocates a buffer of four bytes for each
/// pixel, all zero, and panics where that many bytes are more than a vector
/// can hold.
///
/// Not proved: that the canvas has the size asked for and that all its
/// pixels are transparent.
#[verifier::external_body]
fn blank_canvas(width: u32, height: u32) -> (canvas: Canvas)
    requires
        byte_len(width, height) <= isize::MAX,
    ensures
        canvas_raster(canvas).width == width,
        canvas_raster(canvas).height == height,
        forall|x: int, y: int|
            canvas_raster(canvas).contains(x, y) ==> #[trigger] canvas_raster(canvas).pixel(x, y)
                == transparent(),
{
    Canvas { image: image::ImageBuffer::new(width, height) }
}

/// Calls `image::imageops::replace`, which copies the icon onto the canvas
/// with the icon's top left corner at column `x`, row `y`, pixel for pixel,
/// and leaves out what falls outside the canvas.
///
/// Not proved: that the canvas keeps its size, that each of its pixels that
/// the icon covers takes the icon's colour there, and that the others stay.
#[verifier::external_body]
fn paste_icon(canvas: &mut Canvas, icon: &image::DynamicImage, x: i64, y: i64)
    requires
        0 <= x,
        0 <= y,
    ensures
        canvas_raster(*final(canvas)).width == canvas_raster(*old(canvas)).width,
        canvas_raster(*final(canvas)).height == canvas_raster(*old(canvas)).height,
        forall|i: int, j: int|
            canvas_raster(*old(canvas)).contains(i, j) ==> #[trigger] canvas_raster(
                *final(canvas),
            ).pixel(i, j) == if icon_raster(*icon).contains(i - x, j - y) {
                icon_raster(*icon).pixel(i - x, j - y)
            } else {
                canvas_raster(*old(canvas)).pixel(i, j)
            },
{
    image::imageops::replace(&mut canvas.image, icon, x, y)
}

/// Calls `ImageBuffer::into_raw`, which hands out the buffer of the canvas.
///
/// Not proved: that the buffer holds four bytes for each pixel and nothing
/// else, and each pixel of the canvas at the place that [`color_in`] reads.
#[verifier::external_body]
fn canvas_into_raw(canvas: Canvas) -> (data: Vec<u8>)
    ensures
        data@.len() == byte_len(canvas_raster(canvas).width, canvas_raster(canvas).height),
        forall|x: int, y: int|
            canvas_raster(canvas).contains(x, y) ==> #[trigger] color_in(
                data@,
                canvas_raster(canvas).width,
                x,
                y,
            ) == canvas_raster(canvas).pixel(x, y),
{
    canvas.image.into_raw()
}

/// Calls `image::write_buffer_with_format` with the PNG format, for 8-bit
/// RGBA pixels and on a buffer in memory. The encoder panics where the bytes
/// are not four for each pixel.
///
/// Not proved: that the outcome is the one that [`encoded_png`] names for
/// this image. The encoder reads nothing but the image, so one image always
/// has one outcome.
#[verifier::external_body]
fn encode_png(width: u32, height: u32, data: &[u8]) -> (encoded: Result<Vec<u8>, image::ImageError>)
    requires
        data@.len() == byte_len(width, height),
    ensures
        match encoded {
            Ok(bytes) => encoded_png(width, height, data@) == Some(bytes@),
            Err(_) => encoded_png(width, height, data@) is None,
        },
{
    let mut bytes: Vec<u8> = Vec::new();
    let written = image::write_buffer_with_format(
        &mut std::io::Cursor::new(&mut bytes),
        data,
        width,
        height,
        image::ColorType::Rgba8,
        image::ImageFormat::Png,
    );
    written.map(|_| bytes)
}

/// How many times as wide as the icon the canvas is.
pub const WIDTH_FACTOR: u32 = 4;

/// The pixels left free between the end of a text and the right edge.
pub const RIGHT_MARGIN: u32 = 8;

/// The row at which the upload text starts.
pub const UP_TEXT_TOP: i32 = 1;

/// The colour of both texts: a light grey, slightly transparent.
pub fn text_color() -> (color: Color)
    ensures
        color == (Color { r: 220, g: 220, b: 220, a: 230 }),
{
    Color { r: 220, g: 220, b: 220, a: 230 }
}

/// Why no overlay could be made.
#[derive(Debug)]
pub enum IconError {
    /// The icon is no image file that the decoder reads.
    Decode(image::ImageError),
    /// The icon is so large that its canvas cannot be held in memory.
    Oversized,
    /// The encoder failed on the canvas.
    Encode(image::ImageError),
}

/// The number of pixels of an image of the given size.
fn pixel_count(width: u32, height: u32) -> (pixels: u64)
    ensures
        pixels == width * height,
        4 * pixels == byte_len(width, height),
{
    assert(0 <= width * height <= 0xffff_ffff * 0xffff_ffff) by (nonlinear_arith)
        requires
            0 <= width <= 0xffff_ffff,
            0 <= height <= 0xffff_ffff,
    ;
    assert(4 * (width * height) == 4 * width * height) by (nonlinear_arith);
    width as u64 * height as u64
}

/// An image of 8-bit RGBA pixels as plain bytes, row after row from the top.
/// It always holds exactly four bytes for each of its pixels.
#[derive(Debug)]
pub struct Bitmap {
    width: u32,
    height: u32,
    data: Vec<u8>,
}

impl View for Bitmap {
    type V = Raster;

    closed spec fn view(&self) -> Raster {
        raster_of(self.width, self.height, self.data@)
    }
}

impl Bitmap {
    #[verifier::type_invariant]
    spec fn well_formed(self) -> bool {
        self.data@.len() == byte_len(self.width, self.height)
    }

    /// The bytes of the image.
    pub closed spec fn bytes(self) -> Seq<u8> {
        self.data@
    }

    /// An image is what its bytes hold.
    pub proof fn lemma_raster_of_bytes(self)
        ensures
            self@ == raster_of(self@.width, self@.height, self.bytes()),
    {
    }

    /// Makes an image of the given size from its bytes. It is `None` unless
    /// there are exactly four bytes for each pixel.
    pub fn from_raw(width: u32, height: u32, data: Vec<u8>) -> (bitmap: Option<Bitmap>)
        ensures
            bitmap is Some <==> data@.len() == byte_len(width, height),
            bitmap matches Some(bitmap) ==> bitmap@ == raster_of(width, height, data@)
                && bitmap.bytes() == data@,
    {
        let pixels = pixel_count(width, height);
        if data.len() as u128 == 4 * pixels as u128 {
            Some(Bitmap { width, height, data })
        } else {
            None
        }
    }

    /// The width of the image in pixels.
    pub fn width(&self) -> (width: u32)
        ensures
            width == self@.width,
    {
        self.width
    }

    /// The height of the image in pixels.
    pub fn height(&self) -> (height: u32)
        ensures
            height == self@.height,
    {
        self.height
    }

    /// The colour at column `x`, row `y`, or `None` outside the image.
    pub fn pixel(&self, x: u32, y: u32) -> (color: Option<Color>)
        ensures
            color is Some <==> self@.contains(x as int, y as int),
            color matches Some(color) ==> color == self@.pixel(x as int, y as int),
    {
        proof {
            use_type_invariant(self);
        }
        if x >= self.width || y >= self.height {
            return None;
        }
        let len = self.data.len();
        assert(4 * (y * self.width + x) + 3 < len && 0 <= y * self.width <= y * self.width + x)
            by (nonlinear_arith)
            requires
                0 <= x < self.width,
                0 <= y < self.height,
                len == 4 * self.width * self.height,
        ;
        let at: usize = 4 * (y as usize * self.width as usize + x as usize);
        Some(
            Color {
                r: self.data[at],
                g: self.data[at + 1],
                b: self.data[at + 2],
                a: self.data[at + 3],
            },
        )
    }

    /// Hands out the bytes of the image.
    pub fn into_raw(self) -> (data: Vec<u8>)
        ensures
            data@ == self.bytes(),
            data@.len() == byte_len(self@.width, self@.height),
    {
        proof {
            use_type_invariant(&self);
        }
        self.data
    }
}

/// Whether the canvas of an icon of this size can be made: its width must be
/// a `u32` and its bytes must not be more than a vector can hold.
pub open spec fn canvas_fits(width: u32, height: u32) -> bool {
    WIDTH_FACTOR * width <= u32::MAX && 4 * (WIDTH_FACTOR * width) * height <= isize::MAX
}

/// Whether `canvas` is the blank overlay canvas of the icon `base`: four
/// times as wide and as high, with the icon's pixels unchanged in its
/// leftmost columns and every other pixel transparent.
pub open spec fn is_overlay_canvas(canvas: Raster, base: Raster) -> bool {
    &&& canvas.width == WIDTH_FACTOR * base.width
    &&& canvas.height == base.height
    &&& forall|x: int, y: int|
        base.contains(x, y) ==> #[trigger] canvas.pixel(x, y) == base.pixel(x, y)
    &&& forall|x: int, y: int|
        canvas.contains(x, y) && !base.contains(x, y) ==> #[trigger] canvas.pixel(x, y)
            == transparent()
}

/// Whether the canvas of an icon of this size can be made.
fn fits(width: u32, height: u32) -> (fits: bool)
    ensures
        fits == canvas_fits(width, height),
{
    if width > u32::MAX / WIDTH_FACTOR {
        return false;
    }
    let pixels = pixel_count(WIDTH_FACTOR * width, height);
    4 * (pixels as u128) <= isize::MAX as u128
}

/// Decodes the icon and makes the canvas for its overlay: four times as wide
/// as the icon and as high, the icon copied unscaled to its left edge, the
/// rest transparent.
///
/// Fails with `Decode` if and only if the bytes are no image that the decoder
/// reads, and with `Oversized` if and only if the decoded icon is too large
/// for a canvas to be made.
pub fn overlay_canvas(icon: &[u8]) -> (made: Result<Bitmap, IconError>)
    ensures
        match made {
            Ok(canvas) => {
                &&& decoded_icon(icon@) matches Some(base)
                &&& canvas_fits(base.width, base.height)
                &&& is_overlay_canvas(canvas@, base)
            },
            Err(IconError::Decode(_)) => decoded_icon(icon@) is None,
            Err(IconError::Oversized) => {
                &&& decoded_icon(icon@) matches Some(base)
                &&& !canvas_fits(base.width, base.height)
            },
            Err(IconError::Encode(_)) => false,
        },
{
    let base = match decode_icon(icon) {
        Ok(base) => base,
        Err(error) => {
            return Err(IconError::Decode(error));
        },
    };
    let width = icon_width(&base);
    let height = icon_height(&base);
    if !fits(width, height) {
        return Err(IconError::Oversized);
    }
    let mut canvas = blank_canvas(WIDTH_FACTOR * width, height);
    paste_icon(&mut canvas, &base, 0, 0);
    let ghost pasted = canvas_raster(canvas);
    let data = canvas_into_raw(canvas);
    let bitmap = Bitmap { width: WIDTH_FACTOR * width, height, data };
    proof {
        let made = bitmap@;
        let source = icon_raster(base);
        assert forall|x: int, y: int| made.contains(x, y) implies #[trigger] made.pixel(x, y)
            == pasted.pixel(x, y) by {
            assert(pasted.contains(x, y));
        }
        assert forall|x: int, y: int| source.contains(x, y) implies #[trigger] made.pixel(x, y)
            == source.pixel(x, y) by {
            assert(made.contains(x, y));
        }
    }
    Ok(bitmap)
}

/// Encodes a canvas as a PNG file.
///
/// Fails with `Encode` if and only if the encoder reports an error.
pub fn encode_canvas(canvas: &Bitmap) -> (encoded: Result<Vec<u8>, IconError>)
    ensures
        match encoded {
            Ok(bytes) => encoded_png(canvas@.width, canvas@.height, canvas.bytes()) == Some(bytes@),
            Err(IconError::Encode(_)) => encoded_png(canvas@.width, canvas@.height, canvas.bytes())
                is None,
            Err(_) => false,
        },
{
    proof {
        use_type_invariant(canvas);
    }
    match encode_png(canvas.width, canvas.height, canvas.data.as_slice()) {
        Ok(bytes) => Ok(bytes),
        Err(error) => Err(IconError::Encode(error)),
    }
}

/// Where the two texts go on a canvas.
#[derive(Clone, Copy, Debug, PartialEq, Eq, Structural)]
pub struct TextLayout {
    /// The width of the canvas.
    pub canvas_width: u32,
    /// Twice the font size in pixels: the font is half as high as the canvas.
    pub font_size_doubled: u32,
    /// The row at which the upload text starts, near the top.
    pub up_top: i32,
    /// The row at which the download text starts, near the bottom.
    pub down_top: i32,
}

/// The layout for a canvas of the given size.
pub open spec fn layout_of(canvas_width: u32, canvas_height: u32) -> TextLayout {
    TextLayout {
        canvas_width,
        font_size_doubled: canvas_height,
        up_top: UP_TEXT_TOP,
        down_top: (canvas_height - canvas_height / 2 - 1) as i32,
    }
}

/// The column at which a text of the given width starts so that it ends
/// [`RIGHT_MARGIN`] pixels before the right edge of the canvas. A column
/// outside the range of `i32` is replaced by the nearest one inside.
pub open spec fn text_left_of(canvas_width: u32, text_width: u32) -> int {
    let left = canvas_width - RIGHT_MARGIN - text_width;
    if left < i32::MIN {
        i32::MIN as int
    } else if left > i32::MAX {
        i32::MAX as int
    } else {
        left
    }
}

impl TextLayout {
    /// The layout of the texts for a canvas of the given size.
    pub fn for_canvas(canvas_width: u32, canvas_height: u32) -> (layout: TextLayout)
        ensures
            layout == layout_of(canvas_width, canvas_height),
    {
        let down_top: i64 = canvas_height as i64 - (canvas_height / 2) as i64 - 1;
        TextLayout {
            canvas_width,
            font_size_doubled: canvas_height,
            up_top: UP_TEXT_TOP,
            down_top: down_top as i32,
        }
    }

    /// The column at which a text that is `text_width` pixels wide starts,
    /// so that it is aligned to the right.
    pub fn text_left(&self, text_width: u32) -> (left: i32)
        ensures
            left == text_left_of(self.canvas_width, text_width),
    {
        let left: i64 = self.canvas_width as i64 - RIGHT_MARGIN as i64 - text_width as i64;
        if left < i32::MIN as i64 {
            i32::MIN
        } else if left > i32::MAX as i64 {
            i32::MAX
        } else {
            left as i32
        }
    }
}

} // verus!
