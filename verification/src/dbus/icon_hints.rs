//! Icon selection for `org.freedesktop.Notifications`.
//!
//! An application can send an icon in three ways, in falling priority:
//!
//! 1. the `image-data` hint, a raw pixel buffer
//!    `(width, height, rowstride, has_alpha, bits_per_sample, channels, data)`;
//! 2. the `image-path` hint, the path of an image file;
//! 3. the positional `app_icon` argument, an icon name.
//!
//! The underscore names `image_data` and `image_path` of older applications
//! stand in where the hyphenated hint is absent. The result is one string: a
//! `data:image/png;base64,…` URI, a path, or an icon name.

use crate::dbus::hints::{
    as_bool, as_byte_array, as_i32, extract_string, hint_bytes, hint_text, HintValue,
};
use crate::names::NameMap;
use crate::text::{join, optional_text};
use base64::Engine;
use vstd::arithmetic::div_mod::lemma_fundamental_div_mod_converse;
use vstd::prelude::*;

verus! {

/// The largest accepted edge of an `image-data` picture, in pixels.
pub const MAX_IMAGE_DIMENSION: i32 = 512;

/// The fields of an `image-data` structure.
#[derive(Debug)]
pub struct ImageData {
    /// Pixels per row.
    pub width: i32,
    /// Number of rows.
    pub height: i32,
    /// Bytes from the start of one row to the start of the next.
    pub rowstride: i32,
    /// Whether pixels carry an alpha value.
    pub has_alpha: bool,
    /// Bits per colour value.
    pub bits_per_sample: i32,
    /// Colour values per pixel.
    pub channels: i32,
    /// The pixels, row by row.
    pub data: Vec<u8>,
}

/// The content of an `image-data` structure.
pub struct Picture {
    pub width: int,
    pub height: int,
    pub rowstride: int,
    pub has_alpha: bool,
    pub bits_per_sample: int,
    pub channels: int,
    pub data: Seq<u8>,
}

impl View for ImageData {
    type V = Picture;

    open spec fn view(&self) -> Picture {
        Picture {
            width: self.width as int,
            height: self.height as int,
            rowstride: self.rowstride as int,
            has_alpha: self.has_alpha,
            bits_per_sample: self.bits_per_sample as int,
            channels: self.channels as int,
            data: self.data@,
        }
    }
}

/// The seven fields of an `image-data` value, if it is a structure that has
/// them, each of its type.
pub open spec fn picture_of(value: HintValue) -> Option<Picture> {
    match value {
        HintValue::Structure(fields) => if fields@.len() >= 7 && fields@[0] is I32
            && fields@[1] is I32 && fields@[2] is I32 && fields@[3] is Bool
            && fields@[4] is I32 && fields@[5] is I32
            && hint_bytes(fields@[6]) is Some {
            Some(
                Picture {
                    width: fields@[0]->I32_0 as int,
                    height: fields@[1]->I32_0 as int,
                    rowstride: fields@[2]->I32_0 as int,
                    has_alpha: fields@[3]->Bool_0,
                    bits_per_sample: fields@[4]->I32_0 as int,
                    channels: fields@[5]->I32_0 as int,
                    data: hint_bytes(fields@[6])->0,
                },
            )
        } else {
            None
        },
        _ => None,
    }
}

impl Picture {
    /// Whether the picture can be shown: a sane size, eight bits per colour,
    /// RGB without alpha or RGBA with it, and enough bytes for every row. The
    /// padding after the last row may be missing.
    pub open spec fn valid(self) -> bool {
        &&& 0 < self.width <= MAX_IMAGE_DIMENSION
        &&& 0 < self.height <= MAX_IMAGE_DIMENSION
        &&& self.bits_per_sample == 8
        &&& self.channels == 3 || self.channels == 4
        &&& (self.channels == 4) == self.has_alpha
        &&& self.rowstride >= self.width * self.channels
        &&& self.data.len() >= self.rowstride * (self.height - 1) + self.width * self.channels
    }

    /// Byte `k` (red, green, blue, alpha) of the pixel in row `row`, column
    /// `col`. A picture without alpha is opaque.
    pub open spec fn pixel_byte(self, row: int, col: int, k: int) -> u8 {
        if k < 3 || self.has_alpha {
            self.data[row * self.rowstride + col * self.channels + k]
        } else {
            255
        }
    }

    /// The picture as dense RGBA: four bytes per pixel, rows without padding.
    pub open spec fn rgba(self) -> Seq<u8> {
        Seq::new(
            (self.width * self.height * 4) as nat,
            |i: int| self.pixel_byte((i / 4) / self.width, (i / 4) % self.width, i % 4),
        )
    }

    /// Where the four bytes of a pixel stand in the packed picture.
    proof fn lemma_rgba_pixel(self, row: int, col: int)
        requires
            self.valid(),
            0 <= row < self.height,
            0 <= col < self.width,
        ensures
            0 <= (row * self.width + col) * 4,
            (row * self.width + col) * 4 + 4 <= self.rgba().len(),
            forall|k: int| 0 <= k < 4 ==> #[trigger] self.rgba()[(row * self.width + col) * 4 + k]
                == self.pixel_byte(row, col, k),
    {
        let w = self.width;
        let h = self.height;
        let p = row * w + col;
        assert(0 <= p && p + 1 <= w * h) by (nonlinear_arith)
            requires
                0 <= row < h,
                0 <= col < w,
                p == row * w + col,
        ;
        assert(w * h * 4 == self.rgba().len());
        assert forall|k: int| 0 <= k < 4 implies #[trigger] self.rgba()[p * 4 + k]
            == self.pixel_byte(row, col, k) by {
            lemma_fundamental_div_mod_converse(p * 4 + k, 4, p, k);
            lemma_fundamental_div_mod_converse(p, w, row, col);
        }
    }
}

/// Reads the seven fields of an `image-data` hint.
pub fn image_fields(value: &HintValue) -> (r: Option<ImageData>)
    ensures
        r is Some == picture_of(*value) is Some,
        r matches Some(image) ==> Some(image@) == picture_of(*value),
{
    let fields: &Vec<HintValue> = match value {
        HintValue::Structure(fields) => fields,
        _ => return None,
    };
    if fields.len() < 7 {
        return None;
    }
    let width: i32 = as_i32(&fields[0])?;
    let height: i32 = as_i32(&fields[1])?;
    let rowstride: i32 = as_i32(&fields[2])?;
    let has_alpha: bool = as_bool(&fields[3])?;
    let bits_per_sample: i32 = as_i32(&fields[4])?;
    let channels: i32 = as_i32(&fields[5])?;
    let data: Vec<u8> = as_byte_array(&fields[6])?;
    Some(ImageData { width, height, rowstride, has_alpha, bits_per_sample, channels, data })
}

impl ImageData {
    /// Whether the picture can be shown.
    pub fn is_valid(&self) -> (r: bool)
        ensures
            r == self@.valid(),
    {
        if self.width <= 0 || self.height <= 0 {
            return false;
        }
        if self.width > MAX_IMAGE_DIMENSION || self.height > MAX_IMAGE_DIMENSION {
            return false;
        }
        if self.bits_per_sample != 8 {
            return false;
        }
        if self.channels != 3 && self.channels != 4 {
            return false;
        }
        if (self.channels == 4) != self.has_alpha {
            return false;
        }
        assert(0 <= self.width * self.channels <= 512 * 4) by (nonlinear_arith)
            requires
                0 < self.width <= 512,
                3 <= self.channels <= 4,
        ;
        let row_bytes: i32 = self.width * self.channels;
        if self.rowstride < row_bytes {
            return false;
        }
        assert(0 <= self.rowstride * (self.height - 1) <= 0x7fff_ffff * 512) by (nonlinear_arith)
            requires
                0 <= self.rowstride <= 0x7fff_ffff,
                0 < self.height <= 512,
        ;
        let before_last_row: u64 = (self.rowstride as u64) * ((self.height - 1) as u64);
        let needed: u64 = before_last_row + (row_bytes as u64);
        self.data.len() as u64 >= needed
    }

    /// Packs the picture into dense RGBA.
    pub fn pack_rgba(&self) -> (r: Vec<u8>)
        requires
            self@.valid(),
        ensures
            r@ == self@.rgba(),
    {
        let w: usize = self.width as usize;
        let h: usize = self.height as usize;
        let stride: usize = self.rowstride as usize;
        let ch: usize = self.channels as usize;
        let len: usize = self.data.len();
        let mut out: Vec<u8> = Vec::new();
        let mut row: usize = 0;
        assert(self@.rgba().take(0) =~= out@);
        assert(0 * w * 4 == 0) by (nonlinear_arith);
        while row < h
            invariant
                self@.valid(),
                w == self.width,
                h == self.height,
                stride == self.rowstride,
                ch == self.channels,
                len == self.data@.len(),
                row <= h,
                out@ == self@.rgba().take(row * w * 4),
            decreases h - row,
        {
            let mut col: usize = 0;
            assert((row * w + 0) * 4 == row * w * 4);
            proof {
                // The last byte that the row needs lies within the data.
                assert(row * stride + w * ch <= self.data@.len()) by (nonlinear_arith)
                    requires
                        row <= h - 1,
                        stride >= 0,
                        self.data@.len() >= stride * (h - 1) + w * ch,
                ;
            }
            while col < w
                invariant
                    self@.valid(),
                    w == self.width,
                    h == self.height,
                    stride == self.rowstride,
                    ch == self.channels,
                    len == self.data@.len(),
                    row < h,
                    col <= w,
                    row * stride + w * ch <= self.data@.len(),
                    out@ == self@.rgba().take((row * w + col) * 4),
                decreases w - col,
            {
                assert(0 <= row * stride && row * stride + col * ch + ch <= self.data@.len())
                    by (nonlinear_arith)
                    requires
                        col + 1 <= w,
                        ch >= 0,
                        row >= 0,
                        stride >= 0,
                        row * stride + w * ch <= self.data@.len(),
                ;
                assert(0 <= col * ch) by (nonlinear_arith)
                    requires
                        col >= 0,
                        ch >= 0,
                ;
                let pixel_start: usize = row * stride + col * ch;
                let r: u8 = self.data[pixel_start];
                let g: u8 = self.data[pixel_start + 1];
                let b: u8 = self.data[pixel_start + 2];
                let a: u8 = if self.has_alpha {
                    self.data[pixel_start + 3]
                } else {
                    255
                };
                let ghost n = (row * w + col) * 4;
                let ghost before = out@;
                out.push(r);
                out.push(g);
                out.push(b);
                out.push(a);
                proof {
                    self@.lemma_rgba_pixel(row as int, col as int);
                    assert(self@.rgba()[n + 0] == r);
                    assert(self@.rgba()[n + 1] == g);
                    assert(self@.rgba()[n + 2] == b);
                    assert(self@.rgba()[n + 3] == a);
                    assert((row * w + (col + 1)) * 4 == n + 4);
                    assert(out@ =~= self@.rgba().take(n + 4)) by {
                        assert(out@.len() == n + 4);
                        assert forall|i: int| 0 <= i < n + 4 implies out@[i] == self@.rgba()[i] by {
                            if i < n {
                                assert(out@[i] == before[i]);
                                assert(before[i] == self@.rgba().take(n)[i]);
                            }
                        }
                    }
                }
                col += 1;
            }
            assert((row * w + w) * 4 == (row + 1) * w * 4) by (nonlinear_arith);
            row += 1;
        }
        assert(h * w * 4 == self.width * self.height * 4) by (nonlinear_arith)
            requires
                w == self.width,
                h == self.height,
        ;
        assert(self@.rgba().take(h * w * 4) =~= self@.rgba());
        out
    }
}

/// The PNG file that the `image` crate writes for a `width` by `height` RGBA
/// picture.
pub uninterp spec fn png_file(width: u32, height: u32, rgba: Seq<u8>) -> Seq<u8>;

/// Writes a PNG file with `image::ImageBuffer::from_raw` and
/// `image::ImageBuffer::write_to`. Claimed: it succeeds on a picture of
/// matching size, since the file is written to memory; the bytes depend on the
/// size and the pixels alone; and there are few enough of them to be encoded
/// as text, since pixels that do not compress are stored as they are.
#[verifier::external_body]
fn encode_png(width: u32, height: u32, rgba: Vec<u8>) -> (r: Option<Vec<u8>>)
    requires
        0 < width <= 512,
        0 < height <= 512,
        rgba@.len() == width * height * 4,
    ensures
        r is Some,
        r->0@ == png_file(width, height, rgba@),
        r->0@.len() <= usize::MAX / 4,
{
    let buffer: image::ImageBuffer<image::Rgba<u8>, Vec<u8>> =
        image::ImageBuffer::from_raw(width, height, rgba)?;
    let mut bytes: Vec<u8> = Vec::new();
    buffer.write_to(&mut std::io::Cursor::new(&mut bytes), image::ImageFormat::Png).ok()?;
    Some(bytes)
}

/// The character of a six-bit value in the standard base64 alphabet.
pub open spec fn base64_char(v: int) -> char {
    if v < 26 {
        ('A' as u32 + v) as char
    } else if v < 52 {
        ('a' as u32 + (v - 26)) as char
    } else if v < 62 {
        ('0' as u32 + (v - 52)) as char
    } else if v == 62 {
        '+'
    } else {
        '/'
    }
}

/// Base64 with the standard alphabet and padding (RFC 4648, section 4): each
/// group of three bytes is written as four six-bit values.
pub open spec fn base64_text(b: Seq<u8>) -> Seq<char>
    decreases b.len(),
{
    if b.len() == 0 {
        Seq::empty()
    } else if b.len() == 1 {
        seq![base64_char(b[0] as int / 4), base64_char(b[0] as int % 4 * 16), '=', '=']
    } else if b.len() == 2 {
        seq![
            base64_char(b[0] as int / 4),
            base64_char(b[0] as int % 4 * 16 + b[1] as int / 16),
            base64_char(b[1] as int % 16 * 4),
            '=',
        ]
    } else {
        seq![
            base64_char(b[0] as int / 4),
            base64_char(b[0] as int % 4 * 16 + b[1] as int / 16),
            base64_char(b[1] as int % 16 * 4 + b[2] as int / 64),
            base64_char(b[2] as int % 64),
        ] + base64_text(b.skip(3))
    }
}

/// Encodes bytes with `base64::engine::general_purpose::STANDARD.encode`.
/// Claimed: the result is standard base64 with padding. Input so long that the
/// encoded text could not be allocated is left out.
#[verifier::external_body]
fn encode_base64(bytes: &[u8]) -> (r: String)
    requires
        bytes@.len() <= usize::MAX / 4,
    ensures
        r@ == base64_text(bytes@),
{
    base64::engine::general_purpose::STANDARD.encode(bytes)
}

/// The URI that carries a PNG file.
pub open spec fn png_uri(png: Seq<u8>) -> Seq<char> {
    "data:image/png;base64,"@ + base64_text(png)
}

/// Wraps a PNG file in a `data:` URI.
pub fn png_data_uri(png: Option<Vec<u8>>) -> (r: Option<String>)
    ensures
        r is Some == (png is Some && png->0@.len() <= usize::MAX / 4),
        r matches Some(uri) ==> uri@ == png_uri(png->0@),
{
    match png {
        Some(bytes) => {
            if bytes.len() > usize::MAX / 4 {
                return None;
            }
            Some(join("data:image/png;base64,", encode_base64(bytes.as_slice()).as_str()))
        },
        None => None,
    }
}

/// The URI of an `image-data` hint; `None` where the hint is malformed.
pub open spec fn image_uri(value: HintValue) -> Option<Seq<char>> {
    match picture_of(value) {
        Some(picture) => if picture.valid() {
            Some(
                png_uri(png_file(picture.width as u32, picture.height as u32, picture.rgba())),
            )
        } else {
            None
        },
        None => None,
    }
}

/// Decodes an `image-data` hint into a `data:image/png;base64,…` URI. There is
/// one exactly if the hint is a valid picture.
pub fn try_decode_image_data(value: &HintValue) -> (r: Option<String>)
    ensures
        r is Some <==> (picture_of(*value) matches Some(picture) && picture.valid()),
        r matches Some(uri) ==> Some(uri@) == image_uri(*value),
{
    let image: ImageData = image_fields(value)?;
    if !image.is_valid() {
        return None;
    }
    let rgba: Vec<u8> = image.pack_rgba();
    png_data_uri(encode_png(image.width as u32, image.height as u32, rgba))
}

/// The value under `name`, or under `legacy` where `name` is absent.
pub open spec fn hint_or_legacy(
    hints: Map<Seq<char>, HintValue>,
    name: Seq<char>,
    legacy: Seq<char>,
) -> Option<HintValue> {
    if hints.contains_key(name) {
        Some(hints[name])
    } else if hints.contains_key(legacy) {
        Some(hints[legacy])
    } else {
        None
    }
}

/// The best of the three icon sources: a decoded picture, else a path that is
/// not empty, else the icon name.
pub open spec fn best_icon(
    picture: Option<Seq<char>>,
    path: Option<Seq<char>>,
    app_icon: Seq<char>,
) -> Seq<char> {
    match picture {
        Some(uri) => uri,
        None => match path {
            Some(p) => if p.len() > 0 {
                p
            } else {
                app_icon
            },
            None => app_icon,
        },
    }
}

/// Picks the best of the three icon sources.
pub fn choose_icon(picture: Option<String>, path: Option<String>, app_icon: &str) -> (r: String)
    ensures
        r@ == best_icon(optional_text(picture), optional_text(path), app_icon@),
{
    if let Some(uri) = picture {
        return uri;
    }
    if let Some(p) = path {
        if !p.as_str().is_empty() {
            return p;
        }
    }
    app_icon.to_string()
}

/// The icon that the hints and the `app_icon` argument select.
pub open spec fn resolved_icon(hints: Map<Seq<char>, HintValue>, app_icon: Seq<char>) -> Seq<char> {
    let picture = match hint_or_legacy(hints, "image-data"@, "image_data"@) {
        Some(value) => image_uri(value),
        None => None,
    };
    let path = match hint_or_legacy(hints, "image-path"@, "image_path"@) {
        Some(value) => hint_text(value),
        None => None,
    };
    best_icon(picture, path, app_icon)
}

/// Resolves the best available icon from the hints and the positional
/// `app_icon` argument. A malformed hint makes the next source count.
pub fn resolve_icon(hints: &NameMap<HintValue>, app_icon_arg: &str) -> (r: String)
    ensures
        r@ == resolved_icon(hints@, app_icon_arg@),
{
    let data_hint: Option<&HintValue> = match hints.get("image-data") {
        Some(value) => Some(value),
        None => hints.get("image_data"),
    };
    let picture: Option<String> = match data_hint {
        Some(value) => try_decode_image_data(value),
        None => None,
    };
    let path_hint: Option<&HintValue> = match hints.get("image-path") {
        Some(value) => Some(value),
        None => hints.get("image_path"),
    };
    let path: Option<String> = match path_hint {
        Some(value) => extract_string(value),
        None => None,
    };
    choose_icon(picture, path, app_icon_arg)
}

/// A hint that is not a well-formed picture never decides the icon: the result
/// is what it would be without any picture hint.
pub proof fn malformed_picture_is_ignored(hints: Map<Seq<char>, HintValue>, app_icon: Seq<char>)
    requires
        hint_or_legacy(hints, "image-data"@, "image_data"@) matches Some(value) ==> (picture_of(
            value,
        ) matches Some(picture) ==> !picture.valid()),
    ensures
        resolved_icon(hints, app_icon) == resolved_icon(
            hints.remove("image-data"@).remove("image_data"@),
            app_icon,
        ),
{
    reveal_strlit("image-data");
    reveal_strlit("image_data");
    reveal_strlit("image-path");
    reveal_strlit("image_path");
    assert("image-data"@[5] == '-' && "image_data"@[5] == '_');
    assert("image-data"@[6] == 'd' && "image_data"@[6] == 'd');
    assert("image-path"@[6] == 'p' && "image_path"@[6] == 'p');
}

/// Every valid picture decides the icon, whatever path and icon name
/// came with it.
pub proof fn picture_beats_path_and_name(
    hints: Map<Seq<char>, HintValue>,
    value: HintValue,
    picture: Picture,
    app_icon: Seq<char>,
)
    requires
        hint_or_legacy(hints, "image-data"@, "image_data"@) == Some(value),
        picture_of(value) == Some(picture),
        picture.valid(),
    ensures
        resolved_icon(hints, app_icon) == png_uri(
            png_file(picture.width as u32, picture.height as u32, picture.rgba()),
        ),
{
}

/// A path that is not empty beats the icon name where there is no picture.
pub proof fn path_beats_name(
    hints: Map<Seq<char>, HintValue>,
    value: HintValue,
    path: Seq<char>,
    app_icon: Seq<char>,
)
    requires
        hint_or_legacy(hints, "image-data"@, "image_data"@) is None,
        hint_or_legacy(hints, "image-path"@, "image_path"@) == Some(value),
        hint_text(value) == Some(path),
        path.len() > 0,
    ensures
        resolved_icon(hints, app_icon) == path,
{
}

/// Without picture and path hints the icon is the one named by the argument.
pub proof fn without_hints_name_decides(hints: Map<Seq<char>, HintValue>, app_icon: Seq<char>)
    requires
        hint_or_legacy(hints, "image-data"@, "image_data"@) is None,
        hint_or_legacy(hints, "image-path"@, "image_path"@) is None,
    ensures
        resolved_icon(hints, app_icon) == app_icon,
{
}

/// The hyphenated hint counts before the one of older applications.
pub proof fn hyphenated_hint_beats_legacy(
    hints: Map<Seq<char>, HintValue>,
    name: Seq<char>,
    legacy: Seq<char>,
)
    requires
        hints.contains_key(name),
    ensures
        hint_or_legacy(hints, name, legacy) == Some(hints[name]),
{
}

/// The packed picture has four bytes for each pixel, row by row: the colours
/// that stand for that row and column in the data, and the alpha value beside
/// them, or full opacity where there is none.
pub proof fn packed_picture_has_every_pixel(picture: Picture, row: int, col: int)
    requires
        picture.valid(),
        0 <= row < picture.height,
        0 <= col < picture.width,
    ensures
        ({
            let at = (row * picture.width + col) * 4;
            let from = row * picture.rowstride + col * picture.channels;
            &&& picture.rgba().len() == picture.width * picture.height * 4
            &&& 0 <= at && at + 4 <= picture.rgba().len()
            &&& picture.rgba()[at] == picture.data[from]
            &&& picture.rgba()[at + 1] == picture.data[from + 1]
            &&& picture.rgba()[at + 2] == picture.data[from + 2]
            &&& picture.rgba()[at + 3] == (if picture.has_alpha {
                picture.data[from + 3]
            } else {
                255
            })
        }),
{
    picture.lemma_rgba_pixel(row, col);
    let at = (row * picture.width + col) * 4;
    assert(picture.rgba()[at + 0] == picture.pixel_byte(row, col, 0));
    assert(picture.rgba()[at + 1] == picture.pixel_byte(row, col, 1));
    assert(picture.rgba()[at + 2] == picture.pixel_byte(row, col, 2));
    assert(picture.rgba()[at + 3] == picture.pixel_byte(row, col, 3));
    assert(picture.width * picture.height * 4 >= 0) by (nonlinear_arith)
        requires
            picture.width > 0,
            picture.height > 0,
    ;
}

/// A valid picture has an edge of at most 512 pixels, eight bits per colour, an
/// alpha value exactly if it has four channels, and all pixels in its data.
pub proof fn valid_picture_has_all_its_pixels(picture: Picture)
    ensures
        picture.valid() ==> 1 <= picture.width <= 512 && 1 <= picture.height <= 512
            && picture.bits_per_sample == 8 && picture.channels == (if picture.has_alpha {
            4int
        } else {
            3
        }) && picture.width * picture.channels <= picture.rowstride,
        picture.valid() ==> (picture.height - 1) * picture.rowstride + (picture.width - 1)
            * picture.channels + picture.channels <= picture.data.len(),
{
    assert((picture.height - 1) * picture.rowstride == picture.rowstride * (picture.height - 1))
        by (nonlinear_arith);
    assert((picture.width - 1) * picture.channels + picture.channels == picture.width
        * picture.channels) by (nonlinear_arith);
}

/// Every picture of a sane size whose rows are in its data is valid, also where
/// the padding of the last row is missing or more data follows.
pub proof fn sane_picture_is_valid(picture: Picture)
    requires
        1 <= picture.width <= 512,
        1 <= picture.height <= 512,
        picture.bits_per_sample == 8,
        picture.channels == (if picture.has_alpha {
            4int
        } else {
            3
        }),
        picture.width * picture.channels <= picture.rowstride,
        (picture.height - 1) * picture.rowstride + picture.width * picture.channels
            <= picture.data.len(),
    ensures
        picture.valid(),
{
    assert((picture.height - 1) * picture.rowstride == picture.rowstride * (picture.height - 1))
        by (nonlinear_arith);
}

/// The seven fields of a picture hint are, in order, width, height, row length,
/// alpha, bits, channels and data; further fields do not count.
pub proof fn picture_fields_are_in_order(fields: Vec<HintValue>)
    ensures
        picture_of(HintValue::Structure(fields)) is Some <==> fields@.len() >= 7 && fields@[0] is I32
            && fields@[1] is I32 && fields@[2] is I32 && fields@[3] is Bool && fields@[4] is I32
            && fields@[5] is I32 && hint_bytes(fields@[6]) is Some,
        picture_of(HintValue::Structure(fields)) matches Some(p) ==> fields@[0] == HintValue::I32(
            p.width as i32,
        ) && fields@[1] == HintValue::I32(p.height as i32) && fields@[2] == HintValue::I32(
            p.rowstride as i32,
        ) && fields@[3] == HintValue::Bool(p.has_alpha) && fields@[4] == HintValue::I32(
            p.bits_per_sample as i32,
        ) && fields@[5] == HintValue::I32(p.channels as i32) && hint_bytes(fields@[6]) == Some(
            p.data,
        ),
{
}

/// Only a structure is a picture.
pub proof fn only_structures_are_pictures(value: HintValue)
    requires
        !(value is Structure),
    ensures
        picture_of(value) is None,
        image_uri(value) is None,
{
}

/// Where no picture can be shown, a path hint that is a text and not empty
/// decides, and any other path hint leaves the icon to the name.
pub proof fn path_hint_is_a_text(hints: Map<Seq<char>, HintValue>, app_icon: Seq<char>)
    requires
        hint_or_legacy(hints, "image-data"@, "image_data"@) matches Some(value) ==> image_uri(value)
            is None,
        hint_or_legacy(hints, "image-path"@, "image_path"@) is Some,
    ensures
        ({
            let path = hint_or_legacy(hints, "image-path"@, "image_path"@)->0;
            resolved_icon(hints, app_icon) == (if path matches HintValue::Str(text) && text@.len()
                > 0 {
                path->Str_0@
            } else {
                app_icon
            })
        }),
{
}

/// The hint of older applications counts where the hyphenated one is absent.
pub proof fn legacy_hint_stands_in(
    hints: Map<Seq<char>, HintValue>,
    name: Seq<char>,
    legacy: Seq<char>,
)
    requires
        !hints.contains_key(name),
    ensures
        hint_or_legacy(hints, name, legacy) is Some <==> hints.contains_key(legacy),
        hints.contains_key(legacy) ==> hint_or_legacy(hints, name, legacy) == Some(hints[legacy]),
{
}

/// The URI of a PNG file names its type and encoding, and then holds the file.
pub proof fn uri_holds_the_file(png: Seq<u8>)
    ensures
        png_uri(png) == "data:image/png;base64,"@ + base64_text(png),
        base64_text(png).len() == 4 * ((png.len() + 2) / 3),
    decreases png.len(),
{
    if png.len() > 2 {
        uri_holds_the_file(png.skip(3));
    }
}

/// The six-bit value of a character of the standard base64 alphabet.
pub open spec fn base64_value(c: char) -> int {
    if 'A' <= c <= 'Z' {
        c as int - 'A' as int
    } else if 'a' <= c <= 'z' {
        c as int - 'a' as int + 26
    } else if '0' <= c <= '9' {
        c as int - '0' as int + 52
    } else if c == '+' {
        62
    } else {
        63
    }
}

/// The file can be read back from the text: each byte from the two characters
/// that it is spread over.
pub proof fn base64_reads_back(bytes: Seq<u8>, i: int)
    requires
        0 <= i < bytes.len(),
    ensures
        ({
            let at = i / 3 * 4 + i % 3;
            let left = base64_value(base64_text(bytes)[at]);
            let right = base64_value(base64_text(bytes)[at + 1]);
            bytes[i] == (if i % 3 == 0 {
                left * 4 + right / 16
            } else if i % 3 == 1 {
                left % 16 * 16 + right / 4
            } else {
                left % 4 * 64 + right
            })
        }),
    decreases bytes.len(),
{
    if i >= 3 {
        base64_reads_back(bytes.skip(3), i - 3);
        uri_holds_the_file(bytes.skip(3));
        let at = i / 3 * 4 + i % 3;
        assert((i - 3) / 3 * 4 + (i - 3) % 3 == at - 4);
        assert(base64_text(bytes)[at] == base64_text(bytes.skip(3))[at - 4]);
        assert(base64_text(bytes)[at + 1] == base64_text(bytes.skip(3))[at + 1 - 4]);
    } else {
        let text = base64_text(bytes);
        let first = bytes[0] as int;
        lemma_base64_char(first / 4);
        if bytes.len() == 1 {
            lemma_base64_char(first % 4 * 16);
            assert(text[0] == base64_char(first / 4) && text[1] == base64_char(first % 4 * 16));
        } else {
            let second = bytes[1] as int;
            lemma_base64_char(first % 4 * 16 + second / 16);
            assert(text[0] == base64_char(first / 4));
            assert(text[1] == base64_char(first % 4 * 16 + second / 16));
            if bytes.len() == 2 {
                lemma_base64_char(second % 16 * 4);
                assert(text[2] == base64_char(second % 16 * 4));
            } else {
                let third = bytes[2] as int;
                lemma_base64_char(second % 16 * 4 + third / 64);
                lemma_base64_char(third % 64);
                assert(text[2] == base64_char(second % 16 * 4 + third / 64));
                assert(text[3] == base64_char(third % 64));
            }
        }
    }
}

proof fn lemma_base64_char(v: int)
    requires
        0 <= v < 64,
    ensures
        base64_value(base64_char(v)) == v,
{
}

} // verus!
