//! Framing captured screens for the content layer: each frame travels as the
//! base64 text of its bytes.

use vstd::prelude::*;
use vstd::string::StringExecFns;
use crate::text::{append_decimal, decimal};

verus! {

/// The standard base64 text, with padding, of `bytes`.
pub uninterp spec fn base64_standard(bytes: Seq<u8>) -> Seq<char>;

/// The PNG file that holds the image of `width` by `height` pixels whose
/// pixels are `pixels`, four bytes each (red, green, blue, alpha), row by row;
/// nothing, if the encoder refuses the image.
pub uninterp spec fn png_encoding(width: u32, height: u32, pixels: Seq<u8>) -> Option<Seq<u8>>;

/// image's `ImageError`, which the PNG encoder fails with. Nothing is said of
/// what it holds.
#[verifier::external_type_specification]
#[verifier::external_body]
pub struct ExImageError(image::ImageError);

/// Whether the base64 text of `len` bytes has a length that fits `usize`.
pub open spec fn encodable(len: nat) -> bool {
    len / 3 * 4 + 4 <= usize::MAX
}

/// Computes [`encodable`].
pub fn encodable_len(len: usize) -> (fits: bool)
    ensures
        fits == encodable(len as nat),
{
    len / 3 <= (usize::MAX - 4) / 4
}

/// Calls `encode` of base64's `STANDARD` engine. The engine computes the
/// length of the text first and panics if that overflows, so the input must be
/// encodable. The text it returns depends on the bytes alone.
#[verifier::external_body]
fn encode_base64(data: &Vec<u8>) -> (text: String)
    requires
        encodable(data@.len()),
    ensures
        text@ == base64_standard(data@),
{
    base64::Engine::encode(&base64::prelude::BASE64_STANDARD, data)
}

/// Calls image's `write_buffer_with_format`, which is what `write_to` of an
/// image buffer calls, with the PNG format and four bytes to the pixel, and
/// collects what it writes. The encoder panics unless the pixels fill the
/// image exactly. It fails on some images (one without pixels is among them);
/// when it succeeds, the bytes depend on the image alone.
#[verifier::external_body]
fn encode_png(width: u32, height: u32, pixels: &Vec<u8>) -> (r: Result<Vec<u8>, image::ImageError>)
    requires
        pixels@.len() == 4 * width * height,
    ensures
        r matches Ok(bytes) ==> png_encoding(width, height, pixels@) == Some(bytes@),
        r is Err ==> png_encoding(width, height, pixels@) is None,
{
    let mut bytes: Vec<u8> = Vec::new();
    image::write_buffer_with_format(
        &mut std::io::Cursor::new(&mut bytes),
        pixels,
        width,
        height,
        image::ColorType::Rgba8,
        image::ImageOutputFormat::Png,
    )?;
    Ok(bytes)
}

/// Why a captured screen could not be framed.
#[derive(Clone, Copy, Debug, PartialEq, Eq, Structural)]
pub enum CaptureError {
    /// The encoder refused the screen at this place in the list.
    Encoding { index: usize },
    /// The PNG file of the screen at this place in the list is too long for
    /// its base64 text to fit in memory.
    TooLarge { index: usize },
}

impl CaptureError {
    /// The place in the list of the screen that could not be framed.
    pub open spec fn place(self) -> usize {
        match self {
            CaptureError::Encoding { index } => index,
            CaptureError::TooLarge { index } => index,
        }
    }
}

/// The outcome of framing the screen at `index`, given its PNG file, if the
/// encoder made one: the base64 text of the file, or why there is none.
pub open spec fn framed(png: Option<Seq<u8>>, index: usize) -> Result<Seq<char>, CaptureError> {
    match png {
        None => Err(CaptureError::Encoding { index }),
        Some(bytes) => if encodable(bytes.len()) {
            Ok(base64_standard(bytes))
        } else {
            Err(CaptureError::TooLarge { index })
        },
    }
}

/// One captured screen: its size in pixels and its pixels, four bytes each
/// (red, green, blue, alpha), row by row.
#[derive(Debug)]
pub struct Screenshot {
    width: u32,
    height: u32,
    pixels: Vec<u8>,
}

/// A captured screen as the contracts see it.
pub struct ScreenshotModel {
    pub width: u32,
    pub height: u32,
    pub pixels: Seq<u8>,
}

impl ScreenshotModel {
    /// The pixels fill the image exactly.
    pub open spec fn filled(self) -> bool {
        self.pixels.len() == 4 * self.width * self.height
    }

    /// The outcome of framing this screen, which stands at `index` in its
    /// list: the base64 text of its PNG file, or why there is none.
    pub open spec fn frame(self, index: usize) -> Result<Seq<char>, CaptureError> {
        framed(png_encoding(self.width, self.height, self.pixels), index)
    }
}

impl View for Screenshot {
    type V = ScreenshotModel;

    closed spec fn view(&self) -> ScreenshotModel {
        ScreenshotModel { width: self.width, height: self.height, pixels: self.pixels@ }
    }
}

impl Screenshot {
    #[verifier::type_invariant]
    spec fn filled(self) -> bool {
        self.pixels@.len() == 4 * self.width * self.height
    }

    /// A captured screen of `width` by `height` pixels, if `pixels` fill it
    /// exactly.
    pub fn new(width: u32, height: u32, pixels: Vec<u8>) -> (r: Option<Screenshot>)
        ensures
            r is Some <==> pixels@.len() == 4 * width * height,
            r matches Some(shot) ==> shot@ == (ScreenshotModel { width, height, pixels: pixels@ })
                && shot@.filled(),
    {
        assert(4 * width * height <= 4 * 0xffff_ffff * 0xffff_ffff) by (nonlinear_arith)
            requires
                0 <= width <= 0xffff_ffff,
                0 <= height <= 0xffff_ffff,
        ;
        let wanted: u128 = 4 * (width as u128) * (height as u128);
        if pixels.len() as u128 == wanted {
            Some(Screenshot { width, height, pixels })
        } else {
            None
        }
    }

    /// The width in pixels.
    pub fn width(&self) -> (w: u32)
        ensures
            w == self@.width,
    {
        self.width
    }

    /// The height in pixels.
    pub fn height(&self) -> (h: u32)
        ensures
            h == self@.height,
    {
        self.height
    }

    /// The pixels.
    pub fn pixels(&self) -> (p: &Vec<u8>)
        ensures
            p@ == self@.pixels,
            self@.filled(),
    {
        proof {
            use_type_invariant(self);
        }
        &self.pixels
    }
}

/// The base64 text of `data`; nothing, if the text's length would not fit
/// `usize`.
pub fn base64_text(data: &Vec<u8>) -> (text: Option<String>)
    ensures
        text is Some <==> encodable(data@.len()),
        text matches Some(t) ==> t@ == base64_standard(data@),
{
    if encodable_len(data.len()) {
        Some(encode_base64(data))
    } else {
        None
    }
}

/// The frames to hand to the content layer for what may be an encoded frame:
/// the one frame, or none.
pub fn frames_of(encoded: Option<String>) -> (frames: Vec<String>)
    ensures
        frames@ == match encoded {
            Some(text) => seq![text],
            None => Seq::<String>::empty(),
        },
{
    let mut frames: Vec<String> = Vec::new();
    match encoded {
        Some(text) => {
            frames.push(text);
            assert(frames@ =~= seq![text]);
        },
        None => {},
    }
    frames
}

/// Frames the last captured frame for the content layer: one frame, the base64
/// text of `data`, or no frame when nothing was captured.
pub fn capture(data: Option<Vec<u8>>) -> (frames: Vec<String>)
    requires
        data matches Some(bytes) ==> encodable(bytes@.len()),
    ensures
        match data {
            Some(bytes) => frames@.len() == 1 && frames@[0]@ == base64_standard(bytes@),
            None => frames@.len() == 0,
        },
{
    match data {
        Some(bytes) => frames_of(base64_text(&bytes)),
        None => frames_of(None),
    }
}

/// The bytes of what may be a file.
pub open spec fn bytes_of(file: Option<Vec<u8>>) -> Option<Seq<u8>> {
    match file {
        Some(bytes) => Some(bytes@),
        None => None,
    }
}

/// Computes [`framed`]: the outcome of framing the screen at `index`, given
/// the encoder's result for it.
pub fn frame_of_png(png: Option<Vec<u8>>, index: usize) -> (r: Result<String, CaptureError>)
    ensures
        match framed(bytes_of(png), index) {
            Ok(text) => r matches Ok(t) && t@ == text,
            Err(e) => r == Err::<String, CaptureError>(e),
        },
{
    match png {
        None => Err(CaptureError::Encoding { index }),
        Some(bytes) => match base64_text(&bytes) {
            Some(text) => Ok(text),
            None => Err(CaptureError::TooLarge { index }),
        },
    }
}

/// Frames each captured screen for the content layer, in order: the screen is
/// encoded as a PNG file and the file's bytes as base64 text. The first screen
/// that cannot be framed ends the work with its error.
pub fn capture_old(shots: &Vec<Screenshot>) -> (r: Result<Vec<String>, CaptureError>)
    ensures
        match r {
            Ok(frames) => frames@.len() == shots@.len() && forall|i: int|
                0 <= i < shots@.len() ==> shots@[i]@.frame(i as usize) == Ok::<
                    Seq<char>,
                    CaptureError,
                >(#[trigger] frames@[i]@),
            Err(e) => e.place() < shots@.len() && shots@[e.place() as int]@.frame(e.place())
                == Err::<Seq<char>, CaptureError>(e) && forall|j: int|
                0 <= j < e.place() ==> (#[trigger] shots@[j])@.frame(j as usize) is Ok,
        },
{
    let mut frames: Vec<String> = Vec::new();
    let mut i: usize = 0;
    while i < shots.len()
        invariant
            i <= shots@.len(),
            frames@.len() == i,
            forall|j: int|
                0 <= j < i ==> shots@[j]@.frame(j as usize) == Ok::<Seq<char>, CaptureError>(
                    #[trigger] frames@[j]@,
                ),
        decreases shots@.len() - i,
    {
        let shot = &shots[i];
        let png = match encode_png(shot.width(), shot.height(), shot.pixels()) {
            Ok(bytes) => Some(bytes),
            Err(_) => None,
        };
        match frame_of_png(png, i) {
            Ok(text) => {
                frames.push(text);
            },
            Err(e) => {
                assert forall|j: int| 0 <= j < i implies (#[trigger] shots@[j])@.frame(
                    j as usize,
                ) is Ok by {
                    assert(shots@[j]@.frame(j as usize) == Ok::<Seq<char>, CaptureError>(
                        frames@[j]@,
                    ));
                }
                return Err(e);
            },
        }
        i += 1;
    }
    Ok(frames)
}

/// The path of the file that keeps the screen `screen` as captured at
/// `seconds` since the epoch, in the directory `dir`.
pub open spec fn file_path(dir: Seq<char>, screen: u32, seconds: u64) -> Seq<char> {
    dir + "/screenshot-"@ + decimal(screen as nat) + "-"@ + decimal(seconds as nat) + ".png"@
}

/// Computes [`file_path`].
pub fn screenshot_path(dir: &str, screen: u32, seconds: u64) -> (path: String)
    ensures
        path@ == file_path(dir@, screen, seconds),
{
    let mut path = dir.to_owned();
    path.append("/screenshot-");
    append_decimal(&mut path, screen as u64);
    path.append("-");
    append_decimal(&mut path, seconds);
    path.append(".png");
    path
}

} // verus!
