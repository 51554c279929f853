//! The launcher's logo, as the window takes it.
use vstd::prelude::*;

pub mod laws;

verus! {

/// How the pixels of a picture are coloured.
#[derive(Clone, Copy, Debug, PartialEq, Eq, Structural)]
pub enum Color {
    Grayscale,
    Rgb,
    Indexed,
    GrayscaleAlpha,
    Rgba,
}

/// A decoded picture: its pixels as they are stored.
#[derive(Debug)]
pub struct Frame {
    pub color: Color,
    pub pixels: Vec<u8>,
    pub width: u32,
    pub height: u32,
}

/// What a [`Frame`] holds.
pub struct FrameView {
    pub color: Color,
    pub pixels: Seq<u8>,
    pub width: u32,
    pub height: u32,
}

impl View for Frame {
    type V = FrameView;

    open spec fn view(&self) -> FrameView {
        FrameView {
            color: self.color,
            pixels: self.pixels@,
            width: self.width,
            height: self.height,
        }
    }
}

/// The first picture that the `png` crate decodes from some bytes, if they hold one.
pub uninterp spec fn frame_in(bytes: Seq<u8>) -> Option<FrameView>;

/// `png::Decoder::read_info` and `png::Reader::next_frame`: the first picture in a PNG file, cut to
/// the size that the frame takes, or `None` where either fails. It depends on the bytes alone.
#[verifier::external_body]
fn frame(bytes: &[u8]) -> (frame: Option<Frame>)
    ensures
        match frame {
            Some(frame) => frame_in(bytes@) == Some(frame@),
            None => frame_in(bytes@) is None,
        },
{
    let mut reader = png::Decoder::new(std::io::Cursor::new(bytes)).read_info().ok()?;
    let mut pixels = vec![0; reader.output_buffer_size()?];
    let info = reader.next_frame(&mut pixels).ok()?;
    pixels.truncate(info.buffer_size());
    let color = match info.color_type {
        png::ColorType::Grayscale => Color::Grayscale,
        png::ColorType::Rgb => Color::Rgb,
        png::ColorType::Indexed => Color::Indexed,
        png::ColorType::GrayscaleAlpha => Color::GrayscaleAlpha,
        png::ColorType::Rgba => Color::Rgba,
    };
    Some(Frame { color, pixels, width: info.width, height: info.height })
}

/// A picture with four bytes a pixel: red, green, blue, and how opaque it is.
#[derive(Debug)]
pub struct Image {
    pub rgba: Vec<u8>,
    pub width: u32,
    pub height: u32,
}

/// What an [`Image`] holds.
#[verifier::ext_equal]
pub struct ImageView {
    pub rgba: Seq<u8>,
    pub width: u32,
    pub height: u32,
}

impl View for Image {
    type V = ImageView;

    open spec fn view(&self) -> ImageView {
        ImageView { rgba: self.rgba@, width: self.width, height: self.height }
    }
}

/// Pixels of three bytes with a fourth that makes them opaque. Bytes at the end that make no whole
/// pixel are left out.
pub open spec fn opaque(rgb: Seq<u8>) -> Seq<u8> {
    Seq::new(
        (rgb.len() / 3) * 4,
        |i: int|
            if i % 4 == 3 {
                255u8
            } else {
                rgb[3 * (i / 4) + i % 4]
            },
    )
}

/// A picture as the window takes it; only coloured ones without a palette are taken.
pub open spec fn painted(frame: FrameView) -> Option<ImageView> {
    let image = |rgba: Seq<u8>| ImageView { rgba, width: frame.width, height: frame.height };
    match frame.color {
        Color::Rgba => Some(image(frame.pixels)),
        Color::Rgb => Some(image(opaque(frame.pixels))),
        _ => None,
    }
}

/// What is in an optional picture.
pub open spec fn pictured(image: Option<Image>) -> Option<ImageView> {
    match image {
        Some(image) => Some(image@),
        None => None,
    }
}

fn to_opaque(rgb: &Vec<u8>) -> (rgba: Vec<u8>)
    ensures
        rgba@ == opaque(rgb@),
{
    let mut rgba: Vec<u8> = Vec::new();
    let mut i: usize = 0;
    while rgb.len() - i >= 3
        invariant
            i <= rgb.len(),
            i % 3 == 0,
            rgba@.len() == (i / 3) * 4,
            forall|k: int|
                0 <= k < rgba@.len() ==> #[trigger] rgba@[k] == (if k % 4 == 3 {
                    255u8
                } else {
                    rgb@[3 * (k / 4) + k % 4]
                }),
        decreases rgb.len() - i,
    {
        rgba.push(rgb[i]);
        rgba.push(rgb[i + 1]);
        rgba.push(rgb[i + 2]);
        rgba.push(255);
        i += 3;
    }
    assert(rgba@ =~= opaque(rgb@));
    rgba
}

/// A picture as the window takes it.
pub fn paint(frame: Frame) -> (image: Option<Image>)
    ensures
        pictured(image) == painted(frame@),
{
    let rgba = match frame.color {
        Color::Rgba => frame.pixels,
        Color::Rgb => to_opaque(&frame.pixels),
        _ => {
            return None;
        },
    };
    Some(Image { rgba, width: frame.width, height: frame.height })
}

/// The picture in a PNG file as the window takes it.
pub fn decode(bytes: &[u8]) -> (image: Option<Image>)
    ensures
        pictured(image) == (match frame_in(bytes@) {
            Some(frame) => painted(frame),
            None => None,
        }),
{
    match frame(bytes) {
        Some(frame) => paint(frame),
        None => None,
    }
}

/// A picture without transparency fills the same area with four bytes a pixel, all opaque, and keeps
/// its colours.
pub proof fn an_opaque_picture_keeps_its_pixels(frame: FrameView, x: int)
    requires
        frame.color is Rgb,
        frame.pixels.len() == 3 * (frame.width * frame.height),
        0 <= x < frame.width * frame.height,
    ensures
        painted(frame) matches Some(image) && {
            &&& image.rgba.len() == 4 * (frame.width * frame.height)
            &&& image.rgba[4 * x + 3] == 255
            &&& forall|c: int|
                0 <= c < 3 ==> image.rgba[4 * x + c] == #[trigger] frame.pixels[3 * x + c]
        },
{
}

}
