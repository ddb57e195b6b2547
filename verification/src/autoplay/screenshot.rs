//! Telling a result screen from a screenshot.

use vstd::prelude::*;

use crate::autoplay::buttons::{
    blue, classify_coverage, gold, is_blue, is_gold, screen_of, Screen,
};

verus! {

/// `png::DecodingError`: why a file could not be decoded.
#[verifier::external_type_specification]
#[verifier::external_body]
pub struct ExDecodingError(png::DecodingError);

/// How the pixels of a picture are encoded.
#[derive(Clone, Copy, Debug, PartialEq, Eq, Structural)]
pub enum PixelFormat {
    Grayscale,
    Rgb,
    Indexed,
    GrayscaleAlpha,
    Rgba,
}

/// A decoded picture: its pixels row by row, one byte for each sample.
#[derive(Debug)]
pub struct Picture {
    pub width: u32,
    pub height: u32,
    pub format: PixelFormat,
    pub data: Vec<u8>,
}

/// A decoded picture as mathematical values.
pub struct PictureView {
    pub width: u32,
    pub height: u32,
    pub format: PixelFormat,
    pub data: Seq<u8>,
}

impl View for Picture {
    type V = PictureView;

    open spec fn view(&self) -> PictureView {
        PictureView {
            width: self.width,
            height: self.height,
            format: self.format,
            data: self.data@,
        }
    }
}

/// The bytes of a pixel, for the formats that screenshots come in.
pub open spec fn pixel_bytes(format: PixelFormat) -> Option<int> {
    match format {
        PixelFormat::Rgb => Some(3),
        PixelFormat::Rgba => Some(4),
        _ => None,
    }
}

/// Whether a picture in a supported format holds all of its pixels.
pub open spec fn is_whole(p: PictureView) -> bool {
    pixel_bytes(p.format) matches Some(n) ==> p.data.len() == p.width * p.height * n
}

/// What the `png` crate makes of a file on a machine whose largest `usize` is
/// `address_limit`: nothing if the file cannot be decoded, a blank if the picture
/// would not fit in memory, the picture otherwise.
pub uninterp spec fn png_picture(bytes: Seq<u8>, address_limit: usize) -> Option<
    Option<PictureView>,
>;

/// What the `png` crate reads before the pixels of a file, on a machine whose
/// largest `usize` is `address_limit`: how the pixels are encoded in the file, and
/// how many bytes its palette has if it has one. Nothing if that cannot be read.
pub uninterp spec fn png_palette(bytes: Seq<u8>, address_limit: usize) -> Option<
    (PixelFormat, Option<usize>),
>;

/// Whether the palette that the pixels refer to, if they refer to one, is made of
/// whole colours of three bytes each.
pub open spec fn palette_fits(palette: Option<(PixelFormat, Option<usize>)>) -> bool {
    palette matches Some((PixelFormat::Indexed, Some(len))) ==> len % 3 == 0
}

/// Reads what comes before the pixels of a file through `png::Decoder::read_info`,
/// with palettes to be expanded and samples to be cut to eight bits, and hands
/// out the colour type and the length of the palette of `png::Info`.
///
/// What comes out is a function of the bytes and the width of an address.
#[verifier::external_body]
fn read_palette(bytes: &[u8]) -> (r: Result<(PixelFormat, Option<usize>), png::DecodingError>)
    ensures
        match r {
            Ok(palette) => png_palette(bytes@, usize::MAX) == Some(palette),
            Err(_) => png_palette(bytes@, usize::MAX) is None,
        },
{
    let mut decoder = png::Decoder::new(std::io::Cursor::new(bytes));
    decoder.set_transformations(png::Transformations::EXPAND | png::Transformations::STRIP_16);
    let reader = decoder.read_info()?;
    let format = match reader.info().color_type {
        png::ColorType::Grayscale => PixelFormat::Grayscale,
        png::ColorType::Rgb => PixelFormat::Rgb,
        png::ColorType::Indexed => PixelFormat::Indexed,
        png::ColorType::GrayscaleAlpha => PixelFormat::GrayscaleAlpha,
        png::ColorType::Rgba => PixelFormat::Rgba,
    };
    Ok((format, reader.info().palette.as_ref().map(|p| p.len())))
}

/// Decodes a file through `png::Decoder` with palettes expanded and samples cut
/// to eight bits, and takes the first frame that `png::Reader::next_frame`
/// yields, up to `png::OutputInfo::buffer_size`.
///
/// What comes out is a function of the bytes and the width of an address. A
/// picture in one of the colour formats holds exactly one byte for each sample of
/// each pixel. The decoder stops the program on a palette that ends within a
/// colour, so such a file is not handed to it.
#[verifier::external_body]
fn decode_png(bytes: &[u8]) -> (r: Result<Option<Picture>, png::DecodingError>)
    requires
        palette_fits(png_palette(bytes@, usize::MAX)),
    ensures
        match r {
            Ok(Some(p)) => png_picture(bytes@, usize::MAX) == Some(Some(p@)) && is_whole(p@),
            Ok(None) => png_picture(bytes@, usize::MAX) == Some(None::<PictureView>),
            Err(_) => png_picture(bytes@, usize::MAX) is None,
        },
{
    let mut decoder = png::Decoder::new(std::io::Cursor::new(bytes));
    decoder.set_transformations(png::Transformations::EXPAND | png::Transformations::STRIP_16);
    let mut reader = decoder.read_info()?;
    let Some(size) = reader.output_buffer_size() else { return Ok(None) };
    let mut data = vec![0; size];
    let info = reader.next_frame(&mut data)?;
    data.truncate(info.buffer_size());
    let format = match info.color_type {
        png::ColorType::Grayscale => PixelFormat::Grayscale,
        png::ColorType::Rgb => PixelFormat::Rgb,
        png::ColorType::Indexed => PixelFormat::Indexed,
        png::ColorType::GrayscaleAlpha => PixelFormat::GrayscaleAlpha,
        png::ColorType::Rgba => PixelFormat::Rgba,
    };
    Ok(Some(Picture { width: info.width, height: info.height, format, data }))
}

/// Why a screenshot could not be told.
#[derive(Debug)]
pub enum ScreenshotError {
    /// The file could not be decoded.
    Decode(png::DecodingError),
    /// The palette of the file ends within a colour.
    BrokenPalette,
    /// The picture would not fit in memory.
    TooLarge,
    /// The picture is in a format that screenshots do not come in.
    UnsupportedColor,
    /// A button lies outside the picture.
    ButtonOutside,
}

/// Where to look for the buttons: thirty-two pixels of each, as column and row.
#[derive(Clone, Copy, Debug)]
pub struct ButtonSamples {
    pub rematch: [(usize, usize); 32],
    pub dialog: [(usize, usize); 32],
    pub confirm: [(usize, usize); 32],
}

/// A button's colour.
#[derive(Clone, Copy, Debug, PartialEq, Eq, Structural)]
pub enum Tone {
    Blue,
    Gold,
}

/// Whether a colour has a tone.
pub open spec fn has_tone(tone: Tone, rgb: Seq<u8>) -> bool {
    match tone {
        Tone::Blue => blue(rgb),
        Tone::Gold => gold(rgb),
    }
}

/// Whether a picture has a pixel at a column and row.
pub open spec fn inside(p: PictureView, at: (usize, usize)) -> bool {
    at.0 < p.width && at.1 < p.height
}

/// The red, green and blue of a pixel.
pub open spec fn color_at(p: PictureView, at: (usize, usize)) -> Seq<u8> {
    let i = (at.1 * p.width + at.0) * pixel_bytes(p.format)->0;
    p.data.subrange(i, i + 3)
}

/// At how many of the points a picture has a tone.
pub open spec fn tone_hits(p: PictureView, points: Seq<(usize, usize)>, tone: Tone) -> nat
    decreases points.len(),
{
    if points.len() == 0 {
        0
    } else {
        tone_hits(p, points.drop_last(), tone) + if has_tone(tone, color_at(p, points.last())) {
            1nat
        } else {
            0
        }
    }
}

/// Whether all points lie inside a picture.
pub open spec fn all_inside(p: PictureView, points: Seq<(usize, usize)>) -> bool {
    forall|i: int| 0 <= i < points.len() ==> inside(p, #[trigger] points[i])
}

/// Whether all points of all buttons lie inside a picture.
pub open spec fn buttons_inside(p: PictureView, samples: ButtonSamples) -> bool {
    all_inside(p, samples.rematch@) && all_inside(p, samples.dialog@) && all_inside(
        p,
        samples.confirm@,
    )
}

/// The screen that a picture shows, looked at in the places given.
pub open spec fn shown(p: PictureView, samples: ButtonSamples) -> Screen {
    screen_of(
        tone_hits(p, samples.rematch@, Tone::Blue) as u32,
        tone_hits(p, samples.dialog@, Tone::Gold) as u32,
        tone_hits(p, samples.confirm@, Tone::Gold) as u32,
    )
}

impl Picture {
    /// The red, green and blue of the pixel at a column and row, if the picture
    /// has one there.
    fn sample(&self, at: (usize, usize), bytes: usize) -> (rgb: Option<[u8; 3]>)
        requires
            is_whole(self@),
            pixel_bytes(self@.format) == Some(bytes as int),
        ensures
            rgb is Some <==> inside(self@, at),
            rgb matches Some(c) ==> c@ == color_at(self@, at),
    {
        let (px, py) = at;
        if px >= self.width as usize || py >= self.height as usize {
            return None;
        }
        let ghost w = self.width as int;
        let ghost h = self.height as int;
        let ghost n = bytes as int;
        proof {
            assert((py * w + px) * n + n <= w * h * n) by (nonlinear_arith)
                requires
                    0 <= px < w,
                    0 <= py < h,
                    0 <= n,
            ;
            assert(py * w <= py * w + px <= (py * w + px) * n) by (nonlinear_arith)
                requires
                    0 <= px < w,
                    0 <= py < h,
                    1 <= n,
            ;
            assert(w * h * n == self.data@.len());
            assert(self.data.len() == self.data@.len());
        }
        let row: usize = py * self.width as usize;
        let i: usize = (row + px) * bytes;
        let c = [self.data[i], self.data[i + 1], self.data[i + 2]];
        assert(c@ =~= color_at(self@, at));
        Some(c)
    }
}

/// At how many of the points a picture has a tone; nothing if one of them lies
/// outside it.
pub fn coverage(p: &Picture, points: &[(usize, usize); 32], tone: Tone) -> (hits: Option<u32>)
    requires
        is_whole(p@),
        pixel_bytes(p@.format) is Some,
    ensures
        hits is Some <==> all_inside(p@, points@),
        hits matches Some(n) ==> n == tone_hits(p@, points@, tone) && n <= 32,
{
    let bytes: usize = match p.format {
        PixelFormat::Rgba => 4,
        _ => 3,
    };
    let mut count: u32 = 0;
    let mut i: usize = 0;
    while i < 32
        invariant
            i <= 32,
            count <= i,
            count == tone_hits(p@, points@.take(i as int), tone),
            all_inside(p@, points@.take(i as int)),
            is_whole(p@),
            pixel_bytes(p@.format) == Some(bytes as int),
        decreases 32 - i,
    {
        assert(points@.take(i + 1).drop_last() =~= points@.take(i as int));
        match p.sample(points[i], bytes) {
            None => {
                assert(!inside(p@, points@[i as int]));
                return None;
            },
            Some(rgb) => {
                let hit = match tone {
                    Tone::Blue => is_blue(rgb),
                    Tone::Gold => is_gold(rgb),
                };
                if hit {
                    count += 1;
                }
            },
        }
        i += 1;
    }
    assert(points@.take(32) =~= points@);
    Some(count)
}

/// The screen that a picture shows, looked at in the places given.
pub fn classify_picture(p: &Picture, samples: &ButtonSamples) -> (r: Result<
    Screen,
    ScreenshotError,
>)
    requires
        is_whole(p@),
    ensures
        pixel_bytes(p@.format) is None <==> r matches Err(ScreenshotError::UnsupportedColor),
        pixel_bytes(p@.format) is Some && !buttons_inside(p@, *samples) <==> r matches Err(
            ScreenshotError::ButtonOutside,
        ),
        pixel_bytes(p@.format) is Some && buttons_inside(p@, *samples) <==> r is Ok,
        r matches Ok(screen) ==> screen == shown(p@, *samples),
        r == picture_class(p@, *samples),
{
    match p.format {
        PixelFormat::Rgb | PixelFormat::Rgba => {},
        _ => {
            return Err(ScreenshotError::UnsupportedColor);
        },
    }
    let rematch = coverage(p, &samples.rematch, Tone::Blue);
    let dialog = coverage(p, &samples.dialog, Tone::Gold);
    let confirm = coverage(p, &samples.confirm, Tone::Gold);
    match (rematch, dialog, confirm) {
        (Some(rematch_blue), Some(dialog_gold), Some(confirm_gold)) => Ok(
            classify_coverage(rematch_blue, dialog_gold, confirm_gold),
        ),
        _ => Err(ScreenshotError::ButtonOutside),
    }
}

/// The screen that a PNG file shows. `locate` says where to look for the
/// buttons in a picture of a given width and height.
pub fn classify_png<F: Fn(u32, u32) -> ButtonSamples>(bytes: &[u8], locate: F) -> (r: Result<
    Screen,
    ScreenshotError,
>)
    requires
        forall|w: u32, h: u32| call_requires(locate, (w, h)),
    ensures
        if !palette_fits(png_palette(bytes@, usize::MAX)) {
            r matches Err(ScreenshotError::BrokenPalette)
        } else {
            match png_picture(bytes@, usize::MAX) {
                None => r matches Err(ScreenshotError::Decode(_)),
                Some(None) => r matches Err(ScreenshotError::TooLarge),
                Some(Some(p)) => if pixel_bytes(p.format) is None {
                    r matches Err(ScreenshotError::UnsupportedColor)
                } else {
                    exists|samples: ButtonSamples|
                        {
                            &&& #[trigger] call_ensures(locate, (p.width, p.height), samples)
                            &&& if buttons_inside(p, samples) {
                                r matches Ok(screen) && screen == shown(p, samples)
                            } else {
                                r matches Err(ScreenshotError::ButtonOutside)
                            }
                        }
                },
            }
        },
        r matches Err(e) ==> fault_of_file(
            png_palette(bytes@, usize::MAX),
            png_picture(bytes@, usize::MAX),
            e,
        ),
        match picture_of(png_palette(bytes@, usize::MAX), png_picture(bytes@, usize::MAX)) {
            None => r is Err,
            Some(p) => exists|samples: ButtonSamples| #[trigger]
                call_ensures(locate, (p.width, p.height), samples) && r == picture_class(
                    p,
                    samples,
                ),
        },
{
    if let Ok((PixelFormat::Indexed, Some(len))) = read_palette(bytes) {
        if len % 3 != 0 {
            return Err(ScreenshotError::BrokenPalette);
        }
    }
    match decode_png(bytes) {
        Err(e) => Err(ScreenshotError::Decode(e)),
        Ok(None) => Err(ScreenshotError::TooLarge),
        Ok(Some(p)) => {
            let samples = locate(p.width, p.height);
            classify_picture(&p, &samples)
        },
    }
}

/// Whether the pixel at a column and row has a tone, by the bytes of the picture:
/// three for each pixel, or four where there is an alpha channel, row by row.
pub open spec fn shows(p: PictureView, at: (usize, usize), tone: Tone) -> bool {
    let step: int = if p.format is Rgba {
        4
    } else {
        3
    };
    let i = (at.1 * p.width + at.0) * step;
    let (r, g, b) = (p.data[i], p.data[i + 1], p.data[i + 2]);
    match tone {
        Tone::Gold => r >= 201 && g >= 161 && r > g && 66 <= b <= 179,
        Tone::Blue => b >= 96 && b - g >= 26 && g - r >= 16,
    }
}

/// The places among the points at which a picture has a tone.
pub open spec fn places(p: PictureView, points: Seq<(usize, usize)>, tone: Tone) -> Set<int> {
    Set::new(|i: int| 0 <= i < points.len() && shows(p, points[i], tone))
}

/// A pixel within a whole picture has a tone exactly if its own bytes have.
pub proof fn pixels_are_read_from_their_bytes(p: PictureView, at: (usize, usize), tone: Tone)
    requires
        is_whole(p),
        p.format is Rgb || p.format is Rgba,
        at.0 < p.width && at.1 < p.height,
    ensures
        has_tone(tone, color_at(p, at)) <==> shows(p, at, tone),
{
    let n = pixel_bytes(p.format)->0;
    let w = p.width as int;
    let h = p.height as int;
    assert((at.1 * w + at.0) * n + n <= w * h * n) by (nonlinear_arith)
        requires
            0 <= at.0 < w,
            0 <= at.1 < h,
            0 <= n,
    ;
    assert(0 <= (at.1 * w + at.0) * n) by (nonlinear_arith)
        requires
            0 <= at.0,
            0 <= at.1,
            0 <= w,
            0 <= n,
    ;
    crate::autoplay::buttons::colors_have_their_limits(color_at(p, at));
}

/// The points at which a picture has a tone are counted one by one: the count is
/// the number of places at which it has it.
pub proof fn every_place_counts_once(p: PictureView, points: Seq<(usize, usize)>, tone: Tone)
    requires
        is_whole(p),
        p.format is Rgb || p.format is Rgba,
        forall|i: int|
            0 <= i < points.len() ==> (#[trigger] points[i]).0 < p.width && points[i].1 < p.height,
    ensures
        places(p, points, tone).finite(),
        tone_hits(p, points, tone) == places(p, points, tone).len(),
        tone_hits(p, points, tone) <= points.len(),
    decreases points.len(),
{
    if points.len() == 0 {
        assert(places(p, points, tone) =~= Set::empty());
    } else {
        let front = points.drop_last();
        let last = points.len() - 1;
        assert forall|i: int| 0 <= i < front.len() implies (#[trigger] front[i]).0 < p.width
            && front[i].1 < p.height by {
            assert(front[i] == points[i]);
        }
        every_place_counts_once(p, front, tone);
        assert(points[last].0 < p.width);
        pixels_are_read_from_their_bytes(p, points.last(), tone);
        if shows(p, points.last(), tone) {
            assert(places(p, points, tone) =~= places(p, front, tone).insert(last));
            assert(!places(p, front, tone).contains(last));
        } else {
            assert(places(p, points, tone) =~= places(p, front, tone));
        }
    }
}

/// A screen is told by each button's own points and own colour. It is the dialog
/// exactly if the dialog's points are gold at 18 places or more. Otherwise it is
/// Rematch exactly if Rematch's points are blue at 13 or more, and it is Confirm
/// exactly if those are blue nowhere and Confirm's points are gold at 18 or more.
pub proof fn a_screen_is_told_by_its_own_buttons(p: PictureView, samples: ButtonSamples)
    requires
        is_whole(p),
        p.format is Rgb || p.format is Rgba,
        buttons_inside(p, samples),
    ensures
        ({
            let dialog = places(p, samples.dialog@, Tone::Gold).len();
            let rematch = places(p, samples.rematch@, Tone::Blue).len();
            let confirm = places(p, samples.confirm@, Tone::Gold).len();
            &&& shown(p, samples) is Dialog <==> dialog >= 18
            &&& shown(p, samples) is Rematch <==> dialog < 18 && rematch >= 13
            &&& shown(p, samples) is Confirm <==> dialog < 18 && rematch == 0 && confirm >= 18
        }),
{
    assert(samples.dialog@.len() == 32 && samples.rematch@.len() == 32 && samples.confirm@.len()
        == 32);
    points_inside_are_inside(p, samples);
    every_place_counts_once(p, samples.dialog@, Tone::Gold);
    every_place_counts_once(p, samples.rematch@, Tone::Blue);
    every_place_counts_once(p, samples.confirm@, Tone::Gold);
    crate::autoplay::buttons::screens_are_told_by_their_points(
        tone_hits(p, samples.rematch@, Tone::Blue) as u32,
        tone_hits(p, samples.dialog@, Tone::Gold) as u32,
        tone_hits(p, samples.confirm@, Tone::Gold) as u32,
    );
}

/// The buttons lie within a picture exactly if each of their points has a column
/// below its width and a row below its height.
pub proof fn points_inside_are_inside(p: PictureView, samples: ButtonSamples)
    ensures
        buttons_inside(p, samples) <==> {
            &&& forall|i: int|
                0 <= i < 32 ==> (#[trigger] samples.rematch@[i]).0 < p.width
                    && samples.rematch@[i].1 < p.height
            &&& forall|i: int|
                0 <= i < 32 ==> (#[trigger] samples.dialog@[i]).0 < p.width && samples.dialog@[i].1
                    < p.height
            &&& forall|i: int|
                0 <= i < 32 ==> (#[trigger] samples.confirm@[i]).0 < p.width
                    && samples.confirm@[i].1 < p.height
        },
{
    assert(samples.dialog@.len() == 32 && samples.rematch@.len() == 32 && samples.confirm@.len()
        == 32);
    if buttons_inside(p, samples) {
        assert forall|i: int| 0 <= i < 32 implies (#[trigger] samples.rematch@[i]).0 < p.width
            && samples.rematch@[i].1 < p.height by {
            assert(inside(p, samples.rematch@[i]));
        }
        assert forall|i: int| 0 <= i < 32 implies (#[trigger] samples.dialog@[i]).0 < p.width
            && samples.dialog@[i].1 < p.height by {
            assert(inside(p, samples.dialog@[i]));
        }
        assert forall|i: int| 0 <= i < 32 implies (#[trigger] samples.confirm@[i]).0 < p.width
            && samples.confirm@[i].1 < p.height by {
            assert(inside(p, samples.confirm@[i]));
        }
    }
}

/// Screenshots come with three bytes for a pixel, or with four where there is an
/// alpha channel, and in no other format. A palette counts only where the pixels
/// refer to one, and it is made of whole colours.
pub proof fn formats_are_told_apart(format: PixelFormat, len: usize)
    ensures
        pixel_bytes(format) == Some(3int) <==> format is Rgb,
        pixel_bytes(format) == Some(4int) <==> format is Rgba,
        pixel_bytes(format) is None <==> !(format is Rgb) && !(format is Rgba),
        palette_fits(None),
        palette_fits(Some((format, None))),
        palette_fits(Some((format, Some(len)))) <==> !(format is Indexed) || len % 3 == 0,
{
}

/// What comes of a picture, looked at in the places given.
pub open spec fn picture_class(p: PictureView, samples: ButtonSamples) -> Result<
    Screen,
    ScreenshotError,
> {
    if pixel_bytes(p.format) is None {
        Err(ScreenshotError::UnsupportedColor)
    } else if !buttons_inside(p, samples) {
        Err(ScreenshotError::ButtonOutside)
    } else {
        Ok(shown(p, samples))
    }
}

/// A picture is told exactly if it has a format that screenshots come in and every
/// place to look at lies within it. The format is seen to first.
pub proof fn a_picture_is_told_or_refused(p: PictureView, samples: ButtonSamples, screen: Screen)
    ensures
        ({
            let known = p.format is Rgb || p.format is Rgba;
            let in_it = |points: Seq<(usize, usize)>|
                forall|i: int|
                    0 <= i < 32 ==> (#[trigger] points[i]).0 < p.width && points[i].1 < p.height;
            let within = in_it(samples.rematch@) && in_it(samples.dialog@) && in_it(
                samples.confirm@,
            );
            &&& picture_class(p, samples) is Ok <==> known && within
            &&& picture_class(p, samples) == Err::<Screen, ScreenshotError>(
                ScreenshotError::UnsupportedColor,
            ) <==> !known
            &&& picture_class(p, samples) == Err::<Screen, ScreenshotError>(
                ScreenshotError::ButtonOutside,
            ) <==> known && !within
            &&& picture_class(p, samples) == Ok::<Screen, ScreenshotError>(screen) ==> screen
                == shown(p, samples)
        }),
{
    points_inside_are_inside(p, samples);
}

/// The picture of a file, from what is read before the pixels and what is decoded.
pub open spec fn picture_of(
    palette: Option<(PixelFormat, Option<usize>)>,
    picture: Option<Option<PictureView>>,
) -> Option<PictureView> {
    if palette_fits(palette) && picture is Some {
        picture->0
    } else {
        None
    }
}

/// Whether an error is the one to give for a file.
pub open spec fn fault_of_file(
    palette: Option<(PixelFormat, Option<usize>)>,
    picture: Option<Option<PictureView>>,
    error: ScreenshotError,
) -> bool {
    match error {
        ScreenshotError::BrokenPalette => !palette_fits(palette),
        ScreenshotError::Decode(_) => palette_fits(palette) && picture is None,
        ScreenshotError::TooLarge => palette_fits(palette) && picture == Some(None::<PictureView>),
        _ => picture_of(palette, picture) is Some,
    }
}

/// A file has a picture exactly if its palette is made of whole colours, it can be
/// decoded and it fits in memory. Each of the three has an error of its own, in
/// that order.
pub proof fn files_are_refused_for_their_fault(
    palette: Option<(PixelFormat, Option<usize>)>,
    picture: Option<Option<PictureView>>,
    error: ScreenshotError,
)
    ensures
        ({
            let broken = palette matches Some((format, len)) && format is Indexed && len is Some
                && len->0 % 3 != 0;
            &&& picture_of(palette, picture) is Some <==> !broken && picture is Some && picture->0
                is Some
            &&& picture_of(palette, picture) matches Some(p) ==> picture == Some(Some(p))
            &&& fault_of_file(palette, picture, error) && broken ==> error is BrokenPalette
            &&& fault_of_file(palette, picture, error) && !broken && picture is None ==> error
                is Decode
            &&& fault_of_file(palette, picture, error) && !broken && picture == Some(
                None::<PictureView>,
            ) ==> error is TooLarge
            &&& fault_of_file(palette, picture, error) && picture_of(palette, picture) is Some
                ==> error is UnsupportedColor || error is ButtonOutside
        }),
{
}

/// A picture is as wide and high as it says, in its format and with its bytes.
pub proof fn pictures_are_seen_as_they_are(p: Picture)
    ensures
        p@.width == p.width && p@.height == p.height,
        p@.format == p.format,
        p@.data == p.data@,
{
}

} // verus!
