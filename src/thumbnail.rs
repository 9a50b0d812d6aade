//! The thumbnail engine: decodes image bytes and scales them to a target box.
use vstd::prelude::*;

verus! {

#[verifier::external_type_specification]
#[verifier::external_body]
pub struct ExDynamicImage(image::DynamicImage);

/// A decoded image together with its dimensions in pixels.
pub struct Picture {
    pixels: image::DynamicImage,
    width: u32,
    height: u32,
}

impl View for Picture {
    /// Width and height in pixels.
    type V = (u32, u32);

    closed spec fn view(&self) -> (u32, u32) {
        (self.width, self.height)
    }
}

impl Picture {
    /// Width in pixels.
    pub fn width(&self) -> (r: u32)
        ensures
            r == self@.0,
    {
        self.width
    }

    /// Height in pixels.
    pub fn height(&self) -> (r: u32)
        ensures
            r == self@.1,
    {
        self.height
    }

    /// The decoded pixels, for encoding and storing.
    pub fn image(&self) -> &image::DynamicImage {
        &self.pixels
    }
}

/// The dimensions of the image that `bytes` decode to, or `None` where they
/// do not decode.
pub uninterp spec fn decoded_dims_of(bytes: Seq<u8>) -> Option<(u32, u32)>;

/// Relies on `image::load_from_memory` (format guessed from the bytes), with
/// the dimensions read off the result: whether bytes decode, and to which
/// size, depends on the bytes alone. An error is handed back as its text.
#[verifier::external_body]
fn decode(bytes: &[u8]) -> (r: Result<Picture, String>)
    ensures
        r is Ok <==> decoded_dims_of(bytes@) is Some,
        r is Ok ==> decoded_dims_of(bytes@) == Some(r->Ok_0@),
{
    match image::load_from_memory(bytes) {
        Ok(img) => Ok(Picture { width: img.width(), height: img.height(), pixels: img }),
        Err(e) => Err(e.to_string()),
    }
}

/// Whether a pixel buffer of about `width` by `height` fits in memory
/// addressing (the buffer holds up to four samples per pixel).
pub open spec fn buffer_fits(width: u32, height: u32) -> bool {
    (width as int + 1) * (height as int + 1) * 4 <= usize::MAX
}

/// Relies on `DynamicImage::thumbnail_exact`, which allocates its result as a
/// buffer of exactly `nwidth` by `nheight` pixels (and panics where that
/// buffer's length overflows `usize`).
#[verifier::external_body]
fn scale_exact(p: &Picture, nwidth: u32, nheight: u32) -> (r: Picture)
    requires
        buffer_fits(nwidth, nheight),
    ensures
        r@ == (nwidth, nheight),
{
    let img = p.pixels.thumbnail_exact(nwidth, nheight);
    Picture { width: img.width(), height: img.height(), pixels: img }
}

/// Relies on `DynamicImage::thumbnail`: the image is scaled, aspect ratio
/// kept, to the largest size that fits within `nwidth` by `nheight`, so one
/// side meets its bound.
#[verifier::external_body]
fn scale_fit(p: &Picture, nwidth: u32, nheight: u32) -> (r: Picture)
    requires
        buffer_fits(nwidth, nheight),
    ensures
        nwidth >= 1 && nheight >= 1 ==> r@.0 <= nwidth && r@.1 <= nheight,
        nwidth >= 1 && nheight >= 1 && p@.0 >= 1 && p@.1 >= 1 ==> r@.0 == nwidth || r@.1
            == nheight,
{
    let img = p.pixels.thumbnail(nwidth, nheight);
    Picture { width: img.width(), height: img.height(), pixels: img }
}

/// The target box of thumbnails and how images are fitted into it.
#[derive(Debug, Clone, Copy)]
pub struct ThumbnailOptions {
    pub width: u32,
    pub height: u32,
    /// Stretch to exactly `width` by `height` (`true`), or keep the aspect
    /// ratio and fit within the box (`false`).
    pub exact_size: bool,
}

/// Makes thumbnails of one geometry.
#[derive(Debug, Clone)]
pub struct ThumbnailCreator {
    opt: ThumbnailOptions,
}

/// Why a thumbnail could not be made.
#[derive(Debug)]
pub enum ThumbnailError {
    InvalidImage(String),
}

/// The mathematical value of a `ThumbnailError`.
pub enum ThumbnailFault {
    InvalidImage(Seq<char>),
}

impl View for ThumbnailError {
    type V = ThumbnailFault;

    open spec fn view(&self) -> ThumbnailFault {
        match self {
            ThumbnailError::InvalidImage(d) => ThumbnailFault::InvalidImage(d@),
        }
    }
}

/// The human-readable text of a thumbnail failure.
pub open spec fn thumbnail_message(f: ThumbnailFault) -> Seq<char> {
    match f {
        ThumbnailFault::InvalidImage(d) => "Could not parse image: "@ + d,
    }
}

impl ThumbnailError {
    /// The human-readable text of this failure.
    pub fn message(&self) -> (r: String)
        ensures
            r@ == thumbnail_message(self@),
    {
        match self {
            ThumbnailError::InvalidImage(d) => {
                let mut r = String::from_str("Could not parse image: ");
                r.append(d.as_str());
                r
            },
        }
    }
}

/// Whether a thumbnail of `w` by `h` is what `opt` asks of a source of
/// `w0` by `h0`: the source itself where it already has the target size;
/// else exactly the target size in exact mode; else a fit within the box
/// that meets it on one side.
pub open spec fn thumbnail_dims_ok(opt: ThumbnailOptions, w0: u32, h0: u32, w: u32, h: u32) -> bool {
    if w0 == opt.width && h0 == opt.height {
        w == w0 && h == h0
    } else if opt.exact_size {
        w == opt.width && h == opt.height
    } else {
        (opt.width >= 1 && opt.height >= 1 ==> w <= opt.width && h <= opt.height) && (
        opt.width >= 1 && opt.height >= 1 && w0 >= 1 && h0 >= 1 ==> w == opt.width || h
            == opt.height)
    }
}

impl View for ThumbnailCreator {
    type V = ThumbnailOptions;

    closed spec fn view(&self) -> ThumbnailOptions {
        self.opt
    }
}

impl ThumbnailCreator {
    pub fn new(options: ThumbnailOptions) -> (r: Self)
        ensures
            r@ == options,
    {
        ThumbnailCreator { opt: options }
    }

    /// Decodes `bytes` and scales the image to the configured box; an image
    /// that already has the target size is returned as decoded.
    pub fn make_thumbnail(&self, bytes: &[u8]) -> (r: Result<Picture, ThumbnailError>)
        requires
            buffer_fits(self@.width, self@.height),
        ensures
            r is Ok <==> decoded_dims_of(bytes@) is Some,
            r is Ok ==> thumbnail_dims_ok(
                self@,
                (decoded_dims_of(bytes@)->0).0,
                (decoded_dims_of(bytes@)->0).1,
                r->Ok_0@.0,
                r->Ok_0@.1,
            ),
            r is Err ==> r->Err_0@ is InvalidImage,
    {
        let img = match decode(bytes) {
            Ok(p) => p,
            Err(e) => {
                return Err(ThumbnailError::InvalidImage(e));
            },
        };
        if img.width != self.opt.width || img.height != self.opt.height {
            return Ok(self.resize_image(&img));
        }
        Ok(img)
    }

    fn resize_image(&self, img: &Picture) -> (r: Picture)
        requires
            buffer_fits(self@.width, self@.height),
            !(img@.0 == self@.width && img@.1 == self@.height),
        ensures
            thumbnail_dims_ok(self@, img@.0, img@.1, r@.0, r@.1),
    {
        if self.opt.exact_size {
            scale_exact(img, self.opt.width, self.opt.height)
        } else {
            scale_fit(img, self.opt.width, self.opt.height)
        }
    }
}

/// In exact mode every thumbnail has exactly the target size.
pub proof fn lemma_exact_mode_hits_target(opt: ThumbnailOptions, w0: u32, h0: u32, w: u32, h: u32)
    requires
        opt.exact_size,
        thumbnail_dims_ok(opt, w0, h0, w, h),
    ensures
        w == opt.width && h == opt.height,
{
}

/// In fit mode with a square, non-empty target box, the larger side of the
/// thumbnail of a non-empty image equals the box's side.
pub proof fn lemma_fit_mode_larger_side(opt: ThumbnailOptions, w0: u32, h0: u32, w: u32, h: u32)
    requires
        !opt.exact_size,
        opt.width == opt.height,
        opt.width >= 1,
        w0 >= 1,
        h0 >= 1,
        thumbnail_dims_ok(opt, w0, h0, w, h),
    ensures
        (if w >= h {
            w
        } else {
            h
        }) == opt.width,
{
}

} // verus!
