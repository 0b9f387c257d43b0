//! Frames of pixels, and the unit that a search resizes and encodes: one
//! image, or a sequence of equal-sized frames with a shared delay.
use vstd::prelude::*;
use crate::engine::SCALE_ONE;
use image::AnimationDecoder;

verus! {

#[verifier::external_type_specification]
#[verifier::external_body]
pub struct ExDynamicImage(image::DynamicImage);

#[verifier::external_type_specification]
#[verifier::external_body]
pub struct ExDelay(image::Delay);

#[verifier::external_type_specification]
#[verifier::external_body]
pub struct ExImageFormat(image::ImageFormat);

#[verifier::external_type_specification]
#[verifier::external_body]
pub struct ExImageError(image::ImageError);

pub assume_specification[ image::DynamicImage::width ](img: &image::DynamicImage) -> u32;

pub assume_specification[ image::DynamicImage::height ](img: &image::DynamicImage) -> u32;

/// Why a unit could not be built, resized or encoded.
#[derive(Debug)]
pub enum MediaError {
    /// The codec refused to encode or decode.
    Codec(image::ImageError),
    /// A sequence with no frames.
    EmptySequence,
    /// A sequence whose frames differ in size.
    MismatchedFrames,
    /// A scaled size that does not fit in memory.
    DimensionOverflow,
}

/// A frame of pixels together with its size.
pub struct Raster {
    pixels: image::DynamicImage,
    width: u32,
    height: u32,
}

impl View for Raster {
    type V = (u32, u32);

    /// Width and height.
    closed spec fn view(&self) -> (u32, u32) {
        (self.width, self.height)
    }
}

/// Whether resampling a `from` frame to `to` keeps every buffer, four
/// channels of up to four bytes per pixel, within what can be allocated.
pub open spec fn buffers_fit(from: (u32, u32), to: (u32, u32)) -> bool {
    &&& 16 * from.0 * to.1 <= isize::MAX
    &&& 16 * to.0 * to.1 <= isize::MAX
}

/// Relies on image's `DynamicImage::resize_exact`, with the Lanczos filter:
/// the result is exactly `width` by `height` pixels. It allocates one buffer
/// of the source width by the new height and one of the new size, and panics
/// only where one of them overflows.
#[verifier::external_body]
fn resample(src: &Raster, width: u32, height: u32) -> (r: Raster)
    requires
        width >= 1,
        height >= 1,
        buffers_fit(src@, (width, height)),
    ensures
        r@ == (width, height),
{
    let pixels = src.pixels.resize_exact(width, height, image::imageops::FilterType::Lanczos3);
    Raster { width: pixels.width(), height: pixels.height(), pixels }
}

/// Relies on image's `DynamicImage::write_to`, into memory, in `format`.
#[verifier::external_body]
fn encode_image(img: &image::DynamicImage, format: image::ImageFormat) -> (r: Result<
    Vec<u8>,
    image::ImageError,
>) {
    let mut out = std::io::Cursor::new(Vec::new());
    img.write_to(&mut out, format)?;
    Ok(out.into_inner())
}

/// Relies on image's `GifEncoder`: every frame with the same `delay`, looping
/// forever.
#[verifier::external_body]
fn encode_gif(frames: &Vec<Raster>, delay: image::Delay) -> (r: Result<Vec<u8>, image::ImageError>) {
    let mut out: Vec<u8> = Vec::new();
    {
        let mut encoder = image::codecs::gif::GifEncoder::new(&mut out);
        encoder.set_repeat(image::codecs::gif::Repeat::Infinite)?;
        encoder.encode_frames(
            frames.iter().map(|f| image::Frame::from_parts(f.pixels.to_rgba8(), 0, 0, delay)),
        )?;
    }
    Ok(out)
}

/// Relies on image's `load_from_memory_with_format`.
#[verifier::external_body]
fn decode_image(bytes: &[u8], format: image::ImageFormat) -> (r: Result<
    image::DynamicImage,
    image::ImageError,
>) {
    image::load_from_memory_with_format(bytes, format)
}

/// Relies on image's `GifDecoder` and `AnimationDecoder::into_frames`: the
/// frames in order, as full images, and the first frame's delay.
#[verifier::external_body]
fn decode_gif(bytes: &[u8]) -> (r: Result<
    (Vec<image::DynamicImage>, Option<image::Delay>),
    image::ImageError,
>)
    ensures
        r is Ok ==> (r->Ok_0.1 is None <==> r->Ok_0.0@.len() == 0),
{
    let decoder = image::codecs::gif::GifDecoder::new(std::io::Cursor::new(bytes))?;
    let frames = decoder.into_frames().collect_frames()?;
    let delay = frames.first().map(|f| f.delay());
    Ok((frames.into_iter().map(|f| image::DynamicImage::from(f.into_buffer())).collect(), delay))
}

/// Images as frames, in order.
fn rasters(imgs: Vec<image::DynamicImage>) -> (r: Vec<Raster>)
    ensures
        r@.len() == imgs@.len(),
{
    let mut imgs = imgs;
    let mut frames: Vec<Raster> = Vec::new();
    let ghost n = imgs@.len();
    while imgs.len() > 0
        invariant
            frames@.len() + imgs@.len() == n,
        decreases imgs@.len(),
    {
        frames.push(Raster::new(imgs.remove(0)));
    }
    frames
}

impl Raster {
    pub fn new(pixels: image::DynamicImage) -> (r: Raster) {
        let width = pixels.width();
        let height = pixels.height();
        Raster { pixels, width, height }
    }

    pub fn width(&self) -> (r: u32)
        ensures
            r == self@.0,
    {
        self.width
    }

    pub fn height(&self) -> (r: u32)
        ensures
            r == self@.1,
    {
        self.height
    }

    pub fn pixels(&self) -> &image::DynamicImage {
        &self.pixels
    }
}

/// One side scaled by `scale` millionths, rounded down, and at least one.
pub open spec fn scaled_side(len: u32, scale: int) -> int {
    let d = len as int * scale / SCALE_ONE as int;
    if d < 1 { 1 } else { d }
}

/// What a search resizes: one image with the format it is encoded in, or
/// an animation of frames of one size sharing a delay.
pub enum ResizableUnit {
    Single { image: Raster, format: image::ImageFormat },
    Sequence { frames: Vec<Raster>, delay: image::Delay },
}

impl ResizableUnit {
    /// A sequence has frames, all of one size.
    pub open spec fn wf(&self) -> bool {
        match self {
            ResizableUnit::Single { .. } => true,
            ResizableUnit::Sequence { frames, .. } => {
                &&& frames@.len() > 0
                &&& forall|i: int| 0 <= i < frames@.len() ==> #[trigger] frames@[i]@ == frames@[0]@
            },
        }
    }

    /// Width and height of every frame.
    pub open spec fn dims(&self) -> (u32, u32) {
        match self {
            ResizableUnit::Single { image, .. } => image@,
            ResizableUnit::Sequence { frames, .. } => frames@[0]@,
        }
    }

    pub open spec fn frame_count(&self) -> nat {
        match self {
            ResizableUnit::Single { .. } => 1,
            ResizableUnit::Sequence { frames, .. } => frames@.len(),
        }
    }

    pub open spec fn is_sequence(&self) -> bool {
        self is Sequence
    }

    /// Raw pixel bytes, four per pixel over all frames, capped at `u64::MAX`.
    pub open spec fn raw_len(&self) -> int {
        let n = self.frame_count() * self.dims().0 * self.dims().1 * 4;
        if n > u64::MAX { u64::MAX as int } else { n }
    }

    pub fn single(image: Raster, format: image::ImageFormat) -> (r: ResizableUnit)
        ensures
            r.wf(),
            r == (ResizableUnit::Single { image, format }),
    {
        ResizableUnit::Single { image, format }
    }

    /// A sequence of `frames` shown `delay` apart; refused when empty or when
    /// two frames differ in size.
    pub fn sequence(frames: Vec<Raster>, delay: image::Delay) -> (r: Result<ResizableUnit, MediaError>)
        ensures
            r is Ok <==> frames@.len() > 0 && forall|i: int|
                0 <= i < frames@.len() ==> #[trigger] frames@[i]@ == frames@[0]@,
            r is Ok ==> r->Ok_0 == (ResizableUnit::Sequence { frames, delay }),
            r is Err ==> (r->Err_0 is EmptySequence <==> frames@.len() == 0),
            r is Err ==> (r->Err_0 is EmptySequence || r->Err_0 is MismatchedFrames),
    {
        if frames.len() == 0 {
            return Err(MediaError::EmptySequence);
        }
        let w = frames[0].width();
        let h = frames[0].height();
        let mut i: usize = 1;
        while i < frames.len()
            invariant
                1 <= i <= frames@.len(),
                (w, h) == frames@[0]@,
                forall|k: int| 0 <= k < i ==> #[trigger] frames@[k]@ == frames@[0]@,
            decreases frames@.len() - i,
        {
            if frames[i].width() != w || frames[i].height() != h {
                return Err(MediaError::MismatchedFrames);
            }
            i = i + 1;
        }
        Ok(ResizableUnit::Sequence { frames, delay })
    }

    pub fn dimensions(&self) -> (r: (u32, u32))
        requires
            self.wf(),
        ensures
            r == self.dims(),
    {
        match self {
            ResizableUnit::Single { image, .. } => (image.width(), image.height()),
            ResizableUnit::Sequence { frames, .. } => (frames[0].width(), frames[0].height()),
        }
    }

    pub fn frames_len(&self) -> (r: usize)
        ensures
            r == self.frame_count(),
    {
        match self {
            ResizableUnit::Single { .. } => 1,
            ResizableUnit::Sequence { frames, .. } => frames.len(),
        }
    }

    /// The frame at `i`.
    pub fn frame(&self, i: usize) -> (r: &Raster)
        requires
            i < self.frame_count(),
        ensures
            self.wf() ==> r@ == self.dims(),
    {
        match self {
            ResizableUnit::Single { image, .. } => image,
            ResizableUnit::Sequence { frames, .. } => &frames[i],
        }
    }

    pub fn raw_bytes(&self) -> (r: u64)
        requires
            self.wf(),
        ensures
            r == self.raw_len(),
    {
        let (w, h) = self.dimensions();
        let n = self.frames_len();
        proof {
            let m = u32::MAX as int;
            assert(w as int * h as int <= m * m) by (nonlinear_arith)
                requires 0 <= w <= m, 0 <= h <= m;
        }
        let per = (w as u128) * (h as u128) * 4;
        if per == 0 {
            assert(n * w * h * 4 == 0) by (nonlinear_arith) requires w * h * 4 == 0;
            return 0;
        }
        if n as u128 > (u64::MAX as u128) / per {
            assert(n * w * h * 4 > u64::MAX) by (nonlinear_arith)
                requires n > u64::MAX as int / (w * h * 4), w * h * 4 > 0;
            u64::MAX
        } else {
            assert(n * w * h * 4 <= u64::MAX) by (nonlinear_arith)
                requires n <= u64::MAX as int / (w * h * 4), w * h * 4 > 0;
            assert(n * (w * h * 4) == n * w * h * 4) by (nonlinear_arith);
            ((n as u128) * per) as u64
        }
    }

    /// Every frame resampled to `width` by `height`.
    pub fn resized(&self, width: u32, height: u32) -> (r: ResizableUnit)
        requires
            self.wf(),
            width >= 1,
            height >= 1,
            buffers_fit(self.dims(), (width, height)),
        ensures
            r.wf(),
            r.dims() == (width, height),
            r.frame_count() == self.frame_count(),
            r.is_sequence() == self.is_sequence(),
            r is Sequence ==> forall|i: int|
                0 <= i < r.frame_count() ==> #[trigger] r->Sequence_frames@[i]@ == (width, height),
            r is Sequence ==> r->Sequence_delay == self->Sequence_delay,
            r is Single ==> r->Single_format == self->Single_format,
    {
        match self {
            ResizableUnit::Single { image, format } => ResizableUnit::Single {
                image: resample(image, width, height),
                format: *format,
            },
            ResizableUnit::Sequence { frames, delay } => {
                let mut out: Vec<Raster> = Vec::new();
                let mut i: usize = 0;
                while i < frames.len()
                    invariant
                        self.wf(),
                        *self == (ResizableUnit::Sequence { frames: *frames, delay: *delay }),
                        buffers_fit(self.dims(), (width, height)),
                        width >= 1,
                        height >= 1,
                        i <= frames@.len(),
                        out@.len() == i,
                        forall|k: int| 0 <= k < i ==> #[trigger] out@[k]@ == (width, height),
                    decreases frames@.len() - i,
                {
                    assert(frames@[i as int]@ == frames@[0]@);
                    out.push(resample(&frames[i], width, height));
                    i = i + 1;
                }
                ResizableUnit::Sequence { frames: out, delay: *delay }
            },
        }
    }

    /// The width and height after scaling by `scale` millionths, or `None`
    /// where they would not fit.
    pub open spec fn scaled_dims(&self, scale: int) -> Option<(u32, u32)> {
        let w = scaled_side(self.dims().0, scale);
        let h = scaled_side(self.dims().1, scale);
        if w <= u32::MAX && h <= u32::MAX && buffers_fit(self.dims(), (w as u32, h as u32)) {
            Some((w as u32, h as u32))
        } else {
            None
        }
    }

    /// Every frame scaled by `scale` millionths on each side, rounded down
    /// and at least one pixel.
    pub fn scaled(&self, scale: i64) -> (r: Result<ResizableUnit, MediaError>)
        requires
            self.wf(),
            0 <= scale <= i64::MAX / 4,
        ensures
            r is Ok <==> self.scaled_dims(scale as int) is Some,
            r is Err ==> r->Err_0 is DimensionOverflow,
            r is Ok ==> {
                let u = r->Ok_0;
                &&& u.wf()
                &&& Some(u.dims()) == self.scaled_dims(scale as int)
                &&& u.frame_count() == self.frame_count()
                &&& u.is_sequence() == self.is_sequence()
                &&& u is Sequence ==> u->Sequence_delay == self->Sequence_delay
                &&& u is Single ==> u->Single_format == self->Single_format
            },
    {
        let (w, h) = self.dimensions();
        let side_w = scale_side(w, scale);
        let side_h = scale_side(h, scale);
        if side_w > u32::MAX as u128 || side_h > u32::MAX as u128 {
            return Err(MediaError::DimensionOverflow);
        }
        let nw = side_w as u32;
        let nh = side_h as u32;
        proof {
            let m = u32::MAX as int;
            assert(16 * w as int * nh as int <= 16 * m * m) by (nonlinear_arith)
                requires 0 <= w <= m, 0 <= nh <= m;
            assert(16 * nw as int * nh as int <= 16 * m * m) by (nonlinear_arith)
                requires 0 <= nw <= m, 0 <= nh <= m;
        }
        if 16 * (w as u128) * (nh as u128) > isize::MAX as u128 || 16 * (nw as u128) * (
        nh as u128) > isize::MAX as u128 {
            return Err(MediaError::DimensionOverflow);
        }
        Ok(self.resized(nw, nh))
    }

    /// Encodes every frame: a single image in its format, a sequence as a
    /// looping GIF.
    pub fn encode(&self) -> (r: Result<Vec<u8>, MediaError>)
        ensures
            r is Err ==> r->Err_0 is Codec,
    {
        let res = match self {
            ResizableUnit::Single { image, format } => encode_image(&image.pixels, *format),
            ResizableUnit::Sequence { frames, delay } => encode_gif(frames, *delay),
        };
        match res {
            Ok(b) => Ok(b),
            Err(e) => Err(MediaError::Codec(e)),
        }
    }

    /// Decodes `bytes` as a unit of the same kind as this one: in its format,
    /// or as a GIF with this unit's delay.
    pub fn decode_like(&self, bytes: &[u8]) -> (r: Result<ResizableUnit, MediaError>)
        ensures
            r is Ok ==> r->Ok_0.wf() && r->Ok_0.is_sequence() == self.is_sequence(),
            r is Err ==> !(r->Err_0 is DimensionOverflow),
            r is Err && !self.is_sequence() ==> r->Err_0 is Codec,
    {
        match self {
            ResizableUnit::Single { format, .. } => match decode_image(bytes, *format) {
                Ok(img) => Ok(ResizableUnit::Single { image: Raster::new(img), format: *format }),
                Err(e) => Err(MediaError::Codec(e)),
            },
            ResizableUnit::Sequence { delay, .. } => match decode_gif(bytes) {
                Ok((imgs, _)) => ResizableUnit::sequence(rasters(imgs), *delay),
                Err(e) => Err(MediaError::Codec(e)),
            },
        }
    }

    /// Decodes a GIF animation, shown with its first frame's delay.
    pub fn decode_sequence(bytes: &[u8]) -> (r: Result<ResizableUnit, MediaError>)
        ensures
            r is Ok ==> r->Ok_0.wf() && r->Ok_0.is_sequence(),
            r is Err ==> !(r->Err_0 is DimensionOverflow),
    {
        match decode_gif(bytes) {
            Ok((imgs, Some(delay))) => ResizableUnit::sequence(rasters(imgs), delay),
            Ok((_, None)) => Err(MediaError::EmptySequence),
            Err(e) => Err(MediaError::Codec(e)),
        }
    }
}

/// `len * scale / SCALE_ONE`, at least one.
fn scale_side(len: u32, scale: i64) -> (r: u128)
    requires
        0 <= scale <= i64::MAX / 4,
    ensures
        r == scaled_side(len, scale as int),
{
    proof {
        assert(len as int * scale as int <= u32::MAX as int * i64::MAX as int) by (nonlinear_arith)
            requires 0 <= len <= u32::MAX, 0 <= scale <= i64::MAX;
    }
    let d = (len as u128) * (scale as u128) / (SCALE_ONE as u128);
    if d < 1 { 1 } else { d }
}

} // verus!
