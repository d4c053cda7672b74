//! Choosing the surface layout for a video track and laying out its planes.

use vstd::prelude::*;

verus! {

/// Pixel layouts that a video decoder hands out.
#[derive(Clone, Copy, Debug, PartialEq, Eq, Structural)]
pub enum PixelFormat {
    /// Planar luma plus two quarter-size chroma planes.
    I420,
    /// Planar luma plus one interleaved chroma plane.
    NV12,
    /// One byte per pixel, looked up in a palette.
    Indexed,
    /// Packed red, green and blue bytes.
    Rgb24,
}

/// Layouts that the presentation surface shows natively.
#[derive(Clone, Copy, Debug, PartialEq, Eq, Structural)]
pub enum SurfaceFormat {
    /// Planar YUV with quarter-size chroma planes (luma, then U, then V).
    Iyuv,
    /// Packed red, green and blue bytes.
    Rgb24,
}

/// How a video track is shown: the layout frames are converted into, the
/// matching surface layout, and the width the surface is created with.
#[derive(Clone, Copy, Debug, PartialEq, Eq, Structural)]
pub struct SdlVideoFormat {
    pub media_pixel_format: PixelFormat,
    pub sdl_pixel_format: SurfaceFormat,
    pub sdl_width: u16,
}

pub open spec fn is_planar_yuv(f: PixelFormat) -> bool {
    f == PixelFormat::I420 || f == PixelFormat::NV12
}

/// The layout that frames of a track in format `f` are converted into.
pub open spec fn canonical_pixel_format(f: PixelFormat) -> PixelFormat {
    if is_planar_yuv(f) {
        PixelFormat::I420
    } else {
        PixelFormat::Rgb24
    }
}

/// The surface layout on which frames of a track in format `f` are shown.
pub open spec fn surface_format_of(f: PixelFormat) -> SurfaceFormat {
    if is_planar_yuv(f) {
        SurfaceFormat::Iyuv
    } else {
        SurfaceFormat::Rgb24
    }
}

/// `w` rounded down to an even number.
pub open spec fn even_width(w: int) -> int {
    w - w % 2
}

impl SdlVideoFormat {
    /// Picks the surface layout for a track with the given native pixel
    /// format and width. Odd widths are cropped by one column, since some
    /// surfaces reject them.
    pub fn from_video_track(pixel_format: PixelFormat, width: u16) -> (r: SdlVideoFormat)
        ensures
            r.media_pixel_format == canonical_pixel_format(pixel_format),
            r.sdl_pixel_format == surface_format_of(pixel_format),
            r.sdl_width == even_width(width as int),
    {
        let (media_pixel_format, sdl_pixel_format) = match pixel_format {
            PixelFormat::I420 | PixelFormat::NV12 => (PixelFormat::I420, SurfaceFormat::Iyuv),
            PixelFormat::Indexed | PixelFormat::Rgb24 => (PixelFormat::Rgb24, SurfaceFormat::Rgb24),
        };
        let sdl_width: u16 = width & !1u16;
        assert(width & !1u16 == width - width % 2) by (bit_vector);
        SdlVideoFormat { media_pixel_format, sdl_pixel_format, sdl_width }
    }
}

/// Whatever the native format and width, a track is converted into one of
/// the two layouts the surface shows, the surface layout agrees with it, and
/// the surface width is even and no wider than the track.
pub proof fn lemma_mapping_is_canonical(pixel_format: PixelFormat, width: u16)
    ensures
        canonical_pixel_format(pixel_format) == PixelFormat::I420
            || canonical_pixel_format(pixel_format) == PixelFormat::Rgb24,
        (canonical_pixel_format(pixel_format) == PixelFormat::I420)
            == (surface_format_of(pixel_format) == SurfaceFormat::Iyuv),
        even_width(width as int) % 2 == 0,
        0 <= even_width(width as int) <= width,
{
}


/// The region of a surface pixel buffer that holds one plane.
#[derive(Clone, Copy, Debug, PartialEq, Eq, Structural)]
pub struct PlaneRegion {
    /// Index of the plane's first byte in the buffer.
    pub offset: usize,
    /// Number of bytes the plane occupies.
    pub length: usize,
    /// Bytes from the start of one row of the plane to the start of the next.
    pub stride: usize,
}

/// Why a surface pixel buffer cannot take a frame.
#[derive(Clone, Copy, Debug, PartialEq, Eq, Structural)]
pub enum LayoutError {
    /// The buffer is shorter than the planes of the layout need.
    BufferTooSmall,
}

/// Bytes of the luma plane (or of the one packed plane) of a buffer with
/// rows `stride` bytes apart and `height` rows.
pub open spec fn luma_length(stride: int, height: int) -> int {
    stride * height
}

/// Bytes of each chroma plane of a planar YUV buffer: half the stride, half
/// the rows.
pub open spec fn chroma_length(stride: int, height: int) -> int {
    (stride / 2) * (height / 2)
}

/// Bytes that a buffer of the given layout, stride and height must hold.
pub open spec fn required_length_of(format: SurfaceFormat, stride: int, height: int) -> int {
    match format {
        SurfaceFormat::Iyuv => luma_length(stride, height) + 2 * chroma_length(stride, height),
        SurfaceFormat::Rgb24 => luma_length(stride, height),
    }
}

pub open spec fn region_is(p: PlaneRegion, offset: int, length: int, stride: int) -> bool {
    p.offset == offset && p.length == length && p.stride == stride
}

/// The planes of a buffer of the given layout: for planar YUV the luma plane
/// first, then the U plane, then the V plane, each right after the other.
pub open spec fn planes_are(
    planes: Seq<PlaneRegion>,
    format: SurfaceFormat,
    stride: int,
    height: int,
) -> bool {
    match format {
        SurfaceFormat::Iyuv => {
            let luma = luma_length(stride, height);
            let chroma = chroma_length(stride, height);
            &&& planes.len() == 3
            &&& region_is(planes[0], 0, luma, stride)
            &&& region_is(planes[1], luma, chroma, stride / 2)
            &&& region_is(planes[2], luma + chroma, chroma, stride / 2)
        },
        SurfaceFormat::Rgb24 => {
            &&& planes.len() == 1
            &&& region_is(planes[0], 0, luma_length(stride, height), stride)
        },
    }
}

/// Bytes that a surface buffer of the given layout needs, or `None` where
/// that number does not fit in a `usize`.
pub fn required_length(format: SurfaceFormat, stride: usize, height: usize) -> (r: Option<usize>)
    ensures
        r == (if required_length_of(format, stride as int, height as int) <= usize::MAX {
            Some(required_length_of(format, stride as int, height as int) as usize)
        } else {
            None::<usize>
        }),
{
    proof {
        lemma_chroma_within_luma(stride as int, height as int);
    }
    let luma = match stride.checked_mul(height) {
        Some(v) => v,
        None => return None,
    };
    match format {
        SurfaceFormat::Rgb24 => Some(luma),
        SurfaceFormat::Iyuv => {
            let chroma = (stride / 2) * (height / 2);
            match luma.checked_add(chroma) {
                Some(v) => v.checked_add(chroma),
                None => None,
            }
        },
    }
}

proof fn lemma_chroma_within_luma(stride: int, height: int)
    requires
        0 <= stride,
        0 <= height,
    ensures
        0 <= chroma_length(stride, height) <= luma_length(stride, height),
{
    assert(0 <= stride / 2 <= stride);
    assert(0 <= height / 2 <= height);
    assert(0 <= (stride / 2) * (height / 2) <= stride * height) by (nonlinear_arith)
        requires
            0 <= stride / 2 <= stride,
            0 <= height / 2 <= height,
    ;
}

/// Splits a surface pixel buffer of `buffer_length` bytes, with rows
/// `stride` bytes apart and `height` rows, into the regions of its planes.
/// A buffer shorter than the layout needs is refused rather than overrun.
pub fn output_planes(
    format: SurfaceFormat,
    stride: usize,
    height: usize,
    buffer_length: usize,
) -> (r: Result<Vec<PlaneRegion>, LayoutError>)
    ensures
        r is Err <==> required_length_of(format, stride as int, height as int) > buffer_length,
        r matches Err(e) ==> e == LayoutError::BufferTooSmall,
        r matches Ok(planes) ==> planes_are(planes@, format, stride as int, height as int),
{
    proof {
        lemma_chroma_within_luma(stride as int, height as int);
    }
    let required = match required_length(format, stride, height) {
        Some(n) => n,
        None => return Err(LayoutError::BufferTooSmall),
    };
    if required > buffer_length {
        return Err(LayoutError::BufferTooSmall);
    }
    let luma = stride * height;
    let mut planes: Vec<PlaneRegion> = Vec::new();
    planes.push(PlaneRegion { offset: 0, length: luma, stride });
    match format {
        SurfaceFormat::Iyuv => {
            let chroma_stride = stride / 2;
            let chroma = chroma_stride * (height / 2);
            planes.push(PlaneRegion { offset: luma, length: chroma, stride: chroma_stride });
            planes.push(
                PlaneRegion { offset: luma + chroma, length: chroma, stride: chroma_stride },
            );
        },
        SurfaceFormat::Rgb24 => {},
    }
    Ok(planes)
}

/// For planar YUV the luma plane takes `stride * height` bytes, each chroma
/// plane `(stride / 2) * (height / 2)`, and the buffer needs their sum; the
/// three planes follow one another without gap or overlap and end exactly
/// at the required length.
pub proof fn lemma_yuv_plane_sizes(planes: Seq<PlaneRegion>, stride: usize, height: usize)
    requires
        planes_are(planes, SurfaceFormat::Iyuv, stride as int, height as int),
    ensures
        planes[0].length == stride * height,
        planes[1].length == (stride / 2) * (height / 2),
        planes[2].length == (stride / 2) * (height / 2),
        required_length_of(SurfaceFormat::Iyuv, stride as int, height as int) == stride * height
            + 2 * ((stride / 2) * (height / 2)),
        planes[0].offset + planes[0].length == planes[1].offset,
        planes[1].offset + planes[1].length == planes[2].offset,
        planes[2].offset + planes[2].length == required_length_of(
            SurfaceFormat::Iyuv,
            stride as int,
            height as int,
        ),
{
}

} // verus!
