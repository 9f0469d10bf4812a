use crate::media_core::errors::MediaError;
use crate::media_core::picture::raster::{raster_bytes, PixelLayout, RasterImage};
use std::time::Duration;
use vstd::prelude::*;
use vstd::string::*;

verus! {

/// How the bytes of a frame are laid out.
#[derive(Debug, Clone, Copy, PartialEq, Eq, Structural)]
pub enum FrameFormat {
    RGB8,
    RGBA8,
    BGR8,
    BGRA8,
    YUV420P,
    Gray8,
}

/// One decoded picture: its bytes, its size and layout, and where it stands
/// in the stream. A frame is not changed after it was produced; it is handed
/// from the pipeline to the renderer whole.
#[derive(Debug, Clone)]
pub struct VideoFrame {
    pub data: Vec<u8>,
    pub width: u32,
    pub height: u32,
    pub format: FrameFormat,
    pub timestamp: Duration,
    pub pts: i64,
}

impl VideoFrame {
    pub fn new(
        data: Vec<u8>,
        width: u32,
        height: u32,
        format: FrameFormat,
        timestamp: Duration,
        pts: i64,
    ) -> (frame: Self)
        ensures
            frame == (VideoFrame { data, width, height, format, timestamp, pts }),
    {
        Self { data, width, height, format, timestamp, pts }
    }

    /// The layout of the picture that a frame of this format turns into, if
    /// it can be turned into one.
    pub open spec fn picture_layout(format: FrameFormat) -> Option<PixelLayout> {
        match format {
            FrameFormat::RGB8 | FrameFormat::BGR8 => Some(PixelLayout::Rgb8),
            FrameFormat::RGBA8 => Some(PixelLayout::Rgba8),
            FrameFormat::Gray8 => Some(PixelLayout::Luma8),
            FrameFormat::BGRA8 | FrameFormat::YUV420P => None,
        }
    }

    /// The bytes of the picture that the frame turns into: the frame's own,
    /// but for a frame in blue-green-red order, whose full pixels are
    /// turned round.
    pub open spec fn picture_bytes(&self) -> Seq<u8> {
        if self.format is BGR8 {
            bgr_swapped(self.data@)
        } else {
            self.data@
        }
    }

    /// The frame as a picture. Frames of red-green-blue, with or without
    /// alpha, and of grey become pictures of the same layout; frames of
    /// blue-green-red have their pixels turned round. The data must hold
    /// enough bytes for the size of the frame. Other formats cannot be
    /// turned into a picture.
    pub fn to_dynamic_image(&self) -> (result: Result<RasterImage, MediaError>)
        ensures
            match Self::picture_layout(self.format) {
                Some(layout) => if raster_bytes(layout, self.width, self.height)
                    <= self.picture_bytes().len() {
                    &&& result matches Ok(image)
                    &&& image.spec_layout() == layout
                    &&& image.spec_width() == self.width
                    &&& image.spec_height() == self.height
                    &&& image.spec_data() == self.picture_bytes()
                } else {
                    &&& result matches Err(MediaError::Image(m))
                    &&& m@ == "The Image's dimensions are either too small or too large"@
                },
                None => {
                    &&& result matches Err(MediaError::Video(m))
                    &&& m@ == "Unsupported format for conversion to DynamicImage"@
                },
            },
    {
        let image = match self.format {
            FrameFormat::RGB8 => RasterImage::from_raw(
                PixelLayout::Rgb8,
                self.width,
                self.height,
                self.data.clone(),
            ),
            FrameFormat::RGBA8 => RasterImage::from_raw(
                PixelLayout::Rgba8,
                self.width,
                self.height,
                self.data.clone(),
            ),
            FrameFormat::BGR8 => RasterImage::from_raw(
                PixelLayout::Rgb8,
                self.width,
                self.height,
                swap_bgr(&self.data),
            ),
            FrameFormat::Gray8 => RasterImage::from_raw(
                PixelLayout::Luma8,
                self.width,
                self.height,
                self.data.clone(),
            ),
            _ => {
                return Err(
                    MediaError::Video(
                        String::from_str("Unsupported format for conversion to DynamicImage"),
                    ),
                );
            },
        };
        match image {
            Some(image) => Ok(image),
            None => Err(
                MediaError::Image(
                    String::from_str("The Image's dimensions are either too small or too large"),
                ),
            ),
        }
    }
}

/// `DynamicImage::resize_exact` of the image crate, with the Lanczos filter,
/// on a picture given as its layout, its size and its bytes. The bytes must
/// suffice for the size. What comes back holds the bytes of a picture of the
/// same layout and the new size, which must fit into memory.
#[verifier::external_body]
fn resize_exact(
    layout: PixelLayout,
    width: u32,
    height: u32,
    data: Vec<u8>,
    new_width: u32,
    new_height: u32,
) -> (resized: Vec<u8>)
    requires
        raster_bytes(layout, width, height) <= data@.len(),
        raster_bytes(layout, new_width, new_height) <= usize::MAX,
    ensures
        resized@.len() == raster_bytes(layout, new_width, new_height),
{
    let filter = image::imageops::FilterType::Lanczos3;
    let picture = match layout {
        PixelLayout::Luma8 => image::DynamicImage::ImageLuma8(
            image::ImageBuffer::from_raw(width, height, data).unwrap(),
        ),
        PixelLayout::Rgb8 => image::DynamicImage::ImageRgb8(
            image::ImageBuffer::from_raw(width, height, data).unwrap(),
        ),
        PixelLayout::Rgba8 => image::DynamicImage::ImageRgba8(
            image::ImageBuffer::from_raw(width, height, data).unwrap(),
        ),
    };
    picture.resize_exact(new_width, new_height, filter).into_bytes()
}

/// The format of a frame made from a picture of the given layout.
pub open spec fn frame_format_of(layout: PixelLayout) -> FrameFormat {
    match layout {
        PixelLayout::Luma8 => FrameFormat::Gray8,
        PixelLayout::Rgb8 => FrameFormat::RGB8,
        PixelLayout::Rgba8 => FrameFormat::RGBA8,
    }
}

impl VideoFrame {
    /// The frame at a new size, resampled with the Lanczos filter. The
    /// frame must be one that turns into a picture; the frame that comes
    /// back has the layout of that picture, the new size, and the time
    /// stamps of this frame. The new size must fit into memory.
    pub fn resize(&self, new_width: u32, new_height: u32) -> (result: Result<Self, MediaError>)
        requires
            4 * new_width * new_height <= usize::MAX,
        ensures
            match Self::picture_layout(self.format) {
                Some(layout) => if raster_bytes(layout, self.width, self.height)
                    <= self.picture_bytes().len() {
                    &&& result matches Ok(frame)
                    &&& frame.width == new_width
                    &&& frame.height == new_height
                    &&& frame.format == frame_format_of(layout)
                    &&& frame.data@.len() == raster_bytes(layout, new_width, new_height)
                    &&& frame.timestamp == self.timestamp
                    &&& frame.pts == self.pts
                } else {
                    &&& result matches Err(MediaError::Image(m))
                    &&& m@ == "The Image's dimensions are either too small or too large"@
                },
                None => {
                    &&& result matches Err(MediaError::Video(m))
                    &&& m@ == "Unsupported format for conversion to DynamicImage"@
                },
            },
    {
        let picture = match self.to_dynamic_image() {
            Ok(picture) => picture,
            Err(error) => {
                return Err(error);
            },
        };
        let layout = picture.layout();
        let format = match layout {
            PixelLayout::Luma8 => FrameFormat::Gray8,
            PixelLayout::Rgb8 => FrameFormat::RGB8,
            PixelLayout::Rgba8 => FrameFormat::RGBA8,
        };
        let width = picture.width();
        let height = picture.height();
        assert(raster_bytes(layout, new_width, new_height) <= 4 * new_width * new_height)
            by (nonlinear_arith)
            requires
                raster_bytes(layout, new_width, new_height) == layout.spec_channels() * new_width
                    * new_height,
                layout.spec_channels() <= 4,
        ;
        let data = resize_exact(layout, width, height, picture.into_raw(), new_width, new_height);
        Ok(VideoFrame::new(data, new_width, new_height, format, self.timestamp, self.pts))
    }
}

/// Pixels of three bytes with the first and the last byte of each changed
/// over. Bytes after the last full pixel are left out.
pub open spec fn bgr_swapped(data: Seq<u8>) -> Seq<u8> {
    Seq::new(((data.len() / 3) * 3) as nat, |i: int| data[i - i % 3 + (2 - i % 3)])
}

/// Turns pixels in blue-green-red order into red-green-blue order, and
/// back.
pub fn swap_bgr(data: &Vec<u8>) -> (swapped: Vec<u8>)
    ensures
        swapped@ == bgr_swapped(data@),
{
    let pixels: usize = data.len() / 3;
    let mut swapped: Vec<u8> = Vec::with_capacity(data.len());
    let mut p: usize = 0;
    while p < pixels
        invariant
            pixels == data@.len() / 3,
            pixels * 3 <= data@.len() <= usize::MAX,
            p <= pixels,
            swapped@.len() == p * 3,
            forall|i: int| 0 <= i < p * 3 ==> swapped@[i] == bgr_swapped(data@)[i],
        decreases pixels - p,
    {
        let base: usize = p * 3;
        swapped.push(data[base + 2]);
        swapped.push(data[base + 1]);
        swapped.push(data[base]);
        p += 1;
    }
    assert(swapped@ =~= bgr_swapped(data@));
    swapped
}

/// Turning the pixels round twice gives back every full pixel.
pub proof fn lemma_swap_twice(data: Seq<u8>)
    ensures
        bgr_swapped(bgr_swapped(data)) == data.subrange(0, ((data.len() / 3) * 3) as int),
{
    let once = bgr_swapped(data);
    assert(once.len() == (data.len() / 3) * 3);
    assert((once.len() / 3) * 3 == once.len());
    assert(bgr_swapped(once) =~= data.subrange(0, ((data.len() / 3) * 3) as int));
}

} // verus!
