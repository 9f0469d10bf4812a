//! Pictures as rows of pixels, eight bits to the channel.

use vstd::prelude::*;

verus! {

/// What the bytes of a pixel are.
#[derive(Debug, Clone, Copy, PartialEq, Eq, Structural)]
pub enum PixelLayout {
    /// One byte: brightness.
    Luma8,
    /// Three bytes: red, green, blue.
    Rgb8,
    /// Four bytes: red, green, blue, alpha.
    Rgba8,
}

impl PixelLayout {
    pub open spec fn spec_channels(self) -> usize {
        match self {
            PixelLayout::Luma8 => 1,
            PixelLayout::Rgb8 => 3,
            PixelLayout::Rgba8 => 4,
        }
    }

    /// The number of bytes of one pixel.
    #[verifier::when_used_as_spec(spec_channels)]
    pub fn channels(self) -> (count: usize)
        ensures
            count == self.spec_channels(),
    {
        match self {
            PixelLayout::Luma8 => 1,
            PixelLayout::Rgb8 => 3,
            PixelLayout::Rgba8 => 4,
        }
    }
}

/// The number of bytes that a picture of this layout and size takes.
pub open spec fn raster_bytes(layout: PixelLayout, width: u32, height: u32) -> int {
    layout.spec_channels() * width * height
}

/// A picture: its pixels row by row. The buffer holds at least the bytes of
/// all its pixels.
pub struct RasterImage {
    layout: PixelLayout,
    width: u32,
    height: u32,
    data: Vec<u8>,
}

impl RasterImage {
    #[verifier::type_invariant]
    spec fn inv(&self) -> bool {
        raster_bytes(self.layout, self.width, self.height) <= self.data@.len()
    }

    pub closed spec fn spec_layout(&self) -> PixelLayout {
        self.layout
    }

    pub closed spec fn spec_width(&self) -> u32 {
        self.width
    }

    pub closed spec fn spec_height(&self) -> u32 {
        self.height
    }

    pub closed spec fn spec_data(&self) -> Seq<u8> {
        self.data@
    }

    /// A picture over a buffer of pixels, if the buffer is large enough for
    /// its size.
    pub fn from_raw(layout: PixelLayout, width: u32, height: u32, data: Vec<u8>) -> (image: Option<
        Self,
    >)
        ensures
            raster_bytes(layout, width, height) <= data@.len() ==> ({
                &&& image matches Some(img)
                &&& img.spec_layout() == layout
                &&& img.spec_width() == width
                &&& img.spec_height() == height
                &&& img.spec_data() == data@
            }),
            raster_bytes(layout, width, height) > data@.len() ==> image is None,
    {
        assert(0 <= width * height <= 0xFFFF_FFFF * 0xFFFF_FFFF) by (nonlinear_arith)
            requires
                0 <= width <= 0xFFFF_FFFF,
                0 <= height <= 0xFFFF_FFFF,
        ;
        let pixels: u128 = (width as u128) * (height as u128);
        let needed: u128 = (layout.channels() as u128) * pixels;
        assert(needed == raster_bytes(layout, width, height)) by (nonlinear_arith)
            requires
                needed == layout.spec_channels() * pixels,
                pixels == width * height,
        ;
        if needed <= data.len() as u128 {
            Some(RasterImage { layout, width, height, data })
        } else {
            None
        }
    }

    #[verifier::when_used_as_spec(spec_layout)]
    pub fn layout(&self) -> (layout: PixelLayout)
        ensures
            layout == self.spec_layout(),
    {
        self.layout
    }

    #[verifier::when_used_as_spec(spec_width)]
    pub fn width(&self) -> (width: u32)
        ensures
            width == self.spec_width(),
    {
        self.width
    }

    #[verifier::when_used_as_spec(spec_height)]
    pub fn height(&self) -> (height: u32)
        ensures
            height == self.spec_height(),
    {
        self.height
    }

    /// The bytes of the picture.
    pub fn as_raw(&self) -> (data: &Vec<u8>)
        ensures
            data@ == self.spec_data(),
            raster_bytes(self.spec_layout(), self.spec_width(), self.spec_height()) <= data@.len(),
    {
        proof {
            use_type_invariant(self);
        }
        &self.data
    }

    /// The buffer of the picture.
    pub fn into_raw(self) -> (data: Vec<u8>)
        ensures
            data@ == self.spec_data(),
            raster_bytes(self.spec_layout(), self.spec_width(), self.spec_height()) <= data@.len(),
    {
        proof {
            use_type_invariant(&self);
        }
        self.data
    }
}

} // verus!
