//! How pictures are processed.

use crate::media_core::errors::MediaError;
use crate::media_core::picture::raster::{raster_bytes, PixelLayout, RasterImage};
use vstd::prelude::*;
use vstd::string::*;

verus! {

#[derive(Debug, Clone, Copy, PartialEq, Eq, Structural)]
pub struct ImageProcessorConfig {
    /// The algorithm used where a resize names none
    pub resize_algorithm: ResizeAlgorithm,
    pub quality: ImageQuality,
    pub color_profile: ColorProfile,
}

impl Default for ImageProcessorConfig {
    fn default() -> (config: Self)
        ensures
            config == (ImageProcessorConfig {
                resize_algorithm: ResizeAlgorithm::Lanczos3,
                quality: ImageQuality::High,
                color_profile: ColorProfile::SRGB,
            }),
    {
        Self {
            resize_algorithm: ResizeAlgorithm::Lanczos3,
            quality: ImageQuality::High,
            color_profile: ColorProfile::SRGB,
        }
    }
}

#[derive(Debug, Clone, Copy, PartialEq, Eq, Structural)]
pub enum ResizeAlgorithm {
    Nearest,
    Bilinear,
    Bicubic,
    Lanczos3,
    CatmullRom,
}

#[derive(Debug, Clone, Copy, PartialEq, Eq, Structural)]
pub enum ImageQuality {
    Low,
    Medium,
    High,
    Maximum,
}

#[derive(Debug, Clone, Copy, PartialEq, Eq, Structural)]
pub enum ColorProfile {
    SRGB,
    Linear,
    Rec709,
}

/// The algorithm that a resize uses: the one it names, else the one of the
/// configuration.
pub fn chosen_algorithm(config: &ImageProcessorConfig, algorithm: Option<ResizeAlgorithm>) -> (alg:
    ResizeAlgorithm)
    ensures
        alg == match algorithm {
            Some(named) => named,
            None => config.resize_algorithm,
        },
{
    match algorithm {
        Some(named) => named,
        None => config.resize_algorithm,
    }
}

/// A colour value made brighter, or darker, by an amount, and held within
/// what a byte can say.
pub open spec fn brightened(value: u8, adjustment: i16) -> u8 {
    let sum = value as int + adjustment as int;
    if sum < 0 {
        0u8
    } else if sum > 255 {
        255u8
    } else {
        sum as u8
    }
}

/// Makes every colour value of a picture brighter, or darker, by an amount.
pub fn adjust_brightness(data: &Vec<u8>, adjustment: i16) -> (adjusted: Vec<u8>)
    ensures
        adjusted@ == Seq::new(data@.len(), |i: int| brightened(data@[i], adjustment)),
{
    let mut adjusted: Vec<u8> = Vec::with_capacity(data.len());
    let mut i: usize = 0;
    while i < data.len()
        invariant
            i <= data@.len(),
            adjusted@.len() == i,
            forall|k: int| 0 <= k < i ==> adjusted@[k] == brightened(data@[k], adjustment),
        decreases data@.len() - i,
    {
        let sum: i32 = data[i] as i32 + adjustment as i32;
        let value: u8 = if sum < 0 {
            0
        } else if sum > 255 {
            255
        } else {
            sum as u8
        };
        adjusted.push(value);
        i += 1;
    }
    assert(adjusted@ =~= Seq::new(data@.len(), |i: int| brightened(data@[i], adjustment)));
    adjusted
}

/// The algorithm can be asked of the resampler: the nearest neighbour and
/// the Lanczos filter can.
pub open spec fn is_available(algorithm: ResizeAlgorithm) -> bool {
    algorithm is Nearest || algorithm is Lanczos3
}

/// `Resizer::resize` of fast_image_resize, from a picture of `width` by
/// `height` pixels of three bytes to one of `target_width` by
/// `target_height`, by the nearest neighbour or with the Lanczos filter. A
/// buffer that is too small for the source is refused; what comes back
/// otherwise has three bytes for every pixel of the target. Both sizes must
/// fit into memory.
#[verifier::external_body]
pub(crate) fn resample(
    width: u32,
    height: u32,
    rgb: Vec<u8>,
    target_width: u32,
    target_height: u32,
    algorithm: ResizeAlgorithm,
) -> (result: Result<Vec<u8>, String>)
    requires
        is_available(algorithm),
        3 * width * height <= usize::MAX,
        3 * target_width * target_height <= usize::MAX,
    ensures
        rgb@.len() < 3 * width * height ==> result is Err,
        result matches Ok(out) ==> out@.len() == 3 * target_width * target_height,
{
    let pixels = fast_image_resize::PixelType::U8x3;
    let filter = match algorithm {
        ResizeAlgorithm::Nearest => fast_image_resize::ResizeAlg::Nearest,
        _ => fast_image_resize::ResizeAlg::Convolution(fast_image_resize::FilterType::Lanczos3),
    };
    let options = fast_image_resize::ResizeOptions::new().resize_alg(filter);
    let source = fast_image_resize::images::Image::from_vec_u8(width, height, rgb, pixels)
        .map_err(|e| e.to_string())?;
    let mut target = fast_image_resize::images::Image::new(target_width, target_height, pixels);
    let mut resizer = fast_image_resize::Resizer::new();
    resizer.resize(&source, &mut target, &options).map_err(|e| e.to_string())?;
    Ok(target.into_vec())
}

/// Resizes pictures by the algorithm of its configuration.
pub struct ImageProcessor {
    config: ImageProcessorConfig,
}

impl View for ImageProcessor {
    type V = ImageProcessorConfig;

    closed spec fn view(&self) -> ImageProcessorConfig {
        self.config
    }
}

impl ImageProcessor {
    pub fn new(config: ImageProcessorConfig) -> (processor: Self)
        ensures
            processor@ == config,
    {
        Self { config }
    }

    pub fn update_config(&mut self, config: ImageProcessorConfig)
        ensures
            final(self)@ == config,
    {
        self.config = config;
    }

    /// The algorithm that a resize uses.
    pub open spec fn algorithm_for(self, algorithm: Option<ResizeAlgorithm>) -> ResizeAlgorithm {
        match algorithm {
            Some(named) => named,
            None => self@.resize_algorithm,
        }
    }

    /// Brings a picture of red, green and blue to a new size, by the
    /// nearest neighbour. A picture that has the size already comes back as
    /// it is. No other algorithm can be asked for, and the new size must fit
    /// into memory.
    pub fn resize(
        &self,
        image: RasterImage,
        width: u32,
        height: u32,
        algorithm: Option<ResizeAlgorithm>,
    ) -> (result: Result<RasterImage, MediaError>)
        requires
            self.algorithm_for(algorithm) is Nearest,
            3 * width * height <= usize::MAX,
        ensures
            image.spec_layout() != PixelLayout::Rgb8 ==> (result matches Err(MediaError::Image(m))
                && m@ == "Expected a picture of red, green and blue"@),
            image.spec_layout() == PixelLayout::Rgb8 && image.spec_width() == width
                && image.spec_height() == height ==> result == Ok::<RasterImage, MediaError>(
                image,
            ),
            result matches Ok(resized) ==> {
                &&& resized.spec_layout() == PixelLayout::Rgb8
                &&& resized.spec_width() == width
                &&& resized.spec_height() == height
            },
    {
        let alg = chosen_algorithm(&self.config, algorithm);
        if image.layout() != PixelLayout::Rgb8 {
            return Err(
                MediaError::Image(String::from_str("Expected a picture of red, green and blue")),
            );
        }
        let old_width = image.width();
        let old_height = image.height();
        if old_width == width && old_height == height {
            return Ok(image);
        }
        let data = image.into_raw();
        let len: usize = data.len();
        assert(3 * old_width * old_height == raster_bytes(PixelLayout::Rgb8, old_width, old_height));
        match resample(old_width, old_height, data, width, height, alg) {
            Ok(resized) => {
                assert(3 * width * height == raster_bytes(PixelLayout::Rgb8, width, height));
                match RasterImage::from_raw(PixelLayout::Rgb8, width, height, resized) {
                    Some(picture) => Ok(picture),
                    None => Err(
                        MediaError::Image(
                            String::from_str(
                                "The Image's dimensions are either too small or too large",
                            ),
                        ),
                    ),
                }
            },
            Err(text) => Err(MediaError::Image(text)),
        }
    }
}

} // verus!
