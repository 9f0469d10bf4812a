//! The picture formats the library knows, what each can hold, and how a
//! file's format is told from its name and its first bytes.

use crate::media_core::errors::MediaError;
use crate::text::{lowercase_of, str_eq, to_lowercase};
use vstd::prelude::*;
use vstd::string::*;

verus! {

/// `ImageFormat` of the image crate: the names of the formats its codecs
/// know. The names are read from the crate.
#[verifier::external_type_specification]
pub struct ExImageFormat(image::ImageFormat);

/// The file extension of a path, as the standard library takes it from the
/// last component of the path: what follows its last dot, if the component
/// has one that is not its first character.
pub uninterp spec fn extension_of_path(path: Seq<char>) -> Option<Seq<char>>;

/// `Path::extension`, for a path given as text.
#[verifier::external_body]
pub(crate) fn path_extension(path: &str) -> (extension: Option<String>)
    ensures
        match extension {
            Some(text) => extension_of_path(path@) == Some(text@),
            None => extension_of_path(path@) is None,
        },
{
    std::path::Path::new(path).extension().and_then(|ext| ext.to_str()).map(|ext| ext.to_string())
}

#[derive(Debug, Clone, Copy, PartialEq, Eq, Structural)]
pub enum SupportedImageFormat {
    Png,
    Jpeg,
    Gif,
    WebP,
    Bmp,
    Ico,
    Tiff,
    Tga,
    Dds,
    Hdr,
    OpenExr,
    Pnm,
    Farbfeld,
}

/// The format that a lower-case file extension stands for.
pub open spec fn format_of_extension(ext: Seq<char>) -> Option<SupportedImageFormat> {
    if ext == "png"@ {
        Some(SupportedImageFormat::Png)
    } else if ext == "jpg"@ || ext == "jpeg"@ {
        Some(SupportedImageFormat::Jpeg)
    } else if ext == "gif"@ {
        Some(SupportedImageFormat::Gif)
    } else if ext == "webp"@ {
        Some(SupportedImageFormat::WebP)
    } else if ext == "bmp"@ {
        Some(SupportedImageFormat::Bmp)
    } else if ext == "ico"@ {
        Some(SupportedImageFormat::Ico)
    } else if ext == "tiff"@ || ext == "tif"@ {
        Some(SupportedImageFormat::Tiff)
    } else if ext == "tga"@ {
        Some(SupportedImageFormat::Tga)
    } else if ext == "dds"@ {
        Some(SupportedImageFormat::Dds)
    } else if ext == "hdr"@ {
        Some(SupportedImageFormat::Hdr)
    } else if ext == "exr"@ {
        Some(SupportedImageFormat::OpenExr)
    } else if ext == "ppm"@ || ext == "pgm"@ || ext == "pbm"@ || ext == "pam"@ {
        Some(SupportedImageFormat::Pnm)
    } else if ext == "ff"@ {
        Some(SupportedImageFormat::Farbfeld)
    } else {
        None
    }
}

/// The format that the extension of a path stands for, in any case of
/// letters.
pub open spec fn format_of_path(path: Seq<char>) -> Option<SupportedImageFormat> {
    match extension_of_path(path) {
        Some(ext) => format_of_extension(lowercase_of(ext)),
        None => None,
    }
}

impl SupportedImageFormat {
    /// The format that a lower-case file extension stands for.
    pub fn from_lowercase_extension(ext: &str) -> (format: Option<Self>)
        ensures
            format == format_of_extension(ext@),
    {
        if str_eq(ext, "png") {
            Some(Self::Png)
        } else if str_eq(ext, "jpg") || str_eq(ext, "jpeg") {
            Some(Self::Jpeg)
        } else if str_eq(ext, "gif") {
            Some(Self::Gif)
        } else if str_eq(ext, "webp") {
            Some(Self::WebP)
        } else if str_eq(ext, "bmp") {
            Some(Self::Bmp)
        } else if str_eq(ext, "ico") {
            Some(Self::Ico)
        } else if str_eq(ext, "tiff") || str_eq(ext, "tif") {
            Some(Self::Tiff)
        } else if str_eq(ext, "tga") {
            Some(Self::Tga)
        } else if str_eq(ext, "dds") {
            Some(Self::Dds)
        } else if str_eq(ext, "hdr") {
            Some(Self::Hdr)
        } else if str_eq(ext, "exr") {
            Some(Self::OpenExr)
        } else if str_eq(ext, "ppm") || str_eq(ext, "pgm") || str_eq(ext, "pbm") || str_eq(
            ext,
            "pam",
        ) {
            Some(Self::Pnm)
        } else if str_eq(ext, "ff") {
            Some(Self::Farbfeld)
        } else {
            None
        }
    }

    /// The format that a file extension stands for, in any case of letters.
    pub fn from_extension(ext: &str) -> (format: Option<Self>)
        ensures
            format == format_of_extension(lowercase_of(ext@)),
    {
        let lower = to_lowercase(ext);
        Self::from_lowercase_extension(lower.as_str())
    }

    /// The format that the extension of a path stands for.
    pub fn from_path(path: &str) -> (format: Option<Self>)
        ensures
            format == format_of_path(path@),
    {
        match path_extension(path) {
            Some(ext) => Self::from_extension(ext.as_str()),
            None => None,
        }
    }

    /// The same format as the image codecs name it.
    pub fn to_image_format(self) -> (format: Option<image::ImageFormat>)
        ensures
            format == Some(
                match self {
                    Self::Png => image::ImageFormat::Png,
                    Self::Jpeg => image::ImageFormat::Jpeg,
                    Self::Gif => image::ImageFormat::Gif,
                    Self::WebP => image::ImageFormat::WebP,
                    Self::Bmp => image::ImageFormat::Bmp,
                    Self::Ico => image::ImageFormat::Ico,
                    Self::Tiff => image::ImageFormat::Tiff,
                    Self::Tga => image::ImageFormat::Tga,
                    Self::Dds => image::ImageFormat::Dds,
                    Self::Hdr => image::ImageFormat::Hdr,
                    Self::OpenExr => image::ImageFormat::OpenExr,
                    Self::Pnm => image::ImageFormat::Pnm,
                    Self::Farbfeld => image::ImageFormat::Farbfeld,
                },
            ),
    {
        match self {
            Self::Png => Some(image::ImageFormat::Png),
            Self::Jpeg => Some(image::ImageFormat::Jpeg),
            Self::Gif => Some(image::ImageFormat::Gif),
            Self::WebP => Some(image::ImageFormat::WebP),
            Self::Bmp => Some(image::ImageFormat::Bmp),
            Self::Ico => Some(image::ImageFormat::Ico),
            Self::Tiff => Some(image::ImageFormat::Tiff),
            Self::Tga => Some(image::ImageFormat::Tga),
            Self::Dds => Some(image::ImageFormat::Dds),
            Self::Hdr => Some(image::ImageFormat::Hdr),
            Self::OpenExr => Some(image::ImageFormat::OpenExr),
            Self::Pnm => Some(image::ImageFormat::Pnm),
            Self::Farbfeld => Some(image::ImageFormat::Farbfeld),
        }
    }

    pub fn supports_animation(self) -> (yes: bool)
        ensures
            yes == (self is Gif || self is WebP),
    {
        matches!(self, Self::Gif | Self::WebP)
    }

    pub fn supports_transparency(self) -> (yes: bool)
        ensures
            yes == (self is Png || self is Gif || self is WebP || self is Ico || self is Tiff),
    {
        matches!(self, Self::Png | Self::Gif | Self::WebP | Self::Ico | Self::Tiff)
    }

    /// Whether the format keeps every pixel as it was.
    pub fn is_lossness(self) -> (yes: bool)
        ensures
            yes == !(self is Jpeg || self is WebP || self is Dds || self is Hdr
                || self is OpenExr),
    {
        matches!(
            self,
            Self::Png
                | Self::Gif
                | Self::Bmp
                | Self::Ico
                | Self::Tiff
                | Self::Tga
                | Self::Pnm
                | Self::Farbfeld
        )
    }

    pub fn supports_hdr(self) -> (yes: bool)
        ensures
            yes == (self is Hdr || self is OpenExr || self is Tiff),
    {
        matches!(self, Self::Hdr | Self::OpenExr | Self::Tiff)
    }
}

/// How the pixels of a picture are stored.
#[derive(Debug, Clone, Copy, PartialEq, Eq, Structural)]
pub enum ColorType {
    L8,
    L16,
    La8,
    La16,
    Rgb8,
    Rgb16,
    Rgba8,
    Rgba16,
    Rgb32F,
    Rgba32F,
}

impl ColorType {
    pub open spec fn spec_channel_count(self) -> u8 {
        match self {
            Self::L8 | Self::L16 => 1,
            Self::La8 | Self::La16 => 2,
            Self::Rgb8 | Self::Rgb16 | Self::Rgb32F => 3,
            Self::Rgba8 | Self::Rgba16 | Self::Rgba32F => 4,
        }
    }

    pub open spec fn spec_bits_per_channel(self) -> u8 {
        match self {
            Self::L8 | Self::La8 | Self::Rgb8 | Self::Rgba8 => 8,
            Self::L16 | Self::La16 | Self::Rgb16 | Self::Rgba16 => 16,
            Self::Rgb32F | Self::Rgba32F => 32,
        }
    }

    /// The colour type has an alpha channel: its channels are two or four.
    pub open spec fn spec_has_alpha(self) -> bool {
        self.spec_channel_count() % 2 == 0
    }

    #[verifier::when_used_as_spec(spec_channel_count)]
    pub fn channel_count(self) -> (count: u8)
        ensures
            count == self.spec_channel_count(),
    {
        match self {
            Self::L8 | Self::L16 => 1,
            Self::La8 | Self::La16 => 2,
            Self::Rgb8 | Self::Rgb16 | Self::Rgb32F => 3,
            Self::Rgba8 | Self::Rgba16 | Self::Rgba32F => 4,
        }
    }

    #[verifier::when_used_as_spec(spec_bits_per_channel)]
    pub fn bits_per_channel(self) -> (bits: u8)
        ensures
            bits == self.spec_bits_per_channel(),
    {
        match self {
            Self::L8 | Self::La8 | Self::Rgb8 | Self::Rgba8 => 8,
            Self::L16 | Self::La16 | Self::Rgb16 | Self::Rgba16 => 16,
            Self::Rgb32F | Self::Rgba32F => 32,
        }
    }

    #[verifier::when_used_as_spec(spec_has_alpha)]
    pub fn has_alpha(self) -> (yes: bool)
        ensures
            yes == self.spec_has_alpha(),
            yes == (self is La8 || self is La16 || self is Rgba8 || self is Rgba16
                || self is Rgba32F),
    {
        matches!(self, Self::La8 | Self::La16 | Self::Rgba8 | Self::Rgba16 | Self::Rgba32F)
    }

    pub fn is_float(self) -> (yes: bool)
        ensures
            yes == (self is Rgb32F || self is Rgba32F),
            yes == (self.spec_bits_per_channel() == 32),
    {
        matches!(self, Self::Rgb32F | Self::Rgba32F)
    }
}

/// What is known of a picture file.
#[derive(Debug, Clone, Copy, PartialEq, Eq, Structural)]
pub struct ImageMetadata {
    pub width: u32,
    pub height: u32,
    pub format: SupportedImageFormat,
    pub color_type: ColorType,
    pub bit_depth: u8,
    pub has_alpha: bool,
    pub is_animated: bool,
    pub frame_count: Option<usize>,
    pub file_size: Option<u64>,
}

/// The format that the first bytes of a file show. Fewer than sixteen bytes
/// show nothing.
pub open spec fn format_of_header(header: Seq<u8>) -> Option<SupportedImageFormat> {
    if header.len() < 16 {
        None
    } else if header[0] == 0xFF && header[1] == 0xD8 && header[2] == 0xFF {
        Some(SupportedImageFormat::Jpeg)
    } else if header[0] == 0x47 && header[1] == 0x49 && header[2] == 0x46 {
        Some(SupportedImageFormat::Gif)
    } else if header[0] == 0x52 && header[1] == 0x49 && header[2] == 0x46 && header[3] == 0x46 {
        if header[8] == 0x57 && header[9] == 0x45 && header[10] == 0x42 && header[11] == 0x50 {
            Some(SupportedImageFormat::WebP)
        } else {
            None
        }
    } else if header[0] == 0x42 && header[1] == 0x40 {
        Some(SupportedImageFormat::Bmp)
    } else if (header[0] == 0x49 && header[1] == 0x49 && header[2] == 0x2A && header[3] == 0x00)
        || (header[0] == 0x4D && header[1] == 0x4D && header[2] == 0x00 && header[3] == 0x2A) {
        Some(SupportedImageFormat::Tiff)
    } else {
        None
    }
}

/// The format of a file, from its name first and from its first bytes where
/// the name tells nothing. `header` is `None` for a file that cannot be read.
pub open spec fn detected_format(path: Seq<char>, header: Option<Seq<u8>>) -> Option<
    SupportedImageFormat,
> {
    match format_of_path(path) {
        Some(format) => Some(format),
        None => match header {
            Some(bytes) => format_of_header(bytes),
            None => None,
        },
    }
}

/// The file extensions that stand for a format, in lower case.
pub open spec fn extension_names() -> Seq<Seq<char>> {
    seq![
        "png"@,
        "jpg"@,
        "jpeg"@,
        "gif"@,
        "webp"@,
        "bmp"@,
        "ico"@,
        "tiff"@,
        "tif"@,
        "tga"@,
        "dds"@,
        "hdr"@,
        "exr"@,
        "ppm"@,
        "pgm"@,
        "pbm"@,
        "pam"@,
        "ff"@,
    ]
}

/// Tells the format of picture files.
pub struct FormatDetector;

impl FormatDetector {
    /// The format of a file, from the extension of its path, or else from
    /// the first bytes of the file.
    pub fn detect_format(path: &str, header: Option<&[u8]>) -> (format: Option<
        SupportedImageFormat,
    >)
        ensures
            format == detected_format(
                path@,
                match header {
                    Some(bytes) => Some(bytes@),
                    None => None,
                },
            ),
    {
        if let Some(format) = SupportedImageFormat::from_path(path) {
            return Some(format);
        }
        match header {
            Some(bytes) => match Self::detect_from_header(bytes) {
                Ok(format) => format,
                Err(_) => None,
            },
            None => None,
        }
    }

    /// The format that the first bytes of a file show. At least sixteen
    /// bytes are needed.
    pub fn detect_from_header(header: &[u8]) -> (result: Result<
        Option<SupportedImageFormat>,
        MediaError,
    >)
        ensures
            header@.len() >= 16 ==> result == Ok::<Option<SupportedImageFormat>, MediaError>(
                format_of_header(header@),
            ),
            header@.len() < 16 ==> (result matches Err(MediaError::InvalidFormat(m)) && m@
                == "Cannot read file header"@),
    {
        if header.len() < 16 {
            return Err(MediaError::InvalidFormat(String::from_str("Cannot read file header")));
        }
        let format = if header[0] == 0xFF && header[1] == 0xD8 && header[2] == 0xFF {
            Some(SupportedImageFormat::Jpeg)
        } else if header[0] == 0x47 && header[1] == 0x49 && header[2] == 0x46 {
            Some(SupportedImageFormat::Gif)
        } else if header[0] == 0x52 && header[1] == 0x49 && header[2] == 0x46 && header[3]
            == 0x46 {
            if header[8] == 0x57 && header[9] == 0x45 && header[10] == 0x42 && header[11] == 0x50 {
                Some(SupportedImageFormat::WebP)
            } else {
                None
            }
        } else if header[0] == 0x42 && header[1] == 0x40 {
            Some(SupportedImageFormat::Bmp)
        } else if (header[0] == 0x49 && header[1] == 0x49 && header[2] == 0x2A && header[3]
            == 0x00) || (header[0] == 0x4D && header[1] == 0x4D && header[2] == 0x00 && header[3]
            == 0x2A) {
            Some(SupportedImageFormat::Tiff)
        } else {
            None
        };
        Ok(format)
    }

    /// What is known of a picture once its format, its size and its colour
    /// type were read.
    pub fn get_metadata(
        format: SupportedImageFormat,
        width: u32,
        height: u32,
        color_type: ColorType,
        file_size: Option<u64>,
    ) -> (metadata: ImageMetadata)
        ensures
            metadata == (ImageMetadata {
                width,
                height,
                format,
                color_type,
                bit_depth: color_type.spec_bits_per_channel(),
                has_alpha: color_type.spec_has_alpha(),
                is_animated: format is Gif || format is WebP,
                frame_count: if format is Gif || format is WebP {
                    Some(1usize)
                } else {
                    None
                },
                file_size,
            }),
    {
        ImageMetadata {
            width,
            height,
            format,
            color_type,
            bit_depth: color_type.bits_per_channel(),
            has_alpha: color_type.has_alpha(),
            is_animated: format.supports_animation(),
            frame_count: if format.supports_animation() {
                Some(1)
            } else {
                None
            },
            file_size,
        }
    }

    /// Whether the format of a file can be told.
    pub fn is_supported(path: &str, header: Option<&[u8]>) -> (yes: bool)
        ensures
            yes == detected_format(
                path@,
                match header {
                    Some(bytes) => Some(bytes@),
                    None => None,
                },
            ) is Some,
    {
        Self::detect_format(path, header).is_some()
    }

    /// Every format the library knows.
    pub fn supported_formats() -> (formats: Vec<SupportedImageFormat>)
        ensures
            formats@ == seq![
                SupportedImageFormat::Png,
                SupportedImageFormat::Jpeg,
                SupportedImageFormat::Gif,
                SupportedImageFormat::WebP,
                SupportedImageFormat::Bmp,
                SupportedImageFormat::Ico,
                SupportedImageFormat::Tiff,
                SupportedImageFormat::Tga,
                SupportedImageFormat::Dds,
                SupportedImageFormat::Hdr,
                SupportedImageFormat::OpenExr,
                SupportedImageFormat::Pnm,
                SupportedImageFormat::Farbfeld,
            ],
    {
        let formats = vec![
            SupportedImageFormat::Png,
            SupportedImageFormat::Jpeg,
            SupportedImageFormat::Gif,
            SupportedImageFormat::WebP,
            SupportedImageFormat::Bmp,
            SupportedImageFormat::Ico,
            SupportedImageFormat::Tiff,
            SupportedImageFormat::Tga,
            SupportedImageFormat::Dds,
            SupportedImageFormat::Hdr,
            SupportedImageFormat::OpenExr,
            SupportedImageFormat::Pnm,
            SupportedImageFormat::Farbfeld,
        ];
        assert(formats@ =~= seq![
            SupportedImageFormat::Png,
            SupportedImageFormat::Jpeg,
            SupportedImageFormat::Gif,
            SupportedImageFormat::WebP,
            SupportedImageFormat::Bmp,
            SupportedImageFormat::Ico,
            SupportedImageFormat::Tiff,
            SupportedImageFormat::Tga,
            SupportedImageFormat::Dds,
            SupportedImageFormat::Hdr,
            SupportedImageFormat::OpenExr,
            SupportedImageFormat::Pnm,
            SupportedImageFormat::Farbfeld,
        ]);
        formats
    }

    /// Every file extension that stands for a format the library knows.
    pub fn supported_extensions() -> (extensions: Vec<&'static str>)
        ensures
            Seq::new(extensions@.len(), |i: int| extensions@[i]@) == extension_names(),
            forall|i: int|
                0 <= i < 18 ==> format_of_extension(#[trigger] extensions@[i]@) is Some,
    {
        let extensions = vec![
            "png", "jpg", "jpeg", "gif", "webp", "bmp", "ico", "tiff", "tif", "tga", "dds", "hdr",
            "exr", "ppm", "pgm", "pbm", "pam", "ff",
        ];
        assert(Seq::new(extensions@.len(), |i: int| extensions@[i]@) =~= extension_names());
        extensions
    }
}

} // verus!
