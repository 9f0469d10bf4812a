//! What the renderer is set to: the size of the picture in character cells,
//! the character map, and how lines are ended.

use crate::media_core::errors::MediaError;
use crate::media_core::picture::processor::{resample, ResizeAlgorithm};
use crate::media_core::picture::raster::{raster_bytes, PixelLayout, RasterImage};
use crate::terminal_player::char_maps::{get_char_map, luminance_char, luminance_to_char, CHAR_MAPS};
use vstd::prelude::*;
use vstd::string::*;

verus! {

#[derive(Debug, Clone, Copy, PartialEq, Eq, Structural)]
pub struct RenderConfig {
    pub target_width: u32,
    pub target_height: u32,
    pub char_map_index: u8,
    pub grayscale: bool,
    pub add_newlines: bool,
    pub width_modifier: u32,
}

impl Default for RenderConfig {
    fn default() -> (config: Self)
        ensures
            config == (RenderConfig {
                target_width: 80,
                target_height: 24,
                char_map_index: 0,
                grayscale: false,
                add_newlines: false,
                width_modifier: 1,
            }),
    {
        Self {
            target_width: 80,
            target_height: 24,
            char_map_index: 0,
            grayscale: false,
            add_newlines: false,
            width_modifier: 1,
        }
    }
}

/// A picture turned into text: one character for each cell, and the colour
/// of each cell as three bytes, red, green and blue.
#[derive(Debug, Clone)]
pub struct RenderedFrame {
    pub ascii_text: String,
    pub rgb_data: Vec<u8>,
    pub width: u32,
    pub height: u32,
}

impl RenderedFrame {
    /// The colour of the cell with the given number: its three bytes, if the
    /// frame holds all three.
    pub open spec fn spec_cell_color(&self, index: int) -> Option<(u8, u8, u8)> {
        if 0 <= index && index * 3 + 2 < self.rgb_data@.len() {
            Some(
                (
                    self.rgb_data@[index * 3],
                    self.rgb_data@[index * 3 + 1],
                    self.rgb_data@[index * 3 + 2],
                ),
            )
        } else {
            None
        }
    }

    /// The colour in which the character with the given number is drawn. A
    /// character for which the frame holds no colour is drawn plain.
    pub fn cell_color(&self, index: usize) -> (color: Option<(u8, u8, u8)>)
        ensures
            color == self.spec_cell_color(index as int),
    {
        let len: usize = self.rgb_data.len();
        if len >= 3 && index <= (len - 3) / 3 {
            let base: usize = index * 3;
            Some((self.rgb_data[base], self.rgb_data[base + 1], self.rgb_data[base + 2]))
        } else {
            None
        }
    }
}

/// The divisor by which a terminal width is turned into a picture width: the
/// low sixteen bits of the width modifier.
pub open spec fn width_divisor(width_modifier: u32) -> int {
    width_modifier as int % 65536
}

/// Whether the width divisor is zero, so that no resize can be taken.
pub fn width_divisor_is_zero(width_modifier: u32) -> (zero: bool)
    ensures
        zero == (width_divisor(width_modifier) == 0),
{
    width_modifier % 65536 == 0
}

/// The configuration after the terminal was resized to `width` columns and
/// `height` rows.
pub open spec fn resized(config: RenderConfig, width: u16, height: u16) -> RenderConfig {
    RenderConfig {
        target_width: (width as int / width_divisor(config.width_modifier)) as u32,
        target_height: height as u32,
        ..config
    }
}

/// The settings of the text renderer.
pub struct AsciiRenderer {
    config: RenderConfig,
}

impl View for AsciiRenderer {
    type V = RenderConfig;

    closed spec fn view(&self) -> RenderConfig {
        self.config
    }
}

impl AsciiRenderer {
    pub fn new(config: RenderConfig) -> (renderer: Self)
        ensures
            renderer@ == config,
    {
        Self { config }
    }

    pub fn config(&self) -> (config: RenderConfig)
        ensures
            config == self@,
    {
        self.config
    }

    pub fn update_config(&mut self, config: RenderConfig)
        ensures
            final(self)@ == config,
    {
        self.config = config;
    }

    /// Fits the picture to a terminal of `width` columns and `height` rows:
    /// the width is divided by the width modifier, the height is taken as it
    /// is. The low sixteen bits of the width modifier must not be zero.
    pub fn update_resolution(&mut self, width: u16, height: u16)
        requires
            width_divisor(old(self)@.width_modifier) != 0,
        ensures
            final(self)@ == resized(old(self)@, width, height),
    {
        let divisor: u16 = (self.config.width_modifier % 65536) as u16;
        self.config.target_width = (width / divisor) as u32;
        self.config.target_height = height as u32;
    }

    pub fn set_char_map(&mut self, index: u8)
        ensures
            final(self)@ == (RenderConfig { char_map_index: index, ..old(self)@ }),
    {
        self.config.char_map_index = index;
    }

    pub fn set_grayscale(&mut self, grayscale: bool)
        ensures
            final(self)@ == (RenderConfig { grayscale, ..old(self)@ }),
    {
        self.config.grayscale = grayscale;
    }
}

/// The characters of one row of cells.
pub open spec fn row_text(luminance: Seq<u8>, char_map: Seq<char>, width: nat, row: nat) -> Seq<
    char,
> {
    Seq::new(width, |x: int| luminance_char(luminance[row * width + x], char_map))
}

/// What ends a row of text: a carriage return and a line feed after every
/// row but the last, if lines are to be ended at all.
pub open spec fn row_end(add_newlines: bool, height: nat, row: nat) -> Seq<char> {
    if add_newlines && row + 1 < height {
        seq!['\r', '\n']
    } else {
        Seq::empty()
    }
}

/// The colour bytes that go with the end of a row: black for each of its two
/// characters.
pub open spec fn row_end_colors(add_newlines: bool, height: nat, row: nat) -> Seq<u8> {
    if add_newlines && row + 1 < height {
        seq![0u8, 0u8, 0u8, 0u8, 0u8, 0u8]
    } else {
        Seq::empty()
    }
}

/// The text of the first `rows` rows of a picture.
pub open spec fn rows_text(
    luminance: Seq<u8>,
    char_map: Seq<char>,
    width: nat,
    height: nat,
    add_newlines: bool,
    rows: nat,
) -> Seq<char>
    decreases rows,
{
    if rows == 0 {
        Seq::empty()
    } else {
        let row = (rows - 1) as nat;
        rows_text(luminance, char_map, width, height, add_newlines, row) + row_text(
            luminance,
            char_map,
            width,
            row,
        ) + row_end(add_newlines, height, row)
    }
}

/// The colours of the first `rows` rows of a picture.
pub open spec fn rows_colors(
    rgb: Seq<u8>,
    width: nat,
    height: nat,
    add_newlines: bool,
    rows: nat,
) -> Seq<u8>
    decreases rows,
{
    if rows == 0 {
        Seq::empty()
    } else {
        let row = (rows - 1) as nat;
        rows_colors(rgb, width, height, add_newlines, row) + rgb.subrange(
            (row * width * 3) as int,
            ((row + 1) * width * 3) as int,
        ) + row_end_colors(add_newlines, height, row)
    }
}

/// The picture is one of red, green and blue, and `luminance` has one byte
/// for each of its pixels.
pub open spec fn renderable(image: RasterImage, luminance: Seq<u8>) -> bool {
    image.spec_layout() == PixelLayout::Rgb8 && luminance.len() == image.spec_width()
        * image.spec_height()
}

proof fn lemma_cell_bounds(x: nat, y: nat, width: nat, height: nat)
    requires
        x <= width,
        y < height,
    ensures
        0 <= y * width,
        y * width + x <= width * height,
        (y * width + x) * 3 <= 3 * width * height,
        y * width * 3 + width * 3 == (y + 1) * width * 3,
        (y * width + x) * 3 == y * width * 3 + x * 3,
{
    assert(0 <= y * width && y * width + x <= width * height) by (nonlinear_arith)
        requires
            x <= width,
            y < height,
    ;
    assert((y * width + x) * 3 <= 3 * width * height) by (nonlinear_arith)
        requires
            y * width + x <= width * height,
    ;
    assert(y * width * 3 + width * 3 == (y + 1) * width * 3) by (nonlinear_arith);
    assert((y * width + x) * 3 == y * width * 3 + x * 3) by (nonlinear_arith);
}

impl AsciiRenderer {
    /// Brings a picture of red, green and blue to the target size. A
    /// picture of that size comes back as it is; any other is resampled. The
    /// target size must fit into memory.
    pub fn resize_image(&self, image: RasterImage) -> (result: Result<RasterImage, MediaError>)
        requires
            3 * self@.target_width * self@.target_height <= usize::MAX,
        ensures
            image.spec_layout() != PixelLayout::Rgb8 ==> (result matches Err(MediaError::Image(m))
                && m@ == "Expected a picture of red, green and blue"@),
            image.spec_layout() == PixelLayout::Rgb8 && image.spec_width() == self@.target_width
                && image.spec_height() == self@.target_height ==> result == Ok::<
                RasterImage,
                MediaError,
            >(image),
            result matches Ok(resized) ==> {
                &&& resized.spec_layout() == PixelLayout::Rgb8
                &&& resized.spec_width() == self@.target_width
                &&& resized.spec_height() == self@.target_height
            },
    {
        if image.layout() != PixelLayout::Rgb8 {
            return Err(
                MediaError::Image(String::from_str("Expected a picture of red, green and blue")),
            );
        }
        let width = image.width();
        let height = image.height();
        if width == self.config.target_width && height == self.config.target_height {
            return Ok(image);
        }
        let data = image.into_raw();
        let len: usize = data.len();
        assert(3 * width * height == raster_bytes(PixelLayout::Rgb8, width, height));
        match resample(
            width,
            height,
            data,
            self.config.target_width,
            self.config.target_height,
            ResizeAlgorithm::Lanczos3,
        ) {
            Ok(resized) => {
                assert(3 * self.config.target_width * self.config.target_height == raster_bytes(
                    PixelLayout::Rgb8,
                    self.config.target_width,
                    self.config.target_height,
                )) by (nonlinear_arith);
                match RasterImage::from_raw(
                    PixelLayout::Rgb8,
                    self.config.target_width,
                    self.config.target_height,
                    resized,
                ) {
                    Some(picture) => Ok(picture),
                    None => Err(MediaError::Image(String::from_str("Failed to create image buffer"))),
                }
            },
            Err(text) => Err(MediaError::Image(text)),
        }
    }

    /// Turns a picture into text and colours: for each cell the character
    /// that its brightness picks from the character map, and its three
    /// colour bytes. `luminance` holds the brightness of each pixel, row by
    /// row. With line ends, every row but the last is followed by a carriage
    /// return and a line feed, which are coloured black.
    pub fn image_to_ascii_with_color(&self, image: &RasterImage, luminance: &[u8]) -> (result:
        Result<(String, Vec<u8>), MediaError>)
        ensures
            renderable(*image, luminance@) ==> ({
                &&& result matches Ok(out)
                &&& out.0@ == rows_text(
                    luminance@,
                    CHAR_MAPS[self@.char_map_index as int % 10]@,
                    image.spec_width() as nat,
                    image.spec_height() as nat,
                    self@.add_newlines,
                    image.spec_height() as nat,
                )
                &&& out.1@ == rows_colors(
                    image.spec_data(),
                    image.spec_width() as nat,
                    image.spec_height() as nat,
                    self@.add_newlines,
                    image.spec_height() as nat,
                )
            }),
            !renderable(*image, luminance@) ==> (result matches Err(MediaError::Image(m)) && m@
                == "The brightness does not fit the picture"@),
    {
        let width: usize = image.width() as usize;
        let height: usize = image.height() as usize;
        let rgb = image.as_raw();
        let len: usize = rgb.len();
        assert(0 <= width * height <= 0xFFFF_FFFF * 0xFFFF_FFFF) by (nonlinear_arith)
            requires
                0 <= width <= 0xFFFF_FFFF,
                0 <= height <= 0xFFFF_FFFF,
        ;
        if image.layout() != PixelLayout::Rgb8 || (luminance.len() as u128) != (width as u128) * (
        height as u128) {
            return Err(MediaError::Image(String::from_str("The brightness does not fit the picture")));
        }
        assert(3 * width * height == raster_bytes(PixelLayout::Rgb8, image.width(), image.height()))
            by (nonlinear_arith)
            requires
                width == image.width(),
                height == image.height(),
        ;
        let char_map = get_char_map(self.config.char_map_index);
        let add_newlines = self.config.add_newlines;
        let mut ascii_text = String::new();
        let mut rgb_data: Vec<u8> = Vec::new();
        let mut y: usize = 0;
        while y < height
            invariant
                y <= height,
                width <= u32::MAX,
                height <= u32::MAX,
                luminance@.len() == width * height,
                3 * width * height <= rgb@.len() <= usize::MAX,
                ascii_text@ == rows_text(
                    luminance@,
                    char_map@,
                    width as nat,
                    height as nat,
                    add_newlines,
                    y as nat,
                ),
                rgb_data@ == rows_colors(rgb@, width as nat, height as nat, add_newlines, y as nat),
            decreases height - y,
        {
            let ghost text_before = ascii_text@;
            let ghost colors_before = rgb_data@;
            proof {
                lemma_cell_bounds(0, y as nat, width as nat, height as nat);
                assert(rgb@.subrange((y * width * 3) as int, (y * width * 3 + 0 * 3) as int)
                    =~= Seq::<u8>::empty());
                assert(colors_before + Seq::<u8>::empty() == colors_before);
                assert(row_text(luminance@, char_map@, width as nat, y as nat).take(0)
                    =~= Seq::<char>::empty());
                assert(text_before + Seq::<char>::empty() == text_before);
            }
            let mut x: usize = 0;
            while x < width
                invariant
                    x <= width,
                    y < height,
                    width <= u32::MAX,
                    height <= u32::MAX,
                    luminance@.len() == width * height,
                    3 * width * height <= rgb@.len() <= usize::MAX,
                    ascii_text@ == text_before + row_text(
                        luminance@,
                        char_map@,
                        width as nat,
                        y as nat,
                    ).take(x as int),
                    rgb_data@ == colors_before + rgb@.subrange(
                        (y * width * 3) as int,
                        (y * width * 3 + x * 3) as int,
                    ),
                decreases width - x,
            {
                proof {
                    lemma_cell_bounds(x as nat, y as nat, width as nat, height as nat);
                    lemma_cell_bounds((x + 1) as nat, y as nat, width as nat, height as nat);
                }
                let cell: usize = y * width + x;
                let ch = luminance_to_char(luminance[cell], char_map);
                ascii_text.push(ch);
                let base: usize = cell * 3;
                rgb_data.push(rgb[base]);
                rgb_data.push(rgb[base + 1]);
                rgb_data.push(rgb[base + 2]);
                assert(row_text(luminance@, char_map@, width as nat, y as nat).take(x + 1)
                    == row_text(luminance@, char_map@, width as nat, y as nat).take(x as int).push(
                    ch,
                ));
                assert(rgb@.subrange((y * width * 3) as int, (y * width * 3 + (x + 1) * 3) as int)
                    == rgb@.subrange((y * width * 3) as int, (y * width * 3 + x * 3) as int).push(
                    rgb@[base as int],
                ).push(rgb@[base + 1]).push(rgb@[base + 2]));
                x += 1;
            }
            proof {
                lemma_cell_bounds(width as nat, y as nat, width as nat, height as nat);
                assert(row_text(luminance@, char_map@, width as nat, y as nat).take(width as int)
                    == row_text(luminance@, char_map@, width as nat, y as nat));
            }
            if add_newlines && y < height - 1 {
                ascii_text.push('\r');
                ascii_text.push('\n');
                let mut k: usize = 0;
                let ghost colors_row = rgb_data@;
                while k < 6
                    invariant
                        k <= 6,
                        rgb_data@ == colors_row + seq![0u8, 0u8, 0u8, 0u8, 0u8, 0u8].take(k as int),
                    decreases 6 - k,
                {
                    rgb_data.push(0);
                    assert(seq![0u8, 0u8, 0u8, 0u8, 0u8, 0u8].take(k + 1) == seq![
                        0u8,
                        0u8,
                        0u8,
                        0u8,
                        0u8,
                        0u8,
                    ].take(k as int).push(0u8));
                    k += 1;
                }
                assert(seq![0u8, 0u8, 0u8, 0u8, 0u8, 0u8].take(6) == seq![0u8, 0u8, 0u8, 0u8, 0u8, 0u8]);
                assert(ascii_text@ == text_before + row_text(
                    luminance@,
                    char_map@,
                    width as nat,
                    y as nat,
                ) + seq!['\r', '\n']);
            } else {
                assert(ascii_text@ == text_before + row_text(
                    luminance@,
                    char_map@,
                    width as nat,
                    y as nat,
                ) + Seq::<char>::empty());
                assert(rgb_data@ == colors_before + rgb@.subrange(
                    (y * width * 3) as int,
                    ((y + 1) * width * 3) as int,
                ) + Seq::<u8>::empty());
            }
            y += 1;
        }
        Ok((ascii_text, rgb_data))
    }

    /// Renders a picture that has the target size: its text and colours, and
    /// the target size as the size of the frame.
    pub fn render_image(&self, image: &RasterImage, luminance: &[u8]) -> (result: Result<
        RenderedFrame,
        MediaError,
    >)
        ensures
            renderable(*image, luminance@) ==> ({
                &&& result matches Ok(frame)
                &&& frame.width == self@.target_width
                &&& frame.height == self@.target_height
                &&& frame.ascii_text@ == rows_text(
                    luminance@,
                    CHAR_MAPS[self@.char_map_index as int % 10]@,
                    image.spec_width() as nat,
                    image.spec_height() as nat,
                    self@.add_newlines,
                    image.spec_height() as nat,
                )
                &&& frame.rgb_data@ == rows_colors(
                    image.spec_data(),
                    image.spec_width() as nat,
                    image.spec_height() as nat,
                    self@.add_newlines,
                    image.spec_height() as nat,
                )
            }),
            !renderable(*image, luminance@) ==> (result matches Err(MediaError::Image(m)) && m@
                == "The brightness does not fit the picture"@),
    {
        match self.image_to_ascii_with_color(image, luminance) {
            Ok((ascii_text, rgb_data)) => Ok(
                RenderedFrame {
                    ascii_text,
                    rgb_data,
                    width: self.config.target_width,
                    height: self.config.target_height,
                },
            ),
            Err(error) => Err(error),
        }
    }
}

/// Without line ends, the text has one character and the colours three
/// bytes for every cell of the picture.
pub proof fn lemma_render_sizes(
    luminance: Seq<u8>,
    rgb: Seq<u8>,
    char_map: Seq<char>,
    width: nat,
    height: nat,
    rows: nat,
)
    requires
        rows <= height,
        3 * width * height <= rgb.len(),
    ensures
        rows_text(luminance, char_map, width, height, false, rows).len() == rows * width,
        rows_colors(rgb, width, height, false, rows).len() == 3 * rows * width,
    decreases rows,
{
    if rows > 0 {
        let row = (rows - 1) as nat;
        lemma_render_sizes(luminance, rgb, char_map, width, height, row);
        lemma_cell_bounds(width, row, width, height);
        assert(row * width + width == rows * width) by (nonlinear_arith)
            requires
                row + 1 == rows,
        ;
        assert(3 * row * width + width * 3 == 3 * rows * width) by (nonlinear_arith)
            requires
                row + 1 == rows,
        ;
        assert((row + 1) * width * 3 <= rgb.len()) by (nonlinear_arith)
            requires
                row + 1 <= height,
                3 * width * height <= rgb.len(),
        ;
    }
}

} // verus!
