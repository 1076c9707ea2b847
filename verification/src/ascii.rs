//! The grid of coloured symbols and the mapping from pixels to it.

use vstd::prelude::*;
use crate::density::{average_intensity, bucket_index, bucket_of, mean_intensity};
use crate::ramp::{ramp, ramp_symbol, RAMP_LEN};
use crate::render::{grid_text, is_painted, layout, paint};
use crate::raster::{
    buffer_dimensions, buffer_get_pixel, image_height, image_pixels, image_width, RgbRaster,
};

verus! {

/// One cell of the grid: a symbol and the colour it is drawn in.
#[derive(Clone, Copy, Debug, PartialEq, Eq)]
pub struct AsciiPixel {
    pub symbol: char,
    pub rgb: (u8, u8, u8),
}

/// The cell that every grid starts from: a blank in white.
pub open spec fn blank_pixel() -> AsciiPixel {
    AsciiPixel { symbol: ' ', rgb: (255u8, 255u8, 255u8) }
}

/// The cell that stands for a pixel: the ramp symbol of its mean intensity,
/// in the pixel's own colour.
pub open spec fn pixel_glyph(rgb: (u8, u8, u8)) -> AsciiPixel {
    AsciiPixel {
        symbol: ramp()[bucket_of(
            mean_intensity(rgb.0 as int, rgb.1 as int, rgb.2 as int),
            RAMP_LEN as int,
        )],
        rgb,
    }
}

/// Whether `painted` holds, cell for cell, a text that painting the cells of
/// `grid` may give.
pub open spec fn paints(grid: Seq<Seq<AsciiPixel>>, painted: Seq<Seq<Seq<char>>>) -> bool {
    &&& painted.len() == grid.len()
    &&& forall|y: int| 0 <= y < grid.len() ==> #[trigger] painted[y].len() == grid[y].len()
    &&& forall|y: int, x: int|
        0 <= y < grid.len() && 0 <= x < grid[y].len() ==> is_painted(
            grid[y][x].symbol,
            grid[y][x].rgb,
            #[trigger] painted[y][x],
        )
}

impl AsciiPixel {
    /// The blank, white cell.
    pub fn blank() -> (cell: AsciiPixel)
        ensures
            cell == blank_pixel(),
    {
        AsciiPixel { symbol: ' ', rgb: (255, 255, 255) }
    }

    /// The cell for a pixel of the given colour.
    pub fn from_rgb(rgb: (u8, u8, u8)) -> (cell: AsciiPixel)
        ensures
            cell == pixel_glyph(rgb),
    {
        let density: u8 = average_intensity(rgb.0, rgb.1, rgb.2);
        let level: u8 = bucket_index(density, RAMP_LEN);
        AsciiPixel { symbol: ramp_symbol(level), rgb }
    }
}

/// A grid of cells in rows, one row and one column larger than the image it
/// was made for.
pub struct AsciiImage {
    image: Vec<Vec<AsciiPixel>>,
}

impl View for AsciiImage {
    type V = Seq<Seq<AsciiPixel>>;

    closed spec fn view(&self) -> Seq<Seq<AsciiPixel>> {
        Seq::new(self.image@.len(), |y: int| self.image@[y]@)
    }
}

impl AsciiImage {
    /// Every grid has at least one row, and its rows are equally long and not
    /// empty.
    #[verifier::type_invariant]
    spec fn rectangular(&self) -> bool {
        &&& self.image@.len() >= 1
        &&& self.image@[0]@.len() >= 1
        &&& forall|y: int|
            0 <= y < self.image@.len() ==> #[trigger] self.image@[y]@.len()
                == self.image@[0]@.len()
    }

    /// A grid for an image of `width` by `height` pixels, every cell blank.
    pub fn new(width: u32, height: u32) -> (grid: AsciiImage)
        ensures
            grid@.len() == height + 1,
            forall|y: int| 0 <= y <= height ==> #[trigger] grid@[y].len() == width + 1,
            forall|y: int, x: int|
                0 <= y <= height && 0 <= x <= width ==> #[trigger] grid@[y][x] == blank_pixel(),
    {
        let mut image: Vec<Vec<AsciiPixel>> = Vec::new();
        let mut y: u32 = 0;
        loop
            invariant_except_break
                y <= height,
                image@.len() == y,
                forall|j: int| 0 <= j < y ==> #[trigger] image@[j]@ =~= Seq::new(
                    (width + 1) as nat,
                    |x: int| blank_pixel(),
                ),
            ensures
                image@.len() == height + 1,
                forall|j: int| 0 <= j <= height ==> #[trigger] image@[j]@ =~= Seq::new(
                    (width + 1) as nat,
                    |x: int| blank_pixel(),
                ),
            decreases height - y,
        {
            image.push(Self::blank_row(width));
            if y == height {
                break;
            }
            y = y + 1;
        }
        AsciiImage { image }
    }

    /// One row of `width + 1` blank cells.
    fn blank_row(width: u32) -> (row: Vec<AsciiPixel>)
        ensures
            row@ =~= Seq::new((width + 1) as nat, |x: int| blank_pixel()),
    {
        let mut row: Vec<AsciiPixel> = Vec::new();
        let mut x: u32 = 0;
        loop
            invariant_except_break
                x <= width,
                row@.len() == x,
                forall|i: int| 0 <= i < x ==> #[trigger] row@[i] == blank_pixel(),
            ensures
                row@.len() == width + 1,
                forall|i: int| 0 <= i <= width ==> #[trigger] row@[i] == blank_pixel(),
            decreases width - x,
        {
            row.push(AsciiPixel::blank());
            if x == width {
                break;
            }
            x = x + 1;
        }
        row
    }

    /// Number of rows.
    pub fn rows(&self) -> (n: usize)
        ensures
            n == self@.len(),
            n >= 1,
    {
        proof {
            use_type_invariant(self);
        }
        self.image.len()
    }

    /// Number of cells in each row.
    pub fn cols(&self) -> (n: usize)
        ensures
            n >= 1,
            forall|y: int| 0 <= y < self@.len() ==> #[trigger] self@[y].len() == n,
    {
        proof {
            use_type_invariant(self);
        }
        self.image[0].len()
    }

    /// The cell in row `y` and column `x`.
    pub fn get(&self, y: usize, x: usize) -> (cell: AsciiPixel)
        requires
            y < self@.len(),
            x < self@[y as int].len(),
        ensures
            cell == self@[y as int][x as int],
    {
        self.image[y][x]
    }

    /// Paints every cell in its colour.
    fn paint_cells(&self) -> (painted: Vec<Vec<String>>)
        ensures
            paints(self@, painted.deep_view()),
    {
        let mut painted: Vec<Vec<String>> = Vec::new();
        let mut y: usize = 0;
        while y < self.image.len()
            invariant
                y <= self.image@.len(),
                painted@.len() == y,
                forall|j: int|
                    0 <= j < y ==> #[trigger] painted@[j]@.len() == self.image@[j]@.len(),
                forall|j: int, i: int|
                    0 <= j < y && 0 <= i < self.image@[j]@.len() ==> is_painted(
                        self.image@[j]@[i].symbol,
                        self.image@[j]@[i].rgb,
                        #[trigger] painted@[j]@[i]@,
                    ),
            decreases self.image@.len() - y,
        {
            let row = &self.image[y];
            let mut texts: Vec<String> = Vec::new();
            let mut x: usize = 0;
            while x < row.len()
                invariant
                    x <= row@.len(),
                    texts@.len() == x,
                    forall|i: int|
                        0 <= i < x ==> is_painted(
                            row@[i].symbol,
                            row@[i].rgb,
                            #[trigger] texts@[i]@,
                        ),
                decreases row@.len() - x,
            {
                texts.push(paint(row[x].symbol, row[x].rgb));
                x = x + 1;
            }
            painted.push(texts);
            y = y + 1;
        }
        proof {
            let texts = painted.deep_view();
            assert forall|j: int, i: int|
                0 <= j < self@.len() && 0 <= i < self@[j].len() implies is_painted(
                self@[j][i].symbol,
                self@[j][i].rgb,
                #[trigger] texts[j][i],
            ) by {
                assert(texts[j][i] == painted@[j]@[i]@);
            }
        }
        painted
    }

    /// The grid as terminal text: every cell painted in its colour and followed
    /// by a space, every row closed by a newline. How a cell is painted is left
    /// to the terminal's abilities; `is_painted` lists the forms.
    pub fn render_ascii(&self) -> (text: String)
        ensures
            exists|painted: Seq<Seq<Seq<char>>>|
                paints(self@, painted) && text@ == #[trigger] grid_text(painted),
    {
        let painted = self.paint_cells();
        layout(&painted)
    }

    /// Overwrites the cell in row `y` and column `x`.
    fn put(&mut self, y: usize, x: usize, cell: AsciiPixel)
        requires
            y < old(self)@.len(),
            x < old(self)@[y as int].len(),
        ensures
            final(self)@ =~= old(self)@.update(
                y as int,
                old(self)@[y as int].update(x as int, cell),
            ),
    {
        proof {
            use_type_invariant(&*self);
        }
        set_cell(&mut self.image, y, x, cell);
    }
}

/// Overwrites one cell of a grid of rows and leaves every other cell, and the
/// length of every row, as it was.
fn set_cell(rows: &mut Vec<Vec<AsciiPixel>>, y: usize, x: usize, cell: AsciiPixel)
    requires
        y < old(rows)@.len(),
        x < old(rows)@[y as int]@.len(),
    ensures
        final(rows)@.len() == old(rows)@.len(),
        final(rows)@[y as int]@ == old(rows)@[y as int]@.update(x as int, cell),
        forall|j: int| 0 <= j < old(rows)@.len() && j != y ==> final(rows)@[j] == old(rows)@[j],
    no_unwind
{
    rows[y][x] = cell;
}

/// Maps an image to its grid of coloured symbols. The grid is one row and one
/// column larger than the image. The cell in row `y` and column `x` stands for
/// the pixel at `(x, y)`; the cells of the last row and of the last column stay
/// blank.
pub fn to_ascii(img: RgbRaster) -> (grid: AsciiImage)
    ensures
        grid@.len() == image_height(img) + 1,
        forall|y: int|
            0 <= y <= image_height(img) ==> #[trigger] grid@[y].len() == image_width(img) + 1,
        forall|y: int, x: int|
            0 <= y < image_height(img) && 0 <= x < image_width(img) ==> #[trigger] grid@[y][x]
                == pixel_glyph(image_pixels(img)[(x, y)]),
        forall|y: int, x: int|
            0 <= y <= image_height(img) && 0 <= x <= image_width(img) && (y == image_height(img)
                || x == image_width(img)) ==> #[trigger] grid@[y][x] == blank_pixel(),
{
    let (width, height) = buffer_dimensions(&img);
    let mut grid = AsciiImage::new(width, height);
    let mut y: u32 = 0;
    while y < height
        invariant
            width == image_width(img),
            height == image_height(img),
            y <= height,
            grid@.len() == height + 1,
            forall|j: int| 0 <= j <= height ==> #[trigger] grid@[j].len() == width + 1,
            forall|j: int, i: int|
                0 <= j < y && 0 <= i < width ==> #[trigger] grid@[j][i] == pixel_glyph(
                    image_pixels(img)[(i, j)],
                ),
            forall|j: int, i: int|
                0 <= j <= height && 0 <= i <= width && (j >= y || i == width)
                    ==> #[trigger] grid@[j][i] == blank_pixel(),
        decreases height - y,
    {
        let mut x: u32 = 0;
        while x < width
            invariant
                width == image_width(img),
                height == image_height(img),
                y < height,
                x <= width,
                grid@.len() == height + 1,
                forall|j: int| 0 <= j <= height ==> #[trigger] grid@[j].len() == width + 1,
                forall|j: int, i: int|
                    0 <= i < width && (0 <= j < y || (j == y && i < x)) ==> #[trigger] grid@[j][i]
                        == pixel_glyph(image_pixels(img)[(i, j)]),
                forall|j: int, i: int|
                    0 <= j <= height && 0 <= i <= width && (j > y || (j == y && i >= x) || i
                        == width) ==> #[trigger] grid@[j][i] == blank_pixel(),
            decreases width - x,
        {
            let rgb = buffer_get_pixel(&img, x, y);
            grid.put(y as usize, x as usize, AsciiPixel::from_rgb(rgb));
            x = x + 1;
        }
        y = y + 1;
    }
    grid
}

} // verus!
