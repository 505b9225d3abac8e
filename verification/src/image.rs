//! Images that are composed of a grid of three by three sub images, and
//! the places at which the sub images are drawn.
//!
//! The corners are drawn as they are. The edges stretch along their side
//! and the middle stretches both ways, so that the whole fills the size
//! asked for.

use vstd::prelude::*;
use crate::search::{first_index, lemma_first_index_found, lemma_first_index_skip};
use crate::text::str_eq;

verus! {

/// The number of sub images in a row and in a column of the grid.
pub const GRID_DIM: usize = 3;

/// The number of sub images in the grid.
pub const GRID_LEN: usize = 9;

/// A width and a height.
#[derive(Debug, Copy, Clone, PartialEq, Eq, Structural)]
pub struct Size {
    pub width: i32,
    pub height: i32,
}

/// A place and an extent on the screen.
#[derive(Debug, Copy, Clone, PartialEq, Eq, Structural)]
pub struct Cell {
    pub x: i64,
    pub y: i64,
    pub width: i64,
    pub height: i64,
}

/// An image that is known by its id, with its size.
#[derive(Debug, Clone, PartialEq, Eq)]
pub struct KnownImage {
    pub id: String,
    pub size: Size,
}

/// What a composed image is built from: its id and the ids of its nine sub
/// images, row by row.
#[derive(Debug, Clone, PartialEq, Eq)]
pub struct ComposedImageBuilder {
    pub id: String,
    pub grid: Vec<String>,
}

/// Why a composed image cannot be built.
#[derive(Debug, Copy, Clone, PartialEq, Eq, Structural)]
pub enum ImageError {
    /// The grid does not hold nine ids.
    GridLength,
    /// The sub image at this place of the grid is not known.
    MissingSubImage(usize),
    /// A sub image in this row is not as high as the first of the row.
    RowHeight(usize),
    /// A sub image in this column is not as wide as the first of the column.
    ColumnWidth(usize),
    /// The sub images together are wider or higher than an `i32` can say.
    TooLarge,
}

/// A composed image: the sizes of its nine sub images, row by row, the size
/// of the whole and the size of the middle.
#[derive(Debug, Clone, PartialEq, Eq)]
pub struct ComposedImage {
    pub images: Vec<Size>,
    pub size: Size,
    pub middle_size: Size,
}

/// Whether a known image has the id `id`.
pub open spec fn is_image(id: Seq<char>) -> spec_fn(KnownImage) -> bool {
    |image: KnownImage| image.id@ == id
}

/// The size of the first image of `images` with the id `id`.
pub open spec fn size_of(images: Seq<KnownImage>, id: Seq<char>) -> Option<Size> {
    match first_index(images, is_image(id)) {
        Some(index) => Some(images[index].size),
        None => None,
    }
}

/// Whether an id is that of no image of `images`.
pub open spec fn is_unknown(images: Seq<KnownImage>) -> spec_fn(String) -> bool {
    |id: String| size_of(images, id@) is None
}

/// The first place of `grid` whose image is not known.
pub open spec fn first_missing(images: Seq<KnownImage>, grid: Seq<String>) -> Option<int> {
    first_index(grid, is_unknown(images))
}

/// The first row of `sizes` in which a sub image is not as high as the
/// first of the row.
pub open spec fn uneven_row(sizes: Seq<Size>) -> Option<int> {
    if sizes[1].height != sizes[0].height || sizes[2].height != sizes[0].height {
        Some(0)
    } else if sizes[4].height != sizes[3].height || sizes[5].height != sizes[3].height {
        Some(1)
    } else if sizes[7].height != sizes[6].height || sizes[8].height != sizes[6].height {
        Some(2)
    } else {
        None
    }
}

/// The first column of `sizes` in which a sub image is not as wide as the
/// first of the column.
pub open spec fn uneven_column(sizes: Seq<Size>) -> Option<int> {
    if sizes[3].width != sizes[0].width || sizes[6].width != sizes[0].width {
        Some(0)
    } else if sizes[4].width != sizes[1].width || sizes[7].width != sizes[1].width {
        Some(1)
    } else if sizes[5].width != sizes[2].width || sizes[8].width != sizes[2].width {
        Some(2)
    } else {
        None
    }
}

/// The width of the three columns together.
pub open spec fn total_width(sizes: Seq<Size>) -> int {
    sizes[0].width + sizes[1].width + sizes[2].width
}

/// The height of the three rows together.
pub open spec fn total_height(sizes: Seq<Size>) -> int {
    sizes[0].height + sizes[3].height + sizes[6].height
}

/// Whether `value` can be held in an `i32`.
pub open spec fn fits_i32(value: int) -> bool {
    i32::MIN <= value <= i32::MAX
}

/// Why the sub images of the sizes `sizes` cannot be composed, if they
/// cannot. Rows are looked at before columns.
pub open spec fn grid_defect(sizes: Seq<Size>) -> Option<ImageError> {
    if uneven_row(sizes) is Some {
        Some(ImageError::RowHeight(uneven_row(sizes)->0 as usize))
    } else if uneven_column(sizes) is Some {
        Some(ImageError::ColumnWidth(uneven_column(sizes)->0 as usize))
    } else if !fits_i32(total_width(sizes)) || !fits_i32(total_height(sizes)) {
        Some(ImageError::TooLarge)
    } else {
        None
    }
}

/// The sizes of the images that `grid` names, where all are known.
pub open spec fn grid_sizes(images: Seq<KnownImage>, grid: Seq<String>) -> Seq<Size> {
    Seq::new(grid.len(), |i: int| size_of(images, grid[i]@)->0)
}

/// The size of the first image of `images` with the id `id`.
pub fn find_image(images: &Vec<KnownImage>, id: &str) -> (found: Option<Size>)
    ensures
        found == size_of(images@, id@),
{
    let mut i: usize = 0;
    while i < images.len()
        invariant
            0 <= i <= images.len(),
            first_index(images@.take(i as int), is_image(id@)) is None,
        decreases images.len() - i,
    {
        if str_eq(images[i].id.as_str(), id) {
            proof {
                lemma_first_index_found(images@, i as int, is_image(id@));
            }
            return Some(images[i].size);
        }
        proof {
            lemma_first_index_skip(images@, i as int, is_image(id@));
        }
        i += 1;
    }
    assert(images@.take(i as int) =~= images@);
    None
}

/// The place and extent of each sub image of a composed image whose parts
/// have the sizes `sizes`, drawn at `(x, y)` so as to fill `width` by
/// `height`, where the whole has the size `whole` and the middle the size
/// `middle`.
pub open spec fn cells(
    sizes: Seq<Size>,
    whole: Size,
    middle: Size,
    x: int,
    y: int,
    width: int,
    height: int,
) -> Seq<Cell> {
    let fill_width = width - (whole.width - middle.width);
    let fill_height = height - (whole.height - middle.height);
    let mid_x = x + sizes[1].width;
    let right_x = mid_x + fill_width;
    let mid_y = y + sizes[3].height;
    let bottom_y = mid_y + fill_height;
    seq![
        Cell {
            x: x as i64,
            y: y as i64,
            width: sizes[0].width as i64,
            height: sizes[0].height as i64,
        },
        Cell {
            x: mid_x as i64,
            y: y as i64,
            width: fill_width as i64,
            height: sizes[1].height as i64,
        },
        Cell {
            x: right_x as i64,
            y: y as i64,
            width: sizes[2].width as i64,
            height: sizes[2].height as i64,
        },
        Cell {
            x: x as i64,
            y: mid_y as i64,
            width: sizes[3].width as i64,
            height: fill_height as i64,
        },
        Cell {
            x: (x + sizes[4].width) as i64,
            y: mid_y as i64,
            width: fill_width as i64,
            height: fill_height as i64,
        },
        Cell {
            x: (x + sizes[4].width + fill_width) as i64,
            y: mid_y as i64,
            width: sizes[5].width as i64,
            height: fill_height as i64,
        },
        Cell {
            x: x as i64,
            y: bottom_y as i64,
            width: sizes[6].width as i64,
            height: sizes[6].height as i64,
        },
        Cell {
            x: (x + sizes[7].width) as i64,
            y: bottom_y as i64,
            width: fill_width as i64,
            height: sizes[7].height as i64,
        },
        Cell {
            x: (x + sizes[7].width + fill_width) as i64,
            y: bottom_y as i64,
            width: sizes[8].width as i64,
            height: sizes[8].height as i64,
        },
    ]
}

/// The place of each sub image of a composed image whose parts have the
/// sizes `sizes` when the image is drawn at `(x, y)` part by part: every
/// part of a row starts at the left edge, and a row starts below the last
/// part of the row before it.
pub open spec fn draw_places(sizes: Seq<Size>, x: int, y: int) -> Seq<(i64, i64)> {
    let second = y + sizes[2].height;
    let third = second + sizes[5].height;
    seq![
        (x as i64, y as i64),
        (x as i64, y as i64),
        (x as i64, y as i64),
        (x as i64, second as i64),
        (x as i64, second as i64),
        (x as i64, second as i64),
        (x as i64, third as i64),
        (x as i64, third as i64),
        (x as i64, third as i64),
    ]
}

impl ComposedImage {
    /// Whether the image holds the sizes of nine sub images.
    pub open spec fn complete(self) -> bool {
        self.images@.len() == GRID_LEN
    }

    /// Composes the image that `builder` describes from the known images
    /// `images`. The grid has to hold nine ids, each of a known image; the
    /// sub images of a row have to be equally high and those of a column
    /// equally wide. The whole is as wide as the three columns and as high
    /// as the three rows.
    pub fn new(builder: ComposedImageBuilder, images: &Vec<KnownImage>) -> (composed: Result<
        ComposedImage,
        ImageError,
    >)
        ensures
            builder.grid@.len() != GRID_LEN ==> composed == Err::<ComposedImage, ImageError>(
                ImageError::GridLength,
            ),
            builder.grid@.len() == GRID_LEN ==> match first_missing(images@, builder.grid@) {
                Some(place) => composed == Err::<ComposedImage, ImageError>(
                    ImageError::MissingSubImage(place as usize),
                ),
                None => match grid_defect(grid_sizes(images@, builder.grid@)) {
                    Some(error) => composed == Err::<ComposedImage, ImageError>(error),
                    None => {
                        &&& composed is Ok
                        &&& composed->Ok_0.images@ == grid_sizes(images@, builder.grid@)
                        &&& composed->Ok_0.size.width == total_width(composed->Ok_0.images@)
                        &&& composed->Ok_0.size.height == total_height(composed->Ok_0.images@)
                        &&& composed->Ok_0.middle_size == composed->Ok_0.images@[4]
                    },
                },
            },
    {
        if builder.grid.len() != GRID_LEN {
            return Err(ImageError::GridLength);
        }
        let mut sizes: Vec<Size> = Vec::new();
        let mut i: usize = 0;
        while i < GRID_LEN
            invariant
                0 <= i <= GRID_LEN,
                builder.grid@.len() == GRID_LEN,
                sizes@.len() == i,
                first_index(builder.grid@.take(i as int), is_unknown(images@)) is None,
                forall|k: int|
                    0 <= k < i ==> size_of(images@, builder.grid@[k]@) == Some(
                        #[trigger] sizes@[k],
                    ),
            decreases GRID_LEN - i,
        {
            match find_image(images, builder.grid[i].as_str()) {
                None => {
                    proof {
                        lemma_first_index_found(builder.grid@, i as int, is_unknown(images@));
                    }
                    return Err(ImageError::MissingSubImage(i));
                },
                Some(size) => {
                    proof {
                        lemma_first_index_skip(builder.grid@, i as int, is_unknown(images@));
                    }
                    sizes.push(size);
                },
            }
            i += 1;
        }
        assert(builder.grid@.take(i as int) =~= builder.grid@);
        if sizes[1].height != sizes[0].height || sizes[2].height != sizes[0].height {
            return Err(ImageError::RowHeight(0));
        }
        if sizes[4].height != sizes[3].height || sizes[5].height != sizes[3].height {
            return Err(ImageError::RowHeight(1));
        }
        if sizes[7].height != sizes[6].height || sizes[8].height != sizes[6].height {
            return Err(ImageError::RowHeight(2));
        }
        if sizes[3].width != sizes[0].width || sizes[6].width != sizes[0].width {
            return Err(ImageError::ColumnWidth(0));
        }
        if sizes[4].width != sizes[1].width || sizes[7].width != sizes[1].width {
            return Err(ImageError::ColumnWidth(1));
        }
        if sizes[5].width != sizes[2].width || sizes[8].width != sizes[2].width {
            return Err(ImageError::ColumnWidth(2));
        }
        let width: i64 = sizes[0].width as i64 + sizes[1].width as i64 + sizes[2].width as i64;
        let height: i64 = sizes[0].height as i64 + sizes[3].height as i64 + sizes[6].height as i64;
        if width < i32::MIN as i64 || width > i32::MAX as i64 || height < i32::MIN as i64 || height
            > i32::MAX as i64 {
            return Err(ImageError::TooLarge);
        }
        let middle_size = sizes[4];
        Ok(
            ComposedImage {
                images: sizes,
                size: Size { width: width as i32, height: height as i32 },
                middle_size,
            },
        )
    }

    /// The size of the whole image.
    pub fn get_size(&self) -> (size: &Size)
        ensures
            *size == self.size,
    {
        &self.size
    }

    /// The place of each of the nine sub images when the image is drawn at
    /// `(x, y)` part by part.
    pub fn draw_positions(&self, x: i32, y: i32) -> (places: Vec<(i64, i64)>)
        requires
            self.complete(),
        ensures
            places@ == draw_places(self.images@, x as int, y as int),
    {
        let left: i64 = x as i64;
        let mut top: i64 = y as i64;
        let mut places: Vec<(i64, i64)> = Vec::new();
        let mut index: usize = 0;
        while index < GRID_LEN
            invariant
                0 <= index <= GRID_LEN,
                self.complete(),
                left == x,
                places@.len() == index,
                top == y + (if index >= 3 {
                    self.images@[2].height as int
                } else {
                    0
                }) + (if index >= 6 {
                    self.images@[5].height as int
                } else {
                    0
                }) + (if index >= 9 {
                    self.images@[8].height as int
                } else {
                    0
                }),
                forall|k: int|
                    0 <= k < index ==> (#[trigger] places@[k]) == draw_places(
                        self.images@,
                        x as int,
                        y as int,
                    )[k],
            decreases GRID_LEN - index,
        {
            places.push((left, top));
            if index % GRID_DIM == GRID_DIM - 1 {
                top = top + self.images[index].height as i64;
            }
            index += 1;
        }
        places
    }

    /// The place and extent of each of the nine sub images when the image
    /// is drawn at `(x, y)` so as to fill `size`.
    pub fn layout(&self, x: i32, y: i32, size: Size) -> (placed: Vec<Cell>)
        requires
            self.complete(),
        ensures
            placed@ == cells(
                self.images@,
                self.size,
                self.middle_size,
                x as int,
                y as int,
                size.width as int,
                size.height as int,
            ),
    {
        let fill_width: i64 = size.width as i64 - (self.size.width as i64
            - self.middle_size.width as i64);
        let fill_height: i64 = size.height as i64 - (self.size.height as i64
            - self.middle_size.height as i64);
        let left: i64 = x as i64;
        let top: i64 = y as i64;
        let mid_x: i64 = left + self.images[1].width as i64;
        let right_x: i64 = mid_x + fill_width;
        let mid_y: i64 = top + self.images[3].height as i64;
        let bottom_y: i64 = mid_y + fill_height;
        let mut placed: Vec<Cell> = Vec::new();
        placed.push(
            Cell {
                x: left,
                y: top,
                width: self.images[0].width as i64,
                height: self.images[0].height as i64,
            },
        );
        placed.push(
            Cell { x: mid_x, y: top, width: fill_width, height: self.images[1].height as i64 },
        );
        placed.push(
            Cell {
                x: right_x,
                y: top,
                width: self.images[2].width as i64,
                height: self.images[2].height as i64,
            },
        );
        placed.push(
            Cell { x: left, y: mid_y, width: self.images[3].width as i64, height: fill_height },
        );
        placed.push(
            Cell {
                x: left + self.images[4].width as i64,
                y: mid_y,
                width: fill_width,
                height: fill_height,
            },
        );
        placed.push(
            Cell {
                x: left + self.images[4].width as i64 + fill_width,
                y: mid_y,
                width: self.images[5].width as i64,
                height: fill_height,
            },
        );
        placed.push(
            Cell {
                x: left,
                y: bottom_y,
                width: self.images[6].width as i64,
                height: self.images[6].height as i64,
            },
        );
        placed.push(
            Cell {
                x: left + self.images[7].width as i64,
                y: bottom_y,
                width: fill_width,
                height: self.images[7].height as i64,
            },
        );
        placed.push(
            Cell {
                x: left + self.images[7].width as i64 + fill_width,
                y: bottom_y,
                width: self.images[8].width as i64,
                height: self.images[8].height as i64,
            },
        );
        placed
    }
}

} // verus!
