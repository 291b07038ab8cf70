//! Rasters of raw sensor counts: which cells hold a measurement, and how the
//! shades computed for them are laid out as an image.
//!
//! Turning a raw count into a physical value and a physical value into a
//! shade is floating-point work and is done outside this module. What is
//! decided here is which cells count: a cell that holds the fill value holds
//! no measurement and is transparent whatever shade is offered for it.

use vstd::prelude::*;

verus! {

/// A grid of raw counts in row-major order, with the count that marks a cell
/// as empty.
#[derive(Debug)]
pub struct RasterGrid {
    width: usize,
    height: usize,
    fill_value: i16,
    raw: Vec<i16>,
}

/// Mathematical value of a [`RasterGrid`].
pub struct RasterView {
    pub width: nat,
    pub height: nat,
    pub fill_value: i16,
    pub raw: Seq<i16>,
}

impl RasterView {
    /// Whether the cell at `index` holds a measurement.
    pub open spec fn is_valid(self, index: int) -> bool {
        self.raw[index] != self.fill_value
    }

    /// The measurements: for every cell its raw count, or nothing where the
    /// cell holds the fill value.
    pub open spec fn measurements(self) -> Seq<Option<i16>> {
        Seq::new(
            self.raw.len(),
            |i: int|
                if self.is_valid(i) {
                    Some(self.raw[i])
                } else {
                    None
                },
        )
    }

    /// The number of cells among the first `upto` that hold a measurement.
    pub open spec fn valid_count(self, upto: int) -> nat
        decreases upto,
    {
        if upto <= 0 {
            0
        } else {
            self.valid_count(upto - 1) + if self.is_valid(upto - 1) {
                1nat
            } else {
                0nat
            }
        }
    }

    /// The shade the cell at `index` is drawn in: the one offered, unless the
    /// cell holds no measurement.
    pub open spec fn shade(self, shades: Seq<Option<u8>>, index: int) -> Option<u8> {
        if self.is_valid(index) {
            shades[index]
        } else {
            None
        }
    }
}

/// One byte of a pixel in red, green, blue, alpha order: a cell without shade
/// is fully transparent black, a cell with a shade is that grey, fully
/// opaque.
pub open spec fn pixel_byte(shade: Option<u8>, channel: int) -> u8 {
    match shade {
        None => 0,
        Some(grey) => if channel == 3 {
            255
        } else {
            grey
        },
    }
}

impl View for RasterGrid {
    type V = RasterView;

    closed spec fn view(&self) -> RasterView {
        RasterView {
            width: self.width as nat,
            height: self.height as nat,
            fill_value: self.fill_value,
            raw: self.raw@,
        }
    }
}

impl RasterGrid {
    #[verifier::type_invariant]
    spec fn covers(self) -> bool {
        self.raw@.len() == self.width * self.height
    }

    /// A grid of `width` by `height` cells. The counts must be as many as the
    /// grid has cells.
    pub fn new(width: usize, height: usize, fill_value: i16, raw: Vec<i16>) -> (r: Option<Self>)
        ensures
            r is Some <==> raw@.len() == width * height,
            r matches Some(grid) ==> grid@ == (RasterView {
                width: width as nat,
                height: height as nat,
                fill_value,
                raw: raw@,
            }),
    {
        let given = raw.len();
        match width.checked_mul(height) {
            Some(cells) => {
                if cells == given {
                    Some(Self { width, height, fill_value, raw })
                } else {
                    None
                }
            },
            None => None,
        }
    }

    pub fn width(&self) -> (width: usize)
        ensures
            width == self@.width,
    {
        self.width
    }

    pub fn height(&self) -> (height: usize)
        ensures
            height == self@.height,
    {
        self.height
    }

    /// Number of cells.
    pub fn len(&self) -> (cells: usize)
        ensures
            cells == self@.raw.len(),
            cells == self@.width * self@.height,
    {
        proof {
            use_type_invariant(self);
        }
        self.raw.len()
    }

    /// The measurements of the grid: the raw count of every cell that holds
    /// one.
    pub fn measurements(&self) -> (cells: Vec<Option<i16>>)
        ensures
            cells@ == self@.measurements(),
    {
        let mut cells: Vec<Option<i16>> = Vec::new();
        let mut i: usize = 0;
        while i < self.raw.len()
            invariant
                i <= self.raw@.len(),
                cells@.len() == i,
                forall|k: int| 0 <= k < i ==> #[trigger] cells@[k] == self@.measurements()[k],
            decreases self.raw@.len() - i,
        {
            let count = self.raw[i];
            if count != self.fill_value {
                cells.push(Some(count));
            } else {
                cells.push(None);
            }
            i += 1;
        }
        assert(cells@ =~= self@.measurements());
        cells
    }

    /// The number of cells that hold a measurement.
    pub fn valid_count(&self) -> (count: usize)
        ensures
            count == self@.valid_count(self@.raw.len() as int),
    {
        let mut count: usize = 0;
        let mut i: usize = 0;
        while i < self.raw.len()
            invariant
                i <= self.raw@.len(),
                count <= i,
                count == self@.valid_count(i as int),
            decreases self.raw@.len() - i,
        {
            if self.raw[i] != self.fill_value {
                count += 1;
            }
            i += 1;
        }
        count
    }

    /// Lays the grid out as an image of four bytes per cell, in red, green,
    /// blue, alpha order. A cell is drawn in the shade offered for it; a cell
    /// that holds the fill value, or for which no shade is offered, is fully
    /// transparent. The shades must be as many as the grid has cells, and the
    /// image must fit in memory.
    pub fn render(&self, shades: &Vec<Option<u8>>) -> (r: Option<Vec<u8>>)
        ensures
            r is Some <==> shades@.len() == self@.raw.len() && 4 * self@.raw.len() <= usize::MAX,
            r matches Some(image) ==> image@.len() == 4 * self@.raw.len() && forall|
                i: int,
                channel: int,
            |
                #![trigger image@[4 * i + channel]]
                0 <= i < self@.raw.len() && 0 <= channel < 4 ==> image@[4 * i + channel]
                    == pixel_byte(self@.shade(shades@, i), channel),
    {
        let cells = self.raw.len();
        if shades.len() != cells || cells > usize::MAX / 4 {
            return None;
        }
        let mut image: Vec<u8> = Vec::new();
        let mut i: usize = 0;
        while i < cells
            invariant
                cells == self.raw@.len(),
                shades@.len() == cells,
                4 * cells <= usize::MAX,
                i <= cells,
                image@.len() == 4 * i,
                forall|k: int, channel: int|
                    #![trigger image@[4 * k + channel]]
                    0 <= k < i && 0 <= channel < 4 ==> image@[4 * k + channel] == pixel_byte(
                        self@.shade(shades@, k),
                        channel,
                    ),
            decreases cells - i,
        {
            let shade = if self.raw[i] != self.fill_value {
                shades[i]
            } else {
                None
            };
            let ghost before = image@;
            match shade {
                Some(grey) => {
                    image.push(grey);
                    image.push(grey);
                    image.push(grey);
                    image.push(255);
                },
                None => {
                    image.push(0);
                    image.push(0);
                    image.push(0);
                    image.push(0);
                },
            }
            proof {
                assert forall|k: int, channel: int|
                    #![trigger image@[4 * k + channel]]
                    0 <= k < i + 1 && 0 <= channel < 4 implies image@[4 * k + channel]
                    == pixel_byte(self@.shade(shades@, k), channel) by {
                    if k < i {
                        assert(image@[4 * k + channel] == before[4 * k + channel]);
                    }
                }
            }
            i += 1;
        }
        Some(image)
    }
}

/// A cell that holds the fill value is drawn fully transparent, whatever
/// shade is offered for it.
pub proof fn lemma_fill_is_transparent(grid: RasterView, shades: Seq<Option<u8>>, index: int)
    requires
        0 <= index < grid.raw.len(),
        grid.raw[index] == grid.fill_value,
    ensures
        grid.measurements()[index] is None,
        forall|channel: int| pixel_byte(grid.shade(shades, index), channel) == 0,
{
}

/// A grid without any measurement is drawn fully transparent throughout.
pub proof fn lemma_no_measurement_no_image(grid: RasterView, shades: Seq<Option<u8>>)
    requires
        grid.valid_count(grid.raw.len() as int) == 0,
    ensures
        forall|i: int, channel: int|
            0 <= i < grid.raw.len() ==> #[trigger] pixel_byte(grid.shade(shades, i), channel) == 0,
{
    assert forall|i: int| 0 <= i < grid.raw.len() implies !grid.is_valid(i) by {
        lemma_valid_count_zero(grid, grid.raw.len() as int, i);
    }
}

proof fn lemma_valid_count_zero(grid: RasterView, upto: int, index: int)
    requires
        0 <= index < upto,
        grid.valid_count(upto) == 0,
    ensures
        !grid.is_valid(index),
    decreases upto,
{
    if index < upto - 1 {
        lemma_valid_count_zero(grid, upto - 1, index);
    }
}

} // verus!
