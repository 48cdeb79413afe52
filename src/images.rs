use vstd::prelude::*;

verus! {

/// A 5×5 grid of brightness levels, row by row.
#[derive(Clone, Copy, Debug)]
pub struct Frame {
    pub cells: [[u8; 5]; 5],
}

impl View for Frame {
    type V = Seq<Seq<u8>>;

    open spec fn view(&self) -> Seq<Seq<u8>> {
        self.cells@.map_values(|row: [u8; 5]| row@)
    }
}

/// The three pictures the display cycles through.
#[derive(Clone, Copy, Debug, PartialEq, Eq, Structural)]
pub enum Images {
    Heart,
    Rust,
    Author,
}

impl Images {
    /// The picture that follows `self` in the fixed cycle.
    pub open spec fn next(self) -> Images {
        match self {
            Images::Heart => Images::Rust,
            Images::Rust => Images::Author,
            Images::Author => Images::Heart,
        }
    }

    /// Advances to the next picture: Heart, then Rust, then Author, then Heart again.
    pub fn toggle(self) -> (r: Images)
        ensures
            r == self.next(),
    {
        match self {
            Images::Heart => Images::Rust,
            Images::Rust => Images::Author,
            Images::Author => Images::Heart,
        }
    }
}

/// The heart: a fixed outline at full brightness around an inner part lit at `b`.
pub open spec fn heart_grid(b: u8) -> Seq<Seq<u8>> {
    seq![
        seq![0u8, 7, 0, 7, 0],
        seq![7u8, b, 7, b, 7],
        seq![7u8, b, b, b, 7],
        seq![0u8, 7, b, 7, 0],
        seq![0u8, 0, 7, 0, 0],
    ]
}

/// The static Rust logo.
pub open spec fn rust_grid() -> Seq<Seq<u8>> {
    seq![
        seq![0u8, 7, 7, 0, 0],
        seq![0u8, 7, 0, 7, 0],
        seq![0u8, 7, 7, 0, 0],
        seq![0u8, 7, 0, 7, 0],
        seq![0u8, 7, 0, 7, 0],
    ]
}

/// The eight-column bitmap that the author slide scrolls across.
pub open spec fn author_slide() -> Seq<Seq<u8>> {
    seq![
        seq![0u8, 0, 7, 0, 0, 7, 0, 7],
        seq![0u8, 7, 0, 7, 0, 7, 0, 7],
        seq![0u8, 7, 7, 7, 0, 7, 7, 7],
        seq![0u8, 7, 0, 7, 0, 7, 0, 7],
        seq![0u8, 7, 0, 7, 0, 7, 0, 7],
    ]
}

/// How many columns the author slide has scrolled at animation step `step`:
/// one column every three steps, wrapping after eight.
pub open spec fn author_offset(step: u8) -> int {
    (step / 3) as int % 8
}

/// The 5×5 window of the author slide shown at animation step `step`.
pub open spec fn author_grid(step: u8) -> Seq<Seq<u8>> {
    Seq::new(5, |y: int| Seq::new(5, |x: int| author_slide()[y][(x + author_offset(step)) % 8]))
}

/// Renders the heart with its inner pixels at brightness `inner_brightness`.
pub fn heart_image(inner_brightness: u8) -> (r: Frame)
    ensures
        r@ == heart_grid(inner_brightness),
{
    let b = inner_brightness;
    let r = Frame {
        cells: [
            [0, 7, 0, 7, 0],
            [7, b, 7, b, 7],
            [7, b, b, b, 7],
            [0, 7, b, 7, 0],
            [0, 0, 7, 0, 0],
        ],
    };
    assert(r@ =~~= heart_grid(b));
    r
}

/// Renders the Rust logo.
pub fn rust_image() -> (r: Frame)
    ensures
        r@ == rust_grid(),
{
    let r = Frame {
        cells: [
            [0, 7, 7, 0, 0],
            [0, 7, 0, 7, 0],
            [0, 7, 7, 0, 0],
            [0, 7, 0, 7, 0],
            [0, 7, 0, 7, 0],
        ],
    };
    assert(r@ =~~= rust_grid());
    r
}

/// One pixel of the author slide.
fn slide_pixel(y: usize, x: usize) -> (r: u8)
    requires
        y < 5,
        x < 8,
    ensures
        r == author_slide()[y as int][x as int],
{
    let slide: [[u8; 8]; 5] = [
        [0, 0, 7, 0, 0, 7, 0, 7],
        [0, 7, 0, 7, 0, 7, 0, 7],
        [0, 7, 7, 7, 0, 7, 7, 7],
        [0, 7, 0, 7, 0, 7, 0, 7],
        [0, 7, 0, 7, 0, 7, 0, 7],
    ];
    assert(slide@.map_values(|row: [u8; 8]| row@) =~~= author_slide());
    let row: [u8; 8] = slide[y];
    row[x]
}

/// Row `y` of the author slide, seen through a window `offset` columns in.
fn author_row(y: usize, offset: usize) -> (r: [u8; 5])
    requires
        y < 5,
        offset < 8,
    ensures
        r@ == Seq::new(5, |x: int| author_slide()[y as int][(x + offset) % 8]),
{
    let r = [
        slide_pixel(y, offset % 8),
        slide_pixel(y, (offset + 1) % 8),
        slide_pixel(y, (offset + 2) % 8),
        slide_pixel(y, (offset + 3) % 8),
        slide_pixel(y, (offset + 4) % 8),
    ];
    assert(r@ =~= Seq::new(5, |x: int| author_slide()[y as int][(x + offset) % 8]));
    r
}

/// Renders the author slide at animation step `step`, scrolled by
/// `step / 3` columns modulo eight.
pub fn author_image(step: u8) -> (r: Frame)
    ensures
        r@ == author_grid(step),
{
    let offset: usize = (step / 3) as usize % 8;
    let r = Frame {
        cells: [
            author_row(0, offset),
            author_row(1, offset),
            author_row(2, offset),
            author_row(3, offset),
            author_row(4, offset),
        ],
    };
    assert(r@ =~~= author_grid(step));
    r
}

} // verus!
