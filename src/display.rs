use vstd::prelude::*;

verus! {

/// Width of the framebuffer, in pixels.
pub const DISPLAY_WIDTH: usize = 64;

/// Height of the framebuffer, in pixels.
pub const DISPLAY_HEIGHT: usize = 32;

/// A grid of 32 rows of 64 pixels, each 0 (off) or 1 (on).
pub open spec fn screen_wf(g: Seq<Seq<u8>>) -> bool {
    &&& g.len() == 32
    &&& forall|y: int| 0 <= y < 32 ==> (#[trigger] g[y]).len() == 64
    &&& forall|y: int, x: int| 0 <= y < 32 && 0 <= x < 64 ==> #[trigger] g[y][x] <= 1
}

/// The grid with every pixel off.
pub open spec fn blank_screen() -> Seq<Seq<u8>> {
    Seq::new(32, |y: int| Seq::new(64, |x: int| 0u8))
}

/// A pixel value after an XOR with 1.
pub open spec fn flip(v: u8) -> u8 {
    if v == 0 {
        1
    } else {
        0
    }
}

/// The grid with the pixel at column `x`, row `y` flipped.
pub open spec fn toggled(g: Seq<Seq<u8>>, x: int, y: int) -> Seq<Seq<u8>> {
    g.update(y, g[y].update(x, flip(g[y][x])))
}

pub open spec fn rows_view(rows: [[u8; 64]; 32]) -> Seq<Seq<u8>> {
    rows@.map_values(|row: [u8; 64]| row@)
}

/// A monochrome framebuffer whose pixels change only by XOR.
pub struct Display {
    buffer: [[u8; 64]; 32],
}

impl View for Display {
    type V = Seq<Seq<u8>>;

    closed spec fn view(&self) -> Seq<Seq<u8>> {
        rows_view(self.buffer)
    }
}

proof fn lemma_blank_rows(rows: [[u8; 64]; 32])
    requires
        forall|y: int, x: int| 0 <= y < 32 && 0 <= x < 64 ==> rows@[y]@[x] == 0,
    ensures
        rows_view(rows) == blank_screen(),
{
    assert forall|y: int| 0 <= y < 32 implies rows_view(rows)[y] =~= blank_screen()[y] by {}
    assert(rows_view(rows) =~= blank_screen());
}

/// A framebuffer with every pixel off.
pub fn build_display() -> (d: Display)
    ensures
        d@ == blank_screen(),
        d.wf(),
{
    let d = Display { buffer: [[0u8; 64]; 32] };
    proof {
        lemma_blank_rows(d.buffer);
    }
    d
}

impl Display {
    pub open spec fn wf(&self) -> bool {
        screen_wf(self@)
    }

    /// The pixel grid, row by row.
    pub fn get_display(&self) -> (g: [[u8; 64]; 32])
        ensures
            rows_view(g) == self@,
    {
        self.buffer
    }

    /// Flips the pixel at column `x`, row `y`, and tells whether it was on before.
    pub fn set_pixel(&mut self, x: usize, y: usize) -> (was_on: bool)
        requires
            old(self).wf(),
            x < DISPLAY_WIDTH,
            y < DISPLAY_HEIGHT,
        ensures
            final(self).wf(),
            was_on == (old(self)@[y as int][x as int] == 1),
            final(self)@ == toggled(old(self)@, x as int, y as int),
    {
        let was_on = self.buffer[y][x] == 1;
        let mut row = self.buffer[y];
        let v = row[x];
        assert(v <= 1 ==> v ^ 1 == if v == 0 { 1u8 } else { 0u8 }) by (bit_vector);
        row[x] = v ^ 1;
        self.buffer[y] = row;
        assert(self@ =~= toggled(old(self)@, x as int, y as int));
        assert forall|yy: int, xx: int| 0 <= yy < 32 && 0 <= xx < 64 implies #[trigger] self@[yy][xx]
            <= 1 by {
            if yy != y {
                assert(self@[yy] == old(self)@[yy]);
            }
        }
        was_on
    }

    /// Turns every pixel off.
    pub fn clear(&mut self)
        ensures
            final(self)@ == blank_screen(),
            final(self).wf(),
    {
        self.buffer = [[0u8; 64]; 32];
        proof {
            lemma_blank_rows(self.buffer);
        }
    }
}

} // verus!
