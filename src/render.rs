use vstd::prelude::*;
use rand::rngs::StdRng;
use crate::random::uniform_in;
use crate::scene::{Color, Drawable, DrawableType, SUBCELLS};

verus! {

/// Lines of the balloon picture.
pub const BALLOON_LINES: usize = 10;

/// Rows of a streamer's trail.
pub const TRAIL_LEN: i64 = 4;

/// One glyph to draw: at terminal column `col` and row `row`, in `color`.
#[derive(Clone, Copy, PartialEq, Eq, Debug)]
pub struct Cell {
    pub col: u32,
    pub row: u16,
    pub glyph: char,
    pub color: Color,
}

/// The terminal row of a vertical position: its row count truncated toward
/// zero, as a cast from a real number truncates.
pub open spec fn row_of(y: int) -> int {
    if y >= 0 {
        y / (SUBCELLS as int)
    } else {
        -((-y) / (SUBCELLS as int))
    }
}

/// Line `i` of the balloon picture: body, then string. Spaces are
/// transparent.
pub open spec fn balloon_line(i: int) -> Seq<char> {
    if i == 0 {
        seq![' ', '.', '─', '─', '─', '.']
    } else if i == 1 {
        seq![';', '█', '█', '█', '█', '█', ':']
    } else if i == 2 {
        seq![':', '█', '█', '█', '█', '█', ';']
    } else if i == 3 {
        seq![' ', '╲', '█', '█', '█', '╱']
    } else if i == 4 {
        seq![' ', ' ', '`', '─', '\'']
    } else if i % 2 == 1 {
        seq![' ', ' ', ' ', ')']
    } else {
        seq![' ', ' ', ' ', '(']
    }
}

/// The glyphs a confetti piece may show.
pub open spec fn is_confetti_glyph(c: char) -> bool {
    c == '\\' || c == '/' || c == '-' || c == '|'
}

/// The cells of the first `k` rows of a streamer's trail: the four rows just
/// above its own row, those on screen only. The glyph here stands for a
/// parenthesis drawn at random.
pub open spec fn streamer_cells(d: Drawable, height: int, k: nat) -> Seq<Cell>
    decreases k,
{
    if k == 0 {
        seq![]
    } else {
        let prev = streamer_cells(d, height, (k - 1) as nat);
        let r = row_of(d.y as int) - TRAIL_LEN + (k - 1);
        if 0 <= r <= height {
            prev.push(Cell { col: d.x as u32, row: r as u16, glyph: '(', color: d.color })
        } else {
            prev
        }
    }
}

/// The cells of the first `k` characters of a picture line drawn from
/// column `x` on row `row`: one per character that is not a space.
pub open spec fn line_cells(x: int, row: int, line: Seq<char>, color: Color, k: nat) -> Seq<Cell>
    decreases k,
{
    if k == 0 {
        seq![]
    } else {
        let prev = line_cells(x, row, line, color, (k - 1) as nat);
        let c = line[k - 1];
        if c == ' ' {
            prev
        } else {
            prev.push(Cell { col: (x + k - 1) as u32, row: row as u16, glyph: c, color })
        }
    }
}

/// The cells of the first `k` lines of a balloon, its top line on the
/// balloon's own row; lines off screen are left out, each on its own.
pub open spec fn balloon_cells(d: Drawable, height: int, k: nat) -> Seq<Cell>
    decreases k,
{
    if k == 0 {
        seq![]
    } else {
        let prev = balloon_cells(d, height, (k - 1) as nat);
        let r = row_of(d.y as int) + (k - 1);
        let line = balloon_line(k - 1);
        if 0 <= r <= height {
            prev + line_cells(d.x as int, r, line, d.color, line.len())
        } else {
            prev
        }
    }
}

/// The cell of a confetti piece, if its row is on screen. The glyph here
/// stands for one drawn at random.
pub open spec fn confetti_cells(d: Drawable, height: int) -> Seq<Cell> {
    let r = row_of(d.y as int);
    if 0 <= r <= height {
        seq![Cell { col: d.x as u32, row: r as u16, glyph: '|', color: d.color }]
    } else {
        seq![]
    }
}

/// What an item draws on a screen of `height + 1` rows, in drawing order.
pub open spec fn template_cells(d: Drawable, height: int) -> Seq<Cell> {
    match d.what {
        DrawableType::Streamer => streamer_cells(d, height, TRAIL_LEN as nat),
        DrawableType::Balloon => balloon_cells(d, height, BALLOON_LINES as nat),
        DrawableType::Confetti => confetti_cells(d, height),
    }
}

/// A drawn cell `a` agrees with the template cell `t` of an item of kind
/// `what`: same place and color; a balloon's glyph as in the picture, a
/// streamer's a parenthesis, a confetti piece's one of its glyphs.
pub open spec fn cell_fits(what: DrawableType, t: Cell, a: Cell) -> bool {
    &&& a.col == t.col
    &&& a.row == t.row
    &&& a.color == t.color
    &&& match what {
        DrawableType::Streamer => a.glyph == '(' || a.glyph == ')',
        DrawableType::Balloon => a.glyph == t.glyph,
        DrawableType::Confetti => is_confetti_glyph(a.glyph),
    }
}

pub open spec fn cells_fit(what: DrawableType, t: Seq<Cell>, a: Seq<Cell>) -> bool {
    &&& a.len() == t.len()
    &&& forall|k: int| 0 <= k < a.len() ==> cell_fits(what, #[trigger] t[k], a[k])
}

/// `cells` is what item `d` draws on a screen of `height + 1` rows.
pub open spec fn draws(d: Drawable, height: int, cells: Seq<Cell>) -> bool {
    cells_fit(d.what, template_cells(d, height), cells)
}

/// The terminal row of a vertical position.
pub fn row_at(y: i64) -> (r: i64)
    ensures
        r == row_of(y as int),
{
    if y >= 0 {
        ((y as u64) / (SUBCELLS as u64)) as i64
    } else {
        let m: u64 = (-(y as i128)) as u64;
        -((m / (SUBCELLS as u64)) as i64)
    }
}

/// Line `i` of the balloon picture.
fn balloon_row(i: usize) -> (r: Vec<char>)
    requires
        i < BALLOON_LINES,
    ensures
        r@ == balloon_line(i as int),
{
    let r = if i == 0 {
        vec![' ', '.', '─', '─', '─', '.']
    } else if i == 1 {
        vec![';', '█', '█', '█', '█', '█', ':']
    } else if i == 2 {
        vec![':', '█', '█', '█', '█', '█', ';']
    } else if i == 3 {
        vec![' ', '╲', '█', '█', '█', '╱']
    } else if i == 4 {
        vec![' ', ' ', '`', '─', '\'']
    } else if i % 2 == 1 {
        vec![' ', ' ', ' ', ')']
    } else {
        vec![' ', ' ', ' ', '(']
    };
    assert(r@ =~= balloon_line(i as int));
    r
}

fn draw_streamer(d: &Drawable, height: u16, rng: &mut StdRng) -> (out: Vec<Cell>)
    requires
        d.what == DrawableType::Streamer,
    ensures
        cells_fit(d.what, streamer_cells(*d, height as int, TRAIL_LEN as nat), out@),
        forall|k: int| 0 <= k < out@.len() ==> (#[trigger] out@[k]).row <= height,
{
    let top = row_at(d.y);
    let mut out: Vec<Cell> = Vec::new();
    let mut k: i64 = 0;
    while k < TRAIL_LEN
        invariant
            0 <= k <= TRAIL_LEN,
            top == row_of(d.y as int),
            d.what == DrawableType::Streamer,
            cells_fit(d.what, streamer_cells(*d, height as int, k as nat), out@),
            forall|j: int| 0 <= j < out@.len() ==> (#[trigger] out@[j]).row <= height,
        decreases TRAIL_LEN - k,
    {
        let ghost before = out@;
        let r = top - TRAIL_LEN + k;
        if 0 <= r && r <= height as i64 {
            let coin = uniform_in(rng, 0, 2);
            let glyph = if coin == 0 { '(' } else { ')' };
            out.push(Cell { col: d.x as u32, row: r as u16, glyph, color: d.color });
            proof {
                let t = streamer_cells(*d, height as int, (k + 1) as nat);
                assert forall|j: int| 0 <= j < out@.len() implies cell_fits(d.what, #[trigger] t[j], out@[j]) by {
                    if j < before.len() {
                        assert(t[j] == streamer_cells(*d, height as int, k as nat)[j]);
                    }
                }
            }
        }
        k = k + 1;
    }
    out
}

fn draw_balloon(d: &Drawable, height: u16) -> (out: Vec<Cell>)
    ensures
        out@ == balloon_cells(*d, height as int, BALLOON_LINES as nat),
        forall|k: int| 0 <= k < out@.len() ==> (#[trigger] out@[k]).row <= height,
{
    let top = row_at(d.y);
    let mut out: Vec<Cell> = Vec::new();
    let mut i: usize = 0;
    while i < BALLOON_LINES
        invariant
            i <= BALLOON_LINES,
            top == row_of(d.y as int),
            out@ == balloon_cells(*d, height as int, i as nat),
            forall|k: int| 0 <= k < out@.len() ==> (#[trigger] out@[k]).row <= height,
        decreases BALLOON_LINES - i,
    {
        let r = top + i as i64;
        if 0 <= r && r <= height as i64 {
            let line = balloon_row(i);
            let ghost prev = out@;
            let mut j: usize = 0;
            while j < line.len()
                invariant
                    j <= line.len(),
                    0 <= r <= height,
                    line@ == balloon_line(i as int),
                    out@ == prev + line_cells(d.x as int, r as int, line@, d.color, j as nat),
                    forall|k: int| 0 <= k < out@.len() ==> (#[trigger] out@[k]).row <= height,
                decreases line.len() - j,
            {
                let c = line[j];
                if c != ' ' {
                    out.push(Cell { col: d.x as u32 + j as u32, row: r as u16, glyph: c, color: d.color });
                    assert(out@ =~= prev + line_cells(d.x as int, r as int, line@, d.color, (j + 1) as nat));
                }
                j = j + 1;
            }
        }
        i = i + 1;
    }
    out
}

fn draw_confetti(d: &Drawable, height: u16, rng: &mut StdRng) -> (out: Vec<Cell>)
    requires
        d.what == DrawableType::Confetti,
    ensures
        cells_fit(d.what, confetti_cells(*d, height as int), out@),
        forall|k: int| 0 <= k < out@.len() ==> (#[trigger] out@[k]).row <= height,
{
    let r = row_at(d.y);
    let mut out: Vec<Cell> = Vec::new();
    if r < 0 || r > height as i64 {
        return out;
    }
    let pick = uniform_in(rng, 0, 4);
    let glyph = if pick == 0 {
        '\\'
    } else if pick == 1 {
        '/'
    } else if pick == 2 {
        '-'
    } else {
        '|'
    };
    out.push(Cell { col: d.x as u32, row: r as u16, glyph, color: d.color });
    out
}

impl Drawable {
    /// The cells this item draws on a screen whose rows run from 0 to
    /// `height`, in drawing order. Rows off screen are skipped; columns are
    /// not checked. A streamer draws a trail over the four rows above its
    /// own, each a parenthesis chosen at random; a balloon draws its
    /// picture from its own row down, spaces left transparent; a confetti
    /// piece draws one glyph chosen at random.
    pub fn draw(&self, height: u16, rng: &mut StdRng) -> (out: Vec<Cell>)
        ensures
            draws(*self, height as int, out@),
            forall|k: int| 0 <= k < out@.len() ==> (#[trigger] out@[k]).row <= height,
    {
        match self.what {
            DrawableType::Streamer => draw_streamer(self, height, rng),
            DrawableType::Balloon => draw_balloon(self, height),
            DrawableType::Confetti => draw_confetti(self, height, rng),
        }
    }
}

/// One frame: for each item, in collection order, the cells it draws. Later
/// items are drawn over earlier ones. The screen width plays no part, and no
/// cell lies off screen vertically: every row is from 0 to `height`.
pub fn render(height: u16, drawables: &Vec<Drawable>, rng: &mut StdRng) -> (frame: Vec<Vec<Cell>>)
    ensures
        frame@.len() == drawables@.len(),
        forall|k: int| 0 <= k < frame@.len() ==> draws(drawables@[k], height as int, #[trigger] frame@[k]@),
        forall|k: int, j: int| 0 <= k < frame@.len() && 0 <= j < frame@[k]@.len()
            ==> (#[trigger] frame@[k]@[j]).row <= height,
{
    let mut frame: Vec<Vec<Cell>> = Vec::new();
    let mut i: usize = 0;
    while i < drawables.len()
        invariant
            i <= drawables@.len(),
            frame@.len() == i,
            forall|k: int| 0 <= k < i ==> draws(drawables@[k], height as int, #[trigger] frame@[k]@),
            forall|k: int, j: int| 0 <= k < i && 0 <= j < frame@[k]@.len()
                ==> (#[trigger] frame@[k]@[j]).row <= height,
        decreases drawables@.len() - i,
    {
        let cells = drawables[i].draw(height, rng);
        frame.push(cells);
        i = i + 1;
    }
    frame
}

/// Columns are never checked: a confetti piece whose row is on screen is
/// drawn at its own column, whatever that column is.
pub proof fn lemma_confetti_drawn_at_any_column(d: Drawable, height: u16, cells: Seq<Cell>)
    requires
        d.what == DrawableType::Confetti,
        0 <= row_of(d.y as int) <= height,
        draws(d, height as int, cells),
    ensures
        cells.len() == 1,
        cells[0].col == d.x,
        cells[0].row == row_of(d.y as int),
        cells[0].color == d.color,
{
    assert(cell_fits(d.what, template_cells(d, height as int)[0], cells[0]));
}

/// A streamer whose whole trail is on screen draws all four trail rows, at
/// its own column, whatever that column is.
pub proof fn lemma_streamer_trail_complete(d: Drawable, height: u16, cells: Seq<Cell>)
    requires
        d.what == DrawableType::Streamer,
        TRAIL_LEN <= row_of(d.y as int) <= height + 1,
        draws(d, height as int, cells),
    ensures
        cells.len() == TRAIL_LEN,
        forall|k: int| 0 <= k < TRAIL_LEN ==> (#[trigger] cells[k]).col == d.x
            && cells[k].row == row_of(d.y as int) - TRAIL_LEN + k,
{
    let t = template_cells(d, height as int);
    reveal_with_fuel(streamer_cells, 5);
    assert forall|k: int| 0 <= k < TRAIL_LEN implies (#[trigger] cells[k]).col == d.x
        && cells[k].row == row_of(d.y as int) - TRAIL_LEN + k by {
        assert(cell_fits(d.what, t[k], cells[k]));
    }
}

} // verus!
