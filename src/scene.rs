use vstd::prelude::*;
use rand::rngs::StdRng;
use crate::random::{uniform_in, shuffle_items};

verus! {

/// Sub-rows per terminal row. It is a multiple of twice `SCENE_SIZE`, so
/// that every speed in a full scene is a whole number of sub-rows, and a
/// multiple of 4, so that three quarters of the screen height is too.
pub const SUBCELLS: i64 = 672;

/// Three quarters of a row in sub-rows: falling items start at most
/// `FALL_BAND * height` sub-rows above the screen.
pub const FALL_BAND: i64 = 504;

/// Streamers in a scene.
pub const STREAMER_COUNT: usize = 64;

/// Balloons in a scene.
pub const BALLOON_COUNT: usize = 16;

/// Confetti pieces in a scene.
pub const CONFETTI_COUNT: usize = 256;

/// Items in a full scene.
pub const SCENE_SIZE: usize = 336;

/// Colors in the palette.
pub const PALETTE_LEN: usize = 6;

/// The palette that items are colored from.
#[derive(Clone, Copy, PartialEq, Eq, Debug)]
pub enum Color {
    Red,
    Green,
    Yellow,
    Blue,
    Magenta,
    Cyan,
}

/// What an item is; it decides how the item moves and how it is drawn.
#[derive(Clone, Copy, PartialEq, Eq, Debug)]
pub enum DrawableType {
    Streamer,
    Balloon,
    Confetti,
}

/// One animated item. `x` is its terminal column; `y` is its vertical
/// position in sub-rows (`y / SUBCELLS` rows, possibly above or below the
/// screen).
#[derive(Clone, Copy, PartialEq, Eq, Debug)]
pub struct Drawable {
    pub x: u16,
    pub y: i64,
    pub color: Color,
    pub what: DrawableType,
}

pub open spec fn palette_spec(i: int) -> Color {
    if i == 0 {
        Color::Red
    } else if i == 1 {
        Color::Green
    } else if i == 2 {
        Color::Yellow
    } else if i == 3 {
        Color::Blue
    } else if i == 4 {
        Color::Magenta
    } else {
        Color::Cyan
    }
}

/// The `i`-th color of the palette.
pub fn palette(i: usize) -> (c: Color)
    requires
        i < PALETTE_LEN,
    ensures
        c == palette_spec(i as int),
{
    match i {
        0 => Color::Red,
        1 => Color::Green,
        2 => Color::Yellow,
        3 => Color::Blue,
        4 => Color::Magenta,
        _ => Color::Cyan,
    }
}

/// Where a falling item (streamer or confetti) may start: any column of the
/// screen, and a height in the band of three quarters of the screen just
/// above it, `[-0.75 * height, 0)` rows.
pub open spec fn falling_start(width: int, height: int, d: Drawable) -> bool {
    &&& 0 <= d.x < width
    &&& -FALL_BAND * height <= d.y < 0
}

/// Where a balloon may start: at least four columns from either side, and
/// one screen height below the screen, `[height, 2 * height)` rows.
pub open spec fn balloon_start(width: int, height: int, d: Drawable) -> bool {
    &&& 4 <= d.x < width - 4
    &&& SUBCELLS * height <= d.y < 2 * (SUBCELLS * height)
}

/// Where an item of its kind may start.
pub open spec fn fresh(width: int, height: int, d: Drawable) -> bool {
    match d.what {
        DrawableType::Balloon => balloon_start(width, height, d),
        _ => falling_start(width, height, d),
    }
}

/// `s` is `prefix` followed by `n` fresh items of kind `what`.
pub open spec fn appended_fresh(
    prefix: Seq<Drawable>,
    s: Seq<Drawable>,
    n: int,
    what: DrawableType,
    width: int,
    height: int,
) -> bool {
    &&& s.len() == prefix.len() + n
    &&& s.subrange(0, prefix.len() as int) == prefix
    &&& forall|k: int|
        prefix.len() <= k < s.len() ==> (#[trigger] s[k]).what == what && fresh(width, height, s[k])
}

proof fn lemma_scaled_height(c: int, h: int)
    requires
        0 < c <= SUBCELLS,
        0 < h <= 65535,
    ensures
        0 < c * h <= SUBCELLS * 65535,
{
    assert(0 < c * h <= SUBCELLS * 65535) by (nonlinear_arith)
        requires
            0 < c <= SUBCELLS,
            0 < h <= 65535,
    ;
}

/// How many items of `s` are of kind `what`.
pub open spec fn count_kind(s: Seq<Drawable>, what: DrawableType) -> nat
    decreases s.len(),
{
    if s.len() == 0 {
        0
    } else {
        count_kind(s.drop_last(), what) + if s.last().what == what { 1nat } else { 0nat }
    }
}

/// `after` holds `n` more items of kind `what` than `before`, and as many of
/// every other kind.
pub open spec fn adds_kind(before: Seq<Drawable>, after: Seq<Drawable>, what: DrawableType, n: nat) -> bool {
    forall|w: DrawableType|
        #[trigger] count_kind(after, w) == count_kind(before, w) + if w == what { n } else { 0nat }
}

proof fn lemma_count_push(s: Seq<Drawable>, d: Drawable)
    ensures
        forall|w: DrawableType|
            #[trigger] count_kind(s.push(d), w) == count_kind(s, w) + if d.what == w { 1nat } else { 0nat },
{
    assert(s.push(d).drop_last() =~= s);
}

proof fn lemma_count_remove(s: Seq<Drawable>, j: int, w: DrawableType)
    requires
        0 <= j < s.len(),
    ensures
        count_kind(s, w) == count_kind(s.remove(j), w) + if s[j].what == w { 1nat } else { 0nat },
    decreases s.len(),
{
    if j == s.len() - 1 {
        assert(s.remove(j) =~= s.drop_last());
    } else {
        lemma_count_remove(s.drop_last(), j, w);
        assert(s.remove(j).drop_last() =~= s.drop_last().remove(j));
        assert(s.remove(j).last() == s.last());
    }
}

/// Two orderings of the same items hold as many items of each kind.
proof fn lemma_count_permutation(s1: Seq<Drawable>, s2: Seq<Drawable>, w: DrawableType)
    requires
        s1.to_multiset() == s2.to_multiset(),
    ensures
        count_kind(s1, w) == count_kind(s2, w),
    decreases s1.len(),
{
    broadcast use vstd::seq_lib::to_multiset_contains, vstd::seq_lib::to_multiset_len,
        vstd::seq_lib::to_multiset_build, vstd::seq_lib::to_multiset_remove,
        vstd::multiset::group_multiset_axioms;
    if s1.len() == 0 {
        assert(s2.len() == s2.to_multiset().len());
    } else {
        let a = s1.last();
        let rest = s1.drop_last();
        assert(rest.push(a) =~= s1);
        assert(s1.to_multiset() =~= rest.to_multiset().insert(a));
        assert(s1.to_multiset().count(a) > 0);
        assert(s2.to_multiset().count(a) > 0);
        assert(s2.contains(a));
        let j = choose|j: int| 0 <= j < s2.len() && s2[j] == a;
        assert(s2.remove(j).to_multiset() =~= s2.to_multiset().remove(a));
        assert(rest.to_multiset() =~= s1.to_multiset().remove(a));
        lemma_count_permutation(rest, s2.remove(j), w);
        lemma_count_remove(s2, j, w);
    }
}

/// A color drawn uniformly from the palette.
fn random_color(rng: &mut StdRng) -> (c: Color) {
    let i = uniform_in(rng, 0, PALETTE_LEN as i64);
    palette(i as usize)
}

/// An item of kind `what` at a random column of `[0, width)` and a random
/// height in the band above the screen.
fn random_falling(width: u16, height: u16, what: DrawableType, rng: &mut StdRng) -> (d: Drawable)
    requires
        width > 0,
        height > 0,
    ensures
        d.what == what,
        falling_start(width as int, height as int, d),
{
    let x = uniform_in(rng, 0, width as i64);
    proof {
        lemma_scaled_height(FALL_BAND as int, height as int);
    }
    let band = FALL_BAND * (height as i64);
    let y = uniform_in(rng, -band, 0);
    let color = random_color(rng);
    Drawable { x: x as u16, y, color, what }
}

/// Appends `STREAMER_COUNT` streamers, each at a random column and a random
/// height above the screen, with a random color.
pub fn add_streamers(width: u16, height: u16, drawables: &mut Vec<Drawable>, rng: &mut StdRng)
    requires
        width > 0,
        height > 0,
        old(drawables).len() + STREAMER_COUNT <= usize::MAX,
    ensures
        appended_fresh(
            old(drawables)@,
            final(drawables)@,
            STREAMER_COUNT as int,
            DrawableType::Streamer,
            width as int,
            height as int,
        ),
        adds_kind(old(drawables)@, final(drawables)@, DrawableType::Streamer, STREAMER_COUNT as nat),
{
    let ghost start = drawables@;
    let mut n: usize = 0;
    assert(drawables@.subrange(0, start.len() as int) =~= start);
    while n < STREAMER_COUNT
        invariant
            n <= STREAMER_COUNT,
            width > 0,
            height > 0,
            start.len() + STREAMER_COUNT <= usize::MAX,
            appended_fresh(start, drawables@, n as int, DrawableType::Streamer, width as int, height as int),
            adds_kind(start, drawables@, DrawableType::Streamer, n as nat),
        decreases STREAMER_COUNT - n,
    {
        let d = random_falling(width, height, DrawableType::Streamer, rng);
        proof {
            lemma_count_push(drawables@, d);
        }
        drawables.push(d);
        n = n + 1;
        assert(drawables@.subrange(0, start.len() as int) =~= start);
    }
}

/// Appends `CONFETTI_COUNT` confetti pieces, each at a random column and a
/// random height above the screen, with a random color.
pub fn add_confetti(width: u16, height: u16, drawables: &mut Vec<Drawable>, rng: &mut StdRng)
    requires
        width > 0,
        height > 0,
        old(drawables).len() + CONFETTI_COUNT <= usize::MAX,
    ensures
        appended_fresh(
            old(drawables)@,
            final(drawables)@,
            CONFETTI_COUNT as int,
            DrawableType::Confetti,
            width as int,
            height as int,
        ),
        adds_kind(old(drawables)@, final(drawables)@, DrawableType::Confetti, CONFETTI_COUNT as nat),
{
    let ghost start = drawables@;
    let mut n: usize = 0;
    assert(drawables@.subrange(0, start.len() as int) =~= start);
    while n < CONFETTI_COUNT
        invariant
            n <= CONFETTI_COUNT,
            width > 0,
            height > 0,
            start.len() + CONFETTI_COUNT <= usize::MAX,
            appended_fresh(start, drawables@, n as int, DrawableType::Confetti, width as int, height as int),
            adds_kind(start, drawables@, DrawableType::Confetti, n as nat),
        decreases CONFETTI_COUNT - n,
    {
        let d = random_falling(width, height, DrawableType::Confetti, rng);
        proof {
            lemma_count_push(drawables@, d);
        }
        drawables.push(d);
        n = n + 1;
        assert(drawables@.subrange(0, start.len() as int) =~= start);
    }
}

/// Appends `BALLOON_COUNT` balloons, each at a random column at least four
/// from either side and a random height one screen below the screen, with a
/// random color.
pub fn add_balloons(width: u16, height: u16, drawables: &mut Vec<Drawable>, rng: &mut StdRng)
    requires
        width > 8,
        height > 0,
        old(drawables).len() + BALLOON_COUNT <= usize::MAX,
    ensures
        appended_fresh(
            old(drawables)@,
            final(drawables)@,
            BALLOON_COUNT as int,
            DrawableType::Balloon,
            width as int,
            height as int,
        ),
        adds_kind(old(drawables)@, final(drawables)@, DrawableType::Balloon, BALLOON_COUNT as nat),
{
    let ghost start = drawables@;
    let mut n: usize = 0;
    assert(drawables@.subrange(0, start.len() as int) =~= start);
    while n < BALLOON_COUNT
        invariant
            n <= BALLOON_COUNT,
            width > 8,
            height > 0,
            start.len() + BALLOON_COUNT <= usize::MAX,
            appended_fresh(start, drawables@, n as int, DrawableType::Balloon, width as int, height as int),
            adds_kind(start, drawables@, DrawableType::Balloon, n as nat),
        decreases BALLOON_COUNT - n,
    {
        let x = uniform_in(rng, 4, width as i64 - 4);
        proof {
            lemma_scaled_height(SUBCELLS as int, height as int);
        }
        let screen = SUBCELLS * (height as i64);
        let y = uniform_in(rng, 0, screen);
        let color = random_color(rng);
        let d = Drawable { x: x as u16, y: y + screen, color, what: DrawableType::Balloon };
        proof {
            lemma_count_push(drawables@, d);
        }
        drawables.push(d);
        n = n + 1;
        assert(drawables@.subrange(0, start.len() as int) =~= start);
    }
}

/// Builds a scene: `STREAMER_COUNT` streamers, then `BALLOON_COUNT`
/// balloons, then `CONFETTI_COUNT` confetti pieces, each fresh for the
/// screen, and shuffles the whole so that an item's place (which sets its
/// speed and its drawing order) does not follow its kind.
pub fn build_scene(width: u16, height: u16, rng: &mut StdRng) -> (r: Vec<Drawable>)
    requires
        width > 8,
        height > 0,
    ensures
        r@.len() == SCENE_SIZE,
        count_kind(r@, DrawableType::Streamer) == STREAMER_COUNT,
        count_kind(r@, DrawableType::Balloon) == BALLOON_COUNT,
        count_kind(r@, DrawableType::Confetti) == CONFETTI_COUNT,
        forall|k: int| 0 <= k < r@.len() ==> fresh(width as int, height as int, #[trigger] r@[k]),
{
    let mut drawables: Vec<Drawable> = Vec::new();
    assert(count_kind(drawables@, DrawableType::Streamer) == 0);
    assert(count_kind(drawables@, DrawableType::Balloon) == 0);
    assert(count_kind(drawables@, DrawableType::Confetti) == 0);
    add_streamers(width, height, &mut drawables, rng);
    add_balloons(width, height, &mut drawables, rng);
    add_confetti(width, height, &mut drawables, rng);
    let ghost built = drawables@;
    assert forall|k: int| 0 <= k < built.len() implies fresh(width as int, height as int, #[trigger] built[k]) by {
        if k >= (STREAMER_COUNT + BALLOON_COUNT) as int {
        } else if k >= STREAMER_COUNT as int {
            assert(built.subrange(0, (STREAMER_COUNT + BALLOON_COUNT) as int)[k] == built[k]);
        } else {
            assert(built.subrange(0, (STREAMER_COUNT + BALLOON_COUNT) as int)[k] == built[k]);
            assert(built.subrange(0, (STREAMER_COUNT + BALLOON_COUNT) as int).subrange(0, STREAMER_COUNT as int)[k] == built[k]);
        }
    }
    shuffle_items(&mut drawables, rng);
    proof {
        lemma_count_permutation(drawables@, built, DrawableType::Streamer);
        lemma_count_permutation(drawables@, built, DrawableType::Balloon);
        lemma_count_permutation(drawables@, built, DrawableType::Confetti);
        broadcast use vstd::seq_lib::to_multiset_contains, vstd::seq_lib::to_multiset_len;
        assert(drawables@.len() == drawables@.to_multiset().len());
        assert(built.len() == built.to_multiset().len());
        assert forall|k: int| 0 <= k < drawables@.len() implies fresh(width as int, height as int, #[trigger] drawables@[k]) by {
            let d = drawables@[k];
            assert(drawables@.contains(d));
            assert(drawables@.to_multiset().count(d) > 0);
            assert(built.to_multiset().count(d) > 0);
            let j = choose|j: int| 0 <= j < built.len() && built[j] == d;
            assert(fresh(width as int, height as int, built[j]));
        }
    }
    drawables
}

} // verus!
