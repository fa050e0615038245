use vstd::prelude::*;
use crate::scene::{Drawable, DrawableType, SUBCELLS, SCENE_SIZE};

verus! {

/// How far positions may lie from zero for `move_everything`: one step more
/// in either direction still fits an `i64`.
pub const Y_LIMIT: i64 = 0x7fff_ffff_ffff_f000;

/// The speed, in sub-rows per frame, of the item at index `i` of `n`:
/// `SUBCELLS * (0.5 + 2 * i / n)`, rounded down. It depends on the index
/// and the count alone, so it is the same in every frame.
pub open spec fn velocity(i: int, n: int) -> int {
    (SUBCELLS * n + 4 * SUBCELLS * i) / (2 * n)
}

/// The vertical position after one frame: falling items move down by their
/// speed, balloons move up by it.
pub open spec fn step_y(d: Drawable, i: int, n: int) -> int {
    match d.what {
        DrawableType::Balloon => d.y - velocity(i, n),
        _ => d.y + velocity(i, n),
    }
}

/// The vertical position of an item of kind `what`, at index `i` of `n`,
/// that started at `y`, after `frames` frames.
pub open spec fn y_after(what: DrawableType, y: int, i: int, n: int, frames: nat) -> int
    decreases frames,
{
    if frames == 0 {
        y
    } else {
        let prev = y_after(what, y, i, n, (frames - 1) as nat);
        match what {
            DrawableType::Balloon => prev - velocity(i, n),
            _ => prev + velocity(i, n),
        }
    }
}

/// Every speed lies between half a row and two and a half rows per frame.
pub proof fn lemma_velocity_bounds(i: int, n: int)
    requires
        0 <= i < n,
    ensures
        SUBCELLS / 2 <= velocity(i, n) <= SUBCELLS * 5 / 2,
{
    let s = SUBCELLS as int;
    assert(s * n <= s * n + 4 * s * i < 5 * s * n) by (nonlinear_arith)
        requires
            0 <= i < n,
            s == 672,
    ;
    assert(s / 2 * (2 * n) == s * n) by (nonlinear_arith)
        requires
            s == 672,
    ;
    assert(s * 5 / 2 * (2 * n) == 5 * s * n) by (nonlinear_arith)
        requires
            s == 672,
    ;
    lemma_div_between(s * n + 4 * s * i, 2 * n, s / 2, s * 5 / 2);
}

proof fn lemma_div_between(a: int, d: int, lo: int, hi: int)
    requires
        d > 0,
        lo * d <= a <= hi * d,
    ensures
        lo <= a / d <= hi,
{
    assert(lo <= a / d <= hi) by (nonlinear_arith)
        requires
            d > 0,
            lo * d <= a <= hi * d,
    ;
}

/// Speed does not decrease along the collection: an item placed later
/// never moves slower than one placed earlier.
pub proof fn lemma_velocity_monotonic(i: int, j: int, n: int)
    requires
        0 <= i <= j < n,
    ensures
        velocity(i, n) <= velocity(j, n),
{
    let s = SUBCELLS as int;
    let a = s * n + 4 * s * i;
    let b = s * n + 4 * s * j;
    assert(a <= b) by (nonlinear_arith)
        requires
            0 <= i <= j,
            s == 672,
            a == s * n + 4 * s * i,
            b == s * n + 4 * s * j,
    ;
    assert(a / (2 * n) <= b / (2 * n)) by (nonlinear_arith)
        requires
            a <= b,
            n > 0,
    ;
}

/// In a full scene no rounding takes place: the speed of the item at index
/// `i` is exactly `SUBCELLS * (0.5 + 2 * i / SCENE_SIZE)` sub-rows.
pub proof fn lemma_velocity_exact_in_scene(i: int)
    requires
        0 <= i < SCENE_SIZE,
    ensures
        velocity(i, SCENE_SIZE as int) * (2 * SCENE_SIZE) == SUBCELLS * (SCENE_SIZE + 4 * i),
        velocity(i, SCENE_SIZE as int) == SCENE_SIZE + 4 * i,
{
    let n = SCENE_SIZE as int;
    let s = SUBCELLS as int;
    assert(s * n + 4 * s * i == (n + 4 * i) * (2 * n)) by (nonlinear_arith)
        requires
            n == 336,
            s == 672,
    ;
    vstd::arithmetic::div_mod::lemma_div_by_multiple(n + 4 * i, 2 * n);
    assert(s * (n + 4 * i) == (n + 4 * i) * (2 * n)) by (nonlinear_arith)
        requires
            n == 336,
            s == 672,
    ;
}

/// Each frame moves a falling item strictly down and a balloon strictly up.
pub proof fn lemma_step_direction(d: Drawable, i: int, n: int)
    requires
        0 <= i < n,
    ensures
        d.what == DrawableType::Balloon ==> step_y(d, i, n) < d.y,
        d.what != DrawableType::Balloon ==> step_y(d, i, n) > d.y,
{
    lemma_velocity_bounds(i, n);
}

/// Since the speed is fixed by the index, `frames` frames move an item by
/// exactly `frames` times its speed, in its kind's direction.
pub proof fn lemma_frames_accumulate(what: DrawableType, y: int, i: int, n: int, frames: nat)
    ensures
        what == DrawableType::Balloon ==> y_after(what, y, i, n, frames) == y - frames * velocity(i, n),
        what != DrawableType::Balloon ==> y_after(what, y, i, n, frames) == y + frames * velocity(i, n),
    decreases frames,
{
    let v = velocity(i, n);
    let f = frames as int;
    if frames > 0 {
        lemma_frames_accumulate(what, y, i, n, (frames - 1) as nat);
        assert(f * v == (f - 1) * v + v) by (nonlinear_arith);
    } else {
        assert(f * v == 0) by (nonlinear_arith)
            requires
                f == 0,
        ;
    }
}

/// In a full scene the first item moves exactly 25 rows over the 50 frames
/// of the animation: half a row per frame.
pub proof fn lemma_first_item_over_animation(what: DrawableType, y: int)
    ensures
        what == DrawableType::Balloon ==> y_after(what, y, 0, SCENE_SIZE as int, 50) == y - 25 * SUBCELLS,
        what != DrawableType::Balloon ==> y_after(what, y, 0, SCENE_SIZE as int, 50) == y + 25 * SUBCELLS,
{
    lemma_velocity_exact_in_scene(0);
    lemma_frames_accumulate(what, y, 0, SCENE_SIZE as int, 50);
}

/// The speed of the item at index `i` of `n`, in sub-rows per frame.
pub fn velocity_at(i: usize, n: usize) -> (v: i64)
    requires
        i < n,
    ensures
        v == velocity(i as int, n as int),
{
    proof {
        lemma_velocity_bounds(i as int, n as int);
        let s = SUBCELLS as int;
        assert(s * n + 4 * s * i < 5 * s * 0x1_0000_0000_0000_0000) by (nonlinear_arith)
            requires
                i < n <= usize::MAX,
                s == 672,
        ;
    }
    let s: u128 = SUBCELLS as u128;
    let num: u128 = s * (n as u128) + 4 * s * (i as u128);
    let v: u128 = num / (2 * (n as u128));
    v as i64
}

/// Advances every item by one frame: the item at index `i` of `n` moves by
/// `velocity(i, n)` sub-rows, down for streamers and confetti, up for
/// balloons. Nothing else changes, and no item is added or removed.
pub fn move_everything(drawables: &mut Vec<Drawable>)
    requires
        forall|k: int| 0 <= k < old(drawables)@.len() ==> -Y_LIMIT <= (#[trigger] old(drawables)@[k]).y <= Y_LIMIT,
    ensures
        final(drawables)@.len() == old(drawables)@.len(),
        forall|k: int| 0 <= k < final(drawables)@.len() ==> {
            let before = old(drawables)@[k];
            let after = #[trigger] final(drawables)@[k];
            &&& after.y == step_y(before, k, old(drawables)@.len() as int)
            &&& after.x == before.x
            &&& after.color == before.color
            &&& after.what == before.what
        },
{
    let n = drawables.len();
    let ghost start = drawables@;
    let mut i: usize = 0;
    while i < n
        invariant
            n == start.len(),
            i <= n,
            drawables@.len() == n,
            forall|k: int| 0 <= k < n ==> -Y_LIMIT <= (#[trigger] start[k]).y <= Y_LIMIT,
            forall|k: int| i <= k < n ==> #[trigger] drawables@[k] == start[k],
            forall|k: int| 0 <= k < i ==> {
                let before = start[k];
                let after = #[trigger] drawables@[k];
                &&& after.y == step_y(before, k, n as int)
                &&& after.x == before.x
                &&& after.color == before.color
                &&& after.what == before.what
            },
        decreases n - i,
    {
        let rate = velocity_at(i, n);
        proof {
            lemma_velocity_bounds(i as int, n as int);
        }
        let mut d = drawables[i];
        match d.what {
            DrawableType::Streamer | DrawableType::Confetti => {
                d.y = d.y + rate;
            },
            DrawableType::Balloon => {
                d.y = d.y - rate;
            },
        }
        drawables.set(i, d);
        i = i + 1;
    }
}

} // verus!
