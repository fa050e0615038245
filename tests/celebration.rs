use celebrate::driver::{next_phase, start_phase, Phase, FRAME_COUNT};
use celebrate::motion::{move_everything, velocity_at};
use celebrate::render::{render, row_at, Cell};
use celebrate::scene::{
    add_balloons, add_confetti, add_streamers, build_scene, palette, Color, Drawable, DrawableType,
    FALL_BAND, SCENE_SIZE, SUBCELLS,
};
use rand::rngs::StdRng;
use rand::SeedableRng;

fn rng(seed: u64) -> StdRng {
    StdRng::seed_from_u64(seed)
}

fn count(items: &[Drawable], what: DrawableType) -> usize {
    items.iter().filter(|d| d.what == what).count()
}

fn item(x: u16, y: i64, what: DrawableType) -> Drawable {
    Drawable { x, y, color: Color::Blue, what }
}

fn is_confetti_glyph(c: char) -> bool {
    c == '\\' || c == '/' || c == '-' || c == '|'
}

#[test]
fn scene_has_336_items_of_each_kind() {
    let scene = build_scene(80, 24, &mut rng(1));
    assert_eq!(scene.len(), 336);
    assert_eq!(scene.len(), SCENE_SIZE);
    assert_eq!(count(&scene, DrawableType::Streamer), 64);
    assert_eq!(count(&scene, DrawableType::Balloon), 16);
    assert_eq!(count(&scene, DrawableType::Confetti), 256);
}

#[test]
fn scene_size_does_not_depend_on_screen() {
    for &(w, h) in &[(9u16, 1u16), (80, 24), (300, 100), (65535, 65535)] {
        let scene = build_scene(w, h, &mut rng(w as u64 + h as u64));
        assert_eq!(scene.len(), 336);
    }
}

#[test]
fn items_start_in_their_kind_bounds() {
    let (w, h) = (80i64, 24i64);
    let scene = build_scene(80, 24, &mut rng(2));
    for d in &scene {
        match d.what {
            DrawableType::Balloon => {
                assert!(4 <= d.x as i64 && (d.x as i64) < w - 4);
                assert!(h * SUBCELLS <= d.y && d.y < 2 * h * SUBCELLS);
            }
            _ => {
                assert!((d.x as i64) < w);
                assert!(-(h * SUBCELLS * 3 / 4) <= d.y && d.y < 0);
                assert!(-(h * FALL_BAND) <= d.y);
            }
        }
    }
}

#[test]
fn starting_positions_vary() {
    let scene = build_scene(200, 50, &mut rng(3));
    let first = scene[0];
    assert!(scene.iter().any(|d| d.x != first.x));
    assert!(scene.iter().any(|d| d.y != first.y));
    assert!(scene.iter().any(|d| d.color != first.color));
}

#[test]
fn scene_is_shuffled() {
    let scene = build_scene(80, 24, &mut rng(4));
    let leading_streamers = scene.iter().take(64).filter(|d| d.what == DrawableType::Streamer).count();
    assert!(leading_streamers < 64);
}

#[test]
fn builders_append_after_existing_items() {
    let mut items = vec![item(1, 1, DrawableType::Balloon)];
    let mut r = rng(5);
    add_streamers(10, 4, &mut items, &mut r);
    assert_eq!(items.len(), 65);
    assert_eq!(items[0], item(1, 1, DrawableType::Balloon));
    assert!(items[1..].iter().all(|d| d.what == DrawableType::Streamer));
    add_balloons(10, 4, &mut items, &mut r);
    assert_eq!(items.len(), 81);
    assert!(items[65..].iter().all(|d| d.what == DrawableType::Balloon && d.x >= 4 && d.x < 6));
    add_confetti(10, 4, &mut items, &mut r);
    assert_eq!(items.len(), 337);
    assert!(items[81..].iter().all(|d| d.what == DrawableType::Confetti && d.x < 10));
}

#[test]
fn narrowest_balloon_screen_has_one_column() {
    let mut items = Vec::new();
    add_balloons(9, 1, &mut items, &mut rng(6));
    assert!(items.iter().all(|d| d.x == 4 && d.y >= SUBCELLS && d.y < 2 * SUBCELLS));
}

#[test]
fn palette_colors() {
    assert_eq!(palette(0), Color::Red);
    assert_eq!(palette(1), Color::Green);
    assert_eq!(palette(2), Color::Yellow);
    assert_eq!(palette(3), Color::Blue);
    assert_eq!(palette(4), Color::Magenta);
    assert_eq!(palette(5), Color::Cyan);
}

#[test]
fn velocity_formula() {
    // half a row for the first item
    assert_eq!(velocity_at(0, 336), SUBCELLS / 2);
    assert_eq!(velocity_at(0, 336), 336);
    // 0.5 + 2 * 335 / 336 rows, exactly
    assert_eq!(velocity_at(335, 336), 336 + 4 * 335);
    // 0.5 + 2 * 1 / 4 = 1 row
    assert_eq!(velocity_at(1, 4), SUBCELLS);
    assert_eq!(velocity_at(0, 1), 336);
    // 0.5 + 2 / 3 rows, rounded down to a sub-row
    assert_eq!(velocity_at(1, 3), 784);
}

#[test]
fn velocity_is_non_decreasing_and_stable() {
    let mut prev = 0;
    for i in 0..336 {
        let v = velocity_at(i, 336);
        assert!(v >= prev);
        assert_eq!(v, velocity_at(i, 336));
        assert_eq!(v * 2 * 336, SUBCELLS * (336 + 4 * i as i64));
        prev = v;
    }
}

#[test]
fn one_step_moves_each_kind_its_way() {
    let mut items = vec![
        item(3, 100, DrawableType::Streamer),
        item(4, 100, DrawableType::Balloon),
        item(5, 100, DrawableType::Confetti),
        item(6, -100, DrawableType::Balloon),
    ];
    let before = items.clone();
    move_everything(&mut items);
    assert_eq!(items[0].y, 100 + velocity_at(0, 4));
    assert_eq!(items[1].y, 100 - velocity_at(1, 4));
    assert_eq!(items[2].y, 100 + velocity_at(2, 4));
    assert_eq!(items[3].y, -100 - velocity_at(3, 4));
    for (a, b) in items.iter().zip(before.iter()) {
        assert_eq!(a.what, b.what);
        assert_eq!(a.x, b.x);
        assert_eq!(a.color, b.color);
    }
}

#[test]
fn one_step_over_a_scene() {
    let mut scene = build_scene(80, 24, &mut rng(7));
    let before = scene.clone();
    move_everything(&mut scene);
    assert_eq!(scene.len(), before.len());
    for (a, b) in scene.iter().zip(before.iter()) {
        assert_eq!(a.what, b.what);
        match b.what {
            DrawableType::Balloon => assert!(a.y < b.y),
            _ => assert!(a.y > b.y),
        }
    }
}

#[test]
fn empty_collection_moves_nothing() {
    let mut items: Vec<Drawable> = Vec::new();
    move_everything(&mut items);
    assert!(items.is_empty());
}

#[test]
fn fifty_frames_end_to_end() {
    let mut scene = build_scene(80, 24, &mut rng(8));
    assert_eq!(scene.len(), 336);
    let first = scene[0];
    let mut r = rng(9);
    let mut phase = start_phase();
    let mut frames = 0;
    while let Phase::Looping(n) = phase {
        assert_eq!(n, frames);
        let frame = render(24, &scene, &mut r);
        assert_eq!(frame.len(), 336);
        move_everything(&mut scene);
        frames += 1;
        phase = next_phase(phase);
    }
    assert_eq!(frames, 50);
    assert_eq!(frames, FRAME_COUNT);
    assert_eq!(phase, Phase::Cleanup);
    assert_eq!(next_phase(phase), Phase::Exit);
    assert_eq!(next_phase(Phase::Exit), Phase::Exit);
    let moved = scene[0].y - first.y;
    match first.what {
        DrawableType::Balloon => assert_eq!(moved, -25 * SUBCELLS),
        _ => assert_eq!(moved, 25 * SUBCELLS),
    }
}

#[test]
fn rows_truncate_toward_zero() {
    assert_eq!(row_at(0), 0);
    assert_eq!(row_at(671), 0);
    assert_eq!(row_at(672), 1);
    assert_eq!(row_at(1343), 1);
    assert_eq!(row_at(-1), 0);
    assert_eq!(row_at(-671), 0);
    assert_eq!(row_at(-672), -1);
    assert_eq!(row_at(-1345), -2);
    assert_eq!(row_at(i64::MIN), i64::MIN / 672);
    assert_eq!(row_at(i64::MAX), i64::MAX / 672);
}

#[test]
fn confetti_draws_one_cell_on_screen() {
    let d = item(5, 3 * SUBCELLS + 10, DrawableType::Confetti);
    let cells = d.draw(24, &mut rng(10));
    assert_eq!(cells.len(), 1);
    assert_eq!((cells[0].col, cells[0].row, cells[0].color), (5, 3, Color::Blue));
    assert!(is_confetti_glyph(cells[0].glyph));
}

#[test]
fn confetti_glyph_twinkles() {
    let d = item(5, 0, DrawableType::Confetti);
    let mut r = rng(11);
    let glyphs: Vec<char> = (0..64).map(|_| d.draw(24, &mut r)[0].glyph).collect();
    assert!(glyphs.iter().all(|&c| is_confetti_glyph(c)));
    assert!(glyphs.iter().any(|&c| c != glyphs[0]));
}

#[test]
fn confetti_rows_off_screen_are_skipped() {
    let mut r = rng(12);
    // the last row, `height`, is still drawn
    assert_eq!(item(0, 24 * SUBCELLS, DrawableType::Confetti).draw(24, &mut r).len(), 1);
    assert!(item(0, 25 * SUBCELLS, DrawableType::Confetti).draw(24, &mut r).is_empty());
    assert!(item(0, -SUBCELLS, DrawableType::Confetti).draw(24, &mut r).is_empty());
    // just above the screen truncates to row 0
    assert_eq!(item(0, -1, DrawableType::Confetti).draw(24, &mut r).len(), 1);
}

#[test]
fn columns_are_not_clamped() {
    let cells = item(60000, 2 * SUBCELLS, DrawableType::Confetti).draw(24, &mut rng(13));
    assert_eq!(cells.len(), 1);
    assert_eq!(cells[0].col, 60000);
}

#[test]
fn streamer_trail_covers_four_rows_above() {
    let d = item(7, 10 * SUBCELLS + 5, DrawableType::Streamer);
    let cells = d.draw(24, &mut rng(14));
    let rows: Vec<u16> = cells.iter().map(|c| c.row).collect();
    assert_eq!(rows, vec![6, 7, 8, 9]);
    assert!(cells.iter().all(|c| c.col == 7 && c.color == Color::Blue));
    assert!(cells.iter().all(|c| c.glyph == '(' || c.glyph == ')'));
}

#[test]
fn streamer_trail_is_clipped_at_screen_edges() {
    let mut r = rng(15);
    let top: Vec<u16> = item(0, 2 * SUBCELLS, DrawableType::Streamer).draw(24, &mut r).iter().map(|c| c.row).collect();
    assert_eq!(top, vec![0, 1]);
    let bottom: Vec<u16> = item(0, 27 * SUBCELLS, DrawableType::Streamer).draw(24, &mut r).iter().map(|c| c.row).collect();
    assert_eq!(bottom, vec![23, 24]);
    assert!(item(0, -5 * SUBCELLS, DrawableType::Streamer).draw(24, &mut r).is_empty());
}

#[test]
fn streamer_glyphs_flicker() {
    let d = item(0, 10 * SUBCELLS, DrawableType::Streamer);
    let mut r = rng(16);
    let glyphs: Vec<char> = (0..16).flat_map(|_| d.draw(24, &mut r)).map(|c| c.glyph).collect();
    assert!(glyphs.contains(&'('));
    assert!(glyphs.contains(&')'));
}

#[test]
fn balloon_draws_whole_picture() {
    let d = item(10, 0, DrawableType::Balloon);
    let cells = d.draw(24, &mut rng(17));
    assert_eq!(cells.len(), 32);
    assert_eq!(cells[0], Cell { col: 11, row: 0, glyph: '.', color: Color::Blue });
    assert_eq!(cells[1], Cell { col: 12, row: 0, glyph: '─', color: Color::Blue });
    assert_eq!(cells[5], Cell { col: 10, row: 1, glyph: ';', color: Color::Blue });
    assert_eq!(cells[31], Cell { col: 13, row: 9, glyph: ')', color: Color::Blue });
    let picture: String = cells.iter().filter(|c| c.row == 3).map(|c| c.glyph).collect();
    assert_eq!(picture, "╲███╱");
    assert!(cells.iter().filter(|c| c.row == 3).all(|c| c.col >= 11));
}

#[test]
fn balloon_rows_off_screen_are_skipped_one_by_one() {
    let mut r = rng(18);
    let low = item(0, 20 * SUBCELLS, DrawableType::Balloon).draw(24, &mut r);
    assert_eq!(low.len(), 27);
    assert!(low.iter().all(|c| c.row >= 20 && c.row <= 24));
    let high = item(0, -8 * SUBCELLS, DrawableType::Balloon).draw(24, &mut r);
    let rows: Vec<u16> = high.iter().map(|c| c.row).collect();
    assert_eq!(rows, vec![0, 1]);
    assert!(item(0, 30 * SUBCELLS, DrawableType::Balloon).draw(24, &mut r).is_empty());
}

#[test]
fn frame_keeps_collection_order() {
    let items = vec![
        item(1, 5 * SUBCELLS, DrawableType::Confetti),
        item(2, 50 * SUBCELLS, DrawableType::Confetti),
        item(3, 6 * SUBCELLS, DrawableType::Balloon),
        item(1, 5 * SUBCELLS, DrawableType::Confetti),
    ];
    let frame = render(24, &items, &mut rng(19));
    assert_eq!(frame.len(), 4);
    assert_eq!(frame[0].len(), 1);
    assert!(frame[1].is_empty());
    assert_eq!(frame[2].len(), 32);
    assert_eq!((frame[3][0].col, frame[3][0].row), (1, 5));
}

#[test]
fn frame_of_a_scene_stays_on_screen() {
    let mut scene = build_scene(80, 24, &mut rng(20));
    let mut r = rng(21);
    for _ in 0..50 {
        let frame = render(24, &scene, &mut r);
        assert!(frame.iter().flatten().all(|c| c.row <= 24));
        move_everything(&mut scene);
    }
}
