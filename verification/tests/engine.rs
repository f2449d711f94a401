use phoenix::engine::{
    clear_background, default_line, draw_line, draw_line_personalized, draw_text, gen_range,
    get_screen_height, get_screen_width, grid_line, hud_line, phoenix_line, text_default,
    text_instructions, text_title, transform, Canvas, Color, DrawParameters, PointScreen,
    TextParameters, BACKGROUND_COLOR,
};

#[test]
fn styles_are_as_named() {
    assert_eq!(BACKGROUND_COLOR, Color::Black);
    assert_eq!(default_line(), DrawParameters { color: Color::White, line_width: 1_000 });
    assert_eq!(phoenix_line(), DrawParameters { color: Color::Red, line_width: 2_000 });
    assert_eq!(grid_line(), DrawParameters { color: Color::Gray, line_width: 250 });
    assert_eq!(hud_line(), DrawParameters { color: Color::Yellow, line_width: 2_000 });
    assert_eq!(text_default(), TextParameters { color: Color::Yellow, font_size: 20_000 });
    assert_eq!(text_title(), TextParameters { color: Color::Red, font_size: 80_000 });
    assert_eq!(text_instructions(), TextParameters { color: Color::White, font_size: 20_000 });
}

#[test]
fn canvas_knows_its_size() {
    let canvas = Canvas::new(800_000, 600_000);
    assert_eq!(get_screen_width(&canvas), 800_000);
    assert_eq!(get_screen_height(&canvas), 600_000);
    assert_eq!(canvas.get_lines().len(), 0);
    assert_eq!(canvas.get_texts().len(), 0);
}

#[test]
fn transform_counts_from_the_top_left() {
    let canvas = Canvas::new(800_000, 600_000);
    assert_eq!(transform(&canvas, PointScreen { x: 0, y: 0 }), (400_000, 300_000));
    assert_eq!(transform(&canvas, PointScreen { x: 10_000, y: 20_000 }), (410_000, 280_000));
    assert_eq!(transform(&canvas, PointScreen { x: -400_000, y: 300_000 }), (0, 0));
    assert_eq!(transform(&canvas, PointScreen { x: 400_000, y: -300_000 }), (800_000, 600_000));
}

#[test]
fn transform_halves_an_odd_size_down() {
    let canvas = Canvas::new(801, 1);
    assert_eq!(transform(&canvas, PointScreen { x: 0, y: 0 }), (400, 0));
    let nothing = Canvas::new(0, 0);
    assert_eq!(transform(&nothing, PointScreen { x: 7, y: 7 }), (7, -7));
}

#[test]
fn transform_at_the_ends_of_the_range() {
    let canvas = Canvas::new(u32::MAX, u32::MAX);
    assert_eq!(
        transform(&canvas, PointScreen { x: i32::MAX, y: i32::MIN }),
        (i32::MAX as i64 + 2_147_483_647, 2_147_483_648 + 2_147_483_647)
    );
    assert_eq!(
        transform(&canvas, PointScreen { x: i32::MIN, y: i32::MAX }),
        (-1, 0)
    );
}

#[test]
fn lines_are_kept_in_the_order_drawn() {
    let mut canvas = Canvas::new(800_000, 600_000);
    draw_line(&mut canvas, PointScreen { x: 0, y: 0 }, PointScreen { x: 1_000, y: 2_000 });
    draw_line_personalized(
        &mut canvas,
        PointScreen { x: -5_000, y: -6_000 },
        PointScreen { x: 7_000, y: 8_000 },
        hud_line(),
    );
    let lines = canvas.get_lines();
    assert_eq!(lines.len(), 2);
    assert_eq!((lines[0].x1, lines[0].y1, lines[0].x2, lines[0].y2), (400_000, 300_000, 401_000, 298_000));
    assert_eq!(lines[0].params, default_line());
    assert_eq!((lines[1].x1, lines[1].y1, lines[1].x2, lines[1].y2), (395_000, 306_000, 407_000, 292_000));
    assert_eq!(lines[1].params, hud_line());
    assert_eq!(canvas.get_texts().len(), 0);
}

#[test]
fn texts_are_kept_in_the_order_drawn() {
    let mut canvas = Canvas::new(800_000, 600_000);
    draw_text(&mut canvas, "one", PointScreen { x: -120_000, y: 210_000 }, text_title());
    draw_text(&mut canvas, "", PointScreen { x: 0, y: 0 }, text_default());
    let texts = canvas.get_texts();
    assert_eq!(texts.len(), 2);
    assert_eq!(texts[0].message, "one");
    assert_eq!((texts[0].x, texts[0].y), (280_000, 90_000));
    assert_eq!(texts[0].params, text_title());
    assert_eq!(texts[1].message, "");
    assert_eq!((texts[1].x, texts[1].y), (400_000, 300_000));
    assert_eq!(canvas.get_lines().len(), 0);
}

#[test]
fn clear_background_wipes_the_canvas() {
    let mut canvas = Canvas::new(800_000, 600_000);
    draw_line(&mut canvas, PointScreen { x: 0, y: 0 }, PointScreen { x: 1_000, y: 2_000 });
    draw_text(&mut canvas, "one", PointScreen { x: 0, y: 0 }, text_title());
    clear_background(&mut canvas);
    assert_eq!(canvas.get_lines().len(), 0);
    assert_eq!(canvas.get_texts().len(), 0);
    assert_eq!(get_screen_width(&canvas), 800_000);
    assert_eq!(get_screen_height(&canvas), 600_000);
    draw_line(&mut canvas, PointScreen { x: 0, y: 0 }, PointScreen { x: 1_000, y: 2_000 });
    assert_eq!(canvas.get_lines().len(), 1);
}

#[test]
fn gen_range_stays_between_its_ends() {
    macroquad::rand::srand(42);
    let spans = [
        (0, 1_000),
        (50_000, 150_000),
        (-450_000, 450_000),
        (750_000, 25_000),
        (100_000, -20_000),
        (i32::MIN, i32::MAX),
        (i32::MAX, i32::MIN),
        (i32::MAX - 3, i32::MAX),
        (i32::MIN, i32::MIN + 3),
    ];
    for (low, high) in spans {
        for _ in 0..2_000 {
            let r = gen_range(low, high);
            if low <= high {
                assert!(low <= r && r <= high);
            } else {
                assert!(high <= r && r <= low);
            }
        }
    }
}

#[test]
fn gen_range_of_one_value() {
    for v in [0, 7, -7, i32::MAX, i32::MIN] {
        for _ in 0..100 {
            assert_eq!(gen_range(v, v), v);
        }
    }
}

#[test]
fn gen_range_varies() {
    macroquad::rand::srand(1);
    let first = gen_range(50_000, 150_000);
    let mut varied = false;
    for _ in 0..100 {
        if gen_range(50_000, 150_000) != first {
            varied = true;
        }
    }
    assert!(varied);
    // Neither end is all that comes out.
    let mut above_low = false;
    let mut below_high = false;
    for _ in 0..100 {
        let r = gen_range(-5, 5);
        above_low = above_low || r > -5;
        below_high = below_high || r < 5;
    }
    assert!(above_low && below_high);
}
