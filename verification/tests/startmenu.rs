use phoenix::engine::{text_instructions, text_title, Canvas, MoveKeys};
use phoenix::startmenu::StartMenu;

#[test]
fn menu_starts_without_a_request() {
    let menu = StartMenu::new();
    assert_eq!(menu.request_level_start(), false);
}

#[test]
fn menu_takes_the_key_to_accelerate_for_a_request() {
    let mut menu = StartMenu::new();
    menu.update(&MoveKeys { up: false, down: true, left: true, right: true });
    assert_eq!(menu.request_level_start(), false);
    menu.update(&MoveKeys { up: true, down: false, left: false, right: false });
    assert_eq!(menu.request_level_start(), true);
}

#[test]
fn menu_keeps_a_request() {
    let mut menu = StartMenu::new();
    menu.update(&MoveKeys { up: true, down: true, left: true, right: true });
    assert_eq!(menu.request_level_start(), true);
    menu.update(&MoveKeys { up: false, down: false, left: false, right: false });
    assert_eq!(menu.request_level_start(), true);
}

#[test]
fn menu_draws_the_title_and_the_keys() {
    let menu = StartMenu::new();
    let mut canvas = Canvas::new(800_000, 600_000);
    menu.draw(&mut canvas);
    let texts = canvas.get_texts();
    assert_eq!(texts.len(), 4);
    assert_eq!(texts[0].message, "Phoenix");
    assert_eq!((texts[0].x, texts[0].y), (280_000, 90_000));
    assert_eq!(texts[0].params, text_title());
    assert_eq!(texts[1].message, " [W] : Accelerate");
    assert_eq!((texts[1].x, texts[1].y), (320_000, 120_000));
    assert_eq!(texts[2].message, "[A|D]: Left|Right");
    assert_eq!((texts[2].x, texts[2].y), (320_000, 140_000));
    assert_eq!(texts[3].message, " [S] : Decelerate");
    assert_eq!((texts[3].x, texts[3].y), (320_000, 160_000));
    for i in 1..4 {
        assert_eq!(texts[i].params, text_instructions());
    }
    assert_eq!(canvas.get_lines().len(), 0);
}
