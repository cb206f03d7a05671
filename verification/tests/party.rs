use firecore_gui::graphics::{Color, DrawCommand, FinePoint, Point};
use firecore_gui::input::{Context, Control};
use firecore_gui::party::{PartySelectAction, PartySelectMenu};

fn press(controls: &[Control]) -> Context {
    let mut ctx = Context::new();
    for control in controls {
        ctx.gamepad.pressed.insert(*control);
    }
    ctx
}

fn open(is_world: bool, cursor: usize) -> PartySelectMenu {
    PartySelectMenu { alive: true, background: 4, cursor, is_world: Some(is_world) }
}

#[test]
fn new_menu_is_closed() {
    let menu = PartySelectMenu::new(4);
    assert_eq!(menu, PartySelectMenu { alive: false, background: 4, cursor: 0, is_world: None });
    assert!(menu.draw().is_empty());
}

#[test]
fn unopened_menu_ignores_input() {
    let mut menu = PartySelectMenu::new(4);
    menu.alive = true;
    menu.cursor = 1;
    let before = menu;
    assert_eq!(menu.input(&press(&[Control::A, Control::B, Control::Down])), None);
    assert_eq!(menu, before);
}

#[test]
fn cursor_moves_up_and_down() {
    let step = |is_world: bool, from: usize, controls: &[Control]| {
        let mut menu = open(is_world, from);
        menu.input(&press(controls));
        menu.cursor
    };
    assert_eq!(step(true, 0, &[]), 0);
    assert_eq!(step(true, 0, &[Control::Up]), 0);
    assert_eq!(step(true, 2, &[Control::Up]), 1);
    assert_eq!(step(true, 0, &[Control::Down]), 1);
    assert_eq!(step(true, 3, &[Control::Down]), 4);
    assert_eq!(step(true, 4, &[Control::Down]), 4);
    assert_eq!(step(false, 2, &[Control::Down]), 3);
    assert_eq!(step(false, 3, &[Control::Down]), 3);
    assert_eq!(step(false, 3, &[Control::Up]), 2);
    assert_eq!(step(true, 2, &[Control::Up, Control::Down]), 3);
    assert_eq!(step(true, 4, &[Control::Up, Control::Down]), 3);
}

#[test]
fn confirm_asks_for_the_entry_under_the_cursor() {
    let confirm = |is_world: bool, cursor: usize| {
        let mut menu = open(is_world, cursor);
        let action = menu.input(&press(&[Control::A]));
        (action, menu.alive, menu.cursor)
    };
    assert_eq!(confirm(true, 0), (Some(PartySelectAction::Summary), true, 0));
    assert_eq!(confirm(true, 1), (Some(PartySelectAction::Select), true, 1));
    assert_eq!(confirm(true, 2), (None, true, 2));
    assert_eq!(confirm(true, 3), (None, false, 3));
    assert_eq!(confirm(true, 4), (None, true, 4));
    assert_eq!(confirm(false, 0), (Some(PartySelectAction::Select), true, 0));
    assert_eq!(confirm(false, 1), (Some(PartySelectAction::Summary), true, 1));
    assert_eq!(confirm(false, 2), (None, false, 2));
    assert_eq!(confirm(false, 3), (None, true, 3));
}

#[test]
fn confirm_counts_for_where_the_cursor_went() {
    let mut menu = open(true, 0);
    assert_eq!(
        menu.input(&press(&[Control::A, Control::Down])),
        Some(PartySelectAction::Select)
    );
    assert_eq!(menu.cursor, 1);
    let mut menu = open(false, 1);
    assert_eq!(menu.input(&press(&[Control::A, Control::Down])), None);
    assert!(!menu.alive);
}

#[test]
fn cancel_closes_the_menu() {
    let mut menu = open(true, 1);
    assert_eq!(menu.input(&press(&[Control::B])), None);
    assert!(!menu.alive);
    assert_eq!(menu.cursor, 1);
    let mut menu = open(true, 0);
    assert_eq!(menu.input(&press(&[Control::A, Control::B])), Some(PartySelectAction::Summary));
    assert!(!menu.alive);
    let mut menu = open(true, 0);
    menu.alive = false;
    assert_eq!(menu.input(&press(&[Control::A])), Some(PartySelectAction::Summary));
    assert!(!menu.alive);
}

#[test]
fn toggle_and_reset() {
    let mut menu = open(false, 2);
    menu.toggle();
    assert_eq!(menu, PartySelectMenu { alive: false, background: 4, cursor: 0, is_world: Some(false) });
    menu.cursor = 1;
    menu.toggle();
    assert_eq!(menu, open(false, 0));
    menu.cursor = 2;
    menu.reset();
    assert_eq!(menu, open(false, 0));
}

#[test]
fn draw_lists_the_entries() {
    let black = Color::black();
    let menu = open(true, 2);
    assert_eq!(
        menu.draw(),
        vec![
            DrawCommand::Texture {
                texture: 4,
                corner: FinePoint { x: 146_000, y: 83_000 },
                source: None,
                color: Color::white(),
            },
            DrawCommand::Cursor { at: Point::new(154, 126) },
            DrawCommand::Text { font: 1, text: "Summary", at: Point::new(161, 93), color: black },
            DrawCommand::Text { font: 1, text: "Switch", at: Point::new(161, 109), color: black },
            DrawCommand::Text { font: 1, text: "Item", at: Point::new(161, 125), color: black },
            DrawCommand::Text { font: 1, text: "Cancel", at: Point::new(161, 141), color: black },
        ]
    );
    let menu = open(false, 0);
    assert_eq!(
        menu.draw()[1..],
        [
            DrawCommand::Cursor { at: Point::new(154, 94) },
            DrawCommand::Text { font: 1, text: "Shift", at: Point::new(161, 93), color: black },
            DrawCommand::Text { font: 1, text: "Summary", at: Point::new(161, 109), color: black },
            DrawCommand::Text { font: 1, text: "Cancel", at: Point::new(161, 125), color: black },
        ]
    );
    let mut closed = open(true, 0);
    closed.alive = false;
    assert!(closed.draw().is_empty());
    let far = open(true, usize::MAX);
    assert_eq!(far.draw()[1], DrawCommand::Cursor { at: Point::new(154, i64::MAX) });
}
