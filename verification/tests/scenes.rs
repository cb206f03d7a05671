use firecore_gui::battle::introduction::{concatenate, BasicBattleIntroduction, FighterState,
    IntroductionActions};
use firecore_gui::battle::opener::WildBattleOpener;
use firecore_gui::graphics::{Color, DrawCommand, FinePoint, Point, Rectangle};
use firecore_gui::gui::message_box::MessageBox;
use firecore_gui::input::{Context, Control};
use firecore_gui::text::MessagePage;

fn names(list: &[&str]) -> Vec<String> {
    list.iter().map(|name| name.to_string()).collect()
}

fn confirm() -> Context {
    let mut ctx = Context::new();
    ctx.keyboard.pressed.insert(Control::A);
    ctx
}

const NOTHING: IntroductionActions = IntroductionActions {
    spawn_opponent_status: false,
    update_player_spawners: false,
    spawn_player: false,
};

fn grass(x: i64, y: i64) -> DrawCommand<'static> {
    DrawCommand::Texture {
        texture: 2,
        corner: FinePoint { x, y },
        source: None,
        color: Color::white(),
    }
}

#[test]
fn names_are_joined_with_comma_and_and() {
    assert_eq!(concatenate(&names(&[])), "");
    assert_eq!(concatenate(&names(&["A"])), "A");
    assert_eq!(concatenate(&names(&["A", "B"])), "A and B");
    assert_eq!(concatenate(&names(&["A", "B", "C"])), "A, B and C");
    assert_eq!(concatenate(&names(&["A", "B", "C", "D"])), "AB, C and D");
}

#[test]
fn grass_starts_at_full_height() {
    let opener = WildBattleOpener::new(2);
    assert_eq!(opener.offset, FinePoint { x: 128_000, y: 47_000 });
    assert!(!opener.finished(true));
    assert_eq!(
        opener.draw_below_panel(),
        vec![grass(0, 67_000), grass(128_000, 67_000), grass(256_000, 67_000)]
    );
}

#[test]
fn grass_scrolls_and_sinks() {
    let mut opener = WildBattleOpener::new(2);
    // The screen is not open far enough: the grass only scrolls.
    opener.update(100, 130_001);
    assert_eq!(opener.offset, FinePoint { x: 92_000, y: 47_000 });
    opener.update(100, 130_000);
    assert_eq!(opener.offset, FinePoint { x: 56_000, y: 41_000 });
    opener.update(200, 0);
    // 56 - 72 = -16 pixels: the strip jumps back by its width.
    assert_eq!(opener.offset, FinePoint { x: 112_000, y: 29_000 });
    assert_eq!(
        opener.draw_below_panel(),
        vec![grass(-16_000, 85_000), grass(112_000, 85_000), grass(240_000, 85_000)]
    );
    opener.update(483, 0);
    assert_eq!(opener.offset.y, 20);
    assert!(!opener.finished(true));
    opener.update(1, 0);
    assert_eq!(opener.offset.y, -40);
    assert!(opener.finished(true));
    assert!(!opener.finished(false));
    assert!(opener.draw_below_panel().is_empty());
    // Sunk away, it stays as it is.
    let sunk = opener;
    opener.update(1000, 0);
    assert_eq!(opener, sunk);
    opener.reset();
    assert_eq!(opener, WildBattleOpener::new(2));
}

#[test]
fn grass_survives_huge_frames() {
    let mut opener = WildBattleOpener::new(2);
    opener.update(i64::MAX, 200_000);
    assert_eq!(opener.offset, FinePoint { x: 256_000 - i64::MAX, y: 47_000 });
    let mut opener = WildBattleOpener::new(2);
    opener.update(i64::MIN, 0);
    assert_eq!(opener.offset, FinePoint { x: i64::MAX, y: i64::MAX });
    assert_eq!(opener.draw_below_panel()[2], grass(i64::MAX, 114_000 - i64::MAX));
}

#[test]
fn introduction_starts_with_the_boxes_away() {
    let scene = BasicBattleIntroduction::new(3, 120_000);
    assert_eq!(scene.counter, 0);
    assert_eq!(scene.offsets, (-120_000, 120_000));
    assert_eq!(scene.draw_opponent(), -120_000);
    assert!(!scene.finished());
    assert_eq!(
        scene.draw_player(),
        Some(DrawCommand::Texture {
            texture: 3,
            corner: FinePoint { x: 41_000, y: 49_000 },
            source: Some(Rectangle { x: 0, y: 0, width: 64, height: 64 }),
            color: Color::white(),
        })
    );
}

#[test]
fn introduction_spawn_writes_two_pages() {
    let scene = BasicBattleIntroduction::new(3, 120_000);
    let mut text = MessageBox::new(Point::new(0, 0), 0);
    text.push(MessagePage { lines: names(&["old"]), wait: None });
    scene.spawn(&names(&["Eevee", "Mew"]), &names(&["Rattata"]), &mut text);
    assert_eq!(
        text.message().pages,
        vec![
            MessagePage { lines: names(&["Wild Rattata appeared!"]), wait: None },
            MessagePage { lines: names(&["Go! Eevee and Mew!"]), wait: Some(500) },
        ]
    );
    scene.common_setup(&mut text, &names(&[]));
    assert_eq!(text.pages(), 3);
    assert_eq!(text.message().pages[2], MessagePage { lines: names(&["Go! !"]), wait: Some(500) });
}

#[test]
fn trainer_frames_follow_the_slide() {
    let frame = |counter: i64| {
        let mut scene = BasicBattleIntroduction::new(3, 0);
        scene.counter = counter;
        match scene.draw_player() {
            Some(DrawCommand::Texture { corner, source: Some(source), .. }) => {
                assert_eq!(corner, FinePoint { x: 41_000 - counter, y: 49_000 });
                assert_eq!((source.x, source.width, source.height), (0, 64, 64));
                Some(source.y)
            }
            None => None,
            other => panic!("unexpected command {:?}", other),
        }
    };
    assert_eq!(frame(-5), Some(0));
    assert_eq!(frame(0), Some(0));
    assert_eq!(frame(1), Some(64));
    assert_eq!(frame(41_999), Some(64));
    assert_eq!(frame(42_000), Some(128));
    assert_eq!(frame(59_999), Some(128));
    assert_eq!(frame(60_000), Some(192));
    assert_eq!(frame(77_999), Some(192));
    assert_eq!(frame(78_000), Some(256));
    assert_eq!(frame(103_999), Some(256));
    assert_eq!(frame(104_000), None);
}

#[test]
fn introduction_runs_its_script() {
    let away = FighterState { spawning: false, status_alive: false };
    let shown = FighterState { spawning: false, status_alive: true };
    let entering = FighterState { spawning: true, status_alive: true };
    let mut scene = BasicBattleIntroduction::new(3, 1_000);
    let mut text = MessageBox::new(Point::new(0, 0), 0);
    scene.spawn(&names(&["Eevee"]), &names(&["Rattata"]), &mut text);
    text.spawn();
    let idle = Context::new();

    // The first page is revealed: nothing moves yet.
    let actions = scene.update(&idle, 1000, Some(away), Some(away), &mut text);
    assert_eq!(actions, NOTHING);
    assert_eq!(scene, BasicBattleIntroduction::new(3, 1_000));
    // This frame finds the line complete and the box begins to wait, on the
    // first of its two pages: the opponents' status boxes are asked for.
    let actions = scene.update(&idle, 1000, Some(away), Some(away), &mut text);
    assert!(text.waiting());
    assert_eq!(actions, IntroductionActions { spawn_opponent_status: true, ..NOTHING });
    // Shown, they move in by 240 pixels a second.
    let actions = scene.update(&idle, 2, Some(away), Some(shown), &mut text);
    assert_eq!(actions, NOTHING);
    assert_eq!(scene.offsets, (-520, 1_000));
    assert_eq!(scene.counter, 0);
    let actions = scene.update(&idle, 3, Some(away), Some(shown), &mut text);
    assert_eq!(actions, NOTHING);
    assert_eq!(scene.offsets, (0, 1_000));
    // The reader confirms: the last page begins, and the trainer slides.
    let actions = scene.update(&confirm(), 100, Some(away), Some(shown), &mut text);
    assert_eq!(actions, NOTHING);
    assert_eq!(text.page(), 1);
    assert_eq!(scene.counter, 18_000);
    scene.update(&idle, 233, Some(away), Some(shown), &mut text);
    assert_eq!(scene.counter, 59_940);
    // At 60 pixels the trainer throws.
    let actions = scene.update(&idle, 1, Some(away), Some(shown), &mut text);
    assert_eq!(scene.counter, 60_120);
    assert_eq!(actions, IntroductionActions { spawn_player: true, ..NOTHING });
    let actions = scene.update(&idle, 1, Some(entering), Some(shown), &mut text);
    assert_eq!(actions, IntroductionActions { update_player_spawners: true, ..NOTHING });
    assert_eq!(scene.offsets, (0, 1_000));
    // The entrance is over: the player's status boxes move in.
    let actions = scene.update(&idle, 4, Some(shown), Some(shown), &mut text);
    assert_eq!(actions, NOTHING);
    assert_eq!(scene.offsets, (0, 40));
    assert!(!scene.finished());
    scene.update(&idle, 1, Some(shown), Some(shown), &mut text);
    assert_eq!(scene.offsets, (0, 0));
    assert!(!scene.finished());
    scene.update(&idle, 243, Some(shown), Some(shown), &mut text);
    assert_eq!(scene.counter, 104_940);
    assert!(scene.finished());
    assert_eq!(scene.draw_player(), None);
    // Off the screen, the trainer stays where it is.
    scene.update(&idle, 243, Some(shown), Some(shown), &mut text);
    assert_eq!(scene.counter, 104_940);
    scene.reset();
    assert_eq!(scene, BasicBattleIntroduction::new(3, 1_000));
}

#[test]
fn sides_without_fighters_let_the_boxes_in() {
    let mut scene = BasicBattleIntroduction::new(3, 1_000);
    let mut text = MessageBox::new(Point::new(0, 0), 0);
    let actions = scene.update(&Context::new(), 1, None, None, &mut text);
    assert_eq!(actions, NOTHING);
    assert_eq!(scene.offsets, (-760, 760));
    // An empty message has no last page: the trainer stays.
    assert_eq!(scene.counter, 0);
    scene.update(&Context::new(), i64::MAX, None, None, &mut text);
    assert_eq!(scene.offsets, (0, 0));
}

#[test]
fn finished_message_box_is_left_alone() {
    let mut scene = BasicBattleIntroduction::new(3, 0);
    let mut text = MessageBox::new(Point::new(0, 0), 0);
    text.push(MessagePage { lines: names(&[""]), wait: None });
    text.spawn();
    scene.update(&Context::new(), 1, None, None, &mut text);
    assert!(text.waiting());
    assert_eq!(scene.counter, 180);
    scene.update(&confirm(), 1, None, None, &mut text);
    assert!(text.finished());
    let before = text.clone();
    scene.update(&confirm(), 1, None, None, &mut text);
    assert_eq!(text, before);
    assert_eq!(scene.counter, 540);
}

#[test]
fn waiting_on_the_only_page_asks_for_the_status_boxes() {
    let away = FighterState { spawning: false, status_alive: false };
    let mut scene = BasicBattleIntroduction::new(3, 0);
    let mut text = MessageBox::new(Point::new(0, 0), 0);
    text.push(MessagePage { lines: names(&[""]), wait: None });
    text.spawn();
    let actions = scene.update(&Context::new(), 1, None, Some(away), &mut text);
    assert!(text.waiting());
    assert_eq!(actions, IntroductionActions { spawn_opponent_status: true, ..NOTHING });
}
