use golf::eadk::input::{Key, KeyboardState};
use golf::eadk::{Color, Rect};
use golf::escher::components::MarginType;
use golf::golf::module::BallInteraction::{Dead, Inside, OutOfRegion, Win};
use golf::golf::module::{BallInteraction, EmptyModule, Region, TILE_SIZE};
use golf::golf::scene::{BallCommand, GameState, Scene};
use golf::golf::ui::Menu;
use golf::utils::vec::Vec2;

fn keys(down: &[Key]) -> KeyboardState {
    let mut bits = 0u64;
    for key in down {
        bits |= 1u64 << key.code();
    }
    KeyboardState::from_raw(bits)
}

fn judged(state: GameState, results: &[BallInteraction]) -> GameState {
    let mut scene = Scene { game_state: state, attempts: 3 };
    scene.judge(&results.to_vec());
    assert_eq!(scene.attempts, 3);
    scene.game_state
}

#[test]
fn a_module_of_the_simpler_game_has_two_by_two_tiles() {
    assert_eq!(TILE_SIZE, 8);
    let module = EmptyModule::new(Vec2 { x: 16, y: 0 });
    assert_eq!(module.offset, Vec2 { x: 16, y: 0 });
    assert_eq!(module.size, Vec2 { x: 2, y: 2 });
    assert_eq!(module.region(), Region { left: 16, top: 0, right: 32, bottom: 16 });
    assert_eq!(module.interaction(true), BallInteraction::OutOfRegion);
    assert_eq!(module.interaction(false), BallInteraction::Inside);
}

#[test]
fn a_tile_of_the_simpler_game_is_culled_to_the_screen() {
    let module = EmptyModule::new(Vec2 { x: 16, y: 0 });
    let camera = Vec2 { x: -10, y: -20 };
    assert_eq!(
        module.tile(0, 0, camera, 3),
        (Rect { x: 58, y: 20, width: 24, height: 24 }, Color { rgb565: 0x0640 })
    );
    assert_eq!(
        module.tile(1, 0, camera, 3),
        (Rect { x: 82, y: 20, width: 24, height: 24 }, Color { rgb565: 0x0580 })
    );
    assert_eq!(
        module.tile(1, 1, Vec2 { x: 100, y: 30 }, 3),
        (Rect { x: 0, y: 0, width: 0, height: 18 }, Color { rgb565: 0x0640 })
    );
    assert_eq!(
        module.tile(i32::MAX, i32::MIN, Vec2 { x: i32::MIN, y: i32::MAX }, 8).0,
        Rect { x: 319, y: 0, width: 0, height: 0 }
    );
}

#[test]
fn a_level_starts_idle() {
    let scene = Scene::new();
    assert_eq!(scene, Scene { game_state: GameState::Idle, attempts: 0 });
    assert!(scene.in_play());
    assert!(Scene { game_state: GameState::Moving, attempts: 0 }.in_play());
    assert!(!Scene { game_state: GameState::Dead, attempts: 0 }.in_play());
    assert!(!Scene { game_state: GameState::Won, attempts: 0 }.in_play());
}

#[test]
fn the_first_report_that_decides_is_the_one_that_counts() {
    assert!(Scene::decisive(Dead));
    assert!(Scene::decisive(Win));
    assert!(!Scene::decisive(Inside));
    assert!(!Scene::decisive(OutOfRegion));
    assert_eq!(judged(GameState::Moving, &[OutOfRegion, Win, Dead]), GameState::Won);
    assert_eq!(judged(GameState::Moving, &[Inside, Dead, Win]), GameState::Dead);
    assert_eq!(judged(GameState::Idle, &[Win]), GameState::Won);
    assert_eq!(judged(GameState::Idle, &[Dead]), GameState::Dead);
}

#[test]
fn a_ball_in_no_region_is_dead() {
    assert_eq!(judged(GameState::Moving, &[OutOfRegion, OutOfRegion]), GameState::Dead);
    assert_eq!(judged(GameState::Idle, &[]), GameState::Dead);
    assert_eq!(judged(GameState::Moving, &[OutOfRegion, Inside]), GameState::Moving);
    assert_eq!(judged(GameState::Idle, &[Inside, OutOfRegion]), GameState::Idle);
}

#[test]
fn a_moving_ball_stops_when_it_is_at_rest() {
    let mut scene = Scene { game_state: GameState::Moving, attempts: 1 };
    assert_eq!(scene.control(&keys(&[Key::Okay]), false), BallCommand::Keep);
    assert_eq!(scene.game_state, GameState::Moving);
    assert_eq!(scene.control(&keys(&[]), true), BallCommand::Stop);
    assert_eq!(scene, Scene { game_state: GameState::Idle, attempts: 1 });
}

#[test]
fn an_idle_level_aims_and_launches() {
    let mut scene = Scene::new();
    assert_eq!(scene.control(&keys(&[]), true), BallCommand::Aim(0, 0));
    assert_eq!(scene.control(&keys(&[Key::Right, Key::Up]), true), BallCommand::Aim(1, -1));
    assert_eq!(
        scene.control(&keys(&[Key::Left, Key::Right, Key::Down]), true),
        BallCommand::Aim(0, 1)
    );
    assert_eq!(scene, Scene::new());
    assert_eq!(
        scene.control(&keys(&[Key::Left, Key::Okay]), true),
        BallCommand::AimAndLaunch(-1, 0)
    );
    assert_eq!(scene, Scene { game_state: GameState::Moving, attempts: 1 });
}

#[test]
fn a_dead_ball_is_put_back_and_counted() {
    let mut scene = Scene { game_state: GameState::Dead, attempts: 4 };
    assert_eq!(scene.control(&keys(&[Key::Okay]), false), BallCommand::Reset);
    assert_eq!(scene, Scene { game_state: GameState::Idle, attempts: 5 });
}

#[test]
fn a_level_that_is_won_stays_won() {
    let mut scene = Scene { game_state: GameState::Won, attempts: 255 };
    assert_eq!(scene.control(&keys(&[Key::Okay, Key::Left]), true), BallCommand::Keep);
    assert_eq!(scene, Scene { game_state: GameState::Won, attempts: 255 });
}

#[test]
fn the_menu_is_a_label_in_a_box() {
    let mut menu = Menu::new();
    {
        let container = menu.container();
        assert_eq!(container.child.text, vec![0u8; 5]);
        assert!(container.child.selected);
        assert_eq!(container.margin_top, MarginType::Margin(10));
        assert_eq!(container.margin_left, MarginType::Margin(10));
        assert_eq!(container.margin_bottom, MarginType::Extend);
        assert_eq!(container.margin_right, MarginType::Extend);
        let layout = container.layout(container.child.requested_size(), true, Vec2 { x: 0, y: 0 });
        assert_eq!(layout.child_offset, Vec2 { x: 10, y: 10 });
    }
    assert!(menu.update(&keys(&[Key::Exe])));
    assert!(!menu.update(&keys(&[Key::Okay])));
}
