use golf::display::{Color, Rect};
use golf::game::game::{
    aggregate, camera_offset, clear_color, confirms, score_rect, Aggregate, Aim, Frame, GameState,
    Motion, MAX_UNIT_SIZE, MIN_UNIT_SIZE, START_UNIT_SIZE,
};
use golf::game::game_over::GameOverState;
use golf::game::module::BallInteraction;
use golf::game::popup::PopupState;
use golf::graphmgr::StackAction;
use golf::keyboard::{KeyboardState, KeyboardTimedState, RawKey};
use golf::menu::{MainMenuState, MenuChoice};
use golf::PopMessage;

fn scan_of(keys: &[RawKey]) -> KeyboardState {
    let mut bits = 0u64;
    for key in keys {
        bits |= 1u64 << key.code();
    }
    KeyboardState(bits)
}

/// A keyboard on which `keys` have just gone down.
fn pressing(keys: &[RawKey]) -> KeyboardTimedState {
    let mut keyboard = KeyboardTimedState::new(KeyboardState(0), KeyboardState(0));
    keyboard.fetch(scan_of(keys));
    keyboard
}

/// A keyboard on which `keys` are held down since the frame before.
fn holding(keys: &[RawKey]) -> KeyboardTimedState {
    KeyboardTimedState::new(scan_of(keys), scan_of(keys))
}

fn mean(factors: &[f32]) -> f32 {
    let mut sum = 0f32;
    for factor in factors {
        sum += factor;
    }
    sum / factors.len() as f32
}

#[test]
fn overlapping_modules_slow_the_ball_by_the_mean_of_their_drags() {
    let results = vec![BallInteraction::In(0.9f32), BallInteraction::In(0.7f32)];
    match aggregate(&results) {
        Aggregate::Roll(factors) => {
            assert_eq!(factors, vec![0.9f32, 0.7f32]);
            assert!((mean(&factors) - 0.8).abs() < 1e-6);
        }
        other => panic!("the ball should roll, not {:?}", other),
    }
}

#[test]
fn modules_without_the_ball_add_nothing_to_the_drags() {
    let results = vec![
        BallInteraction::Out,
        BallInteraction::In(98u16),
        BallInteraction::Out,
        BallInteraction::In(50u16),
        BallInteraction::In(98u16),
    ];
    assert_eq!(aggregate(&results), Aggregate::Roll(vec![98, 50, 98]));
    assert_eq!(aggregate(&vec![BallInteraction::In(3u8)]), Aggregate::Roll(vec![3]));
}

#[test]
fn a_dead_ball_is_reset() {
    let results: Vec<BallInteraction<f32>> = vec![BallInteraction::Out, BallInteraction::Dead];
    assert_eq!(aggregate(&results), Aggregate::Reset);
    let results = vec![BallInteraction::In(0.98f32), BallInteraction::Dead, BallInteraction::In(0.5)];
    assert_eq!(aggregate(&results), Aggregate::Reset);
}

#[test]
fn a_ball_outside_every_module_is_reset() {
    let results: Vec<BallInteraction<f32>> = vec![BallInteraction::Out, BallInteraction::Out];
    assert_eq!(aggregate(&results), Aggregate::Reset);
    let none: Vec<BallInteraction<f32>> = Vec::new();
    assert_eq!(aggregate(&none), Aggregate::Reset);
}

#[test]
fn a_win_goes_before_everything_else() {
    let alone: Vec<BallInteraction<f32>> = vec![BallInteraction::Win];
    assert_eq!(aggregate(&alone), Aggregate::Win);
    let results = vec![
        BallInteraction::Dead,
        BallInteraction::In(0.98f32),
        BallInteraction::Out,
        BallInteraction::Win,
    ];
    assert_eq!(aggregate(&results), Aggregate::Win);
    let results = vec![BallInteraction::Win, BallInteraction::Dead];
    assert_eq!(aggregate::<f32>(&results), Aggregate::Win);
}

#[test]
fn a_level_starts_at_rest_with_nothing_counted() {
    let state = GameState::new();
    assert!(!state.is_moving());
    assert_eq!(state.attempts(), 0);
    assert_eq!(state.unit_size(), 3);
    assert_eq!((MIN_UNIT_SIZE, START_UNIT_SIZE, MAX_UNIT_SIZE), (1, 3, 8));
}

#[test]
fn a_reset_counts_as_an_attempt_and_leaves_the_ball_at_rest() {
    let mut state = GameState::new();
    let launch = pressing(&[RawKey::Okay]);
    assert_eq!(state.steer(&launch, false, true), Motion::Launch);
    assert!(state.is_moving());
    assert_eq!(state.attempts(), 1);
    let results: Vec<BallInteraction<f32>> = vec![BallInteraction::Out, BallInteraction::Dead];
    let aggregate = aggregate(&results);
    assert_eq!(state.settle(&aggregate), None);
    assert!(!state.is_moving());
    assert_eq!(state.attempts(), 2);
    assert_eq!(state.unit_size(), 3);
}

#[test]
fn a_win_ends_the_level_with_the_number_of_attempts() {
    let mut state = GameState::new();
    assert_eq!(state.settle(&Aggregate::<f32>::Reset), None);
    assert_eq!(state.settle(&Aggregate::<f32>::Reset), None);
    assert_eq!(state.settle(&Aggregate::<f32>::Win), Some(GameOverState(2)));
    assert_eq!(state.attempts(), 2);
}

#[test]
fn rolling_changes_nothing_that_is_counted() {
    let mut state = GameState::new();
    assert_eq!(state.steer(&pressing(&[RawKey::Exe]), false, true), Motion::Launch);
    assert_eq!(state.settle(&Aggregate::Roll(vec![0.98f32])), None);
    assert!(state.is_moving());
    assert_eq!(state.attempts(), 1);
}

#[test]
fn the_zoom_moves_one_step_for_each_press_and_stays_in_its_range() {
    let mut state = GameState::new();
    state.zoom(&pressing(&[RawKey::Plus]));
    assert_eq!(state.unit_size(), 4);
    // a held key does not zoom
    state.zoom(&holding(&[RawKey::Plus]));
    assert_eq!(state.unit_size(), 4);
    for _ in 0..10 {
        state.zoom(&pressing(&[RawKey::Plus]));
    }
    assert_eq!(state.unit_size(), 8);
    state.zoom(&pressing(&[RawKey::Plus, RawKey::Minus]));
    assert_eq!(state.unit_size(), 8);
    for _ in 0..10 {
        state.zoom(&pressing(&[RawKey::Minus]));
    }
    assert_eq!(state.unit_size(), 1);
    state.zoom(&pressing(&[]));
    assert_eq!(state.unit_size(), 1);
    state.zoom(&pressing(&[RawKey::Plus, RawKey::Minus]));
    assert_eq!(state.unit_size(), 1);
}

#[test]
fn the_aim_follows_the_held_keys() {
    let state = GameState::new();
    assert_eq!(state.aim(&holding(&[])), Aim { x: 0, y: 0, slow: false });
    assert_eq!(state.aim(&holding(&[RawKey::Right])), Aim { x: 1, y: 0, slow: false });
    assert_eq!(state.aim(&holding(&[RawKey::Left])), Aim { x: -1, y: 0, slow: false });
    assert_eq!(state.aim(&holding(&[RawKey::Down])), Aim { x: 0, y: 1, slow: false });
    assert_eq!(state.aim(&holding(&[RawKey::Up])), Aim { x: 0, y: -1, slow: false });
    assert_eq!(
        state.aim(&holding(&[RawKey::Left, RawKey::Right, RawKey::Up, RawKey::Shift])),
        Aim { x: 0, y: -1, slow: true }
    );
    // a key that has just gone down is held too
    assert_eq!(state.aim(&pressing(&[RawKey::Right, RawKey::Down])), Aim { x: 1, y: 1, slow: false });
}

#[test]
fn the_ball_is_launched_only_when_the_player_confirms_an_aim() {
    let mut state = GameState::new();
    assert_eq!(state.steer(&pressing(&[RawKey::Okay]), true, false), Motion::Keep);
    assert_eq!(state.steer(&holding(&[RawKey::Okay]), true, true), Motion::Keep);
    assert_eq!(state.steer(&pressing(&[RawKey::Back]), true, true), Motion::Keep);
    assert_eq!(state.attempts(), 0);
    assert!(!state.is_moving());
    assert_eq!(state.steer(&pressing(&[RawKey::Exe]), true, true), Motion::Launch);
    assert_eq!(state.attempts(), 1);
    assert!(state.is_moving());
}

#[test]
fn a_rolling_ball_stops_when_it_is_at_rest() {
    let mut state = GameState::new();
    assert_eq!(state.steer(&pressing(&[RawKey::Okay]), false, true), Motion::Launch);
    // a rolling ball cannot be launched again
    assert_eq!(state.steer(&pressing(&[RawKey::Okay]), false, true), Motion::Keep);
    assert!(state.is_moving());
    assert_eq!(state.steer(&pressing(&[]), true, false), Motion::Stop);
    assert!(!state.is_moving());
    assert_eq!(state.attempts(), 1);
}

#[test]
fn back_asks_to_leave_the_level() {
    let state = GameState::new();
    assert_eq!(state.leave(&pressing(&[RawKey::Back])), Some(PopupState("Leave ???".to_string())));
    assert_eq!(state.leave(&holding(&[RawKey::Back])), None);
    assert_eq!(state.leave(&pressing(&[RawKey::Okay])), None);
}

#[test]
fn a_confirmed_popup_pops_the_game_too() {
    let state = GameState::new();
    let action: StackAction<PopMessage, u8> = state.resume(PopMessage::OkBackPopupIsOk(true));
    assert!(matches!(action, StackAction::Pop(PopMessage::Nothing)));
    let action: StackAction<PopMessage, u8> = state.resume(PopMessage::OkBackPopupIsOk(false));
    assert!(matches!(action, StackAction::Nop));
    let action: StackAction<PopMessage, u8> = state.resume(PopMessage::Nothing);
    assert!(matches!(action, StackAction::Nop));
}

#[test]
fn a_popup_answers_with_the_key() {
    let mut popup = PopupState("Leave ???".to_string());
    let action: StackAction<PopMessage, u8> = popup.update(&pressing(&[RawKey::Back]));
    assert!(matches!(action, StackAction::Pop(PopMessage::OkBackPopupIsOk(false))));
    let action: StackAction<PopMessage, u8> = popup.update(&pressing(&[RawKey::Okay]));
    assert!(matches!(action, StackAction::Pop(PopMessage::OkBackPopupIsOk(true))));
    let action: StackAction<PopMessage, u8> = popup.update(&pressing(&[RawKey::Exe]));
    assert!(matches!(action, StackAction::Pop(PopMessage::OkBackPopupIsOk(true))));
    let action: StackAction<PopMessage, u8> = popup.update(&pressing(&[RawKey::Back, RawKey::Okay]));
    assert!(matches!(action, StackAction::Pop(PopMessage::OkBackPopupIsOk(false))));
    let action: StackAction<PopMessage, u8> = popup.update(&holding(&[RawKey::Back, RawKey::Okay]));
    assert!(matches!(action, StackAction::Nop));
    assert_eq!(popup, PopupState("Leave ???".to_string()));
}

#[test]
fn the_end_of_a_level_is_left_by_any_of_its_keys() {
    let mut over = GameOverState(3);
    for key in [RawKey::Back, RawKey::Okay, RawKey::Exe] {
        let action: StackAction<PopMessage, u8> = over.update(&pressing(&[key]));
        assert!(matches!(action, StackAction::Pop(PopMessage::Nothing)));
    }
    let action: StackAction<PopMessage, u8> = over.update(&pressing(&[RawKey::Left]));
    assert!(matches!(action, StackAction::Nop));
    let action: StackAction<PopMessage, u8> = over.update(&holding(&[RawKey::Exe]));
    assert!(matches!(action, StackAction::Nop));
    assert_eq!(over, GameOverState(3));
}

#[test]
fn the_menu_plays_or_leaves() {
    let mut menu = MainMenuState;
    assert_eq!(menu.update(&pressing(&[RawKey::Okay])), MenuChoice::Play);
    assert_eq!(menu.update(&pressing(&[RawKey::Exe])), MenuChoice::Play);
    assert_eq!(menu.update(&pressing(&[RawKey::Back])), MenuChoice::Leave);
    assert_eq!(menu.update(&pressing(&[RawKey::Back, RawKey::Exe])), MenuChoice::Play);
    assert_eq!(menu.update(&pressing(&[RawKey::Up])), MenuChoice::Stay);
    assert_eq!(menu.update(&holding(&[RawKey::Okay])), MenuChoice::Stay);
}

#[test]
fn what_a_frame_draws_around_the_course() {
    assert_eq!(clear_color(), Color::green());
    assert_eq!(score_rect(), Rect { x: 0, y: 0, width: 84, height: 14 });
    let offset = camera_offset();
    assert_eq!((offset.x, offset.y), (160, 120));
}

#[test]
fn ok_and_exe_confirm_when_they_go_down() {
    assert!(confirms(&pressing(&[RawKey::Okay])));
    assert!(confirms(&pressing(&[RawKey::Exe])));
    assert!(!confirms(&holding(&[RawKey::Okay, RawKey::Exe])));
    assert!(!confirms(&pressing(&[RawKey::Back, RawKey::Plus])));
}

#[test]
fn a_frame_takes_all_decisions_in_their_order() {
    let mut state = GameState::new();
    // the player launches, and the modules let the ball roll
    let keys = pressing(&[RawKey::Okay, RawKey::Plus]);
    let frame = state.update(&keys, true, true, Aggregate::Roll(vec![0.98f32]));
    assert_eq!(
        frame,
        Frame {
            motion: Motion::Launch,
            aggregate: Aggregate::Roll(vec![0.98]),
            game_over: None,
            popup: None,
        }
    );
    assert!(state.is_moving());
    assert_eq!(state.attempts(), 1);
    assert_eq!(state.unit_size(), 4);

    // the ball rolls on, and the player asks to leave
    let frame = state.update(&pressing(&[RawKey::Back]), false, false, Aggregate::Roll(vec![0.5f32]));
    assert_eq!(frame.motion, Motion::Keep);
    assert_eq!(frame.popup, Some(PopupState("Leave ???".to_string())));
    assert_eq!(frame.game_over, None);
    assert!(state.is_moving());
    assert_eq!(state.attempts(), 1);

    // the ball comes to rest
    let frame = state.update(&pressing(&[]), true, false, Aggregate::Roll(vec![0.5f32]));
    assert_eq!(frame.motion, Motion::Stop);
    assert!(!state.is_moving());
    assert_eq!(state.attempts(), 1);
}

#[test]
fn a_launch_and_a_reset_in_one_frame_count_twice() {
    let mut state = GameState::new();
    let frame = state.update(&pressing(&[RawKey::Exe]), true, true, Aggregate::<f32>::Reset);
    assert_eq!(frame.motion, Motion::Launch);
    assert_eq!(frame.aggregate, Aggregate::Reset);
    assert_eq!(frame.game_over, None);
    assert_eq!(state.attempts(), 2);
    // the reset leaves the ball at rest
    assert!(!state.is_moving());
}

#[test]
fn a_won_level_ends_and_cannot_be_left() {
    let mut state = GameState::new();
    assert_eq!(state.settle(&Aggregate::<f32>::Reset), None);
    let keys = pressing(&[RawKey::Back, RawKey::Okay]);
    let frame = state.update(&keys, true, true, Aggregate::<f32>::Win);
    assert_eq!(frame.motion, Motion::Launch);
    // the launch of this frame is counted in the result
    assert_eq!(frame.game_over, Some(GameOverState(2)));
    assert_eq!(frame.popup, None);
    assert_eq!(state.attempts(), 2);
}

#[test]
fn attempts_are_counted_as_long_as_they_fit() {
    let mut state = GameState::new();
    for _ in 0..254 {
        assert_eq!(state.settle(&Aggregate::<f32>::Reset), None);
    }
    assert_eq!(state.attempts(), 254);
    let launch = pressing(&[RawKey::Okay]);
    let idle = pressing(&[]);
    assert!(state.countable(&launch, true, true, &Aggregate::Roll(vec![1u8])));
    assert!(state.countable(&idle, true, true, &Aggregate::<u8>::Reset));
    assert!(!state.countable(&launch, true, true, &Aggregate::<u8>::Reset));
    assert!(state.countable(&launch, true, false, &Aggregate::<u8>::Reset));
    let frame = state.update(&launch, true, true, Aggregate::Roll(vec![1u8]));
    assert_eq!(frame.motion, Motion::Launch);
    assert_eq!(state.attempts(), 255);
    // a rolling ball is not launched, so nothing more is counted
    assert!(state.countable(&launch, false, true, &Aggregate::Roll(vec![1u8])));
    assert!(state.countable(&launch, true, true, &Aggregate::<u8>::Win));
    assert!(!state.countable(&idle, true, true, &Aggregate::<u8>::Reset));
    let frame = state.update(&launch, true, true, Aggregate::<u8>::Win);
    assert_eq!(frame.motion, Motion::Stop);
    assert_eq!(frame.game_over, Some(GameOverState(255)));
}
