use golf::display::{Color, Rect};
use golf::game::ball::{covers, BallFootprint, PixelSpan, MARK_SIZE, REACH_COLOR};
use golf::game::module::{
    tile_color, BallInteraction, EmptyModule, Region, SquareEndModule, DARK_GROUND, LIGHT_GROUND,
    TILE_SIZE,
};
use golf::menu::MainMenuState;
use golf::utils::vec::Vec2;

#[test]
fn plain_ground_covers_its_tiles() {
    assert_eq!(TILE_SIZE, 4);
    let module = EmptyModule::new_rect(Vec2 { x: -8, y: -8 }, (8, 4));
    assert_eq!(module.region(), Region { left: -8, top: -8, right: 24, bottom: 8 });
    assert_eq!(module.tiles(), Vec2 { x: 8, y: 4 });
    let module = EmptyModule::new_rect(Vec2 { x: 24, y: -8 }, (2, 7));
    assert_eq!(module.region(), Region { left: 24, top: -8, right: 32, bottom: 20 });
    let none = EmptyModule::new_rect(Vec2 { x: 3, y: 4 }, (0, 0));
    assert_eq!(none.region(), Region { left: 3, top: 4, right: 3, bottom: 4 });
}

#[test]
fn a_region_never_overflows() {
    let far = EmptyModule::new_rect(Vec2 { x: i32::MAX, y: i32::MIN }, (i32::MAX, i32::MIN));
    assert_eq!(
        far.region(),
        Region {
            left: i32::MAX as i64,
            top: i32::MIN as i64,
            right: i32::MAX as i64 * 5,
            bottom: i32::MIN as i64 * 5,
        }
    );
}

#[test]
fn plain_ground_only_slows_the_ball_down() {
    let module = EmptyModule::new_rect(Vec2 { x: 0, y: 0 }, (1, 1));
    assert_eq!(module.interaction(true, 0.98f32), BallInteraction::Out);
    assert_eq!(module.interaction(false, 0.98f32), BallInteraction::In(0.98));
}

#[test]
fn the_hole_lies_in_the_middle_of_its_square() {
    let module = SquareEndModule::new_4x4(Vec2 { x: 20, y: 20 });
    assert_eq!(module.region(), Region { left: 20, top: 20, right: 36, bottom: 36 });
    assert_eq!(module.hole(), Region { left: 27, top: 27, right: 29, bottom: 29 });
    let far = SquareEndModule::new_4x4(Vec2 { x: i32::MAX, y: i32::MIN });
    assert_eq!(far.region().right, i32::MAX as i64 + 16);
    assert_eq!(far.hole().top, i32::MIN as i64 + 7);
}

#[test]
fn a_ball_in_the_hole_wins() {
    let module = SquareEndModule::new_4x4(Vec2 { x: 0, y: 0 });
    assert_eq!(module.interaction(true, true, 0.98f32), BallInteraction::Out);
    assert_eq!(module.interaction(true, false, 0.98f32), BallInteraction::Out);
    assert_eq!(module.interaction(false, true, 0.98f32), BallInteraction::In(0.98));
    assert_eq!(module.interaction(false, false, 0.98f32), BallInteraction::Win);
}

#[test]
fn the_first_level_leads_from_the_origin_to_the_hole() {
    let level = MainMenuState.level();
    assert_eq!(level.ground.len(), 2);
    assert_eq!(level.ground[0], EmptyModule::new_rect(Vec2 { x: -8, y: -8 }, (8, 4)));
    assert_eq!(level.ground[1], EmptyModule::new_rect(Vec2 { x: 24, y: -8 }, (2, 7)));
    assert_eq!(level.end, SquareEndModule::new_4x4(Vec2 { x: 20, y: 20 }));
    // the origin, where the ball starts, lies on the first stretch
    let start = level.ground[0].region();
    assert!(start.left < 0 && 0 < start.right && start.top < 0 && 0 < start.bottom);
}

#[test]
fn tiles_form_a_checkerboard() {
    assert_eq!(tile_color(0, 0), Color(LIGHT_GROUND));
    assert_eq!(tile_color(1, 0), Color(DARK_GROUND));
    assert_eq!(tile_color(0, 1), Color(DARK_GROUND));
    assert_eq!(tile_color(1, 1), Color(LIGHT_GROUND));
    assert_eq!(tile_color(-1, 0), Color(DARK_GROUND));
    assert_eq!(tile_color(i32::MAX, i32::MAX), Color(LIGHT_GROUND));
    assert_eq!((LIGHT_GROUND, DARK_GROUND), (0x0640, 0x0580));
}

#[test]
fn a_tile_is_placed_by_the_camera_and_the_zoom() {
    let module = EmptyModule::new_rect(Vec2 { x: -8, y: -8 }, (8, 4));
    let camera = Vec2 { x: -160, y: -120 };
    // column 0 starts at -8 units, which are -24 pixels at 3 pixels per unit
    assert_eq!(
        module.tile_rect(0, 0, camera, 3),
        Rect { x: 136, y: 96, width: 12, height: 12 }
    );
    assert_eq!(
        module.tile_rect(2, 1, camera, 3),
        Rect { x: 160, y: 108, width: 12, height: 12 }
    );
    assert_eq!(
        module.tile_rect(2, 1, camera, 8),
        Rect { x: 160, y: 88, width: 32, height: 32 }
    );
    // off the screen to the left: the corner is moved, the size kept
    assert_eq!(
        module.tile_rect(0, 0, Vec2 { x: 0, y: 0 }, 3),
        Rect { x: 0, y: 0, width: 12, height: 12 }
    );
    // off the screen to the right: nothing is left
    assert_eq!(
        module.tile_rect(0, 0, Vec2 { x: -1000, y: -1000 }, 3),
        Rect { x: 320, y: 240, width: 0, height: 0 }
    );
    assert_eq!(
        module.tile_rect(i32::MAX, i32::MIN, Vec2 { x: i32::MIN, y: i32::MAX }, 8),
        Rect { x: 320, y: 0, width: 0, height: 32 }
    );
    let zero = module.tile_rect(2, 1, camera, 0);
    assert_eq!((zero.width, zero.height), (0, 0));
}

#[test]
fn the_hole_is_drawn_in_the_middle_of_the_square() {
    let module = SquareEndModule::new_4x4(Vec2 { x: 20, y: 20 });
    let camera = Vec2 { x: 0, y: 0 };
    assert_eq!(
        module.tile_rect(0, 0, camera, 3),
        Rect { x: 60, y: 60, width: 12, height: 12 }
    );
    // two tiles in, less one unit: (20 + 8 - 1) * 3
    assert_eq!(module.hole_rect(camera, 3), Rect { x: 81, y: 81, width: 6, height: 6 });
    assert_eq!(module.hole_rect(camera, 1), Rect { x: 27, y: 27, width: 2, height: 2 });
}

#[test]
fn the_ball_covers_a_disc() {
    let center = Vec2 { x: 100, y: 100 };
    assert!(covers(center, 3, 100, 100));
    assert!(covers(center, 3, 103, 100));
    assert!(covers(center, 3, 100, 97));
    assert!(covers(center, 3, 102, 102));
    assert!(!covers(center, 3, 103, 101));
    assert!(!covers(center, 3, 104, 100));
    assert!(!covers(center, 3, 0, 0));
    assert!(covers(center, 0, 100, 100));
    assert!(!covers(center, 0, 101, 100));
    assert!(!covers(Vec2 { x: i32::MIN, y: i32::MAX }, 255, u16::MAX, 0));
    let mut count = 0;
    for x in 0..320u16 {
        for y in 0..240u16 {
            if covers(center, 3, x, y) {
                count += 1;
            }
        }
    }
    assert_eq!(count, 29);
}

#[test]
fn drawing_the_ball_notes_what_it_touches() {
    let mut footprint = BallFootprint::new();
    assert_eq!(footprint.erase(), (Rect { x: 0, y: 0, width: 0, height: 0 }, None));
    let drawing = footprint.render(Vec2 { x: 100, y: 50 }, 3, None);
    assert_eq!(drawing.span, PixelSpan { x_start: 97, x_end: 104, y_start: 47, y_end: 54 });
    assert_eq!(drawing.marks, None);
    assert_eq!(footprint.erase(), (Rect { x: 97, y: 47, width: 7, height: 7 }, None));
}

#[test]
fn the_launch_indicator_is_drawn_and_erased_with_the_ball() {
    let mut footprint = BallFootprint::new();
    let reach = Vec2 { x: 160, y: 60 };
    let aim = Vec2 { x: 130, y: 90 };
    let drawing = footprint.render(Vec2 { x: 100, y: 120 }, 3, Some((reach, aim)));
    let marks = (
        Rect { x: 159, y: 59, width: 3, height: 3 },
        Rect { x: 129, y: 89, width: 3, height: 3 },
    );
    assert_eq!(drawing.marks, Some(marks));
    assert_eq!(footprint.erase(), (Rect { x: 97, y: 117, width: 7, height: 7 }, Some(marks)));
    // drawn without the indicator, the marks are not erased again
    footprint.render(Vec2 { x: 100, y: 120 }, 3, None);
    assert_eq!(footprint.erase().1, None);
    assert_eq!((MARK_SIZE, REACH_COLOR), (3, 0xB5B6));
}

#[test]
fn a_ball_at_the_edge_is_cut_to_the_screen() {
    let mut footprint = BallFootprint::new();
    let drawing = footprint.render(Vec2 { x: 1, y: 319 }, 3, None);
    assert_eq!(drawing.span, PixelSpan { x_start: 0, x_end: 5, y_start: 316, y_end: 320 });
    assert_eq!(footprint.erase().0, Rect { x: 0, y: 240, width: 7, height: 0 });
    let drawing = footprint.render(Vec2 { x: -50, y: 5000 }, 8, None);
    assert_eq!(drawing.span.x_start, drawing.span.x_end);
    assert_eq!(drawing.span.y_start, drawing.span.y_end);
    let drawing = footprint.render(Vec2 { x: i32::MAX, y: i32::MIN }, 255, Some((
        Vec2 { x: i32::MIN, y: i32::MAX },
        Vec2 { x: 0, y: 0 },
    )));
    assert_eq!(drawing.span, PixelSpan { x_start: 320, x_end: 320, y_start: 0, y_end: 0 });
    assert_eq!(
        drawing.marks,
        Some((Rect { x: 0, y: 240, width: 3, height: 0 }, Rect { x: 0, y: 0, width: 3, height: 3 }))
    );
}

#[test]
fn every_pixel_that_is_scanned_on_the_screen_is_erased() {
    for (x, y, unit) in [(100, 50, 3u8), (1, 1, 8), (318, 238, 8), (0, 239, 1), (-3, 100, 5), (400, 100, 8)] {
        let mut footprint = BallFootprint::new();
        let drawing = footprint.render(Vec2 { x, y }, unit, None);
        let dirty = footprint.erase().0;
        for px in drawing.span.x_start..drawing.span.x_end {
            for py in drawing.span.y_start..drawing.span.y_end {
                if py < 240 {
                    assert!(dirty.x <= px && px < dirty.x + dirty.width);
                    assert!(dirty.y <= py && py < dirty.y + dirty.height);
                }
            }
        }
    }
}
