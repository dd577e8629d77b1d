use grid_walk::movement::{
    can_start, move_movables, move_player, on_move, DirectionKeys, MovableOnMap, Movement, MovementEvent,
    MovementState, Orientation, SpriteState, Translation,
};
use grid_walk::settings::{
    ConfigError, MapMoveSettings, SpriteSettings, SPRITE_DOWN_INDEX, SPRITE_LEFT1_INDEX,
    SPRITE_LEFT2_INDEX, SPRITE_UP_INDEX,
};

fn origin() -> Translation {
    Translation::whole(0, 0, 0)
}

fn at(x: i64, y: i64, z: i64, den: u64) -> Translation {
    Translation { x, y, z, den }
}

fn framed() -> SpriteState {
    SpriteState { frame: Some(SPRITE_DOWN_INDEX), flip_x: false }
}

fn keys(left: bool, right: bool, down: bool, up: bool) -> DirectionKeys {
    DirectionKeys { left, right, down, up }
}

#[test]
fn default_settings() {
    let s = MapMoveSettings::default();
    assert_eq!(s.nanos_per_tile, 125_000_000);
    assert_eq!(s.steps_per_tile, 3);
    assert_eq!(SpriteSettings::default().sprite_size, 16);
}

#[test]
fn settings_errors() {
    assert_eq!(MapMoveSettings::new(125_000_000, 0), Err(ConfigError::ZeroSubsteps));
    assert_eq!(MapMoveSettings::new(0, 3), Err(ConfigError::ZeroDuration));
    assert_eq!(MapMoveSettings::new(u64::MAX, 2), Err(ConfigError::DurationOverflow));
    let ok = MapMoveSettings::new(1_000, 4).unwrap();
    assert_eq!(ok.nanos_per_tile, 1_000);
    assert_eq!(ok.steps_per_tile, 4);
}

#[test]
fn left_descriptor_scenario() {
    let s = MapMoveSettings::default();
    let e = MovementEvent::toward(Orientation::Left, &s);
    assert_eq!((e.change_x, e.change_y), (-1, 0));
    let m = Movement::new(&e, 16);
    assert_eq!(m.steps_remaining, 3);
    assert!(!m.is_done());
    // per-substep displacement -16/3 = -5.333...
    assert_eq!(m.move_vector(), (-16, 0, 3));
    assert_eq!(m.interval_nanos(), 41_666_666);
}

#[test]
fn left_crossing_after_full_duration() {
    let s = MapMoveSettings::default();
    let e = MovementEvent::toward(Orientation::Left, &s);
    let mut t = origin();
    let mut sp = framed();
    let mut mv = MovableOnMap::new();
    on_move(&e, 16, &mut t, &mut sp, &mut mv);
    assert_eq!(mv.movement_state, MovementState::Moving);
    let mut fired = 0;
    for _ in 0..5 {
        fired += move_movables(25_000_000, &mut t, &mut sp, &mut mv);
    }
    assert_eq!(fired, 3);
    // -48 / 3 = -16 world units
    assert_eq!(t, at(-48, 0, 0, 3));
    assert_eq!(mv.movement_state, MovementState::Idle);
    assert!(mv.movement.is_none());
}

#[test]
fn substeps_share_the_tile_exactly() {
    let s = MapMoveSettings::default();
    let e = MovementEvent::toward(Orientation::Left, &s);
    let mut t = origin();
    let mut sp = framed();
    let mut mv = MovableOnMap::new();
    on_move(&e, 16, &mut t, &mut sp, &mut mv);
    let mut xs = Vec::new();
    for _ in 0..3 {
        assert_eq!(move_movables(41_666_667, &mut t, &mut sp, &mut mv), 1);
        xs.push(t.x);
    }
    // over denominator 3: -16/3, -32/3, -16
    assert_eq!(t.den, 3);
    assert_eq!(xs, vec![-16, -32, -48]);
    assert_eq!(mv.movement_state, MovementState::Idle);
}

#[test]
fn one_large_delta_fires_every_substep() {
    let s = MapMoveSettings::default();
    let e = MovementEvent::toward(Orientation::Right, &s);
    let mut t = Translation::whole(100, 7, 3);
    let mut sp = framed();
    let mut mv = MovableOnMap::new();
    on_move(&e, 16, &mut t, &mut sp, &mut mv);
    assert_eq!(move_movables(1_000_000_000, &mut t, &mut sp, &mut mv), 3);
    assert_eq!(t, at(348, 21, 3, 3));
    assert_eq!(mv.movement_state, MovementState::Idle);
    assert_eq!(move_movables(1_000_000_000, &mut t, &mut sp, &mut mv), 0);
    assert_eq!(t, at(348, 21, 3, 3));
}

#[test]
fn ticks_shorter_than_an_interval_accumulate() {
    let s = MapMoveSettings::default();
    let e = MovementEvent::toward(Orientation::Up, &s);
    let mut t = origin();
    let mut sp = framed();
    let mut mv = MovableOnMap::new();
    on_move(&e, 16, &mut t, &mut sp, &mut mv);
    let mut fired = 0;
    let mut ticks = 0;
    while mv.movement_state == MovementState::Moving {
        fired += move_movables(16_000_000, &mut t, &mut sp, &mut mv);
        ticks += 1;
    }
    assert_eq!(fired, 3);
    assert_eq!(ticks, 8);
    assert_eq!(t, at(0, 48, 0, 3));
}

#[test]
fn up_is_ignored_during_down_crossing() {
    let s = MapMoveSettings::default();
    let mut t = origin();
    let mut sp = framed();
    let mut mv = MovableOnMap::new();
    let down = move_player(&mv, &keys(false, false, true, false), &s).unwrap();
    assert_eq!(down.orientation, Orientation::Down);
    on_move(&down, 16, &mut t, &mut sp, &mut mv);
    let mut last_y = t.y;
    for _ in 0..2 {
        assert_eq!(move_player(&mv, &keys(false, false, false, true), &s), None);
        let plan = mv.movement;
        let up = MovementEvent::toward(Orientation::Up, &s);
        on_move(&up, 16, &mut t, &mut sp, &mut mv);
        assert_eq!(mv.movement_state, MovementState::Moving);
        assert_eq!(mv.movement, plan);
        assert_eq!(mv.movement.unwrap().orientation, Orientation::Down);
        move_movables(41_666_667, &mut t, &mut sp, &mut mv);
        assert!(t.y < last_y);
        assert_eq!(t.x, 0);
        last_y = t.y;
    }
    assert_eq!(mv.movement_state, MovementState::Moving);
    move_movables(41_666_667, &mut t, &mut sp, &mut mv);
    assert_eq!(t, at(0, -48, 0, 3));
    assert_eq!(mv.movement_state, MovementState::Idle);
    let up = move_player(&mv, &keys(false, false, false, true), &s).unwrap();
    assert_eq!(up.orientation, Orientation::Up);
}

#[test]
fn second_trigger_keeps_descriptor() {
    let s = MapMoveSettings::default();
    let mut t = origin();
    let mut sp = framed();
    let mut mv = MovableOnMap::new();
    on_move(&MovementEvent::toward(Orientation::Down, &s), 16, &mut t, &mut sp, &mut mv);
    let before = mv;
    let sprite_before = sp;
    let position_before = t;
    on_move(&MovementEvent::toward(Orientation::Left, &s), 16, &mut t, &mut sp, &mut mv);
    assert_eq!(mv, before);
    assert_eq!(sp, sprite_before);
    assert_eq!(t, position_before);
}

#[test]
fn key_priority_left_right_down_up() {
    let s = MapMoveSettings::default();
    let mv = MovableOnMap::default();
    let o = |k: DirectionKeys| move_player(&mv, &k, &s).map(|e| e.orientation);
    assert_eq!(o(keys(true, true, true, true)), Some(Orientation::Left));
    assert_eq!(o(keys(false, true, true, true)), Some(Orientation::Right));
    assert_eq!(o(keys(false, false, true, true)), Some(Orientation::Down));
    assert_eq!(o(keys(false, false, false, true)), Some(Orientation::Up));
    assert_eq!(o(keys(false, false, false, false)), None);
}

#[test]
fn event_carries_settings() {
    let s = MapMoveSettings::new(90_000_000, 4).unwrap();
    let e = MovementEvent::toward(Orientation::Down, &s);
    assert_eq!((e.change_x, e.change_y), (0, -1));
    assert_eq!(e.nanos, 90_000_000);
    assert_eq!(e.steps, 4);
}

#[test]
fn sideways_walk_frames_alternate() {
    let s = MapMoveSettings::default();
    let mut t = origin();
    let mut sp = framed();
    let mut mv = MovableOnMap::new();
    on_move(&MovementEvent::toward(Orientation::Right, &s), 16, &mut t, &mut sp, &mut mv);
    assert_eq!(sp, SpriteState { frame: Some(SPRITE_LEFT1_INDEX), flip_x: true });
    let mut frames = Vec::new();
    for _ in 0..3 {
        move_movables(41_666_667, &mut t, &mut sp, &mut mv);
        frames.push(sp.frame.unwrap());
        assert!(sp.flip_x);
    }
    assert_eq!(frames, vec![SPRITE_LEFT2_INDEX, SPRITE_LEFT1_INDEX, SPRITE_LEFT2_INDEX]);
    // a new sideways crossing starts from the walk frame already shown
    on_move(&MovementEvent::toward(Orientation::Left, &s), 16, &mut t, &mut sp, &mut mv);
    assert_eq!(sp, SpriteState { frame: Some(SPRITE_LEFT2_INDEX), flip_x: false });
    move_movables(41_666_667, &mut t, &mut sp, &mut mv);
    assert_eq!(sp.frame, Some(SPRITE_LEFT1_INDEX));
}

#[test]
fn vertical_travel_toggles_mirror() {
    let s = MapMoveSettings::default();
    let mut t = origin();
    let mut sp = SpriteState { frame: Some(SPRITE_LEFT1_INDEX), flip_x: true };
    let mut mv = MovableOnMap::new();
    on_move(&MovementEvent::toward(Orientation::Up, &s), 16, &mut t, &mut sp, &mut mv);
    assert_eq!(sp, SpriteState { frame: Some(SPRITE_UP_INDEX), flip_x: true });
    let mut flips = Vec::new();
    for _ in 0..3 {
        move_movables(41_666_667, &mut t, &mut sp, &mut mv);
        flips.push(sp.flip_x);
        assert_eq!(sp.frame, Some(SPRITE_UP_INDEX));
    }
    assert_eq!(flips, vec![false, true, false]);
}

#[test]
fn frameless_sprite_still_moves() {
    let s = MapMoveSettings::default();
    let mut t = origin();
    let mut sp = SpriteState { frame: None, flip_x: false };
    let mut mv = MovableOnMap::new();
    on_move(&MovementEvent::toward(Orientation::Down, &s), 16, &mut t, &mut sp, &mut mv);
    assert_eq!(move_movables(125_000_000, &mut t, &mut sp, &mut mv), 3);
    assert_eq!(t, at(0, -48, 0, 3));
    assert_eq!(sp, SpriteState { frame: None, flip_x: false });
    assert_eq!(mv.movement_state, MovementState::Idle);
}

#[test]
fn tick_reports_due_substeps() {
    let s = MapMoveSettings::new(100, 4).unwrap();
    let e = MovementEvent::toward(Orientation::Left, &s);
    let mut m = Movement::new(&e, 10);
    assert_eq!(m.tick(24), 0);
    assert_eq!(m.tick(1), 1);
    m.complete_substep();
    assert_eq!(m.steps_remaining, 3);
    assert_eq!(m.tick(500), 3);
    assert_eq!(m.elapsed, 100);
    m.complete_substep();
    m.complete_substep();
    m.complete_substep();
    assert!(m.is_done());
}

#[test]
fn each_substep_moves_exactly_its_share() {
    let s = MapMoveSettings::new(100, 4).unwrap();
    let e = MovementEvent::toward(Orientation::Left, &s);
    let mut t = origin();
    let mut sp = framed();
    let mut mv = MovableOnMap::new();
    on_move(&e, 10, &mut t, &mut sp, &mut mv);
    assert_eq!(t, at(0, 0, 0, 4));
    let mut xs = Vec::new();
    for _ in 0..4 {
        assert_eq!(move_movables(25, &mut t, &mut sp, &mut mv), 1);
        xs.push(t.x);
    }
    // each substep is -10/4 = -2.5 units
    assert_eq!(xs, vec![-10, -20, -30, -40]);
    assert_eq!(t.den, 4);
}

#[test]
fn trigger_keeps_a_fitting_denominator() {
    let s = MapMoveSettings::default();
    let e = MovementEvent::toward(Orientation::Up, &s);
    let mut t = at(5, 9, 1, 6);
    let mut sp = framed();
    let mut mv = MovableOnMap::new();
    on_move(&e, 16, &mut t, &mut sp, &mut mv);
    assert_eq!(t, at(5, 9, 1, 6));
    assert_eq!(move_movables(125_000_000, &mut t, &mut sp, &mut mv), 3);
    // 9/6 + 16 = 105/6
    assert_eq!(t, at(5, 105, 1, 6));
}

#[test]
fn trigger_rescales_other_denominators() {
    let s = MapMoveSettings::default();
    let e = MovementEvent::toward(Orientation::Right, &s);
    let mut t = at(1, -3, 0, 2);
    let mut sp = framed();
    let mut mv = MovableOnMap::new();
    on_move(&e, 16, &mut t, &mut sp, &mut mv);
    assert_eq!(t, at(3, -9, 0, 6));
    assert_eq!(move_movables(41_666_667, &mut t, &mut sp, &mut mv), 1);
    // 1/2 + 16/3 = 35/6
    assert_eq!(t, at(35, -9, 0, 6));
}

#[test]
fn can_start_checks_the_range() {
    let s = MapMoveSettings::default();
    let right = MovementEvent::toward(Orientation::Right, &s);
    let left = MovementEvent::toward(Orientation::Left, &s);
    assert!(can_start(&origin(), &right, 16));
    assert!(!can_start(&Translation::whole(i64::MAX - 3, 0, 0), &right, 16));
    assert!(!can_start(&Translation::whole(i64::MAX / 2, 0, 0), &left, 16));
    assert!(can_start(&at(i64::MAX - 100, 0, 0, 3), &left, 16));
    assert!(!can_start(&at(0, 0, 0, 0), &right, 16));
}
