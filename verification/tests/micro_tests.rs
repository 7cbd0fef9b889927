use retro_arcade::micro::{
    intro_story, story_lines,
    level_map, level_name, scan_map, AnchorEvent, GameState, Input, JumpKind, KeySnapshot, StoryKind, Thing,
    World,
};

fn snap(up: bool, right: bool, b: bool, shoot: bool) -> KeySnapshot {
    KeySnapshot { right, left: false, up, down: false, b_held: b, shoot_pressed: shoot }
}

#[test]
fn scan_small_map() {
    let spawns = scan_map(&["#%C", ".PBTG"]);
    let things: Vec<Thing> = spawns.iter().map(|s| s.thing).collect();
    assert_eq!(
        things,
        vec![Thing::Brick, Thing::Stone, Thing::Chest, Thing::Patrol, Thing::Bat, Thing::Turret, Thing::Gem]
    );
    assert_eq!((spawns[6].col, spawns[6].row), (4, 1));
}

#[test]
fn tower_maps() {
    assert_eq!(level_map(0).len(), 32);
    assert_eq!(level_map(1).len(), 32);
    assert_eq!(level_map(2).len(), 27);
    assert_eq!(level_map(5), level_map(2));
    assert_eq!(level_name(1), "THE FROZEN ARCHIVE");
    // The "Goal" lettering places a gem at its 'G'.
    let spawns = scan_map(&level_map(0));
    assert!(spawns.iter().any(|s| s.thing == Thing::Gem && s.row == 2 && s.col == 14));
}

#[test]
fn b_button_edges_and_hold_count() {
    let mut i = Input::new();
    i.poll(snap(false, false, true, false));
    assert!(i.b_down);
    assert_eq!((i.jump_buffer, i.b_down_frames), (6, 1));
    i.poll(snap(false, false, true, false));
    assert_eq!((i.jump_buffer, i.b_down_frames), (6, 2));
    i.poll(snap(false, false, false, true));
    assert!(!i.b_down);
    assert!(i.shoot_pressed);
    i.poll(snap(false, false, false, false));
    assert!(i.shoot_pressed);
}

#[test]
fn aiming() {
    let mut i = Input::new();
    assert_eq!(i.get_trajectory(true), (1, 0));
    assert_eq!(i.get_trajectory(false), (-1, 0));
    i.up = true;
    i.right = true;
    assert_eq!(i.get_trajectory(false), (1, -1));
    i.right = false;
    assert_eq!(i.get_trajectory(true), (0, -1));
    i.down = true;
    i.up = false;
    i.left = true;
    assert_eq!(i.get_trajectory(true), (-1, 1));
}

#[test]
fn screens_flow() {
    let (mut w, _) = World::new();
    let mut i = Input::new();
    assert!(w.update_screen(&mut i).is_none());
    assert_eq!(w.state, GameState::Start);
    i.jump_buffer = 3;
    assert!(w.update_screen(&mut i).is_none());
    assert_eq!(w.state, GameState::Story);
    assert_eq!(i.jump_buffer, 0);
    i.shoot_pressed = true;
    let spawns = w.update_screen(&mut i).unwrap();
    assert_eq!(w.state, GameState::Playing);
    assert_eq!(spawns, scan_map(&level_map(0)));
    assert!(!i.shoot_pressed);
}

#[test]
fn between_levels_screen_ignores_presses() {
    let (mut w, _) = World::new();
    w.state = GameState::Playing;
    w.reach_goal();
    assert_eq!(w.state, GameState::LevelStory);
    assert_eq!(w.story, StoryKind::AfterLevel1);
    let mut i = Input::new();
    i.jump_buffer = 2;
    assert!(w.update_screen(&mut i).is_none());
    assert_eq!(w.state, GameState::LevelStory);
    assert_eq!(i.jump_buffer, 0);
}

#[test]
fn last_tower_goal_is_victory() {
    let (mut w, _) = World::new();
    w.state = GameState::Playing;
    w.current_level = 2;
    assert!(w.reach_goal().is_none());
    assert_eq!(w.story, StoryKind::Victory);
    assert!(w.story_is_victory);
    assert_eq!(w.current_level, 3);
}

#[test]
fn jumps() {
    let (mut w, _) = World::new();
    w.state = GameState::Playing;
    let mut i = Input::new();
    assert_eq!(w.jump_step(&mut i), JumpKind::NoJump);
    i.jump_buffer = 6;
    w.on_ground = true;
    w.coyote_tick(&mut i);
    assert_eq!((w.coyote_frames, i.jump_buffer), (6, 5));
    assert_eq!(w.jump_step(&mut i), JumpKind::Ground);
    assert_eq!((w.jumps, w.coyote_frames, i.jump_buffer), (1, 0, 0));
    i.jump_buffer = 6;
    assert_eq!(w.jump_step(&mut i), JumpKind::Double);
    assert_eq!(w.jumps, 2);
    i.jump_buffer = 6;
    assert_eq!(w.jump_step(&mut i), JumpKind::NoJump);
    assert_eq!(i.jump_buffer, 6);
    w.wall_dir = -1;
    assert_eq!(w.jump_step(&mut i), JumpKind::Wall);
    assert!(w.facing_right);
    w.land();
    assert_eq!(w.jumps, 0);
}

#[test]
fn coyote_runs_down_in_the_air() {
    let (mut w, _) = World::new();
    let mut i = Input::new();
    w.coyote_tick(&mut i);
    assert_eq!(w.coyote_frames, -1);
}

#[test]
fn anchor_hold_fire_grip_and_fling() {
    let (mut w, _) = World::new();
    let mut i = Input::new();
    for _ in 0..9 {
        i.poll(snap(true, false, true, false));
        assert_eq!(w.anchor_step(&mut i), AnchorEvent::Idle);
    }
    i.poll(snap(true, false, true, false));
    assert_eq!(w.anchor_step(&mut i), AnchorEvent::Fired(0, -1));
    assert!(w.anchor_active && i.anchor_fired);
    i.poll(snap(true, false, true, false));
    assert_eq!(w.anchor_step(&mut i), AnchorEvent::Idle);
    assert!(w.anchor_strikes(Thing::Brick));
    assert!(w.anchor_attached);
    i.jump_buffer = 6;
    assert_eq!(w.jump_step(&mut i), JumpKind::NoJump);
    i.poll(snap(false, false, false, false));
    assert_eq!(w.anchor_step(&mut i), AnchorEvent::Flung);
    assert_eq!((w.jumps, w.coyote_frames), (1, 0));
    assert!(!w.anchor_active && !i.anchor_fired);
}

#[test]
fn anchor_mines_stone() {
    let (mut w, _) = World::new();
    w.anchor_active = true;
    assert!(!w.anchor_strikes(Thing::Stone));
    assert!(!w.anchor_active);
}

#[test]
fn scoring_and_hit_stop() {
    let (mut w, _) = World::new();
    w.state = GameState::Playing;
    w.kill_enemy(true);
    assert_eq!((w.score, w.hit_stop_frames, w.jumps), (100, 3, 1));
    w.collect_gem();
    assert_eq!(w.score, 150);
    assert!(!w.begin_frame());
    assert!(!w.begin_frame());
    assert!(!w.begin_frame());
    assert!(w.begin_frame());
    assert_eq!(w.frame_count, 4);
    let mut i = Input::new();
    i.shoot_pressed = true;
    assert_eq!(w.shoot_step(&mut i), Some((1, 0)));
    assert_eq!(w.shoot_step(&mut i), None);
    w.die();
    assert_eq!(w.state, GameState::GameOver);
}

#[test]
fn lost_anchor_is_stowed() {
    let (mut w, _) = World::new();
    w.anchor_active = true;
    w.anchor_lost();
    assert!(!w.anchor_active);
    assert!(!w.anchor_attached);
}

#[test]
fn title_world_lays_out_the_first_level() {
    let (w, spawns) = World::new();
    assert_eq!(w.state, GameState::Start);
    assert_eq!(w.frame_count, 0);
    assert_eq!(w.story, StoryKind::AfterLevel1);
    assert!(!w.story_is_victory);
    assert_eq!(spawns, scan_map(&level_map(0)));
    let enemies = spawns
        .iter()
        .filter(|s| matches!(s.thing, Thing::Patrol | Thing::Bat | Thing::Turret))
        .count();
    let gems = spawns.iter().filter(|s| s.thing == Thing::Gem).count();
    assert_eq!(enemies, 1);
    assert_eq!(gems, 1);
}

#[test]
fn hit_stop_frame_still_counts() {
    let (mut w, _) = World::new();
    w.hit_stop_frames = 3;
    assert!(!w.begin_frame());
    assert_eq!(w.hit_stop_frames, 2);
    assert_eq!(w.frame_count, 1);
}

#[test]
fn between_levels_stories() {
    assert_eq!(intro_story().len(), 9);
    assert_eq!(intro_story()[5], "You are Vael, the last of your order.");
    let first = story_lines(StoryKind::AfterLevel1);
    assert_eq!(first.len(), 5);
    assert_eq!(first[4], "Something inside the Spire recognizes you.");
    assert_eq!(story_lines(StoryKind::AfterLevel2)[0], "The whispers grow louder.");
    let end = story_lines(StoryKind::Victory);
    assert_eq!(end.len(), 18);
    assert_eq!(end[6], "You ARE the heart.");
    assert_eq!(end[17], "Free at last.");
}

#[test]
fn score_only_grows_over_a_frame_of_play() {
    let (mut w, _) = World::new();
    let mut i = Input::new();
    i.jump_buffer = 1;
    w.update_screen(&mut i);
    i.shoot_pressed = true;
    w.update_screen(&mut i);
    assert_eq!(w.state, GameState::Playing);
    let before = w.score;
    w.begin_frame();
    w.kill_enemy(true);
    w.collect_gem();
    w.land();
    w.begin_frame();
    assert_eq!(w.score, before + 150);
}
