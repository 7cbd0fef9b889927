use retro_arcade::mariolike::{
    get_level_map, get_level_name, get_level_story, start_hp, intro_story, join_lines, load_level, story_lines, DamageOutcome, EnemyKind,
    GameState, GoalStep, Input, KeySnapshot, PowerupKind, StoryExit, StoryKind, Thing, WorldState,
};

fn keys(jump: bool) -> KeySnapshot {
    KeySnapshot {
        left_down: false,
        right_down: true,
        up_down: false,
        down_down: false,
        jump_down: jump,
        attack_down: false,
        attack_pressed: false,
        start_pressed: false,
    }
}

#[test]
fn load_small_level() {
    let layout = load_level(&["#?K", "CSB.X", "PFG"]);
    assert_eq!(layout.rows, 3);
    assert_eq!(layout.cols, 5);
    assert_eq!(layout.total_crystals, 1);
    let things: Vec<Thing> = layout.spawns.iter().map(|s| s.thing).collect();
    assert_eq!(
        things,
        vec![
            Thing::Solid,
            Thing::Breakable,
            Thing::Spike,
            Thing::Crystal,
            Thing::Slime,
            Thing::Bat,
            Thing::Boss,
            Thing::Shard,
            Thing::FireCrystal,
            Thing::Goal,
        ]
    );
    assert_eq!((layout.spawns[6].col, layout.spawns[6].row), (4, 1));
}

#[test]
fn shipped_first_level() {
    let map = get_level_map(0);
    let layout = load_level(&map);
    assert_eq!(layout.rows, 15);
    assert_eq!(layout.total_crystals, 13);
    assert!(layout.spawns.iter().any(|s| s.thing == Thing::Goal));
    assert_eq!(get_level_story(7), get_level_story(2));
}

#[test]
fn join_lines_puts_newlines_between() {
    assert_eq!(join_lines(&["ab", "", "c"]), b"ab\n\nc".to_vec());
    assert_eq!(join_lines(&[]), Vec::<u8>::new());
}

#[test]
fn jump_edges_and_buffer() {
    let mut input = Input::new();
    input.poll(keys(true));
    assert!(input.jump_pressed && !input.jump_released);
    assert_eq!(input.jump_buffer, 6);
    input.end_step();
    assert_eq!(input.jump_buffer, 5);
    assert!(!input.jump_pressed);
    input.poll(keys(true));
    assert!(!input.jump_pressed);
    assert_eq!(input.jump_buffer, 5);
    input.poll(keys(false));
    assert!(input.jump_released);
    assert!(input.right);
}

#[test]
fn story_typewriter_and_skips() {
    let mut w = WorldState::new();
    w.start_story(StoryKind::Intro, false);
    let lines = ["ab", "c"];
    let map = ["#"];
    assert_eq!(w.update_story(&lines, &map, false), StoryExit::Stay);
    assert!(w.story_text.is_empty());
    w.update_story(&lines, &map, false);
    assert_eq!(w.story_text, b"a".to_vec());
    w.update_story(&lines, &map, false);
    w.update_story(&lines, &map, false);
    assert_eq!(w.story_text, b"ab".to_vec());
    w.update_story(&lines, &map, false);
    w.update_story(&lines, &map, false);
    assert_eq!(w.story_text, b"ab\n".to_vec());
    assert_eq!(w.story_line_index, 1);
    assert_eq!(w.update_story(&lines, &map, true), StoryExit::Stay);
    assert_eq!(w.story_text, b"ab\nc".to_vec());
    assert_eq!(w.story_line_index, 2);
    assert_eq!(w.update_story(&lines, &map, true), StoryExit::LevelBriefing);
    assert_eq!(w.state, GameState::LevelStory);
    assert_eq!(w.story, StoryKind::Level(0));
}

#[test]
fn briefing_loads_the_level() {
    let mut w = WorldState::new();
    w.start_level_story();
    let lines = story_lines(StoryKind::Level(0));
    let map = get_level_map(0);
    w.update_story(&lines, &map, true);
    assert_eq!(w.update_story(&lines, &map, true), StoryExit::LoadLevel);
    assert_eq!(w.state, GameState::Playing);
    assert_eq!(w.total_crystals, 13);
    assert_eq!(w.invuln, 60);
    assert_eq!(intro_story().len(), 11);
}

#[test]
fn damage_and_death() {
    let mut w = WorldState::new();
    w.state = GameState::Playing;
    assert_eq!(w.damage_player(), DamageOutcome::Respawned);
    assert_eq!((w.hp, w.lives, w.invuln, w.hit_stop_frames), (1, 2, 60, 3));
    assert_eq!(w.damage_player(), DamageOutcome::Ignored);
    w.invuln = 0;
    w.collect_powerup(PowerupKind::Shard);
    assert_eq!(w.hp, 2);
    assert_eq!(w.damage_player(), DamageOutcome::Hurt);
    assert_eq!(w.hp, 1);
    w.invuln = 0;
    w.damage_player();
    w.invuln = 0;
    assert_eq!(w.damage_player(), DamageOutcome::GameOver);
    assert_eq!(w.state, GameState::GameOver);
    assert_eq!(w.lives, 0);
}

#[test]
fn scoring() {
    let mut w = WorldState::new();
    w.collect_crystal();
    w.collect_powerup(PowerupKind::FireCrystal);
    assert!(w.has_fire);
    assert_eq!(w.stomp_enemy(EnemyKind::Slime, 1), 0);
    assert_eq!(w.fireball_hit(EnemyKind::Boss, 2), 1);
    assert_eq!(w.fireball_hit(EnemyKind::Boss, 1), 0);
    assert!(w.boss_defeated);
    w.break_block();
    assert_eq!(w.score, 50 + 100 + 100 + 0 + 1100 + 10);
    assert_eq!(w.crystals_collected, 1);
}

#[test]
fn goal_needs_the_boss_on_the_last_level() {
    let mut w = WorldState::new();
    w.current_level = 2;
    assert!(!w.reach_goal());
    w.boss_defeated = true;
    assert!(w.reach_goal());
    assert!(w.goal_reached);
}

#[test]
fn goal_pause_then_next_level() {
    let mut w = WorldState::new();
    w.state = GameState::Playing;
    w.reach_goal();
    for _ in 0..60 {
        assert_eq!(w.goal_tick(), GoalStep::Waiting);
    }
    assert_eq!(w.goal_tick(), GoalStep::NextLevel);
    assert_eq!(w.current_level, 1);
    assert_eq!(w.state, GameState::LevelStory);
    assert_eq!(w.story, StoryKind::Level(1));
}

#[test]
fn last_goal_is_victory() {
    let mut w = WorldState::new();
    w.state = GameState::Playing;
    w.current_level = 2;
    w.boss_defeated = true;
    w.reach_goal();
    w.goal_timer = 60;
    assert_eq!(w.goal_tick(), GoalStep::Victory);
    assert_eq!(w.state, GameState::Story);
    assert!(w.story_is_victory);
}

#[test]
fn jumping_rules() {
    let mut w = WorldState::new();
    assert!(!w.try_jump(6));
    w.coyote_tick(true);
    assert_eq!(w.coyote_frames, 6);
    assert!(w.try_jump(6));
    assert_eq!((w.coyote_frames, w.jump_held), (0, 1));
    assert!(w.jump_hold(true, false));
    assert_eq!(w.jump_held, 2);
    assert!(!w.jump_hold(false, true));
    assert_eq!(w.jump_held, 0);
}

#[test]
fn screens() {
    let mut w = WorldState::new();
    w.update_start(true);
    assert_eq!(w.state, GameState::Story);
    w.state = GameState::Win;
    w.score = 500;
    w.update_win(true);
    assert_eq!((w.state, w.score), (GameState::Start, 0));
    w.state = GameState::GameOver;
    w.update_game_over(true);
    assert_eq!(w.state, GameState::Story);
    assert!(w.hit_stop_tick() == false);
}

#[test]
fn enemies_enter_with_their_hit_points() {
    assert_eq!(start_hp(EnemyKind::Slime), 1);
    assert_eq!(start_hp(EnemyKind::Bat), 1);
    assert_eq!(start_hp(EnemyKind::Boss), 10);
}

#[test]
fn level_names() {
    assert_eq!(get_level_name(0), "CRYSTAL MEADOWS");
    assert_eq!(get_level_name(1), "SHADOW CAVERNS");
    assert_eq!(get_level_name(2), "THE DARK TOWER");
    assert_eq!(get_level_name(9), "THE DARK TOWER");
}

#[test]
fn invulnerability_runs_down() {
    let mut w = WorldState::new();
    w.invuln = 2;
    w.invuln_tick();
    assert_eq!(w.invuln, 1);
    w.invuln_tick();
    w.invuln_tick();
    assert_eq!(w.invuln, 0);
}
