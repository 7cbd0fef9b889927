use retro_arcade::neon::{
    enemy_stats, level_data, parse_level, EnemyKind, EnemyStats, EnemyTick, MeleeOutcome, NeonEnemy, INVULN_FRAMES,
    PLAYER_LIVES, PLAYER_MAX_HP, parse_level_checked, story_pre, story_text_lines, tile_at, is_solid, DamageOutcome,
    FlowAction, GameState, NeonState, PickupKind, StoryCallback, StoryText, Thing, TILE_ELECTRIC, TILE_EMPTY,
    TILE_FALLING, TILE_SOLID, TILE_TERMINAL,
};

#[test]
fn parse_small_level() {
    let level = parse_level(&["#D.E", "K.F", "CH#M"]);
    assert_eq!(level.cols, 4);
    assert_eq!(level.map.len(), 3);
    assert_eq!(level.map[0], vec![TILE_SOLID, TILE_EMPTY, TILE_EMPTY, TILE_ELECTRIC]);
    assert_eq!(level.map[1], vec![TILE_TERMINAL, TILE_EMPTY, TILE_FALLING, TILE_EMPTY]);
    assert_eq!(level.map[2], vec![TILE_EMPTY, TILE_EMPTY, TILE_SOLID, TILE_EMPTY]);
    let things: Vec<Thing> = level.spawns.iter().map(|s| s.thing).collect();
    assert_eq!(things, vec![Thing::Drone, Thing::FallingPlatform, Thing::DataChip, Thing::Health, Thing::EmpAmmo]);
    assert_eq!((level.spawns[1].col, level.spawns[1].row), (2, 1));
}

#[test]
fn parse_checked_rejects_wide_tiles() {
    assert!(parse_level_checked(&[]).is_none());
    assert!(parse_level_checked(&["#", "##"]).is_none());
    assert!(parse_level_checked(&["##", "#"]).is_some());
}

#[test]
fn shipped_levels_have_tiles_past_the_first_row() {
    // Each shipped map has a wall tile beyond the width of its first row,
    // where the grid has no cell for it: the checked parser refuses them.
    for i in 0..3 {
        let map = level_data(i);
        assert_eq!(map.len(), 15);
        assert!(parse_level_checked(&map).is_none());
    }
}

#[test]
fn tile_queries_on_a_parsed_level() {
    let mut rows = vec!["...."; 14];
    rows.push("####");
    let level = parse_level(&rows);
    assert!(is_solid(&level.map, level.cols, 0, 14));
    assert!(!is_solid(&level.map, level.cols, 0, 0));
    assert_eq!(tile_at(&level.map, level.cols, -1, 0), TILE_EMPTY);
    assert_eq!(tile_at(&level.map, level.cols, 4, 14), TILE_EMPTY);
    assert_eq!(tile_at(&level.map, level.cols, 3, 14), TILE_SOLID);
    assert_eq!(tile_at(&level.map, level.cols, 3, 15), TILE_EMPTY);
}

#[test]
fn story_data() {
    assert_eq!(story_pre(0)[0], "Neo-Kyoto, 2087.");
    assert!(story_pre(4).is_empty());
    assert_eq!(story_text_lines(StoryText::Post(2)).len(), 17);
}

#[test]
fn start_to_first_level() {
    let mut s = NeonState::new();
    assert!(s.update_start(true));
    assert_eq!(s.state, GameState::Story);
    assert_eq!(s.story_callback, StoryCallback::StartLevelIntro);
    let text = "ab";
    // Skip once reveals everything, skip again runs the callback.
    assert_eq!(s.update_story(text, true), FlowAction::Nothing);
    assert_eq!(s.story_char_index, 2);
    assert_eq!(s.update_story(text, true), FlowAction::Nothing);
    assert_eq!(s.story_text, StoryText::Pre(1));
    assert_eq!(s.story_callback, StoryCallback::BeginLevel);
    s.update_story(text, true);
    assert_eq!(s.update_story(text, true), FlowAction::BuildLevel(0));
    assert_eq!(s.state, GameState::Playing);
}

#[test]
fn typewriter_reveals_whole_characters() {
    let mut s = NeonState::new();
    s.update_start(true);
    let text = "é!";
    assert_eq!(s.update_story(text, false), FlowAction::Nothing);
    assert_eq!(s.story_char_index, 0);
    s.update_story(text, false);
    assert_eq!(s.story_char_index, 2);
    s.update_story(text, false);
    s.update_story(text, false);
    assert_eq!(s.story_char_index, 3);
    assert!(s.story_skip_ready);
}

#[test]
fn last_debriefing_wins() {
    let mut s = NeonState::new();
    s.update_start(true);
    s.current_level = 2;
    s.state = GameState::Playing;
    s.advance_level();
    assert_eq!(s.story_text, StoryText::Post(2));
    s.update_story("x", true);
    s.update_story("x", true);
    assert_eq!(s.current_level, 3);
    assert_eq!(s.state, GameState::Win);
}

#[test]
fn damage_costs_lives() {
    let mut s = NeonState::new();
    assert_eq!(s.damage_player(1), DamageOutcome::Hurt);
    assert_eq!(s.hp, 2);
    assert_eq!(s.hit_stop, 4);
    assert_eq!(s.damage_player(1), DamageOutcome::Ignored);
    s.invuln = 0;
    assert_eq!(s.damage_player(5), DamageOutcome::LifeLost);
    assert_eq!((s.hp, s.lives, s.invuln), (3, 2, 120));
    s.invuln = 0;
    s.damage_player(3);
    s.invuln = 0;
    assert_eq!(s.damage_player(3), DamageOutcome::Died);
    assert_eq!(s.state, GameState::GameOver);
    assert!(s.dead);
}

#[test]
fn pickups_and_moves() {
    let mut s = NeonState::new();
    s.collect(PickupKind::DataChip);
    assert_eq!((s.chips_collected, s.score), (1, 250));
    s.collect(PickupKind::EmpAmmo);
    assert_eq!(s.emp_count, 5);
    assert_eq!(s.try_throw_emp(true, true), Some(true));
    assert_eq!(s.emp_count, 4);
    assert!(s.try_dash(true));
    assert!(!s.try_dash(true));
    while s.dash_tick() {}
    assert_eq!(s.dash_cooldown, 30);
    s.land();
    assert!(!s.try_dash(true));
    assert!(s.try_attack(true));
    assert_eq!(s.attacking, 10);
}

#[test]
fn neon_enemy_stats() {
    assert_eq!(enemy_stats(Thing::Drone), Some(EnemyStats { hp: 1, score_val: 100, shoot_timer: 0 }));
    assert_eq!(enemy_stats(Thing::Guard), Some(EnemyStats { hp: 2, score_val: 150, shoot_timer: 60 }));
    assert_eq!(enemy_stats(Thing::Turret), Some(EnemyStats { hp: 3, score_val: 200, shoot_timer: 40 }));
    assert_eq!(enemy_stats(Thing::Boss), Some(EnemyStats { hp: 12, score_val: 1000, shoot_timer: 30 }));
    assert_eq!(enemy_stats(Thing::DataChip), None);
    assert_eq!(enemy_stats(Thing::LaserGrid), None);
}

#[test]
fn hacking_a_terminal_scores_100() {
    let mut s = NeonState::new();
    s.hack_terminal();
    s.hack_terminal();
    assert_eq!(s.score, 200);
    assert_eq!(s.state, GameState::Start);
}

#[test]
fn a_fall_costs_a_life_and_ends_the_run() {
    let mut s = NeonState::new();
    s.update_start(true);
    s.player_fall(false);
    assert_eq!(s.lives, PLAYER_LIVES - 1);
    assert_eq!(s.hp, 0);
    assert!(s.dead);
    assert_eq!(s.state, GameState::GameOver);
}

#[test]
fn a_zap_during_a_fall_still_lands() {
    let mut s = NeonState::new();
    s.update_start(true);
    s.player_fall(true);
    assert_eq!(s.lives, PLAYER_LIVES - 2);
    assert_eq!(s.hp, PLAYER_MAX_HP);
    assert_eq!(s.invuln, 2 * INVULN_FRAMES);
    assert_eq!(s.hit_stop, 4);
    assert!(s.dead);
    assert_eq!(s.state, GameState::GameOver);

    let mut t = NeonState::new();
    t.lives = 1;
    t.player_fall(true);
    assert_eq!(t.lives, -1);
    assert_eq!(t.hp, -1);
    assert!(t.dead);

    let mut u = NeonState::new();
    u.invuln = 5;
    u.player_fall(true);
    assert_eq!(u.lives, PLAYER_LIVES - 1);
    assert_eq!(u.hp, 0);
    assert_eq!(u.invuln, 5);
}

#[test]
fn a_guard_fires_when_its_timer_runs_out_in_range() {
    let mut g = NeonEnemy::new(EnemyKind::Guard);
    assert_eq!((g.hp, g.shoot_timer, g.score_val, g.hurt_timer, g.stunned), (2, 60, 150, 0, 0));
    for _ in 0..59 {
        assert_eq!(g.tick(true, true), EnemyTick { acts: true, fires: false });
    }
    assert_eq!(g.shoot_timer, 1);
    assert_eq!(g.tick(true, false), EnemyTick { acts: true, fires: false });
    assert_eq!(g.shoot_timer, 0);
    assert_eq!(g.tick(true, true), EnemyTick { acts: true, fires: true });
    assert_eq!(g.shoot_timer, 90);
    assert_eq!(g.tick(false, true), EnemyTick { acts: false, fires: false });
    assert_eq!(g.shoot_timer, 90);
}

#[test]
fn stunned_and_inactive_enemies_do_nothing() {
    let mut t = NeonEnemy::new(EnemyKind::Turret);
    t.emp_stun();
    assert_eq!(t.stunned, 120);
    assert_eq!(t.tick(true, true), EnemyTick { acts: false, fires: false });
    assert_eq!(t.stunned, 119);
    assert_eq!(t.shoot_timer, 40);
    t.active = false;
    t.stunned = 0;
    t.emp_stun();
    assert_eq!(t.stunned, 0);
    let before = t;
    assert_eq!(t.tick(true, true), EnemyTick { acts: false, fires: false });
    assert_eq!(t, before);
}

#[test]
fn the_boss_fires_without_a_range_check_and_drones_never() {
    let mut b = NeonEnemy::new(EnemyKind::Boss);
    b.shoot_timer = 1;
    assert_eq!(b.tick(true, false), EnemyTick { acts: true, fires: true });
    assert_eq!(b.shoot_timer, 25);
    let mut d = NeonEnemy::new(EnemyKind::Drone);
    d.hurt_timer = 3;
    assert_eq!(d.tick(true, true), EnemyTick { acts: true, fires: false });
    assert_eq!(d.hurt_timer, 2);
    assert_eq!(d.shoot_timer, 0);
}

#[test]
fn blade_and_bullets_hurt_enemies() {
    let mut s = NeonState::new();
    let mut g = NeonEnemy::new(EnemyKind::Guard);
    assert_eq!(s.melee_hit(&mut g), MeleeOutcome::Hit);
    assert_eq!((g.hp, g.hurt_timer, s.hit_stop, s.score), (1, 10, 3, 0));
    assert_eq!(s.melee_hit(&mut g), MeleeOutcome::Ignored);
    assert_eq!(g.hp, 1);
    g.hurt_timer = 0;
    assert_eq!(s.melee_hit(&mut g), MeleeOutcome::Killed);
    assert!(!g.active);
    assert_eq!(s.score, 150);
    let mut d = NeonEnemy::new(EnemyKind::Drone);
    assert!(s.shot_hit(&mut d));
    assert_eq!((d.hp, d.hurt_timer, d.active), (0, 8, false));
    assert_eq!(s.score, 250);
    let mut boss = NeonEnemy::new(EnemyKind::Boss);
    assert!(!s.shot_hit(&mut boss));
    assert_eq!((boss.hp, boss.hurt_timer), (11, 8));
    assert_eq!(s.score, 250);
}
