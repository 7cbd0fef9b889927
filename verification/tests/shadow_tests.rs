use retro_arcade::shadow::{
    enemy_stats, generate_level, is_solid, EnemyStats, PickupSlot, SLIDE_FRAMES, is_solid_or_platform_top, tile_at, DamageOutcome, DashStart, DeathStep, EnemyKind,
    GamePhase, NinjaState, PickupKind, MAP_COLS, MAP_ROWS, TILE_EMPTY, TILE_GROUND, TILE_PLATFORM, TILE_SPIKE,
    TILE_WALL,
};

#[test]
fn level_has_the_full_grid() {
    let level = generate_level();
    assert_eq!(level.map.len(), MAP_ROWS);
    for row in &level.map {
        assert_eq!(row.len(), MAP_COLS);
    }
}

#[test]
fn level_layers() {
    let level = generate_level();
    let m = &level.map;
    assert_eq!(m[28][0], TILE_GROUND);
    assert_eq!(m[28][31], TILE_EMPTY);
    assert_eq!(m[29][31], TILE_SPIKE);
    assert_eq!(m[22][40], TILE_WALL);
    assert_eq!(m[24][12], TILE_PLATFORM);
    assert_eq!(m[26][56], TILE_SPIKE);
    assert_eq!(m[25][20], TILE_GROUND);
    assert_eq!(m[10][10], TILE_EMPTY);
    // A platform covers a pillar where they meet.
    assert_eq!(m[20][40], TILE_PLATFORM);
}

#[test]
fn level_spawns() {
    let level = generate_level();
    assert_eq!(level.enemies.len(), 9);
    assert_eq!(level.enemies[0].kind, EnemyKind::Guard);
    assert_eq!((level.enemies[0].col, level.enemies[0].row), (18, 25));
    assert_eq!(level.enemies[8].kind, EnemyKind::Archer);
    assert_eq!(level.enemies[8].patrol_left, 167);
    assert_eq!(level.pickups.len(), 8);
    assert_eq!(level.pickups[7].kind, PickupKind::Ammo);
}

#[test]
fn tile_queries_outside_are_empty() {
    let level = generate_level();
    assert_eq!(tile_at(&level.map, -1, 28), TILE_EMPTY);
    assert_eq!(tile_at(&level.map, 0, 30), TILE_EMPTY);
    assert!(is_solid(&level.map, 0, 28));
    assert!(!is_solid(&level.map, 12, 24));
    assert!(is_solid_or_platform_top(&level.map, 12, 24, true, true));
    assert!(!is_solid_or_platform_top(&level.map, 12, 24, true, false));
    assert!(!is_solid_or_platform_top(&level.map, 12, 24, false, true));
}

#[test]
fn title_starts_a_run() {
    let mut s = NinjaState::new();
    assert_eq!(s.phase, GamePhase::Title);
    assert!(!s.update_title(false));
    assert_eq!(s.phase, GamePhase::Title);
    assert!(s.update_title(true));
    assert_eq!(s.phase, GamePhase::Playing);
    assert_eq!(s.hp, 5);
    assert_eq!(s.shuriken, 10);
}

#[test]
fn damage_then_invulnerable() {
    let mut s = NinjaState::new();
    s.update_title(true);
    assert_eq!(s.damage_player(2), DamageOutcome::Hurt);
    assert_eq!(s.hp, 3);
    assert_eq!(s.invuln, 40);
    assert_eq!(s.damage_player(2), DamageOutcome::Ignored);
    assert_eq!(s.hp, 3);
}

#[test]
fn lethal_damage_kills_and_death_screen_ends_the_game() {
    let mut s = NinjaState::new();
    s.update_title(true);
    assert_eq!(s.damage_player(5), DamageOutcome::Died);
    assert!(s.dead);
    assert_eq!(s.phase, GamePhase::Death);
    for _ in 0..120 {
        assert_eq!(s.update_death(), DeathStep::Waiting);
    }
    assert_eq!(s.update_death(), DeathStep::GameOver);
    assert_eq!(s.phase, GamePhase::GameOver);
}

#[test]
fn pickups() {
    let mut s = NinjaState::new();
    s.collect(PickupKind::Heart);
    assert_eq!(s.hp, 5);
    s.collect(PickupKind::Scroll);
    assert_eq!(s.score, 200);
    for _ in 0..5 {
        s.collect(PickupKind::Ammo);
    }
    assert_eq!(s.shuriken, 30);
}

#[test]
fn sword_combo_and_third_hit() {
    let mut s = NinjaState::new();
    s.update_title(true);
    assert!(s.try_attack(true));
    assert_eq!(s.combo, 1);
    assert!(s.attack_hits());
    assert!(!s.try_attack(true));
    for _ in 0..12 {
        s.attack_tick();
    }
    assert!(s.try_attack(true));
    assert_eq!(s.combo, 2);
    for _ in 0..12 {
        s.attack_tick();
    }
    assert!(s.try_attack(true));
    assert_eq!(s.combo, 3);
    assert_eq!(s.attack_damage(), 2);
}

#[test]
fn dash_only_in_air_once() {
    let mut s = NinjaState::new();
    assert_eq!(s.try_dash_or_slide(true, false, false), DashStart::AirDash);
    assert_eq!(s.dashing, 6);
    while s.dash_tick() {}
    assert_eq!(s.try_dash_or_slide(true, false, false), DashStart::Nothing);
    s.land();
    assert_eq!(s.try_dash_or_slide(true, true, true), DashStart::Slide);
}

#[test]
fn shuriken_cooldown() {
    let mut s = NinjaState::new();
    assert_eq!(s.try_throw(true, true), Some(true));
    assert_eq!(s.shuriken, 9);
    assert_eq!(s.try_throw(true, false), None);
    for _ in 0..15 {
        s.tick_timers();
    }
    assert_eq!(s.try_throw(true, false), Some(false));
}

#[test]
fn falling_out_kills() {
    let mut s = NinjaState::new();
    s.fall_out();
    assert_eq!(s.hp, 0);
    assert_eq!(s.phase, GamePhase::Death);
}

#[test]
fn shadow_enemy_stats() {
    assert_eq!(enemy_stats(EnemyKind::Guard), EnemyStats { hp: 2, score_val: 100, shoot_timer: 0 });
    assert_eq!(enemy_stats(EnemyKind::Archer), EnemyStats { hp: 1, score_val: 150, shoot_timer: 60 });
}

#[test]
fn reaching_the_end_wins() {
    let mut s = NinjaState::new();
    s.update_title(true);
    s.add_score(300);
    s.reach_end();
    assert_eq!(s.phase, GamePhase::Victory);
    assert_eq!(s.score, 300);
}

#[test]
fn slide_runs_down_to_zero() {
    let mut s = NinjaState::new();
    assert_eq!(s.try_dash_or_slide(true, true, true), DashStart::Slide);
    assert_eq!(s.sliding, SLIDE_FRAMES);
    for k in 1..=SLIDE_FRAMES {
        assert!(s.slide_tick());
        assert_eq!(s.sliding, SLIDE_FRAMES - k);
    }
    assert!(!s.slide_tick());
    assert_eq!(s.sliding, 0);
}

#[test]
fn touched_pickups_are_taken_once_within_caps() {
    let mut s = NinjaState::new();
    s.hp = s.max_hp - 1;
    s.shuriken = 28;
    let mut pickups = vec![
        PickupSlot { kind: PickupKind::Heart, active: true },
        PickupSlot { kind: PickupKind::Heart, active: true },
        PickupSlot { kind: PickupKind::Ammo, active: true },
        PickupSlot { kind: PickupKind::Scroll, active: false },
        PickupSlot { kind: PickupKind::Scroll, active: true },
        PickupSlot { kind: PickupKind::Scroll, active: true },
    ];
    s.update_pickups(&mut pickups, &[true, true, true, true, true, false]);
    assert_eq!(s.hp, s.max_hp);
    assert_eq!(s.shuriken, 30);
    assert_eq!(s.score, 200);
    let flags: Vec<bool> = pickups.iter().map(|p| p.active).collect();
    assert_eq!(flags, vec![false, false, false, false, false, true]);
    s.update_pickups(&mut pickups, &[true; 6]);
    assert_eq!(s.score, 400);
    assert!(pickups.iter().all(|p| !p.active));
}

#[test]
fn hearts_and_ammo_need_no_room_in_the_score() {
    let mut s = NinjaState::new();
    s.score = i32::MAX;
    s.hp = s.max_hp - 1;
    let mut pickups = vec![
        PickupSlot { kind: PickupKind::Heart, active: true },
        PickupSlot { kind: PickupKind::Scroll, active: true },
        PickupSlot { kind: PickupKind::Ammo, active: true },
    ];
    s.update_pickups(&mut pickups, &[true, false, true]);
    assert_eq!(s.score, i32::MAX);
    assert_eq!(s.hp, s.max_hp);
    assert_eq!(s.shuriken, 15);
    assert!(pickups[1].active);
}
