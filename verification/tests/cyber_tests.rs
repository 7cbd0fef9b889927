use retro_arcade::cyber::{
    boss_name, boss_stats, clear_text, enemy_stats, intro_text, level_waves, sector_name, victory_text, wave_spawn_y,
    ClearStep, EnemyType, Game, GameState, HitOutcome, PowerUpKind, StoryStep, WeaponType,
};

fn launched() -> Game {
    let mut g = Game::new();
    g.update_start_screen(true);
    g.update_story_screen(true);
    assert_eq!(g.update_story_screen(true), StoryStep::Launch);
    g
}

#[test]
fn sector_data() {
    assert_eq!(sector_name(0), "SECTOR 1: ORBITAL PERIMETER");
    assert_eq!(level_waves(0).len(), 10);
    assert_eq!(level_waves(1).len(), 12);
    assert_eq!(level_waves(2).len(), 14);
    assert_eq!(level_waves(9), level_waves(2));
    assert!(clear_text(2).is_empty());
    assert!(intro_text(0).starts_with("CHROME VIPER FLIGHT LOG"));
    assert!(victory_text().ends_with("brighter."));
    assert_eq!(boss_stats(1).hp, 100);
    assert_eq!(enemy_stats(EnemyType::Turret).score, 400);
}

#[test]
fn wave_rows_are_clamped() {
    assert_eq!(wave_spawn_y(80, 2), 160);
    assert_eq!(wave_spawn_y(400, 3), 460);
    assert_eq!(wave_spawn_y(-50, 0), 20);
}

#[test]
fn start_screen_opens_the_first_briefing() {
    let mut g = Game::new();
    g.update_start_screen(false);
    assert_eq!((g.state, g.frame), (GameState::Start, 1));
    g.update_start_screen(true);
    assert_eq!(g.state, GameState::Story);
    assert_eq!(g.story_text, intro_text(0));
    assert_eq!(g.story_char_idx, 0);
}

#[test]
fn typewriter_types_on_even_frames() {
    let mut g = Game::new();
    g.update_start_screen(true); // frame 1 after this
    g.update_story_screen(false); // frame 1 is odd: nothing typed
    assert_eq!(g.story_char_idx, 0);
    g.update_story_screen(false); // frame 2 is even
    assert_eq!(g.story_char_idx, 1);
    assert_eq!(g.story_displayed, b"C".to_vec());
    g.update_story_screen(true);
    assert_eq!(g.story_char_idx, intro_text(0).len());
    assert_eq!(g.story_displayed, intro_text(0).as_bytes().to_vec());
}

#[test]
fn finished_story_waits_then_launches() {
    let mut g = Game::new();
    g.update_start_screen(true);
    g.update_story_screen(true);
    for _ in 0..119 {
        assert_eq!(g.update_story_screen(false), StoryStep::Stay);
    }
    assert_eq!(g.update_story_screen(false), StoryStep::Launch);
    assert_eq!(g.state, GameState::Playing);
    assert_eq!(g.frame, 1);
}

#[test]
fn gun_fires_after_its_period() {
    let mut g = launched();
    let t = g.tick_playing(true, false);
    assert!(!t.skipped);
    assert_eq!(t.shot, Some(WeaponType::DualLaser));
    assert_eq!(g.last_shot, 2);
    for _ in 0..10 {
        assert_eq!(g.tick_playing(true, false).shot, None);
    }
    assert_eq!(g.tick_playing(true, false).shot, Some(WeaponType::DualLaser));
}

#[test]
fn emp_uses_a_charge() {
    let mut g = launched();
    assert!(g.tick_playing(false, true).emp_fired);
    assert_eq!(g.emp_charges, 0);
    assert_eq!(g.emp_flash, 14);
    assert!(!g.tick_playing(false, true).emp_fired);
}

#[test]
fn power_weapon_runs_out() {
    let mut g = launched();
    g.collect_power_up(PowerUpKind::Spread);
    assert_eq!(g.weapon, WeaponType::SpreadShot);
    for _ in 0..599 {
        g.tick_playing(false, false);
    }
    assert_eq!(g.weapon, WeaponType::SpreadShot);
    g.tick_playing(false, false);
    assert_eq!(g.weapon, WeaponType::DualLaser);
}

#[test]
fn shields_and_game_over() {
    let mut g = launched();
    assert_eq!(g.hit_player(), HitOutcome::ShieldLost);
    assert_eq!((g.shields, g.invulnerable), (2, 90));
    assert_eq!(g.hit_player(), HitOutcome::Ignored);
    g.collect_power_up(PowerUpKind::Shield);
    g.collect_power_up(PowerUpKind::Shield);
    assert_eq!(g.shields, 3);
    g.invulnerable = 0;
    g.hit_player();
    g.invulnerable = 0;
    g.hit_player();
    g.invulnerable = 0;
    assert_eq!(g.hit_player(), HitOutcome::Destroyed);
    assert_eq!(g.state, GameState::GameOver);
}

#[test]
fn kill_chain_multiplies() {
    let mut g = launched();
    assert_eq!(g.bullet_hits_enemy(EnemyType::Drone, 1, 100), (0, 150));
    assert_eq!(g.bullet_hits_enemy(EnemyType::Gunship, 1, 250), (0, 500));
    assert_eq!(g.bullet_hits_enemy(EnemyType::Gunship, 3, 250), (2, 0));
    assert_eq!(g.score, 650);
    assert_eq!(g.chain_count, 2);
    for _ in 0..120 {
        g.tick_playing(false, false);
    }
    assert_eq!(g.chain_count, 0);
}

#[test]
fn waves_enter_on_time_then_the_boss() {
    let mut g = launched();
    let step = g.process_wave_events(true);
    assert_eq!((step.first, step.last, step.spawn_boss), (0, 0, false));
    g.level_frames = 120;
    let step = g.process_wave_events(true);
    assert_eq!((step.first, step.last, step.spawn_boss), (0, 1, false));
    g.level_frames = 2000;
    let step = g.process_wave_events(false);
    assert_eq!((step.first, step.last, step.spawn_boss), (1, 10, false));
    let step = g.process_wave_events(false);
    assert!(!step.spawn_boss);
    let step = g.process_wave_events(true);
    assert_eq!((step.first, step.last, step.spawn_boss), (10, 10, true));
    assert!(g.boss_spawned && g.boss_alive);
    assert!(!g.process_wave_events(true).spawn_boss);
}

#[test]
fn boss_kill_clears_the_sector() {
    let mut g = launched();
    g.level_frames = 2000;
    g.process_wave_events(true);
    g.process_wave_events(true);
    assert_eq!(g.check_level_clear(true), ClearStep::Continue);
    assert_eq!(g.bullet_hits_enemy(EnemyType::Boss, 2, 2000), (1, 0));
    assert_eq!(g.hitstop_frames, 2);
    g.bullet_hits_enemy(EnemyType::Boss, 1, 2000);
    assert_eq!(g.hitstop_frames, 6);
    assert_eq!(g.check_level_clear(false), ClearStep::Debrief);
    assert_eq!(g.state, GameState::LevelStory);
    assert_eq!(g.story_text, clear_text(0));
    g.update_story_screen(true);
    assert_eq!(g.update_story_screen(true), StoryStep::NextBriefing);
    assert_eq!(g.level_idx, 1);
    assert_eq!(g.story_text, intro_text(1));
}

#[test]
fn hit_stop_swallows_frames() {
    let mut g = launched();
    g.hitstop_frames = 2;
    assert!(g.tick_playing(true, true).skipped);
    assert!(g.tick_playing(true, true).skipped);
    assert!(!g.tick_playing(false, false).skipped);
}

#[test]
fn end_screen_press_starts_a_new_game() {
    let mut g = launched();
    g.score = 700;
    g.game_over();
    let frame = g.frame;
    g.update_end_screen(false);
    assert_eq!(g.state, GameState::GameOver);
    assert_eq!(g.frame, frame + 1);
    assert_eq!(g.score, 700);
    g.update_end_screen(true);
    assert_eq!(g.state, GameState::Story);
    assert_eq!(g.score, 0);
    assert_eq!(g.level_idx, 0);
    assert_eq!(g.story_text, intro_text(0));
    assert_eq!(g.story_char_idx, 0);
    assert!(g.story_displayed.is_empty());
    assert_eq!(boss_name(2), "THE LEVIATHAN");
}
