use retro_arcade::space::{
    after_text, enemy_stats, enemy_types, spawn_rate, target_kills, victory_text, wave_name, wave_text, Game,
    GameState, HitOutcome, PowerUpKind, StoryStep, WaveOutcome,
};

fn launched() -> Game {
    let mut g = Game::new();
    g.update_menu(true);
    g.update_story(true);
    assert_eq!(g.update_story(true), StoryStep::Launch);
    g
}

#[test]
fn wave_data() {
    assert_eq!(wave_name(0), "INTERCEPTED SIGNAL");
    assert_eq!(wave_name(9), "THE ROGUE MIND");
    assert_eq!(target_kills(1), 35);
    assert_eq!(target_kills(3), u32::MAX);
    assert_eq!(spawn_rate(2), 40);
    assert_eq!(enemy_types(3), vec![0, 1, 2, 2]);
    assert!(after_text(3).is_empty());
    assert!(wave_text(0).starts_with("EXODUS-7 FLIGHT LOG"));
    assert!(victory_text().ends_with("the signal."));
    assert_eq!(enemy_stats(1), (1, 250));
    assert_eq!(enemy_stats(7), (4, 500));
}

#[test]
fn menu_starts_a_new_game() {
    let mut g = Game::new();
    g.update_menu(false);
    assert_eq!(g.state, GameState::Title);
    g.update_menu(true);
    assert_eq!(g.state, GameState::Story);
    assert_eq!(g.story_text, wave_text(0));
    assert_eq!((g.lives, g.score, g.wave_idx), (3, 0, 0));
}

#[test]
fn story_waits_150_frames() {
    let mut g = Game::new();
    g.update_menu(true);
    g.update_story(true);
    for _ in 0..149 {
        assert_eq!(g.update_story(false), StoryStep::Stay);
    }
    assert_eq!(g.update_story(false), StoryStep::Launch);
    assert_eq!((g.state, g.frame, g.last_shot), (GameState::Playing, 1, 0));
}

#[test]
fn shots_follow_the_weapon_period() {
    let mut g = launched();
    for _ in 0..11 {
        assert_eq!(g.tick_playing(true).shot, None);
    }
    assert_eq!(g.tick_playing(true).shot, Some(1));
    assert_eq!(g.muzzle_flash, 2);
    g.collect_power_up(PowerUpKind::Weapon);
    g.collect_power_up(PowerUpKind::Weapon);
    g.collect_power_up(PowerUpKind::Weapon);
    g.collect_power_up(PowerUpKind::Weapon);
    assert_eq!(g.weapon_level, 4);
    for _ in 0..12 {
        g.tick_playing(false);
    }
    assert_eq!(g.tick_playing(true).shot, Some(4));
    assert_eq!(g.shot_cooldown, 6);
}

#[test]
fn shield_then_lives() {
    let mut g = launched();
    g.collect_power_up(PowerUpKind::Shield);
    assert_eq!(g.hit_player(), HitOutcome::ShieldAbsorbed);
    assert_eq!((g.lives, g.invulnerable), (3, 60));
    g.collect_power_up(PowerUpKind::Weapon);
    g.collect_power_up(PowerUpKind::Weapon);
    assert_eq!(g.hit_player(), HitOutcome::LifeLost);
    assert_eq!((g.lives, g.weapon_level, g.invulnerable), (2, 2, 120));
    g.hit_player();
    assert_eq!(g.weapon_level, 1);
    assert_eq!(g.hit_player(), HitOutcome::Destroyed);
    assert_eq!((g.state, g.lives, g.weapon_level), (GameState::GameOver, 0, 1));
}

#[test]
fn combo_scores_from_the_second_kill() {
    let mut g = launched();
    assert_eq!(g.kill_enemy(100), 100);
    assert_eq!(g.kill_enemy(250), 500);
    assert_eq!(g.kill_enemy(100), 250);
    assert_eq!((g.score, g.kills, g.combo_count), (850, 3, 3));
    for _ in 0..120 {
        g.tick_playing(false);
    }
    assert_eq!(g.combo_count, 0);
}

#[test]
fn spawns_every_rate_frames() {
    let mut g = launched();
    assert!(!g.spawn_due());
    for _ in 0..59 {
        g.tick_playing(false);
    }
    assert_eq!(g.frame, 60);
    assert!(g.spawn_due());
}

#[test]
fn wave_clear_slow_motion_then_debriefing() {
    let mut g = launched();
    g.kills = 15;
    let c = g.check_wave_clear();
    assert!(c.celebrate);
    assert_eq!(c.outcome, WaveOutcome::Continue);
    assert_eq!(g.slowmo_timer, 29);
    let mut skipped = 0;
    loop {
        g.frame += 1;
        let c = g.check_wave_clear();
        assert!(!c.celebrate);
        match c.outcome {
            WaveOutcome::FrameSkipped => skipped += 1,
            WaveOutcome::Continue => {}
            WaveOutcome::Story => break,
            WaveOutcome::Victory => panic!("not the last wave"),
        }
    }
    assert!(skipped > 0);
    assert_eq!((g.wave_idx, g.kills), (1, 0));
    assert!(g.showing_after_text);
    assert_eq!(g.story_text, after_text(0));
    g.update_story(true);
    assert_eq!(g.update_story(true), StoryStep::NextBriefing);
    assert_eq!(g.story_text, wave_text(1));
}

#[test]
fn last_wave_needs_the_victory_count() {
    let mut g = launched();
    g.wave_idx = 3;
    g.kills = 99;
    assert_eq!(g.check_wave_clear().outcome, WaveOutcome::Continue);
    assert!(!g.wave_cleared);
    g.kills = 100;
    g.wave_cleared = true;
    g.wave_clear_celebrated = true;
    g.slowmo_timer = 0;
    assert_eq!(g.check_wave_clear().outcome, WaveOutcome::Victory);
    assert!(g.victory_triggered);
    g.update_story(true);
    assert_eq!(g.update_story(true), StoryStep::Won);
    assert_eq!(g.state, GameState::Victory);
}

#[test]
fn speed_boost_runs_down() {
    let mut g = launched();
    g.collect_power_up(PowerUpKind::Speed);
    assert!(g.tick_playing(false).boosted);
    assert_eq!(g.speed_boost_timer, 599);
}
