use retro_arcade::dragon::{
    boss_name, boss_quote, boss_title, boss_waves, char_count, ko_points, stage_name, story_intro, story_mid_stage,
    EnemyKind, story_post_stage, story_pre_stage, story_victory, Flow,
    GameState, PickupKind, StoryNext, StoryPhase, WaveTrigger, WeaponKind,
};

fn read_story(f: &mut Flow) {
    let n = f.story_lines.len();
    for _ in 0..n {
        f.update_story(true);
        f.update_story(true);
    }
}

#[test]
fn dragon_story_data() {
    assert_eq!(story_intro().len(), 4);
    assert_eq!(story_pre_stage(2).len(), 1);
    assert_eq!(story_post_stage(2).len(), 4);
    assert_eq!(story_victory().last(), Some(&"The Dragon Fist endures."));
    assert_eq!(boss_name(1), "CRUSHER");
    assert_eq!(boss_waves(0), vec![false, false, false, false, true]);
    assert_eq!(char_count("héllo"), 5);
}

#[test]
fn title_to_first_stage() {
    let mut f = Flow::new();
    f.update_title(false);
    assert_eq!(f.state, GameState::Title);
    f.update_title(true);
    assert_eq!(f.state, GameState::Story);
    assert_eq!(f.story_phase, StoryPhase::Intro);
    assert_eq!(f.story_next, StoryNext::PreStage);
    read_story(&mut f);
    assert_eq!(f.story_phase, StoryPhase::PreStage);
    assert_eq!(f.story_lines, story_pre_stage(0));
    read_story(&mut f);
    assert_eq!(f.state, GameState::StageTransition);
    f.finish_transition();
    assert_eq!(f.state, GameState::Playing);
    assert_eq!(f.inv_frames, 120);
    assert_eq!(f.waves_triggered, vec![false; 5]);
}

#[test]
fn typewriter_by_characters() {
    let mut f = Flow::new();
    f.start_story(vec!["ab", "c"], StoryPhase::Intro, StoryNext::Resume);
    f.update_story(false);
    assert_eq!(f.story_char_index, 0);
    f.update_story(false);
    assert_eq!(f.story_char_index, 1);
    f.update_story(true);
    assert_eq!(f.story_char_index, 2);
    f.update_story(true);
    assert_eq!((f.story_line_index, f.story_char_index), (1, 0));
    f.update_story(true);
    f.update_story(true);
    assert_eq!(f.state, GameState::Playing);
}

#[test]
fn boss_wave_needs_its_introduction() {
    let mut f = Flow::new();
    f.state = GameState::Playing;
    let all = vec![true; 5];
    for k in 0..4 {
        assert_eq!(f.check_wave_triggers(&all, false), WaveTrigger::Spawn(k));
    }
    assert_eq!(f.check_wave_triggers(&all, false), WaveTrigger::BossIntro(4));
    assert_eq!(f.state, GameState::BossIntro);
    for _ in 0..15 {
        f.update_boss_intro(true);
        assert_eq!(f.state, GameState::BossIntro);
    }
    f.update_boss_intro(true);
    assert_eq!(f.state, GameState::Playing);
    assert_eq!(f.check_wave_triggers(&all, false), WaveTrigger::Spawn(4));
    assert!(!f.all_waves_done);
    assert_eq!(f.check_wave_triggers(&all, false), WaveTrigger::Nothing);
    assert!(!f.all_waves_done);
    assert_eq!(f.check_wave_triggers(&all, true), WaveTrigger::Nothing);
    assert!(f.all_waves_done);
}

#[test]
fn third_wave_brings_the_dialogue_once() {
    let mut f = Flow::new();
    f.state = GameState::Playing;
    let all = vec![true; 5];
    f.check_wave_triggers(&all, false);
    f.check_wave_triggers(&all, false);
    assert_eq!(f.mid_stage_dialogue, None);
    f.check_wave_triggers(&all, false);
    assert_eq!(f.mid_stage_dialogue, Some(0));
    assert_eq!(f.mid_stage_timer, 240);
    assert!(f.mid_stage_shown[0]);
    f.tick_timers(true);
    assert_eq!(f.mid_stage_dialogue, None);
}

#[test]
fn unreached_waves_wait() {
    let mut f = Flow::new();
    f.state = GameState::Playing;
    let reached = vec![false, true, false, false, false];
    assert_eq!(f.check_wave_triggers(&reached, true), WaveTrigger::Spawn(1));
    assert_eq!(f.check_wave_triggers(&reached, true), WaveTrigger::Nothing);
    assert!(!f.all_waves_done);
}

#[test]
fn stage_end_leads_to_the_next_stage() {
    let mut f = Flow::new();
    f.state = GameState::Playing;
    assert!(!f.check_stage_complete(true));
    f.all_waves_done = true;
    assert!(!f.check_stage_complete(false));
    assert!(f.check_stage_complete(true));
    assert_eq!(f.story_next, StoryNext::NextStage);
    read_story(&mut f);
    assert_eq!(f.stage_index, 1);
    assert_eq!(f.story_lines, story_pre_stage(1));
    assert_eq!(f.waves_triggered.len(), 6);
}

#[test]
fn last_stage_leads_to_victory() {
    let mut f = Flow::new();
    f.state = GameState::Playing;
    f.stage_index = 2;
    f.waves_triggered = vec![true; 6];
    f.boss_intro_shown = vec![true; 6];
    f.all_waves_done = true;
    assert!(f.check_stage_complete(true));
    assert_eq!(f.story_next, StoryNext::FinalVictory);
    read_story(&mut f);
    assert_eq!(f.story_phase, StoryPhase::VictoryStory);
    read_story(&mut f);
    assert_eq!(f.state, GameState::Victory);
    f.update_victory(false, true);
    assert_eq!(f.state, GameState::Victory);
    f.score = 900;
    f.update_victory(true, true);
    assert_eq!((f.state, f.score, f.lives), (GameState::Title, 0, 3));
}

#[test]
fn lives_and_continues() {
    let mut f = Flow::new();
    f.state = GameState::Playing;
    f.pick_up_weapon(WeaponKind::Knife);
    assert!(!f.player_die());
    assert_eq!((f.lives, f.inv_frames, f.weapon), (2, 120, None));
    f.player_die();
    assert!(f.player_die());
    assert_eq!(f.state, GameState::GameOver);
    f.update_game_over(false, false);
    assert_eq!(f.state, GameState::GameOver);
    f.update_game_over(true, false);
    assert_eq!((f.state, f.lives), (GameState::StageTransition, 3));
    f.state = GameState::GameOver;
    f.score = 40;
    f.update_game_over(false, true);
    assert_eq!((f.state, f.score), (GameState::Title, 0));
}

#[test]
fn weapons_wear_out() {
    let mut f = Flow::new();
    assert!(f.pick_up_weapon(WeaponKind::Bottle));
    assert_eq!(f.weapon_durability, 3);
    assert!(!f.pick_up_weapon(WeaponKind::Pipe));
    assert!(!f.wear_weapon());
    assert!(!f.wear_weapon());
    assert!(f.wear_weapon());
    assert_eq!(f.weapon, None);
    assert!(!f.wear_weapon());
}

#[test]
fn pickups_and_pause() {
    let mut f = Flow::new();
    f.state = GameState::Playing;
    f.collect_pickup(PickupKind::ExtraLife);
    f.collect_pickup(PickupKind::Chicken);
    assert_eq!((f.lives, f.score), (4, 1000));
    f.add_score(200);
    assert_eq!(f.score, 1200);
    assert!(f.pause_if_requested(true));
    f.update_paused(false);
    assert_eq!(f.state, GameState::Paused);
    f.update_paused(true);
    assert_eq!(f.state, GameState::Playing);
}

#[test]
fn dragon_boss_and_stage_texts() {
    assert_eq!(boss_title(0), "Iron Serpent Lieutenant");
    assert_eq!(boss_title(7), "Former Dragon Fist Disciple");
    assert_eq!(boss_quote(1), "The Viper said to break every bone in your body. I always follow orders.");
    assert_eq!(stage_name(2), "ROOFTOP SHOWDOWN");
    assert!(story_mid_stage(0).starts_with("A beaten thug spits blood"));
}

#[test]
fn knock_out_scores_by_kind() {
    assert_eq!(ko_points(EnemyKind::Thug), 200);
    assert_eq!(ko_points(EnemyKind::KnifeWielder), 300);
    assert_eq!(ko_points(EnemyKind::BossCrusher), 3000);
    assert_eq!(ko_points(EnemyKind::BossDragonKing), 5000);
    let mut f = Flow::new();
    f.add_score(50);
    assert_eq!(f.knock_out(EnemyKind::Brawler), 500);
    assert_eq!(f.score, 550);
    assert_eq!(f.knock_out(EnemyKind::BossBlade), 2000);
    assert_eq!(f.score, 2550);
    assert_eq!(f.state, GameState::Title);
}
