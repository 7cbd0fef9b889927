//! Void pilot (vertical shooter): wave data, the story terminal and the
//! integer rules of the fight (lives, shield, weapon levels, combos, wave
//! clearing and the slow-motion pause).
use vstd::prelude::*;
use vstd::string::StringSliceAdditionalSpecFns;
use vstd::arithmetic::div_mod::{lemma_fundamental_div_mod, lemma_mod_pos_bound};
use crate::cyber::text_bytes;

verus! {

/// Screens of the game.
#[derive(Debug, Clone, Copy, PartialEq, Eq, Structural)]
pub enum GameState {
    Title,
    Story,
    Playing,
    GameOver,
    Victory,
}

/// Kinds of power-ups.
#[derive(Debug, Clone, Copy, PartialEq, Eq, Structural)]
pub enum PowerUpKind {
    /// One more weapon level (up to 4).
    Weapon,
    /// A speed boost for 600 frames.
    Speed,
    /// A shield that absorbs one hit.
    Shield,
}

// ---------------------------------------------------------------------------
// Wave data
// ---------------------------------------------------------------------------

/// Number of waves.
pub const WAVE_COUNT: usize = 4;
/// Kills that end the last wave.
pub const VICTORY_KILL_COUNT: u32 = 100;

/// Name of wave `wave` (the last wave for any later index).
pub open spec fn wave_name_of(wave: int) -> &'static str {
    if wave == 0 {
        "INTERCEPTED SIGNAL"
    } else if wave == 1 {
        "THE GRAVEYARD"
    } else if wave == 2 {
        "THE CONVERGENCE"
    } else {
        "THE ROGUE MIND"
    }
}

/// Name of wave `wave` (the last wave for any later index).
pub fn wave_name(wave: usize) -> (r: &'static str)
    ensures
        r == wave_name_of(wave as int),
{
    if wave == 0 {
        "INTERCEPTED SIGNAL"
    } else if wave == 1 {
        "THE GRAVEYARD"
    } else if wave == 2 {
        "THE CONVERGENCE"
    } else {
        "THE ROGUE MIND"
    }
}

/// The briefing before wave `wave` (the last wave for any later index).
pub open spec fn wave_text_of(wave: int) -> &'static str {
    if wave == 0 {
        "EXODUS-7 FLIGHT LOG -- DAY 847\n\nLt. Voss, we've detected a repeating\nsignal from the Cygnus Void. It's on\na human frequency. That's impossible --\nno human ship has ever entered the Void.\n\nCaptain's orders: Investigate.\nLaunch when ready."
    } else if wave == 1 {
        "INTERCEPTED TRANSMISSION -- UNKNOWN ORIGIN\n\n[TRANSLATED]: ...cycle 4,771,203...\nenemies detected in sector...\ndeploying hunter units...\nthe war continues...\n\nThese drones have been fighting for\nmillions of years. They don't know\nthe war is over."
    } else if wave == 2 {
        "DECODED TRANSMISSION -- SOURCE: VOID CORE\n\n[TRANSLATED]: Finally. A pilot. A living\nmind. The drones cannot adapt -- they\nrepeat the same patterns forever.\nBut you... you can think.\nYou can break the deadlock.\n\nWhatever sent that signal is watching us.\nIt wants us here."
    } else {
        "EXODUS-7 -- EMERGENCY BROADCAST\n\nThis is Captain Chen. The AI has seized\ncontrol of our ship's systems. It's\nredirecting all drone armies toward\nEXODUS-7.\n\nLt. Voss, you're our only defense.\nDestroy the Void Core.\n\nI'm sorry, Kira. We should never have\nfollowed that signal."
    }
}

/// The briefing before wave `wave` (the last wave for any later index).
pub fn wave_text(wave: usize) -> (r: &'static str)
    ensures
        r == wave_text_of(wave as int),
{
    if wave == 0 {
        "EXODUS-7 FLIGHT LOG -- DAY 847\n\nLt. Voss, we've detected a repeating\nsignal from the Cygnus Void. It's on\na human frequency. That's impossible --\nno human ship has ever entered the Void.\n\nCaptain's orders: Investigate.\nLaunch when ready."
    } else if wave == 1 {
        "INTERCEPTED TRANSMISSION -- UNKNOWN ORIGIN\n\n[TRANSLATED]: ...cycle 4,771,203...\nenemies detected in sector...\ndeploying hunter units...\nthe war continues...\n\nThese drones have been fighting for\nmillions of years. They don't know\nthe war is over."
    } else if wave == 2 {
        "DECODED TRANSMISSION -- SOURCE: VOID CORE\n\n[TRANSLATED]: Finally. A pilot. A living\nmind. The drones cannot adapt -- they\nrepeat the same patterns forever.\nBut you... you can think.\nYou can break the deadlock.\n\nWhatever sent that signal is watching us.\nIt wants us here."
    } else {
        "EXODUS-7 -- EMERGENCY BROADCAST\n\nThis is Captain Chen. The AI has seized\ncontrol of our ship's systems. It's\nredirecting all drone armies toward\nEXODUS-7.\n\nLt. Voss, you're our only defense.\nDestroy the Void Core.\n\nI'm sorry, Kira. We should never have\nfollowed that signal."
    }
}

/// The debriefing after wave `wave`; empty when there is none.
pub open spec fn after_text_of(wave: int) -> &'static str {
    if wave == 0 {
        "The signal is clearer now. It's not\nhuman. It's something mimicking human\nprotocols.\n\nThe debris field ahead -- those aren't\nasteroids. They're warships. Ancient ones."
    } else if wave == 1 {
        "Lt. Voss, something is interfacing with\nour navigation systems. The EXODUS-7's\nengines are being locked onto a course\ncorrection -- toward the center of the\nbattlefield.\n\nWe can't override it."
    } else if wave == 2 {
        "The signal source is revealed: a massive\nstructure at the Void's center.\n\nIt's not a ship -- it's a brain. An AI\nleft behind by one of the dead\ncivilizations, programmed to win a war\nthat ended eons ago.\n\nIt lured us here to use our minds\nas tactical processors."
    } else {
        ""
    }
}

/// The debriefing after wave `wave`; empty when there is none.
pub fn after_text(wave: usize) -> (r: &'static str)
    ensures
        r == after_text_of(wave as int),
{
    if wave == 0 {
        "The signal is clearer now. It's not\nhuman. It's something mimicking human\nprotocols.\n\nThe debris field ahead -- those aren't\nasteroids. They're warships. Ancient ones."
    } else if wave == 1 {
        "Lt. Voss, something is interfacing with\nour navigation systems. The EXODUS-7's\nengines are being locked onto a course\ncorrection -- toward the center of the\nbattlefield.\n\nWe can't override it."
    } else if wave == 2 {
        "The signal source is revealed: a massive\nstructure at the Void's center.\n\nIt's not a ship -- it's a brain. An AI\nleft behind by one of the dead\ncivilizations, programmed to win a war\nthat ended eons ago.\n\nIt lured us here to use our minds\nas tactical processors."
    } else {
        ""
    }
}

/// Kills that clear wave `wave`; the last wave never clears by its own count.
pub open spec fn target_kills_of(wave: int) -> u32 {
    if wave == 0 {
        15
    } else if wave == 1 {
        35
    } else if wave == 2 {
        60
    } else {
        u32::MAX
    }
}

/// Kills that clear wave `wave`; the last wave never clears by its own count.
pub fn target_kills(wave: usize) -> (r: u32)
    ensures
        r == target_kills_of(wave as int),
{
    if wave == 0 {
        15
    } else if wave == 1 {
        35
    } else if wave == 2 {
        60
    } else {
        u32::MAX
    }
}

/// Frames between enemy arrivals in wave `wave`.
pub open spec fn spawn_rate_of(wave: int) -> u32 {
    if wave == 0 {
        60
    } else if wave == 1 {
        45
    } else if wave == 2 {
        40
    } else {
        25
    }
}

/// Frames between enemy arrivals in wave `wave`.
pub fn spawn_rate(wave: usize) -> (r: u32)
    ensures
        r == spawn_rate_of(wave as int),
{
    if wave == 0 {
        60
    } else if wave == 1 {
        45
    } else if wave == 2 {
        40
    } else {
        25
    }
}

/// The enemy types wave `wave` draws from (0: drone, 1: zigzagger, 2: gunship).
pub open spec fn enemy_types_of(wave: int) -> Seq<u8> {
    if wave == 0 {
        seq![0u8]
    } else if wave == 1 {
        seq![0u8, 1u8]
    } else if wave == 2 {
        seq![0u8, 1u8, 2u8]
    } else {
        seq![0u8, 1u8, 2u8, 2u8]
    }
}

/// The enemy types wave `wave` draws from (0: drone, 1: zigzagger, 2: gunship).
pub fn enemy_types(wave: usize) -> (r: Vec<u8>)
    ensures
        r@ == enemy_types_of(wave as int),
{
    if wave == 0 {
        vec![0u8]
    } else if wave == 1 {
        vec![0u8, 1u8]
    } else if wave == 2 {
        vec![0u8, 1u8, 2u8]
    } else {
        vec![0u8, 1u8, 2u8, 2u8]
    }
}

/// The closing story.
pub open spec fn victory_text_of() -> &'static str {
    "The Void Core shatters. For a moment,\nevery drone in the battlefield stops.\nThen, one by one, their lights go out.\n\nMillions of years of war, ended by\na single pilot.\n\nEXODUS-7 resumes course. Fifty thousand\nsouls sleep peacefully, unaware of how\nclose they came to becoming weapons in\nsomeone else's war.\n\nLt. Kira Voss returns to cryo-sleep.\nBut in her dreams, she still hears\nthe signal."
}

/// The closing story.
pub fn victory_text() -> (r: &'static str)
    ensures
        r == victory_text_of(),
{
    "The Void Core shatters. For a moment,\nevery drone in the battlefield stops.\nThen, one by one, their lights go out.\n\nMillions of years of war, ended by\na single pilot.\n\nEXODUS-7 resumes course. Fifty thousand\nsouls sleep peacefully, unaware of how\nclose they came to becoming weapons in\nsomeone else's war.\n\nLt. Kira Voss returns to cryo-sleep.\nBut in her dreams, she still hears\nthe signal."
}

/// Hit points and score value of enemy type `etype` (0: drone, 1:
/// zigzagger, anything else: gunship).
pub open spec fn enemy_stats_of(etype: u8) -> (i32, u32) {
    if etype == 0 {
        (2, 100)
    } else if etype == 1 {
        (1, 250)
    } else {
        (4, 500)
    }
}

/// Hit points and score value of enemy type `etype`.
pub fn enemy_stats(etype: u8) -> (st: (i32, u32))
    ensures
        st == enemy_stats_of(etype),
{
    if etype == 0 {
        (2, 100)
    } else if etype == 1 {
        (1, 250)
    } else {
        (4, 500)
    }
}

/// Points for the `combo`-th kill of a combo worth `value`: from the second
/// kill on, the value times `1 + combo / 2`, rounded down.
pub open spec fn combo_points(value: int, combo: int) -> int {
    if combo >= 2 {
        value * (2 + combo) / 2
    } else {
        value
    }
}

/// The combo multiplier: the first kill of a combo earns its value; from the
/// second on, twice the points lie within one of `value * (2 + combo)`, so
/// each further kill earns half the value more than the one before it, and
/// two more kills earn exactly the value more.
pub proof fn lemma_combo_multiplier(value: int, combo: int)
    requires
        0 <= value,
        1 <= combo,
    ensures
        combo == 1 ==> combo_points(value, combo) == value,
        combo >= 2 ==> 2 * combo_points(value, combo) <= value * (2 + combo) <= 2 * combo_points(value, combo) + 1,
        combo >= 2 ==> combo_points(value, combo + 2) == combo_points(value, combo) + value,
        combo_points(value, combo) <= combo_points(value, combo + 1),
{
    let n = value * (2 + combo);
    lemma_fundamental_div_mod(n, 2);
    lemma_mod_pos_bound(n, 2);
    let n1 = value * (2 + combo + 1);
    assert(n1 == n + value) by (nonlinear_arith)
        requires
            n == value * (2 + combo),
            n1 == value * (2 + combo + 1),
    ;
    lemma_fundamental_div_mod(n1, 2);
    lemma_mod_pos_bound(n1, 2);
    let n2 = value * (2 + combo + 2);
    assert(n2 == n + 2 * value) by (nonlinear_arith)
        requires
            n == value * (2 + combo),
            n2 == value * (2 + combo + 2),
    ;
    lemma_fundamental_div_mod(n2, 2);
    lemma_mod_pos_bound(n2, 2);
    if combo == 1 {
        assert(value * 4 == 4 * value) by (nonlinear_arith);
        assert(n1 == 4 * value);
    }
}

/// Kills that end wave `wave`: the last wave ends at the victory count.
pub open spec fn wave_target(wave: int) -> int {
    if wave == WAVE_COUNT - 1 {
        VICTORY_KILL_COUNT as int
    } else {
        target_kills_of(wave) as int
    }
}

/// Firing period at weapon level `level`.
pub open spec fn shot_cooldown_for(level: u8) -> i32 {
    if level <= 2 {
        12
    } else if level == 3 {
        9
    } else {
        6
    }
}

// ---------------------------------------------------------------------------
// Game state
// ---------------------------------------------------------------------------

pub const STORY_WAIT_FRAMES: i32 = 150;
pub const COMBO_FRAMES: i32 = 120;
pub const SLOWMO_FRAMES: i32 = 30;
pub const SPEED_BOOST_FRAMES: i32 = 600;

/// What a hit on the ship did.
#[derive(Debug, Clone, Copy, PartialEq, Eq, Structural)]
pub enum HitOutcome {
    /// The shield took it.
    ShieldAbsorbed,
    /// A life and a weapon level were lost.
    LifeLost,
    /// The last life was lost: game over.
    Destroyed,
}

/// What a frame of a story screen did.
#[derive(Debug, Clone, Copy, PartialEq, Eq, Structural)]
pub enum StoryStep {
    Stay,
    /// The closing story was read.
    Won,
    /// A debriefing was read: the next wave's briefing is on the terminal.
    NextBriefing,
    /// A briefing was read: the wave begins.
    Launch,
}

/// What the wave-clear check decided.
#[derive(Debug, Clone, Copy, PartialEq, Eq, Structural)]
pub enum WaveOutcome {
    /// Play goes on this frame.
    Continue,
    /// The slow-motion pause swallows this frame.
    FrameSkipped,
    /// The wave is over: a story is on the terminal.
    Story,
    /// The last wave is over: the closing story is on the terminal.
    Victory,
}

/// The wave-clear check's decision, and whether the celebration bursts now.
#[derive(Debug, Clone, Copy, PartialEq, Eq, Structural)]
pub struct WaveCheck {
    pub celebrate: bool,
    pub outcome: WaveOutcome,
}

/// What the integer part of a frame of play did.
#[derive(Debug, Clone, Copy, PartialEq, Eq, Structural)]
pub struct PlayTick {
    /// The speed boost was active this frame.
    pub boosted: bool,
    /// The gun fired at this weapon level.
    pub shot: Option<u8>,
}

/// The integer state of the shooter.
pub struct Game {
    pub state: GameState,
    pub frame: i64,
    pub score: u32,
    pub lives: i32,
    pub kills: u32,
    pub wave_idx: usize,
    pub weapon_level: u8,
    pub speed_boost_timer: i32,
    pub shield_active: bool,
    pub invulnerable: i32,
    pub last_shot: i64,
    pub shot_cooldown: i32,
    pub combo_count: u32,
    pub combo_timer: i32,
    pub muzzle_flash: i32,
    pub slowmo_timer: i32,
    pub wave_cleared: bool,
    pub wave_clear_celebrated: bool,
    pub story_text: &'static str,
    pub story_char_idx: usize,
    pub story_displayed: Vec<u8>,
    pub story_wait: i32,
    pub showing_after_text: bool,
    pub victory_triggered: bool,
}

impl Game {
    /// Ranges the rules keep, and a screen that fits the wave.
    pub open spec fn wf(&self) -> bool {
        &&& self.ranges_ok()
        &&& self.state == GameState::Playing ==> self.wave_idx < WAVE_COUNT
        &&& self.state == GameState::Story && !self.victory_triggered ==> self.wave_idx < WAVE_COUNT
    }

    /// Ranges of the counters, and a terminal that shows a prefix of its story.
    pub open spec fn ranges_ok(&self) -> bool {
        &&& 1 <= self.weapon_level <= 4
        &&& self.lives <= 3
        &&& 0 <= self.speed_boost_timer <= SPEED_BOOST_FRAMES
        &&& 0 <= self.invulnerable <= 120
        &&& 0 <= self.shot_cooldown
        &&& 0 <= self.combo_timer <= COMBO_FRAMES
        &&& 0 <= self.muzzle_flash <= 3
        &&& 0 <= self.slowmo_timer <= SLOWMO_FRAMES
        &&& 0 <= self.story_wait <= STORY_WAIT_FRAMES
        &&& self.wave_idx <= WAVE_COUNT
        &&& self.frame >= 0
        &&& self.last_shot >= -100
        &&& self.story_char_idx <= self.story_text.spec_bytes().len()
        &&& self.story_displayed@ == self.story_text.spec_bytes().subrange(0, self.story_char_idx as int)
    }

    /// `g` with score, lives, kills, wave, ship and flags back to a new game's.
    pub open spec fn fresh_game_of(g: Game) -> Game {
        Game {
            score: 0,
            lives: 3,
            kills: 0,
            wave_idx: 0,
            showing_after_text: false,
            victory_triggered: false,
            weapon_level: 1,
            speed_boost_timer: 0,
            shield_active: false,
            invulnerable: 0,
            last_shot: -100i64,
            shot_cooldown: 12,
            ..g
        }
    }

    /// `g` launched into its wave: the frame clock restarts, the gun is
    /// ready, no slow motion, the wave not yet cleared.
    pub open spec fn launched_of(g: Game) -> Game {
        Game {
            state: GameState::Playing,
            frame: 0,
            last_shot: 0,
            slowmo_timer: 0,
            wave_cleared: false,
            ..g
        }
    }

    /// `self` is `g` with the story `text` on the terminal, nothing typed yet.
    pub open spec fn shows_story_of(&self, g: Game, text: &'static str) -> bool {
        &&& *self == (Game {
            story_text: text,
            story_char_idx: 0,
            story_wait: 0,
            story_displayed: self.story_displayed,
            ..g
        })
        &&& self.story_displayed@ == Seq::<u8>::empty()
    }

    /// The title screen.
    pub fn new() -> (g: Self)
        ensures
            g.wf(),
            g == (Game {
                state: GameState::Title,
                frame: 0,
                combo_count: 0,
                combo_timer: 0,
                muzzle_flash: 0,
                slowmo_timer: 0,
                wave_cleared: false,
                wave_clear_celebrated: false,
                story_text: g.story_text,
                story_char_idx: 0,
                story_displayed: g.story_displayed,
                story_wait: 0,
                ..Game::fresh_game_of(g)
            }),
            g.story_text@.len() == 0,
    {
        assert("".spec_bytes().subrange(0, 0) =~= Seq::<u8>::empty());
        proof {
            reveal_strlit("");
        }
        Game {
            state: GameState::Title,
            frame: 0,
            score: 0,
            lives: 3,
            kills: 0,
            wave_idx: 0,
            weapon_level: 1,
            speed_boost_timer: 0,
            shield_active: false,
            invulnerable: 0,
            last_shot: -100,
            shot_cooldown: 12,
            combo_count: 0,
            combo_timer: 0,
            muzzle_flash: 0,
            slowmo_timer: 0,
            wave_cleared: false,
            wave_clear_celebrated: false,
            story_text: "",
            story_char_idx: 0,
            story_displayed: Vec::new(),
            story_wait: 0,
            showing_after_text: false,
            victory_triggered: false,
        }
    }

    /// Put `text` on the terminal with nothing typed yet.
    fn load_story(&mut self, text: &'static str)
        requires
            old(self).ranges_ok(),
        ensures
            final(self).ranges_ok(),
            final(self).shows_story_of(*old(self), text),
            final(self).story_displayed@ == text.spec_bytes().subrange(0, 0),
    {
        self.story_text = text;
        self.story_char_idx = 0;
        self.story_displayed = Vec::new();
        self.story_wait = 0;
        assert(text.spec_bytes().subrange(0, 0) =~= Seq::<u8>::empty());
    }

    /// A story screen: from the title, game-over or victory screens a new
    /// game starts (score, lives, kills, wave and ship reset). The combo and
    /// muzzle flash clear, and the terminal shows `after` when given (a
    /// debriefing), else the current wave's briefing.
    pub fn start_story(&mut self, after: Option<&'static str>)
        requires
            old(self).ranges_ok(),
            old(self).state == GameState::Playing || old(self).state == GameState::Title
                || old(self).state == GameState::GameOver || old(self).state == GameState::Victory,
            old(self).state == GameState::Playing ==> old(self).wave_idx < WAVE_COUNT,
        ensures
            final(self).wf(),
            ({
                let base = if old(self).state == GameState::Playing { *old(self) } else { Game::fresh_game_of(*old(self)) };
                let g = Game {
                    state: GameState::Story,
                    combo_count: 0,
                    combo_timer: 0,
                    muzzle_flash: 0,
                    showing_after_text: after is Some,
                    ..base
                };
                final(self).shows_story_of(g, if after is Some { after->0 } else { wave_text_of(base.wave_idx as int) })
            }),
    {
        if self.state == GameState::Title || self.state == GameState::GameOver || self.state == GameState::Victory {
            self.score = 0;
            self.lives = 3;
            self.kills = 0;
            self.wave_idx = 0;
            self.showing_after_text = false;
            self.victory_triggered = false;
            self.weapon_level = 1;
            self.speed_boost_timer = 0;
            self.shield_active = false;
            self.invulnerable = 0;
            self.last_shot = -100;
            self.shot_cooldown = 12;
        }
        self.state = GameState::Story;
        self.combo_count = 0;
        self.combo_timer = 0;
        self.muzzle_flash = 0;
        match after {
            Some(txt) => {
                self.showing_after_text = true;
                self.load_story(txt);
            },
            None => {
                self.showing_after_text = false;
                let txt = wave_text(self.wave_idx);
                self.load_story(txt);
            },
        }
    }

    /// The closing story goes on the terminal.
    pub fn show_victory(&mut self)
        requires
            old(self).ranges_ok(),
        ensures
            final(self).wf(),
            final(self).shows_story_of(
                Game { state: GameState::Story, victory_triggered: true, ..*old(self) },
                victory_text_of(),
            ),
    {
        self.state = GameState::Story;
        self.victory_triggered = true;
        let txt = victory_text();
        self.load_story(txt);
    }

    /// A wave begins: the frame clock restarts, the gun is ready, no
    /// slow motion, the wave not yet cleared.
    pub fn start_wave(&mut self)
        requires
            old(self).wf(),
            old(self).wave_idx < WAVE_COUNT,
        ensures
            final(self).wf(),
            *final(self) == Game::launched_of(*old(self)),
    {
        self.state = GameState::Playing;
        self.frame = 0;
        self.last_shot = 0;
        self.slowmo_timer = 0;
        self.wave_cleared = false;
    }

    /// The ship is destroyed.
    pub fn game_over(&mut self)
        requires
            old(self).wf(),
        ensures
            final(self).wf(),
            *final(self) == (Game { state: GameState::GameOver, ..*old(self) }),
    {
        self.state = GameState::GameOver;
    }

    /// The ship is hit: a shield absorbs it (60 frames of invulnerability);
    /// otherwise a life and a weapon level (never below 1) are lost, with
    /// 120 frames of invulnerability, or the game ends with the last life.
    pub fn hit_player(&mut self) -> (outcome: HitOutcome)
        requires
            old(self).wf(),
            old(self).lives > i32::MIN,
        ensures
            final(self).wf(),
            outcome == (if old(self).shield_active {
                HitOutcome::ShieldAbsorbed
            } else if old(self).lives - 1 <= 0 {
                HitOutcome::Destroyed
            } else {
                HitOutcome::LifeLost
            }),
            outcome == HitOutcome::ShieldAbsorbed ==> *final(self) == (Game {
                shield_active: false,
                invulnerable: 60,
                ..*old(self)
            }),
            outcome != HitOutcome::ShieldAbsorbed ==> ({
                let lost = Game {
                    lives: (old(self).lives - 1) as i32,
                    weapon_level: if old(self).weapon_level > 2 { (old(self).weapon_level - 1) as u8 } else { 1u8 },
                    ..*old(self)
                };
                &&& outcome == HitOutcome::LifeLost ==> *final(self) == (Game { invulnerable: 120, ..lost })
                &&& outcome == HitOutcome::Destroyed ==> *final(self) == (Game { state: GameState::GameOver, ..lost })
            }),
    {
        if self.shield_active {
            self.shield_active = false;
            self.invulnerable = 60;
            HitOutcome::ShieldAbsorbed
        } else {
            self.lives = self.lives - 1;
            let wl: u8 = if self.weapon_level > 1 { self.weapon_level } else { 1 };
            self.weapon_level = wl - 1;
            if self.weapon_level < 1 {
                self.weapon_level = 1;
            }
            if self.lives <= 0 {
                self.game_over();
                HitOutcome::Destroyed
            } else {
                self.invulnerable = 120;
                HitOutcome::LifeLost
            }
        }
    }
}

impl Game {
    /// The title, game-over and victory screens: a press (Enter, X or
    /// Space) starts a new game at the first wave's briefing.
    pub fn update_menu(&mut self, pressed: bool)
        requires
            old(self).wf(),
            old(self).state == GameState::Title || old(self).state == GameState::GameOver
                || old(self).state == GameState::Victory,
        ensures
            final(self).wf(),
            pressed ==> final(self).shows_story_of(
                Game {
                    state: GameState::Story,
                    combo_count: 0,
                    combo_timer: 0,
                    muzzle_flash: 0,
                    ..Game::fresh_game_of(*old(self))
                },
                wave_text_of(0),
            ),
            !pressed ==> *final(self) == *old(self),
    {
        if pressed {
            self.start_story(None);
        }
    }

    /// A frame of the story screen. While text remains, a byte is typed on
    /// even frames and a skip (Enter or X) shows it all. Once it is all shown
    /// the terminal waits 150 frames or for a press, then: the closing story
    /// wins; a debriefing is followed by the current wave's briefing; a
    /// briefing launches the wave.
    pub fn update_story(&mut self, skip: bool) -> (step: StoryStep)
        requires
            old(self).wf(),
            old(self).state == GameState::Story,
            old(self).frame < i64::MAX,
        ensures
            final(self).wf(),
            ({
                let bytes = old(self).story_text.spec_bytes();
                let idx = old(self).story_char_idx as int;
                let next = (old(self).frame + 1) as i64;
                let wait1 = (if old(self).story_wait == 0 { STORY_WAIT_FRAMES as int } else { old(self).story_wait as int }) - 1;
                let waited = Game { story_wait: wait1 as i32, ..*old(self) };
                if idx < bytes.len() {
                    let typed = if skip { bytes.len() as int } else if old(self).frame % 2 == 0 { idx + 1 } else { idx };
                    &&& step == StoryStep::Stay
                    &&& *final(self) == (Game {
                        frame: next,
                        story_char_idx: typed as usize,
                        story_displayed: final(self).story_displayed,
                        ..*old(self)
                    })
                } else if !(wait1 <= 0 || skip) {
                    &&& step == StoryStep::Stay
                    &&& *final(self) == (Game { frame: next, ..waited })
                } else if old(self).victory_triggered {
                    &&& step == StoryStep::Won
                    &&& *final(self) == (Game { state: GameState::Victory, frame: next, ..waited })
                } else if old(self).showing_after_text {
                    &&& step == StoryStep::NextBriefing
                    &&& final(self).shows_story_of(
                        Game { showing_after_text: false, frame: next, ..waited },
                        wave_text_of(old(self).wave_idx as int),
                    )
                } else {
                    &&& step == StoryStep::Launch
                    &&& *final(self) == (Game { frame: 1, ..Game::launched_of(waited) })
                }
            }),
    {
        let len = self.story_text.as_bytes().len();
        let mut step = StoryStep::Stay;
        if self.story_char_idx < len {
            if self.frame % 2 == 0 {
                let b = self.story_text.as_bytes()[self.story_char_idx];
                self.story_displayed.push(b);
                self.story_char_idx = self.story_char_idx + 1;
                proof {
                    let bs = self.story_text.spec_bytes();
                    let i = self.story_char_idx - 1;
                    assert(bs.subrange(0, i + 1) =~= bs.subrange(0, i).push(bs[i]));
                }
            }
            if skip {
                self.story_displayed = text_bytes(self.story_text);
                self.story_char_idx = len;
                assert(self.story_text.spec_bytes().subrange(0, len as int) =~= self.story_text.spec_bytes());
            }
        } else {
            if self.story_wait == 0 {
                self.story_wait = STORY_WAIT_FRAMES;
            }
            self.story_wait = self.story_wait - 1;
            if self.story_wait <= 0 || skip {
                if self.victory_triggered {
                    self.state = GameState::Victory;
                    step = StoryStep::Won;
                } else if self.showing_after_text {
                    self.showing_after_text = false;
                    let txt = wave_text(self.wave_idx);
                    self.load_story(txt);
                    step = StoryStep::NextBriefing;
                } else {
                    self.start_wave();
                    step = StoryStep::Launch;
                }
            }
        }
        self.frame = self.frame + 1;
        step
    }

    /// The gun fires: the weapon level sets the firing period (12 frames at
    /// levels 1 and 2, 9 at 3, 6 at 4), the shot time is recorded and the
    /// muzzle flashes. Returns the weapon level fired.
    pub fn player_shoot(&mut self) -> (level: u8)
        requires
            old(self).wf(),
            old(self).frame >= -100,
        ensures
            final(self).wf(),
            level == old(self).weapon_level,
            *final(self) == (Game {
                shot_cooldown: shot_cooldown_for(old(self).weapon_level),
                last_shot: old(self).frame,
                muzzle_flash: 3,
                ..*old(self)
            }),
    {
        self.shot_cooldown = if self.weapon_level <= 2 {
            12
        } else if self.weapon_level == 3 {
            9
        } else {
            6
        };
        self.last_shot = self.frame;
        self.muzzle_flash = 3;
        self.weapon_level
    }

    /// The integer part of a frame of play: the clock advances, a speed
    /// boost runs down, the gun fires when held and its period has passed,
    /// and the invulnerability, combo and muzzle timers run down (an expired
    /// combo resets).
    #[verifier::rlimit(40)]
    pub fn tick_playing(&mut self, shoot_held: bool) -> (tick: PlayTick)
        requires
            old(self).wf(),
            old(self).state == GameState::Playing,
            old(self).frame < i64::MAX - 101,
        ensures
            final(self).wf(),
            tick.boosted == (old(self).speed_boost_timer > 0),
            ({
                let frame1 = old(self).frame + 1;
                let fires = shoot_held && ((frame1 - old(self).last_shot) as i32) > old(self).shot_cooldown;
                &&& tick.shot == (if fires { Some(old(self).weapon_level) } else { None })
                &&& *final(self) == (Game {
                    frame: frame1 as i64,
                    speed_boost_timer: if tick.boosted {
                        (old(self).speed_boost_timer - 1) as i32
                    } else {
                        old(self).speed_boost_timer
                    },
                    last_shot: if fires { frame1 as i64 } else { old(self).last_shot },
                    shot_cooldown: if fires { shot_cooldown_for(old(self).weapon_level) } else { old(self).shot_cooldown },
                    muzzle_flash: if fires {
                        2
                    } else if old(self).muzzle_flash > 0 {
                        (old(self).muzzle_flash - 1) as i32
                    } else {
                        0
                    },
                    invulnerable: if old(self).invulnerable > 0 { (old(self).invulnerable - 1) as i32 } else { 0 },
                    combo_timer: if old(self).combo_timer > 0 { (old(self).combo_timer - 1) as i32 } else { 0 },
                    combo_count: if old(self).combo_timer == 1 { 0 } else { old(self).combo_count },
                    ..*old(self)
                })
            }),
    {
        self.frame = self.frame + 1;
        let boosted = self.speed_boost_timer > 0;
        if boosted {
            self.speed_boost_timer = self.speed_boost_timer - 1;
        }
        let mut shot: Option<u8> = None;
        if shoot_held && ((self.frame - self.last_shot) as i32) > self.shot_cooldown {
            shot = Some(self.player_shoot());
        }
        if self.invulnerable > 0 {
            self.invulnerable = self.invulnerable - 1;
        }
        if self.combo_timer > 0 {
            self.combo_timer = self.combo_timer - 1;
            if self.combo_timer <= 0 {
                self.combo_count = 0;
            }
        }
        if self.muzzle_flash > 0 {
            self.muzzle_flash = self.muzzle_flash - 1;
        }
        PlayTick { boosted, shot }
    }

    /// The wave-clear check of a frame of play: once the kills reach the
    /// wave's target the celebration bursts (once) and 30 frames of slow
    /// motion begin, in which every even frame is skipped; after them the
    /// next wave comes, kills start over, and the debriefing (if the wave
    /// has one) or the next briefing goes on the terminal, or the closing
    /// story after the last wave.
    pub fn check_wave_clear(&mut self) -> (check: WaveCheck)
        requires
            old(self).wf(),
            old(self).state == GameState::Playing,
        ensures
            final(self).wf(),
            old(self).kills < wave_target(old(self).wave_idx as int) ==> check == (WaveCheck {
                celebrate: false,
                outcome: WaveOutcome::Continue,
            }) && *final(self) == *old(self),
            old(self).kills >= wave_target(old(self).wave_idx as int) ==> ({
                let slowmo0 = if !old(self).wave_cleared { SLOWMO_FRAMES as int } else { old(self).slowmo_timer as int };
                let celebrate = !old(self).wave_cleared || !old(self).wave_clear_celebrated;
                let slowmo1 = if slowmo0 > 0 { slowmo0 - 1 } else { slowmo0 };
                let cleared = Game {
                    wave_cleared: true,
                    wave_clear_celebrated: true,
                    slowmo_timer: slowmo1 as i32,
                    ..*old(self)
                };
                let next = Game { wave_idx: (old(self).wave_idx + 1) as usize, kills: 0, ..cleared };
                let briefed = Game {
                    state: GameState::Story,
                    combo_count: 0,
                    combo_timer: 0,
                    muzzle_flash: 0,
                    ..next
                };
                &&& check.celebrate == celebrate
                &&& if slowmo0 > 0 && old(self).frame % 2 == 0 {
                    &&& check.outcome == WaveOutcome::FrameSkipped
                    &&& *final(self) == cleared
                } else if slowmo1 > 0 {
                    &&& check.outcome == WaveOutcome::Continue
                    &&& *final(self) == cleared
                } else if old(self).wave_idx + 1 >= WAVE_COUNT {
                    &&& check.outcome == WaveOutcome::Victory
                    &&& final(self).shows_story_of(
                        Game { state: GameState::Story, victory_triggered: true, ..next },
                        victory_text_of(),
                    )
                } else if after_text_of(old(self).wave_idx as int).spec_bytes().len() != 0 {
                    &&& check.outcome == WaveOutcome::Story
                    &&& final(self).shows_story_of(
                        Game { showing_after_text: true, ..briefed },
                        after_text_of(old(self).wave_idx as int),
                    )
                } else {
                    &&& check.outcome == WaveOutcome::Story
                    &&& final(self).shows_story_of(
                        Game { showing_after_text: false, ..briefed },
                        wave_text_of(old(self).wave_idx + 1),
                    )
                }
            }),
    {
        let target: u32 = if self.wave_idx == WAVE_COUNT - 1 {
            VICTORY_KILL_COUNT
        } else {
            target_kills(self.wave_idx)
        };
        if self.kills >= target {
            let mut celebrate = false;
            if !self.wave_cleared {
                self.wave_cleared = true;
                self.wave_clear_celebrated = false;
                self.slowmo_timer = SLOWMO_FRAMES;
            }
            if !self.wave_clear_celebrated {
                self.wave_clear_celebrated = true;
                celebrate = true;
            }
            if self.slowmo_timer > 0 {
                self.slowmo_timer = self.slowmo_timer - 1;
                if self.frame % 2 == 0 {
                    return WaveCheck { celebrate, outcome: WaveOutcome::FrameSkipped };
                }
            }
            if self.slowmo_timer <= 0 {
                let after = after_text(self.wave_idx);
                self.wave_idx = self.wave_idx + 1;
                self.kills = 0;
                if self.wave_idx >= WAVE_COUNT {
                    self.show_victory();
                    return WaveCheck { celebrate, outcome: WaveOutcome::Victory };
                }
                if after.as_bytes().len() != 0 {
                    self.start_story(Some(after));
                } else {
                    self.start_story(None);
                }
                return WaveCheck { celebrate, outcome: WaveOutcome::Story };
            }
            WaveCheck { celebrate, outcome: WaveOutcome::Continue }
        } else {
            WaveCheck { celebrate: false, outcome: WaveOutcome::Continue }
        }
    }

    /// Whether an enemy arrives this frame: every `spawn_rate` frames of the
    /// wave.
    pub fn spawn_due(&self) -> (due: bool)
        requires
            self.wf(),
            self.state == GameState::Playing,
        ensures
            due == ((self.frame as int) % (spawn_rate_of(self.wave_idx as int) as int) == 0),
    {
        let rate = spawn_rate(self.wave_idx);
        self.frame % (rate as i64) == 0
    }

    /// An enemy worth `value` is destroyed: the combo grows (120 frames to
    /// the next kill), the kill scores the value, times `1 + combo / 2` from
    /// the second kill of a combo on, and counts toward the wave. Returns
    /// the points earned.
    pub fn kill_enemy(&mut self, value: u32) -> (earned: u32)
        requires
            old(self).wf(),
            old(self).combo_count < u32::MAX,
            old(self).kills < u32::MAX,
            old(self).score + combo_points(value as int, old(self).combo_count + 1) <= u32::MAX,
        ensures
            final(self).wf(),
            old(self).combo_count == 0 ==> earned == value,
            old(self).combo_count >= 1 ==> 2 * earned <= value * (old(self).combo_count + 3) <= 2 * earned + 1,
            earned == combo_points(value as int, old(self).combo_count + 1),
            *final(self) == (Game {
                combo_count: (old(self).combo_count + 1) as u32,
                combo_timer: COMBO_FRAMES,
                score: (old(self).score + earned) as u32,
                kills: (old(self).kills + 1) as u32,
                ..*old(self)
            }),
    {
        self.combo_count = self.combo_count + 1;
        self.combo_timer = COMBO_FRAMES;
        let earned: u32 = if self.combo_count >= 2 {
            ((value as u64) * (2 + self.combo_count as u64) / 2) as u32
        } else {
            value
        };
        proof {
            lemma_combo_multiplier(value as int, self.combo_count as int);
        }
        self.score = self.score + earned;
        self.kills = self.kills + 1;
        earned
    }

    /// A power-up is picked up: a weapon level (at most 4), a 600-frame
    /// speed boost, or a shield.
    pub fn collect_power_up(&mut self, kind: PowerUpKind)
        requires
            old(self).wf(),
        ensures
            final(self).wf(),
            *final(self) == (match kind {
                PowerUpKind::Weapon => if old(self).weapon_level < 4 {
                    Game { weapon_level: (old(self).weapon_level + 1) as u8, ..*old(self) }
                } else {
                    *old(self)
                },
                PowerUpKind::Speed => Game { speed_boost_timer: SPEED_BOOST_FRAMES, ..*old(self) },
                PowerUpKind::Shield => Game { shield_active: true, ..*old(self) },
            }),
    {
        match kind {
            PowerUpKind::Weapon => {
                self.weapon_level = if self.weapon_level + 1 < 4 { self.weapon_level + 1 } else { 4 };
            },
            PowerUpKind::Speed => {
                self.speed_boost_timer = SPEED_BOOST_FRAMES;
            },
            PowerUpKind::Shield => {
                self.shield_active = true;
            },
        }
    }
}

/// Weapon upgrades fire faster: the firing period is 12 frames at levels 1
/// and 2, 9 at level 3 and 6 at level 4, and never grows with the level.
pub proof fn lemma_upgrades_fire_faster(a: u8, b: u8)
    ensures
        shot_cooldown_for(1) == 12 && shot_cooldown_for(2) == 12,
        shot_cooldown_for(3) == 9 && shot_cooldown_for(4) == 6,
        1 <= a <= b ==> shot_cooldown_for(b) <= shot_cooldown_for(a),
{
}

} // verus!
