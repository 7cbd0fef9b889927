//! Chrome Viper (side-scrolling shooter): sector data, wave schedule, the
//! terminal story screens and the integer rules of the fight (shields,
//! weapons, EMP charges, kill chains and sector progression).
use vstd::prelude::*;
use vstd::string::StringSliceAdditionalSpecFns;
use vstd::arithmetic::div_mod::{lemma_fundamental_div_mod, lemma_mod_pos_bound};

verus! {

// ---------------------------------------------------------------------------
// Kinds
// ---------------------------------------------------------------------------

/// Screens of the game.
#[derive(Debug, Clone, Copy, PartialEq, Eq, Structural)]
pub enum GameState {
    Start,
    Story,
    LevelStory,
    Playing,
    GameOver,
    Win,
}

/// Kinds of enemy ships.
#[derive(Debug, Clone, Copy, PartialEq, Eq, Structural)]
pub enum EnemyType {
    Drone,
    Gunship,
    Turret,
    Boss,
}

/// Kinds of power-ups.
#[derive(Debug, Clone, Copy, PartialEq, Eq, Structural)]
pub enum PowerUpKind {
    Spread,
    Homing,
    Emp,
    Shield,
}

/// The ship's guns.
#[derive(Debug, Clone, Copy, PartialEq, Eq, Structural)]
pub enum WeaponType {
    DualLaser,
    SpreadShot,
    HomingMissile,
}

// ---------------------------------------------------------------------------
// Sector data
// ---------------------------------------------------------------------------

/// Number of sectors.
pub const LEVEL_COUNT: usize = 3;

/// A wave: at second `second` of the sector, `count` enemies of one type
/// enter at (`x`, `y`), each 40 pixels below the previous one.
#[derive(Debug, Clone, Copy, PartialEq, Eq, Structural)]
pub struct WaveEvent {
    pub second: u32,
    pub etype: EnemyType,
    pub x: i32,
    pub y: i32,
    pub count: u32,
}

/// Hit points of the boss of sector `level`.
pub open spec fn boss_hp_of(level: int) -> i32 {
    if level == 0 {
        60
    } else if level == 1 {
        100
    } else {
        150
    }
}

/// Hit points of the boss of sector `level` (the last sector for any later
/// index).
pub fn boss_hp(level: usize) -> (hp: i32)
    ensures
        hp == boss_hp_of(level as int),
{
    if level == 0 {
        60
    } else if level == 1 {
        100
    } else {
        150
    }
}

/// Name of sector `level`.
pub open spec fn sector_name_of(level: int) -> &'static str {
    if level == 0 {
        "SECTOR 1: ORBITAL PERIMETER"
    } else if level == 1 {
        "SECTOR 2: THE SCRAPYARD"
    } else {
        "SECTOR 3: THE LEVIATHAN"
    }
}

/// Name of sector `level`.
pub fn sector_name(level: usize) -> (name: &'static str)
    ensures
        name == sector_name_of(level as int),
{
    if level == 0 {
        "SECTOR 1: ORBITAL PERIMETER"
    } else if level == 1 {
        "SECTOR 2: THE SCRAPYARD"
    } else {
        "SECTOR 3: THE LEVIATHAN"
    }
}

/// Name of the boss of sector `level`.
pub fn boss_name(level: usize) -> (text: &'static str)
    ensures
        text == (if level == 0 {
            "DEFENSE SATELLITE"
        } else if level == 1 {
            "CYBORG CARRIER"
        } else {
            "THE LEVIATHAN"
        }),
{
    if level == 0 {
        "DEFENSE SATELLITE"
    } else if level == 1 {
        "CYBORG CARRIER"
    } else {
        "THE LEVIATHAN"
    }
}

/// The wave schedule of sector `level` (the last sector for any later
/// index), in order of time.
pub open spec fn waves_of(level: int) -> Seq<WaveEvent> {
    if level == 0 {
        seq![
            WaveEvent { second: 2, etype: EnemyType::Drone, x: 600, y: 80, count: 3 },
            WaveEvent { second: 5, etype: EnemyType::Drone, x: 600, y: 200, count: 4 },
            WaveEvent { second: 8, etype: EnemyType::Drone, x: 600, y: 350, count: 3 },
            WaveEvent { second: 12, etype: EnemyType::Gunship, x: 650, y: 150, count: 1 },
            WaveEvent { second: 15, etype: EnemyType::Drone, x: 600, y: 100, count: 5 },
            WaveEvent { second: 18, etype: EnemyType::Gunship, x: 650, y: 300, count: 1 },
            WaveEvent { second: 20, etype: EnemyType::Drone, x: 600, y: 250, count: 4 },
            WaveEvent { second: 24, etype: EnemyType::Turret, x: 550, y: 50, count: 1 },
            WaveEvent { second: 26, etype: EnemyType::Drone, x: 600, y: 400, count: 5 },
            WaveEvent { second: 30, etype: EnemyType::Gunship, x: 650, y: 200, count: 2 },
        ]
    } else if level == 1 {
        seq![
            WaveEvent { second: 2, etype: EnemyType::Drone, x: 600, y: 60, count: 5 },
            WaveEvent { second: 4, etype: EnemyType::Drone, x: 600, y: 300, count: 4 },
            WaveEvent { second: 7, etype: EnemyType::Gunship, x: 650, y: 120, count: 2 },
            WaveEvent { second: 10, etype: EnemyType::Turret, x: 520, y: 80, count: 1 },
            WaveEvent { second: 12, etype: EnemyType::Drone, x: 600, y: 200, count: 6 },
            WaveEvent { second: 14, etype: EnemyType::Gunship, x: 650, y: 350, count: 2 },
            WaveEvent { second: 17, etype: EnemyType::Turret, x: 540, y: 400, count: 1 },
            WaveEvent { second: 19, etype: EnemyType::Drone, x: 600, y: 150, count: 5 },
            WaveEvent { second: 22, etype: EnemyType::Gunship, x: 650, y: 250, count: 3 },
            WaveEvent { second: 25, etype: EnemyType::Drone, x: 600, y: 380, count: 6 },
            WaveEvent { second: 28, etype: EnemyType::Turret, x: 500, y: 200, count: 1 },
            WaveEvent { second: 30, etype: EnemyType::Gunship, x: 650, y: 100, count: 2 },
        ]
    } else {
        seq![
            WaveEvent { second: 2, etype: EnemyType::Drone, x: 600, y: 100, count: 6 },
            WaveEvent { second: 3, etype: EnemyType::Drone, x: 600, y: 350, count: 6 },
            WaveEvent { second: 5, etype: EnemyType::Gunship, x: 650, y: 200, count: 3 },
            WaveEvent { second: 7, etype: EnemyType::Turret, x: 500, y: 60, count: 1 },
            WaveEvent { second: 8, etype: EnemyType::Turret, x: 500, y: 420, count: 1 },
            WaveEvent { second: 10, etype: EnemyType::Drone, x: 600, y: 240, count: 8 },
            WaveEvent { second: 13, etype: EnemyType::Gunship, x: 650, y: 150, count: 3 },
            WaveEvent { second: 15, etype: EnemyType::Gunship, x: 650, y: 350, count: 3 },
            WaveEvent { second: 18, etype: EnemyType::Turret, x: 480, y: 150, count: 1 },
            WaveEvent { second: 20, etype: EnemyType::Drone, x: 600, y: 200, count: 8 },
            WaveEvent { second: 22, etype: EnemyType::Gunship, x: 650, y: 280, count: 4 },
            WaveEvent { second: 25, etype: EnemyType::Turret, x: 520, y: 380, count: 1 },
            WaveEvent { second: 28, etype: EnemyType::Drone, x: 600, y: 100, count: 10 },
            WaveEvent { second: 30, etype: EnemyType::Gunship, x: 650, y: 200, count: 4 },
        ]
    }
}

/// The wave schedule of sector `level` (the last sector for any later
/// index), in order of time.
pub fn level_waves(level: usize) -> (waves: Vec<WaveEvent>)
    ensures
        waves@ == waves_of(level as int),
{
    if level == 0 {
        vec![
            WaveEvent { second: 2, etype: EnemyType::Drone, x: 600, y: 80, count: 3 },
            WaveEvent { second: 5, etype: EnemyType::Drone, x: 600, y: 200, count: 4 },
            WaveEvent { second: 8, etype: EnemyType::Drone, x: 600, y: 350, count: 3 },
            WaveEvent { second: 12, etype: EnemyType::Gunship, x: 650, y: 150, count: 1 },
            WaveEvent { second: 15, etype: EnemyType::Drone, x: 600, y: 100, count: 5 },
            WaveEvent { second: 18, etype: EnemyType::Gunship, x: 650, y: 300, count: 1 },
            WaveEvent { second: 20, etype: EnemyType::Drone, x: 600, y: 250, count: 4 },
            WaveEvent { second: 24, etype: EnemyType::Turret, x: 550, y: 50, count: 1 },
            WaveEvent { second: 26, etype: EnemyType::Drone, x: 600, y: 400, count: 5 },
            WaveEvent { second: 30, etype: EnemyType::Gunship, x: 650, y: 200, count: 2 },
        ]
    } else if level == 1 {
        vec![
            WaveEvent { second: 2, etype: EnemyType::Drone, x: 600, y: 60, count: 5 },
            WaveEvent { second: 4, etype: EnemyType::Drone, x: 600, y: 300, count: 4 },
            WaveEvent { second: 7, etype: EnemyType::Gunship, x: 650, y: 120, count: 2 },
            WaveEvent { second: 10, etype: EnemyType::Turret, x: 520, y: 80, count: 1 },
            WaveEvent { second: 12, etype: EnemyType::Drone, x: 600, y: 200, count: 6 },
            WaveEvent { second: 14, etype: EnemyType::Gunship, x: 650, y: 350, count: 2 },
            WaveEvent { second: 17, etype: EnemyType::Turret, x: 540, y: 400, count: 1 },
            WaveEvent { second: 19, etype: EnemyType::Drone, x: 600, y: 150, count: 5 },
            WaveEvent { second: 22, etype: EnemyType::Gunship, x: 650, y: 250, count: 3 },
            WaveEvent { second: 25, etype: EnemyType::Drone, x: 600, y: 380, count: 6 },
            WaveEvent { second: 28, etype: EnemyType::Turret, x: 500, y: 200, count: 1 },
            WaveEvent { second: 30, etype: EnemyType::Gunship, x: 650, y: 100, count: 2 },
        ]
    } else {
        vec![
            WaveEvent { second: 2, etype: EnemyType::Drone, x: 600, y: 100, count: 6 },
            WaveEvent { second: 3, etype: EnemyType::Drone, x: 600, y: 350, count: 6 },
            WaveEvent { second: 5, etype: EnemyType::Gunship, x: 650, y: 200, count: 3 },
            WaveEvent { second: 7, etype: EnemyType::Turret, x: 500, y: 60, count: 1 },
            WaveEvent { second: 8, etype: EnemyType::Turret, x: 500, y: 420, count: 1 },
            WaveEvent { second: 10, etype: EnemyType::Drone, x: 600, y: 240, count: 8 },
            WaveEvent { second: 13, etype: EnemyType::Gunship, x: 650, y: 150, count: 3 },
            WaveEvent { second: 15, etype: EnemyType::Gunship, x: 650, y: 350, count: 3 },
            WaveEvent { second: 18, etype: EnemyType::Turret, x: 480, y: 150, count: 1 },
            WaveEvent { second: 20, etype: EnemyType::Drone, x: 600, y: 200, count: 8 },
            WaveEvent { second: 22, etype: EnemyType::Gunship, x: 650, y: 280, count: 4 },
            WaveEvent { second: 25, etype: EnemyType::Turret, x: 520, y: 380, count: 1 },
            WaveEvent { second: 28, etype: EnemyType::Drone, x: 600, y: 100, count: 10 },
            WaveEvent { second: 30, etype: EnemyType::Gunship, x: 650, y: 200, count: 4 },
        ]
    }
}

/// The briefing shown before sector `level`.
pub open spec fn intro_text_of(level: int) -> &'static str {
    if level == 0 {
        "CHROME VIPER FLIGHT LOG -- 2187.09.14\n\n\
            AXIOM megacorp has seized control of every\n\
            orbital colony in the Sol system. Their\n\
            defense grid spans millions of kilometers.\n\n\
            You are callsign VIPER -- the last pilot\n\
            crazy enough to fly into AXIOM space.\n\n\
            Your target: the flagship LEVIATHAN.\n\
            First, punch through the orbital perimeter.\n\n\
            D-PAD: Move  X: Fire  SPACE: Special  ENTER: Start"
    } else if level == 1 {
        "AXIOM NET -- PRIORITY ALERT\n\n\
            \"All units: the insurgent pilot designated\n\
            VIPER has breached the orbital perimeter.\n\
            Director Kaine has authorized lethal force.\"\n\n\
            The Scrapyard -- AXIOM's dumping ground for\n\
            decommissioned warships. But the drones here\n\
            aren't decommissioned. They're feral.\n\n\
            Somewhere in this maze of dead metal,\n\
            the Cyborg Carrier waits."
    } else {
        "CHROME VIPER -- FINAL APPROACH\n\n\
            The Leviathan fills your entire viewport.\n\
            Three kilometers of armored death, bristling\n\
            with weapons that could crack a moon.\n\n\
            AXIOM BROADCAST [ALL CHANNELS]:\n\
            \"This is Director Kaine. VIPER, you've\n\
            fought well. But the Leviathan has never\n\
            been defeated. Surrender now and I'll make\n\
            your death quick.\"\n\n\
            Your response: full throttle."
    }
}

/// The briefing shown before sector `level`.
pub fn intro_text(level: usize) -> (text: &'static str)
    ensures
        text == intro_text_of(level as int),
{
    if level == 0 {
        "CHROME VIPER FLIGHT LOG -- 2187.09.14\n\n\
            AXIOM megacorp has seized control of every\n\
            orbital colony in the Sol system. Their\n\
            defense grid spans millions of kilometers.\n\n\
            You are callsign VIPER -- the last pilot\n\
            crazy enough to fly into AXIOM space.\n\n\
            Your target: the flagship LEVIATHAN.\n\
            First, punch through the orbital perimeter.\n\n\
            D-PAD: Move  X: Fire  SPACE: Special  ENTER: Start"
    } else if level == 1 {
        "AXIOM NET -- PRIORITY ALERT\n\n\
            \"All units: the insurgent pilot designated\n\
            VIPER has breached the orbital perimeter.\n\
            Director Kaine has authorized lethal force.\"\n\n\
            The Scrapyard -- AXIOM's dumping ground for\n\
            decommissioned warships. But the drones here\n\
            aren't decommissioned. They're feral.\n\n\
            Somewhere in this maze of dead metal,\n\
            the Cyborg Carrier waits."
    } else {
        "CHROME VIPER -- FINAL APPROACH\n\n\
            The Leviathan fills your entire viewport.\n\
            Three kilometers of armored death, bristling\n\
            with weapons that could crack a moon.\n\n\
            AXIOM BROADCAST [ALL CHANNELS]:\n\
            \"This is Director Kaine. VIPER, you've\n\
            fought well. But the Leviathan has never\n\
            been defeated. Surrender now and I'll make\n\
            your death quick.\"\n\n\
            Your response: full throttle."
    }
}

/// The debriefing shown after the boss of sector `level` falls; empty for
/// the last sector.
pub open spec fn clear_text_of(level: int) -> &'static str {
    if level == 0 {
        "The Defense Satellite collapses in a\n\
            cascade of blue fire. Debris tumbles into\n\
            the atmosphere below.\n\n\
            AXIOM COMMS [INTERCEPTED]:\n\
            \"Perimeter breach in Sector 7. Deploy the\n\
            Cyborg Carrier. All units converge.\"\n\n\
            They know you're coming. Good."
    } else if level == 1 {
        "The Carrier's hull splits open, spewing\n\
            corrupted drones into the void. Its AI\n\
            screams on every frequency before going\n\
            silent.\n\n\
            AXIOM COMMS [INTERCEPTED]:\n\
            \"Director Kaine, the Carrier is down.\n\
            VIPER is approaching the Leviathan.\"\n\
            \"Then wake it up. ALL of it.\"\n\n\
            The Leviathan. The end of the line."
    } else {
        ""
    }
}

/// The debriefing shown after the boss of sector `level` falls; empty for
/// the last sector.
pub fn clear_text(level: usize) -> (text: &'static str)
    ensures
        text == clear_text_of(level as int),
{
    if level == 0 {
        "The Defense Satellite collapses in a\n\
            cascade of blue fire. Debris tumbles into\n\
            the atmosphere below.\n\n\
            AXIOM COMMS [INTERCEPTED]:\n\
            \"Perimeter breach in Sector 7. Deploy the\n\
            Cyborg Carrier. All units converge.\"\n\n\
            They know you're coming. Good."
    } else if level == 1 {
        "The Carrier's hull splits open, spewing\n\
            corrupted drones into the void. Its AI\n\
            screams on every frequency before going\n\
            silent.\n\n\
            AXIOM COMMS [INTERCEPTED]:\n\
            \"Director Kaine, the Carrier is down.\n\
            VIPER is approaching the Leviathan.\"\n\
            \"Then wake it up. ALL of it.\"\n\n\
            The Leviathan. The end of the line."
    } else {
        ""
    }
}

/// The closing story after the last sector.
pub open spec fn victory_text_of() -> &'static str {
    "The Leviathan erupts in a chain reaction\n\
    of neon fire. Director Kaine's last\n\
    transmission cuts to static mid-sentence.\n\n\
    Across the colonies, AXIOM's control\n\
    network goes dark. Defense grids shut down.\n\
    Prison doors unlock. Propaganda feeds\n\
    dissolve into white noise.\n\n\
    The colonies are free.\n\n\
    You bank the Chrome Viper toward the\n\
    nearest station, fuel nearly spent,\n\
    hull scarred with a hundred impacts.\n\n\
    They'll call you a hero. You know better.\n\
    You're just a pilot who was angry enough\n\
    to fly into hell.\n\n\
    But tonight, the neon burns a little\n\
    brighter."
}

/// The closing story after the last sector.
pub fn victory_text() -> (text: &'static str)
    ensures
        text == victory_text_of(),
{
    "The Leviathan erupts in a chain reaction\n\
    of neon fire. Director Kaine's last\n\
    transmission cuts to static mid-sentence.\n\n\
    Across the colonies, AXIOM's control\n\
    network goes dark. Defense grids shut down.\n\
    Prison doors unlock. Propaganda feeds\n\
    dissolve into white noise.\n\n\
    The colonies are free.\n\n\
    You bank the Chrome Viper toward the\n\
    nearest station, fuel nearly spent,\n\
    hull scarred with a hundred impacts.\n\n\
    They'll call you a hero. You know better.\n\
    You're just a pilot who was angry enough\n\
    to fly into hell.\n\n\
    But tonight, the neon burns a little\n\
    brighter."
}

// ---------------------------------------------------------------------------
// Enemy stats
// ---------------------------------------------------------------------------

/// Hit points, score value and firing period of a wave enemy.
#[derive(Debug, Clone, Copy, PartialEq, Eq, Structural)]
pub struct EnemyStats {
    pub hp: i32,
    pub score: u32,
    pub shoot_cooldown: i32,
}

/// The stats an enemy of type `etype` enters with; the boss gets its own
/// (see [`boss_stats`]).
pub open spec fn enemy_stats_of(etype: EnemyType) -> EnemyStats {
    match etype {
        EnemyType::Drone => EnemyStats { hp: 1, score: 100, shoot_cooldown: 9999 },
        EnemyType::Gunship => EnemyStats { hp: 3, score: 250, shoot_cooldown: 90 },
        EnemyType::Turret => EnemyStats { hp: 5, score: 400, shoot_cooldown: 60 },
        EnemyType::Boss => EnemyStats { hp: 1, score: 0, shoot_cooldown: 0 },
    }
}

/// The stats an enemy of type `etype` enters with.
pub fn enemy_stats(etype: EnemyType) -> (st: EnemyStats)
    ensures
        st == enemy_stats_of(etype),
{
    match etype {
        EnemyType::Drone => EnemyStats { hp: 1, score: 100, shoot_cooldown: 9999 },
        EnemyType::Gunship => EnemyStats { hp: 3, score: 250, shoot_cooldown: 90 },
        EnemyType::Turret => EnemyStats { hp: 5, score: 400, shoot_cooldown: 60 },
        EnemyType::Boss => EnemyStats { hp: 1, score: 0, shoot_cooldown: 0 },
    }
}

/// The boss of sector `level`: its sector's hit points, 2000 points, a shot
/// every 30 frames.
pub fn boss_stats(level: usize) -> (st: EnemyStats)
    ensures
        st == (EnemyStats { hp: boss_hp_of(level as int), score: 2000, shoot_cooldown: 30 }),
{
    EnemyStats { hp: boss_hp(level), score: 2000, shoot_cooldown: 30 }
}

/// Screen row of the `i`-th enemy of a wave entering at row `y`: 40 pixels
/// apart, kept between rows 20 and 460.
pub fn wave_spawn_y(y: i32, i: u32) -> (row: i32)
    ensures
        row == (if y + 40 * i < 20 { 20 } else if y + 40 * i > 460 { 460 } else { y + 40 * i }),
{
    let v: i64 = y as i64 + 40 * (i as i64);
    if v < 20 {
        20
    } else if v > 460 {
        460
    } else {
        v as i32
    }
}

// ---------------------------------------------------------------------------
// Game state
// ---------------------------------------------------------------------------

pub const MAX_SHIELDS: i32 = 3;
pub const INVULN_FRAMES: i32 = 90;
pub const WEAPON_FRAMES: i32 = 600;
pub const CHAIN_FRAMES: i32 = 120;
pub const STORY_WAIT_FRAMES: i32 = 120;

/// What a frame of play decided.
#[derive(Debug, Clone, Copy, PartialEq, Eq, Structural)]
pub struct PlayTick {
    /// The frame was swallowed by hit stop.
    pub skipped: bool,
    /// The gun fired (with this weapon).
    pub shot: Option<WeaponType>,
    /// An EMP went off: every enemy loses 3 hit points and enemy bullets vanish.
    pub emp_fired: bool,
}

/// What a hit on the ship did.
#[derive(Debug, Clone, Copy, PartialEq, Eq, Structural)]
pub enum HitOutcome {
    /// Still invulnerable.
    Ignored,
    /// A shield was lost.
    ShieldLost,
    /// The last shield was lost: game over.
    Destroyed,
}

/// The waves due this frame and whether the boss arrives.
#[derive(Debug, Clone, Copy, PartialEq, Eq, Structural)]
pub struct WaveStep {
    /// Waves `first..last` of the schedule enter now.
    pub first: usize,
    pub last: usize,
    pub spawn_boss: bool,
}

/// The integer state of the shooter: screen, sector, schedule, the ship's
/// shields and weapons, score chain and the story terminal.
pub struct Game {
    pub state: GameState,
    pub frame: i64,
    pub score: u32,
    pub level_idx: usize,
    /// Frames played in the current sector.
    pub level_frames: u64,
    pub wave_event_idx: usize,
    pub boss_spawned: bool,
    pub boss_alive: bool,
    pub shields: i32,
    pub max_shields: i32,
    pub weapon: WeaponType,
    pub weapon_timer: i32,
    pub last_shot: i64,
    pub shot_cooldown: i32,
    pub invulnerable: i32,
    pub emp_charges: i32,
    pub chain_count: u32,
    pub chain_timer: i32,
    pub hitstop_frames: i32,
    pub muzzle_flash: i32,
    pub emp_flash: i32,
    pub story_text: &'static str,
    pub story_char_idx: usize,
    /// The bytes of the story typed so far.
    pub story_displayed: Vec<u8>,
    pub story_wait: i32,
    pub showing_clear_text: bool,
    pub victory_triggered: bool,
}

impl Game {
    /// Ranges the rules keep, a screen that fits the sector, and a terminal
    /// that shows a prefix of its story.
    pub open spec fn wf(&self) -> bool {
        &&& self.ranges_ok()
        &&& self.state == GameState::Playing ==> self.level_idx < LEVEL_COUNT
        &&& self.state == GameState::Story && !self.victory_triggered ==> self.level_idx < LEVEL_COUNT
        &&& self.state == GameState::LevelStory ==> self.showing_clear_text && self.level_idx < LEVEL_COUNT
    }

    /// Ranges of the counters, and a terminal that shows a prefix of its story.
    pub open spec fn ranges_ok(&self) -> bool {
        &&& self.max_shields == MAX_SHIELDS
        &&& self.shields <= self.max_shields
        &&& 0 <= self.invulnerable <= INVULN_FRAMES
        &&& 0 <= self.weapon_timer <= WEAPON_FRAMES
        &&& 0 <= self.shot_cooldown
        &&& 0 <= self.emp_charges
        &&& 0 <= self.chain_timer <= CHAIN_FRAMES
        &&& 0 <= self.hitstop_frames <= 6
        &&& 0 <= self.muzzle_flash <= 4
        &&& 0 <= self.emp_flash <= 15
        &&& 0 <= self.story_wait <= STORY_WAIT_FRAMES
        &&& self.level_idx <= LEVEL_COUNT
        &&& self.frame >= 0
        &&& self.last_shot >= -100
        &&& self.wave_event_idx <= waves_of(self.level_idx as int).len()
        &&& self.story_char_idx <= self.story_text.spec_bytes().len()
        &&& self.story_displayed@ == self.story_text.spec_bytes().subrange(0, self.story_char_idx as int)
    }

    /// `g` with score, sector, ship, chain and flags back to a new game's.
    pub open spec fn fresh_game_of(g: Game) -> Game {
        Game {
            score: 0,
            level_idx: 0,
            wave_event_idx: 0,
            shields: MAX_SHIELDS,
            max_shields: MAX_SHIELDS,
            weapon: WeaponType::DualLaser,
            weapon_timer: 0,
            last_shot: -100i64,
            shot_cooldown: 10,
            invulnerable: 0,
            emp_charges: 1,
            chain_count: 0,
            chain_timer: 0,
            muzzle_flash: 0,
            victory_triggered: false,
            boss_spawned: false,
            boss_alive: false,
            hitstop_frames: 0,
            emp_flash: 0,
            ..g
        }
    }

    /// `g` launched into its sector: the sector clock and the wave schedule
    /// start over, no boss yet, no chain, and the gun is ready.
    pub open spec fn launched_of(g: Game) -> Game {
        Game {
            state: GameState::Playing,
            frame: 0,
            level_frames: 0,
            wave_event_idx: 0,
            boss_spawned: false,
            boss_alive: false,
            chain_count: 0,
            chain_timer: 0,
            last_shot: -100i64,
            ..g
        }
    }

    /// `self` is `g` with the story `text` on the terminal, nothing typed yet.
    pub open spec fn shows_story_of(&self, g: Game, text: &'static str) -> bool {
        &&& *self == (Game {
            story_text: text,
            story_char_idx: 0,
            story_wait: 0,
            story_displayed: self.story_displayed,
            ..g
        })
        &&& self.story_displayed@ == Seq::<u8>::empty()
    }

    /// The title screen of a new game.
    pub fn new() -> (g: Self)
        ensures
            g.wf(),
            g == (Game {
                state: GameState::Start,
                frame: 0,
                level_frames: 0,
                story_text: g.story_text,
                story_char_idx: 0,
                story_displayed: g.story_displayed,
                story_wait: 0,
                showing_clear_text: false,
                ..Game::fresh_game_of(g)
            }),
            g.story_text@.len() == 0,
    {
        assert("".spec_bytes().subrange(0, 0) =~= Seq::<u8>::empty());
        proof {
            reveal_strlit("");
        }
        Game {
            state: GameState::Start,
            frame: 0,
            score: 0,
            level_idx: 0,
            level_frames: 0,
            wave_event_idx: 0,
            boss_spawned: false,
            boss_alive: false,
            shields: MAX_SHIELDS,
            max_shields: MAX_SHIELDS,
            weapon: WeaponType::DualLaser,
            weapon_timer: 0,
            last_shot: -100i64,
            shot_cooldown: 10,
            invulnerable: 0,
            emp_charges: 1,
            chain_count: 0,
            chain_timer: 0,
            hitstop_frames: 0,
            muzzle_flash: 0,
            emp_flash: 0,
            story_text: "",
            story_char_idx: 0,
            story_displayed: Vec::new(),
            story_wait: 0,
            showing_clear_text: false,
            victory_triggered: false,
        }
    }

    /// Score, sector, ship, chain and flags back to a new game's.
    pub fn reset_for_new_game(&mut self)
        requires
            old(self).wf(),
            old(self).state != GameState::Playing,
        ensures
            final(self).wf(),
            *final(self) == Game::fresh_game_of(*old(self)),
    {
        self.score = 0;
        self.level_idx = 0;
        self.wave_event_idx = 0;
        self.shields = MAX_SHIELDS;
        self.max_shields = MAX_SHIELDS;
        self.weapon = WeaponType::DualLaser;
        self.weapon_timer = 0;
        self.last_shot = -100;
        self.shot_cooldown = 10;
        self.invulnerable = 0;
        self.emp_charges = 1;
        self.chain_count = 0;
        self.chain_timer = 0;
        self.muzzle_flash = 0;
        self.victory_triggered = false;
        self.boss_spawned = false;
        self.boss_alive = false;
        self.hitstop_frames = 0;
        self.emp_flash = 0;
    }

    /// Put `text` on the terminal with nothing typed yet.
    fn load_story(&mut self, text: &'static str)
        ensures
            final(self).shows_story_of(*old(self), text),
            final(self).story_displayed@ == text.spec_bytes().subrange(0, 0),
    {
        self.story_text = text;
        self.story_char_idx = 0;
        self.story_displayed = Vec::new();
        self.story_wait = 0;
        assert(text.spec_bytes().subrange(0, 0) =~= Seq::<u8>::empty());
    }

    /// A new game begins with the briefing of the first sector.
    pub fn start_intro_story(&mut self)
        requires
            old(self).wf(),
            old(self).state != GameState::Playing,
        ensures
            final(self).wf(),
            final(self).shows_story_of(
                Game { state: GameState::Story, showing_clear_text: false, ..Game::fresh_game_of(*old(self)) },
                intro_text_of(0),
            ),
    {
        self.reset_for_new_game();
        self.state = GameState::Story;
        self.showing_clear_text = false;
        let text = intro_text(0);
        self.load_story(text);
    }

    /// After a sector's boss falls, its debriefing goes on the terminal.
    pub fn start_level_story(&mut self, text: &'static str)
        requires
            old(self).wf(),
            old(self).level_idx < LEVEL_COUNT,
        ensures
            final(self).wf(),
            final(self).shows_story_of(
                Game { state: GameState::LevelStory, showing_clear_text: true, ..*old(self) },
                text,
            ),
    {
        self.state = GameState::LevelStory;
        self.showing_clear_text = true;
        self.load_story(text);
    }

    /// Launch into the current sector: the sector clock and wave schedule
    /// start over, no boss yet, no chain, and the gun is ready.
    pub fn start_level(&mut self)
        requires
            old(self).wf(),
            old(self).level_idx < LEVEL_COUNT,
        ensures
            final(self).wf(),
            *final(self) == Game::launched_of(*old(self)),
    {
        self.state = GameState::Playing;
        self.frame = 0;
        self.level_frames = 0;
        self.wave_event_idx = 0;
        self.boss_spawned = false;
        self.boss_alive = false;
        self.chain_count = 0;
        self.chain_timer = 0;
        self.last_shot = -100;
    }

    /// The closing story goes on the terminal; reading it wins the game.
    pub fn show_victory(&mut self)
        requires
            old(self).ranges_ok(),
        ensures
            final(self).wf(),
            final(self).shows_story_of(
                Game { state: GameState::Story, victory_triggered: true, ..*old(self) },
                victory_text_of(),
            ),
    {
        self.state = GameState::Story;
        self.victory_triggered = true;
        let text = victory_text();
        self.load_story(text);
    }

    /// The ship is destroyed.
    pub fn game_over(&mut self)
        requires
            old(self).wf(),
        ensures
            final(self).wf(),
            *final(self) == (Game { state: GameState::GameOver, ..*old(self) }),
    {
        self.state = GameState::GameOver;
    }
}

/// What a frame of a story screen did.
#[derive(Debug, Clone, Copy, PartialEq, Eq, Structural)]
pub enum StoryStep {
    /// Still typing or waiting.
    Stay,
    /// The closing story was read: the game is won.
    Won,
    /// A debriefing was read: the next sector's briefing is on the terminal.
    NextBriefing,
    /// The last debriefing was read: the closing story is on the terminal.
    Victory,
    /// A briefing was read: the sector begins.
    Launch,
}

/// What the end-of-sector check found.
#[derive(Debug, Clone, Copy, PartialEq, Eq, Structural)]
pub enum ClearStep {
    /// The sector goes on.
    Continue,
    /// The boss fell: the debriefing is on the terminal.
    Debrief,
    /// The boss of the last sector fell: the closing story is on the terminal.
    Victory,
}

/// The bytes of `text`.
pub fn text_bytes(text: &str) -> (v: Vec<u8>)
    ensures
        v@ == text.spec_bytes(),
{
    let b = text.as_bytes();
    let mut v: Vec<u8> = Vec::new();
    let mut i: usize = 0;
    while i < b.len()
        invariant
            i <= b@.len(),
            b@ == text.spec_bytes(),
            v@ == b@.subrange(0, i as int),
        decreases b@.len() - i,
    {
        v.push(b[i]);
        assert(b@.subrange(0, i + 1) =~= b@.subrange(0, i as int).push(b@[i as int]));
        i = i + 1;
    }
    assert(b@.subrange(0, b@.len() as int) =~= b@);
    v
}

/// Points for a kill worth `value` as the `chain`-th of a chain: the value
/// times `1 + chain / 2`, rounded down.
pub open spec fn kill_points(value: int, chain: int) -> int {
    value * (2 + chain) / 2
}

/// The chain multiplier is `1 + chain / 2`: twice the points of a kill worth
/// `value` as the `chain`-th of a chain lie within one of `value * (2 +
/// chain)`, so each kill of a chain earns half the value more than the one
/// before it, and two more kills earn exactly the value more.
pub proof fn lemma_chain_multiplier(value: int, chain: int)
    requires
        0 <= value,
        0 <= chain,
    ensures
        2 * kill_points(value, chain) <= value * (2 + chain) <= 2 * kill_points(value, chain) + 1,
        kill_points(value, chain + 2) == kill_points(value, chain) + value,
        kill_points(value, chain) <= kill_points(value, chain + 1),
{
    let n = value * (2 + chain);
    lemma_fundamental_div_mod(n, 2);
    lemma_mod_pos_bound(n, 2);
    let n2 = value * (2 + chain + 2);
    assert(n2 == n + 2 * value) by (nonlinear_arith)
        requires
            n == value * (2 + chain),
            n2 == value * (2 + chain + 2),
    ;
    lemma_fundamental_div_mod(n2, 2);
    lemma_mod_pos_bound(n2, 2);
    let n1 = value * (2 + chain + 1);
    assert(n1 == n + value) by (nonlinear_arith)
        requires
            n == value * (2 + chain),
            n1 == value * (2 + chain + 1),
    ;
    lemma_fundamental_div_mod(n1, 2);
    lemma_mod_pos_bound(n1, 2);
}

/// Whether wave `w` is due `frames` frames into the sector.
pub open spec fn wave_due(w: WaveEvent, frames: int) -> bool {
    frames >= w.second * 60
}

/// Firing period of a weapon.
pub open spec fn weapon_cooldown(w: WeaponType) -> i32 {
    match w {
        WeaponType::DualLaser => 10,
        WeaponType::SpreadShot => 14,
        WeaponType::HomingMissile => 18,
    }
}

impl Game {
    /// A power weapon's time runs down; when it runs out the dual laser is back.
    fn weapon_timer_tick(&mut self)
        requires
            old(self).wf(),
        ensures
            final(self).wf(),
            *final(self) == (Game {
                weapon_timer: if old(self).weapon_timer > 0 { (old(self).weapon_timer - 1) as i32 } else { 0 },
                weapon: if old(self).weapon_timer == 1 { WeaponType::DualLaser } else { old(self).weapon },
                ..*old(self)
            }),
    {
        if self.weapon_timer > 0 {
            self.weapon_timer = self.weapon_timer - 1;
            if self.weapon_timer <= 0 {
                self.weapon = WeaponType::DualLaser;
            }
        }
    }

    /// Invulnerability, chain, muzzle flash and EMP flash run down by a frame;
    /// an expired chain resets.
    fn run_down_timers(&mut self)
        requires
            old(self).wf(),
        ensures
            final(self).wf(),
            *final(self) == (Game {
                invulnerable: if old(self).invulnerable > 0 { (old(self).invulnerable - 1) as i32 } else { 0 },
                chain_timer: if old(self).chain_timer > 0 { (old(self).chain_timer - 1) as i32 } else { 0 },
                chain_count: if old(self).chain_timer == 1 { 0 } else { old(self).chain_count },
                muzzle_flash: if old(self).muzzle_flash > 0 { (old(self).muzzle_flash - 1) as i32 } else { 0 },
                emp_flash: if old(self).emp_flash > 0 { (old(self).emp_flash - 1) as i32 } else { 0 },
                ..*old(self)
            }),
    {
        if self.invulnerable > 0 {
            self.invulnerable = self.invulnerable - 1;
        }
        if self.chain_timer > 0 {
            self.chain_timer = self.chain_timer - 1;
            if self.chain_timer <= 0 {
                self.chain_count = 0;
            }
        }
        if self.muzzle_flash > 0 {
            self.muzzle_flash = self.muzzle_flash - 1;
        }
        if self.emp_flash > 0 {
            self.emp_flash = self.emp_flash - 1;
        }
    }

    /// The title screen: a press (Enter, X or Space) starts a new game.
    pub fn update_start_screen(&mut self, pressed: bool)
        requires
            old(self).wf(),
            old(self).state == GameState::Start,
            old(self).frame < i64::MAX,
        ensures
            final(self).wf(),
            pressed ==>
                final(self).shows_story_of(
                    Game {
                        state: GameState::Story,
                        showing_clear_text: false,
                        frame: (old(self).frame + 1) as i64,
                        ..Game::fresh_game_of(*old(self))
                    },
                    intro_text_of(0),
                ),
            !pressed ==> *final(self) == (Game { frame: (old(self).frame + 1) as i64, ..*old(self) }),
    {
        if pressed {
            self.start_intro_story();
        }
        self.frame = self.frame + 1;
    }

    /// The game-over and victory screens: a press (Enter, X or Space) starts
    /// a new game.
    pub fn update_end_screen(&mut self, pressed: bool)
        requires
            old(self).wf(),
            old(self).state == GameState::GameOver || old(self).state == GameState::Win,
            old(self).frame < i64::MAX,
        ensures
            final(self).wf(),
            pressed ==>
                final(self).shows_story_of(
                    Game {
                        state: GameState::Story,
                        showing_clear_text: false,
                        frame: (old(self).frame + 1) as i64,
                        ..Game::fresh_game_of(*old(self))
                    },
                    intro_text_of(0),
                ),
            !pressed ==> *final(self) == (Game { frame: (old(self).frame + 1) as i64, ..*old(self) }),
    {
        if pressed {
            self.start_intro_story();
        }
        self.frame = self.frame + 1;
    }

    /// A frame of a story screen. While text remains, a byte is typed on even
    /// frames and a skip (Enter or X) shows the whole text. Once it is all
    /// shown the terminal waits 120 frames or for a press, then: the closing
    /// story wins the game; a debriefing leads to the next sector's briefing
    /// (or to the closing story after the last sector); a briefing launches
    /// the sector.
    pub fn update_story_screen(&mut self, skip: bool) -> (step: StoryStep)
        requires
            old(self).wf(),
            old(self).state == GameState::Story || old(self).state == GameState::LevelStory,
            old(self).frame < i64::MAX,
        ensures
            final(self).wf(),
            ({
                let bytes = old(self).story_text.spec_bytes();
                let idx = old(self).story_char_idx as int;
                let next = (old(self).frame + 1) as i64;
                let wait1 = (if old(self).story_wait == 0 { STORY_WAIT_FRAMES as int } else { old(self).story_wait as int }) - 1;
                let waited = Game { story_wait: wait1 as i32, ..*old(self) };
                if idx < bytes.len() {
                    let typed = if skip { bytes.len() as int } else if old(self).frame % 2 == 0 { idx + 1 } else { idx };
                    &&& step == StoryStep::Stay
                    &&& *final(self) == (Game {
                        frame: next,
                        story_char_idx: typed as usize,
                        story_displayed: final(self).story_displayed,
                        ..*old(self)
                    })
                } else if !(wait1 <= 0 || skip) {
                    &&& step == StoryStep::Stay
                    &&& *final(self) == (Game { frame: next, ..waited })
                } else if old(self).victory_triggered {
                    &&& step == StoryStep::Won
                    &&& *final(self) == (Game { state: GameState::Win, frame: next, ..waited })
                } else if old(self).state == GameState::LevelStory {
                    let after = Game {
                        level_idx: (old(self).level_idx + 1) as usize,
                        state: GameState::Story,
                        frame: next,
                        ..waited
                    };
                    if old(self).level_idx + 1 >= LEVEL_COUNT {
                        &&& step == StoryStep::Victory
                        &&& final(self).shows_story_of(Game { victory_triggered: true, ..after }, victory_text_of())
                    } else {
                        &&& step == StoryStep::NextBriefing
                        &&& final(self).shows_story_of(
                            Game { showing_clear_text: false, ..after },
                            intro_text_of(old(self).level_idx + 1),
                        )
                    }
                } else {
                    &&& step == StoryStep::Launch
                    &&& *final(self) == (Game { frame: 1, ..Game::launched_of(waited) })
                }
            }),
    {
        let len = self.story_text.as_bytes().len();
        let mut step = StoryStep::Stay;
        if self.story_char_idx < len {
            if self.frame % 2 == 0 {
                let b = self.story_text.as_bytes()[self.story_char_idx];
                self.story_displayed.push(b);
                self.story_char_idx = self.story_char_idx + 1;
                proof {
                    let bs = self.story_text.spec_bytes();
                    let i = self.story_char_idx - 1;
                    assert(bs.subrange(0, i + 1) =~= bs.subrange(0, i).push(bs[i]));
                }
            }
            if skip {
                self.story_displayed = text_bytes(self.story_text);
                self.story_char_idx = len;
                assert(self.story_text.spec_bytes().subrange(0, len as int) =~= self.story_text.spec_bytes());
            }
        } else {
            if self.story_wait == 0 {
                self.story_wait = STORY_WAIT_FRAMES;
            }
            self.story_wait = self.story_wait - 1;
            if self.story_wait <= 0 || skip {
                if self.victory_triggered {
                    self.state = GameState::Win;
                    step = StoryStep::Won;
                } else if self.state == GameState::LevelStory && self.showing_clear_text {
                    self.level_idx = self.level_idx + 1;
                    if self.level_idx >= LEVEL_COUNT {
                        self.show_victory();
                        step = StoryStep::Victory;
                    } else {
                        self.state = GameState::Story;
                        self.showing_clear_text = false;
                        let text = intro_text(self.level_idx);
                        self.load_story(text);
                        step = StoryStep::NextBriefing;
                    }
                } else {
                    self.start_level();
                    step = StoryStep::Launch;
                }
            }
        }
        self.frame = self.frame + 1;
        step
    }

    /// The ship is hit (by a bullet or a hull): ignored while invulnerable;
    /// otherwise a shield is lost with 90 frames of invulnerability, and
    /// losing the last one ends the game.
    pub fn hit_player(&mut self) -> (outcome: HitOutcome)
        requires
            old(self).wf(),
            old(self).shields > i32::MIN,
        ensures
            final(self).wf(),
            outcome == (if old(self).invulnerable > 0 {
                HitOutcome::Ignored
            } else if old(self).shields - 1 <= 0 {
                HitOutcome::Destroyed
            } else {
                HitOutcome::ShieldLost
            }),
            outcome == HitOutcome::Ignored ==> *final(self) == *old(self),
            outcome == HitOutcome::ShieldLost ==> *final(self) == (Game {
                shields: (old(self).shields - 1) as i32,
                invulnerable: INVULN_FRAMES,
                ..*old(self)
            }),
            outcome == HitOutcome::Destroyed ==> *final(self) == (Game {
                shields: (old(self).shields - 1) as i32,
                state: GameState::GameOver,
                ..*old(self)
            }),
    {
        if self.invulnerable > 0 {
            return HitOutcome::Ignored;
        }
        self.shields = self.shields - 1;
        if self.shields <= 0 {
            self.game_over();
            HitOutcome::Destroyed
        } else {
            self.invulnerable = INVULN_FRAMES;
            HitOutcome::ShieldLost
        }
    }

    /// The gun fires: the weapon sets the firing period (dual laser 10,
    /// spread 14, homing 18 frames), the shot time is recorded and the muzzle
    /// flashes.
    pub fn player_shoot(&mut self) -> (fired: WeaponType)
        requires
            old(self).wf(),
        ensures
            final(self).wf(),
            fired == old(self).weapon,
            *final(self) == (Game {
                shot_cooldown: weapon_cooldown(old(self).weapon),
                last_shot: old(self).frame,
                muzzle_flash: 4,
                ..*old(self)
            }),
    {
        match self.weapon {
            WeaponType::DualLaser => {
                self.shot_cooldown = 10;
            },
            WeaponType::SpreadShot => {
                self.shot_cooldown = 14;
            },
            WeaponType::HomingMissile => {
                self.shot_cooldown = 18;
            },
        }
        self.last_shot = self.frame;
        self.muzzle_flash = 4;
        self.weapon
    }

    /// An EMP goes off if a charge is left: one charge is used and the
    /// screen flashes for 15 frames.
    pub fn fire_emp(&mut self) -> (fired: bool)
        requires
            old(self).wf(),
        ensures
            final(self).wf(),
            fired == (old(self).emp_charges > 0),
            fired ==> *final(self) == (Game {
                emp_charges: (old(self).emp_charges - 1) as i32,
                emp_flash: 15,
                ..*old(self)
            }),
            !fired ==> *final(self) == *old(self),
    {
        if self.emp_charges <= 0 {
            return false;
        }
        self.emp_charges = self.emp_charges - 1;
        self.emp_flash = 15;
        true
    }

    /// The integer part of a frame of play: hit stop swallows the frame;
    /// otherwise the clocks advance, a power weapon runs out back to the dual
    /// laser, the gun fires when held and its period has passed, Space sets
    /// off an EMP, and the invulnerability, chain, muzzle and EMP timers run
    /// down (an expired chain resets).
    #[verifier::rlimit(40)]
    pub fn tick_playing(&mut self, shoot_held: bool, special_pressed: bool) -> (tick: PlayTick)
        requires
            old(self).wf(),
            old(self).state == GameState::Playing,
            old(self).frame < i64::MAX - 101,
            old(self).level_frames < u64::MAX,
        ensures
            final(self).wf(),
            tick.skipped == (old(self).hitstop_frames > 0),
            tick.skipped ==> tick.shot is None && !tick.emp_fired && *final(self) == (Game {
                hitstop_frames: (old(self).hitstop_frames - 1) as i32,
                frame: (old(self).frame + 1) as i64,
                ..*old(self)
            }),
            !tick.skipped ==> ({
                let frame1 = old(self).frame + 1;
                let wt = if old(self).weapon_timer > 0 { old(self).weapon_timer - 1 } else { 0int };
                let weapon = if old(self).weapon_timer > 0 && wt <= 0 { WeaponType::DualLaser } else { old(self).weapon };
                let fires = shoot_held && ((frame1 - old(self).last_shot) as i32) > old(self).shot_cooldown;
                let emp = special_pressed && old(self).emp_charges > 0;
                let ct = if old(self).chain_timer > 0 { old(self).chain_timer - 1 } else { 0int };
                &&& tick.shot == (if fires { Some(weapon) } else { None })
                &&& tick.emp_fired == emp
                &&& *final(self) == (Game {
                    frame: frame1 as i64,
                    level_frames: (old(self).level_frames + 1) as u64,
                    weapon_timer: wt as i32,
                    weapon,
                    last_shot: if fires { frame1 as i64 } else { old(self).last_shot },
                    shot_cooldown: if fires { weapon_cooldown(weapon) } else { old(self).shot_cooldown },
                    emp_charges: if emp { (old(self).emp_charges - 1) as i32 } else { old(self).emp_charges },
                    invulnerable: if old(self).invulnerable > 0 { (old(self).invulnerable - 1) as i32 } else { 0 },
                    chain_timer: ct as i32,
                    chain_count: if old(self).chain_timer > 0 && ct <= 0 { 0 } else { old(self).chain_count },
                    muzzle_flash: if fires {
                        3
                    } else if old(self).muzzle_flash > 0 {
                        (old(self).muzzle_flash - 1) as i32
                    } else {
                        0
                    },
                    emp_flash: if emp { 14 } else if old(self).emp_flash > 0 { (old(self).emp_flash - 1) as i32 } else { 0 },
                    ..*old(self)
                })
            }),
    {
        if self.hitstop_frames > 0 {
            self.hitstop_frames = self.hitstop_frames - 1;
            self.frame = self.frame + 1;
            return PlayTick { skipped: true, shot: None, emp_fired: false };
        }
        self.frame = self.frame + 1;
        self.level_frames = self.level_frames + 1;
        self.weapon_timer_tick();
        let mut shot: Option<WeaponType> = None;
        if shoot_held && ((self.frame - self.last_shot) as i32) > self.shot_cooldown {
            shot = Some(self.player_shoot());
        }
        let mut emp_fired = false;
        if special_pressed {
            emp_fired = self.fire_emp();
        }
        self.run_down_timers();
        PlayTick { skipped: false, shot, emp_fired }
    }
}

impl Game {
    /// The waves whose time has come enter, in schedule order; once the
    /// whole schedule has entered and the screen is clear (`enemies_empty`,
    /// with no enemy entering now), the boss arrives, once.
    pub fn process_wave_events(&mut self, enemies_empty: bool) -> (step: WaveStep)
        requires
            old(self).wf(),
            old(self).state == GameState::Playing,
        ensures
            final(self).wf(),
            ({
                let ws = waves_of(old(self).level_idx as int);
                let spawned_any = exists|k: int| step.first <= k < step.last && #[trigger] ws[k].count > 0;
                &&& step.first == old(self).wave_event_idx
                &&& step.first <= step.last <= ws.len()
                &&& forall|k: int| step.first <= k < step.last ==> #[trigger] wave_due(ws[k], old(self).level_frames as int)
                &&& step.last < ws.len() ==> !wave_due(ws[step.last as int], old(self).level_frames as int)
                &&& step.spawn_boss == (step.last >= ws.len() && !old(self).boss_spawned && enemies_empty && !spawned_any)
            }),
            *final(self) == (Game {
                wave_event_idx: step.last,
                boss_spawned: old(self).boss_spawned || step.spawn_boss,
                boss_alive: old(self).boss_alive || step.spawn_boss,
                ..*old(self)
            }),
    {
        let waves = level_waves(self.level_idx);
        let first = self.wave_event_idx;
        let mut idx = first;
        let mut spawned_any = false;
        while idx < waves.len() && (self.level_frames as u128) >= (waves[idx].second as u128) * 60
            invariant
                waves@ == waves_of(self.level_idx as int),
                first <= idx <= waves@.len(),
                forall|k: int| first <= k < idx ==> #[trigger] wave_due(waves@[k], self.level_frames as int),
                spawned_any == exists|k: int| first <= k < idx && #[trigger] waves@[k].count > 0,
            decreases waves@.len() - idx,
        {
            if waves[idx].count > 0 {
                spawned_any = true;
            }
            idx = idx + 1;
        }
        let last = idx;
        let spawn_boss = last >= waves.len() && !self.boss_spawned && enemies_empty && !spawned_any;
        self.wave_event_idx = last;
        if spawn_boss {
            self.boss_spawned = true;
            self.boss_alive = true;
        }
        WaveStep { first, last, spawn_boss }
    }

    /// A player bullet hits an enemy of type `etype` with `enemy_hp` hit
    /// points, worth `value`: it loses one. A kill extends the chain (120
    /// frames to the next) and scores the value times `1 + chain / 2`; killing
    /// the boss stops the game for 6 frames and marks it dead, merely hitting
    /// it for 2. Returns the hit points left and the points scored.
    pub fn bullet_hits_enemy(&mut self, etype: EnemyType, enemy_hp: i32, value: u32) -> (res: (i32, u32))
        requires
            old(self).wf(),
            enemy_hp > i32::MIN,
            enemy_hp - 1 <= 0 ==> old(self).chain_count < u32::MAX
                && old(self).score + kill_points(value as int, old(self).chain_count + 1) <= u32::MAX,
        ensures
            final(self).wf(),
            res.0 == enemy_hp - 1,
            res.0 <= 0 ==> 2 * res.1 <= value * (old(self).chain_count + 3) <= 2 * res.1 + 1,
            res.0 <= 0 ==> res.1 == kill_points(value as int, old(self).chain_count + 1) && *final(self) == (Game {
                chain_count: (old(self).chain_count + 1) as u32,
                chain_timer: CHAIN_FRAMES,
                score: (old(self).score + res.1) as u32,
                hitstop_frames: if etype == EnemyType::Boss { 6 } else { old(self).hitstop_frames },
                boss_alive: if etype == EnemyType::Boss { false } else { old(self).boss_alive },
                ..*old(self)
            }),
            res.0 > 0 ==> res.1 == 0 && *final(self) == (Game {
                hitstop_frames: if etype == EnemyType::Boss { 2 } else { old(self).hitstop_frames },
                ..*old(self)
            }),
    {
        let left = enemy_hp - 1;
        let mut points: u32 = 0;
        if left <= 0 {
            self.chain_count = self.chain_count + 1;
            self.chain_timer = CHAIN_FRAMES;
            let p: u64 = (value as u64) * (2 + self.chain_count as u64) / 2;
            points = p as u32;
            proof {
                lemma_chain_multiplier(value as int, self.chain_count as int);
            }
            self.score = self.score + points;
            if etype == EnemyType::Boss {
                self.hitstop_frames = 6;
                self.boss_alive = false;
            }
        } else if etype == EnemyType::Boss {
            self.hitstop_frames = 2;
        }
        (left, points)
    }

    /// A power-up is picked up: spread or homing arms that weapon for 600
    /// frames, an EMP adds a charge, a shield cell restores one shield up to
    /// the maximum.
    pub fn collect_power_up(&mut self, kind: PowerUpKind)
        requires
            old(self).wf(),
            old(self).emp_charges < i32::MAX,
        ensures
            final(self).wf(),
            *final(self) == (match kind {
                PowerUpKind::Spread => Game {
                    weapon: WeaponType::SpreadShot,
                    weapon_timer: WEAPON_FRAMES,
                    ..*old(self)
                },
                PowerUpKind::Homing => Game {
                    weapon: WeaponType::HomingMissile,
                    weapon_timer: WEAPON_FRAMES,
                    ..*old(self)
                },
                PowerUpKind::Emp => Game { emp_charges: (old(self).emp_charges + 1) as i32, ..*old(self) },
                PowerUpKind::Shield => if old(self).shields < old(self).max_shields {
                    Game { shields: (old(self).shields + 1) as i32, ..*old(self) }
                } else {
                    *old(self)
                },
            }),
    {
        match kind {
            PowerUpKind::Spread => {
                self.weapon = WeaponType::SpreadShot;
                self.weapon_timer = WEAPON_FRAMES;
            },
            PowerUpKind::Homing => {
                self.weapon = WeaponType::HomingMissile;
                self.weapon_timer = WEAPON_FRAMES;
            },
            PowerUpKind::Emp => {
                self.emp_charges = self.emp_charges + 1;
            },
            PowerUpKind::Shield => {
                if self.shields < self.max_shields {
                    self.shields = self.shields + 1;
                }
            },
        }
    }

    /// The end of a frame of play: once the boss has arrived and fallen (and
    /// none is left on screen), the sector's debriefing goes on the terminal,
    /// or the closing story when the sector has none.
    pub fn check_level_clear(&mut self, boss_present: bool) -> (step: ClearStep)
        requires
            old(self).wf(),
            old(self).state == GameState::Playing,
        ensures
            final(self).wf(),
            (old(self).boss_spawned && !old(self).boss_alive && !boss_present) <==> step != ClearStep::Continue,
            step == ClearStep::Continue ==> *final(self) == *old(self),
            step == ClearStep::Debrief ==> clear_text_of(old(self).level_idx as int).spec_bytes().len() != 0
                && final(self).shows_story_of(
                    Game { state: GameState::LevelStory, showing_clear_text: true, ..*old(self) },
                    clear_text_of(old(self).level_idx as int),
                ),
            step == ClearStep::Victory ==> clear_text_of(old(self).level_idx as int).spec_bytes().len() == 0
                && final(self).shows_story_of(
                    Game { state: GameState::Story, victory_triggered: true, ..*old(self) },
                    victory_text_of(),
                ),
    {
        if self.boss_spawned && !self.boss_alive && !boss_present {
            let text = clear_text(self.level_idx);
            if text.as_bytes().len() == 0 {
                self.show_victory();
                ClearStep::Victory
            } else {
                self.start_level_story(text);
                ClearStep::Debrief
            }
        } else {
            ClearStep::Continue
        }
    }
}

/// Firing periods: the dual laser fires every 10 frames, the spread shot
/// every 14 and homing missiles every 18 -- the heavier the weapon, the
/// slower it fires.
pub proof fn lemma_weapon_periods()
    ensures
        weapon_cooldown(WeaponType::DualLaser) == 10,
        weapon_cooldown(WeaponType::SpreadShot) == 14,
        weapon_cooldown(WeaponType::HomingMissile) == 18,
        weapon_cooldown(WeaponType::DualLaser) < weapon_cooldown(WeaponType::SpreadShot) < weapon_cooldown(
            WeaponType::HomingMissile,
        ),
{
}

} // verus!
