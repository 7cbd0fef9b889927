//! Shadow Blade (ninja platformer): the level layout, tile queries and the
//! integer rules of play (damage, pickups, sword combos, phases).
use vstd::prelude::*;

verus! {

// ---------------------------------------------------------------------------
// Level layout
// ---------------------------------------------------------------------------

/// Rows of the level map (480 px / 16 px tiles).
pub const MAP_ROWS: usize = 30;
/// Columns of the level map.
pub const MAP_COLS: usize = 260;

pub const TILE_EMPTY: u8 = 0;
pub const TILE_GROUND: u8 = 1;
pub const TILE_WALL: u8 = 2;
pub const TILE_PLATFORM: u8 = 3;
pub const TILE_SPIKE: u8 = 4;

/// Columns where the ground floor is cut by a pit.
pub open spec fn in_gap(c: int) -> bool {
    ||| 30 <= c < 33
    ||| 65 <= c < 68
    ||| 110 <= c < 113
    ||| 170 <= c < 173
    ||| 220 <= c < 223
}

/// Two-column stone pillars standing on the floor.
pub open spec fn in_wall(r: int, c: int) -> bool {
    ||| (c == 40 || c == 41) && 20 <= r < 27
    ||| (c == 80 || c == 81) && 18 <= r < 27
    ||| (c == 130 || c == 131) && 22 <= r < 27
    ||| (c == 180 || c == 181) && 19 <= r < 27
    ||| (c == 240 || c == 241) && 21 <= r < 27
}

/// One-way platforms (solid only from above).
pub open spec fn in_platform(r: int, c: int) -> bool {
    ||| r == 24 && 10 <= c < 16
    ||| r == 22 && 20 <= c < 30
    ||| r == 20 && 35 <= c < 42
    ||| r == 23 && 50 <= c < 58
    ||| r == 18 && 60 <= c < 64
    ||| r == 21 && 70 <= c < 78
    ||| r == 19 && 85 <= c < 95
    ||| r == 23 && 100 <= c < 108
    ||| r == 17 && 115 <= c < 122
    ||| r == 22 && 135 <= c < 145
    ||| r == 20 && 150 <= c < 160
    ||| r == 16 && 165 <= c < 170
    ||| r == 23 && 185 <= c < 195
    ||| r == 21 && 200 <= c < 210
    ||| r == 18 && 215 <= c < 220
    ||| r == 22 && 225 <= c < 235
    ||| r == 20 && 245 <= c < 255
}

/// Raised blocks of solid ground.
pub open spec fn in_raised_ground(r: int, c: int) -> bool {
    ||| 15 <= c < 25 && 25 <= r < 27
    ||| 45 <= c < 55 && 24 <= r < 27
    ||| 90 <= c < 100 && 25 <= r < 27
    ||| 140 <= c < 150 && 24 <= r < 27
    ||| 190 <= c < 200 && 25 <= r < 27
    ||| 230 <= c < 240 && 24 <= r < 27
}

/// Spike traps lying on the floor.
pub open spec fn in_spike_trap(r: int, c: int) -> bool {
    r == 26 && (55 <= c < 58 || 120 <= c < 124 || 175 <= c < 178 || 210 <= c < 213)
}

/// The tile at (`r`, `c`): the level is built in layers -- floor (rows 27-29),
/// pits with spikes at the bottom, pillars, platforms, raised ground, spike
/// traps -- and a later layer covers an earlier one.
pub open spec fn level_tile(r: int, c: int) -> u8 {
    if in_spike_trap(r, c) {
        TILE_SPIKE
    } else if in_raised_ground(r, c) {
        TILE_GROUND
    } else if in_platform(r, c) {
        TILE_PLATFORM
    } else if in_wall(r, c) {
        TILE_WALL
    } else if r >= 27 && in_gap(c) {
        if r == 29 { TILE_SPIKE } else { TILE_EMPTY }
    } else if r >= 27 {
        TILE_GROUND
    } else {
        TILE_EMPTY
    }
}

fn level_tile_exec(r: usize, c: usize) -> (t: u8)
    ensures
        t == level_tile(r as int, c as int),
{
    let spike_trap = r == 26 && ((55 <= c && c < 58) || (120 <= c && c < 124) || (175 <= c && c < 178) || (
    210 <= c && c < 213));
    let raised = (15 <= c && c < 25 && 25 <= r && r < 27) || (45 <= c && c < 55 && 24 <= r && r < 27) || (90
        <= c && c < 100 && 25 <= r && r < 27) || (140 <= c && c < 150 && 24 <= r && r < 27) || (190 <= c && c
        < 200 && 25 <= r && r < 27) || (230 <= c && c < 240 && 24 <= r && r < 27);
    let platform = (r == 24 && 10 <= c && c < 16) || (r == 22 && 20 <= c && c < 30) || (r == 20 && 35 <= c
        && c < 42) || (r == 23 && 50 <= c && c < 58) || (r == 18 && 60 <= c && c < 64) || (r == 21 && 70 <= c
        && c < 78) || (r == 19 && 85 <= c && c < 95) || (r == 23 && 100 <= c && c < 108) || (r == 17 && 115
        <= c && c < 122) || (r == 22 && 135 <= c && c < 145) || (r == 20 && 150 <= c && c < 160) || (r == 16
        && 165 <= c && c < 170) || (r == 23 && 185 <= c && c < 195) || (r == 21 && 200 <= c && c < 210) || (r
        == 18 && 215 <= c && c < 220) || (r == 22 && 225 <= c && c < 235) || (r == 20 && 245 <= c && c < 255);
    let wall = ((c == 40 || c == 41) && 20 <= r && r < 27) || ((c == 80 || c == 81) && 18 <= r && r < 27) || (
    (c == 130 || c == 131) && 22 <= r && r < 27) || ((c == 180 || c == 181) && 19 <= r && r < 27) || ((c
        == 240 || c == 241) && 21 <= r && r < 27);
    let gap = (30 <= c && c < 33) || (65 <= c && c < 68) || (110 <= c && c < 113) || (170 <= c && c < 173)
        || (220 <= c && c < 223);
    if spike_trap {
        TILE_SPIKE
    } else if raised {
        TILE_GROUND
    } else if platform {
        TILE_PLATFORM
    } else if wall {
        TILE_WALL
    } else if r >= 27 && gap {
        if r == 29 {
            TILE_SPIKE
        } else {
            TILE_EMPTY
        }
    } else if r >= 27 {
        TILE_GROUND
    } else {
        TILE_EMPTY
    }
}

/// Kinds of enemies in the level.
#[derive(Debug, Clone, Copy, PartialEq, Eq, Structural)]
pub enum EnemyKind {
    Guard,
    Archer,
}

/// The integer stats an enemy enters the level with: hit points, the
/// points it is worth, and the frames before its first shot.
#[derive(Debug, Clone, Copy, PartialEq, Eq, Structural)]
pub struct EnemyStats {
    pub hp: i32,
    pub score_val: i32,
    pub shoot_timer: i32,
}

/// A guard takes two hits and is worth 100; an archer takes one, is worth
/// 150 and first shoots after 60 frames.
pub open spec fn enemy_stats_of(kind: EnemyKind) -> EnemyStats {
    match kind {
        EnemyKind::Guard => EnemyStats { hp: 2, score_val: 100, shoot_timer: 0 },
        EnemyKind::Archer => EnemyStats { hp: 1, score_val: 150, shoot_timer: 60 },
    }
}

/// The stats an enemy of kind `kind` enters the level with.
pub fn enemy_stats(kind: EnemyKind) -> (st: EnemyStats)
    ensures
        st == enemy_stats_of(kind),
{
    match kind {
        EnemyKind::Guard => EnemyStats { hp: 2, score_val: 100, shoot_timer: 0 },
        EnemyKind::Archer => EnemyStats { hp: 1, score_val: 150, shoot_timer: 60 },
    }
}

/// Kinds of pickups in the level.
#[derive(Debug, Clone, Copy, PartialEq, Eq, Structural)]
pub enum PickupKind {
    Heart,
    Scroll,
    Ammo,
}

/// Where an enemy starts, in tile units: it stands on row `row` at column
/// `col` and patrols between columns `patrol_left` and `patrol_right`.
#[derive(Debug, Clone, Copy, PartialEq, Eq, Structural)]
pub struct EnemySpawn {
    pub kind: EnemyKind,
    pub col: i32,
    pub row: i32,
    pub patrol_left: i32,
    pub patrol_right: i32,
}

/// Where a pickup lies, in tile units.
#[derive(Debug, Clone, Copy, PartialEq, Eq, Structural)]
pub struct PickupSpawn {
    pub kind: PickupKind,
    pub col: i32,
    pub row: i32,
}

/// A pickup of kind `kind` in play, and whether it still lies in the level.
#[derive(Debug, Clone, Copy, PartialEq, Eq, Structural)]
pub struct PickupSlot {
    pub kind: PickupKind,
    pub active: bool,
}

/// The built level.
pub struct Level {
    /// `MAP_ROWS` rows of `MAP_COLS` tiles.
    pub map: Vec<Vec<u8>>,
    pub enemies: Vec<EnemySpawn>,
    pub pickups: Vec<PickupSpawn>,
}

pub open spec fn guard(col: i32, row: i32, pl: i32, pr: i32) -> EnemySpawn {
    EnemySpawn { kind: EnemyKind::Guard, col, row, patrol_left: pl, patrol_right: pr }
}

pub open spec fn archer(col: i32, row: i32) -> EnemySpawn {
    EnemySpawn { kind: EnemyKind::Archer, col, row, patrol_left: col, patrol_right: col }
}

pub open spec fn pickup(kind: PickupKind, col: i32, row: i32) -> PickupSpawn {
    PickupSpawn { kind, col, row }
}

/// The enemies of the level: six patrolling guards, then three archers
/// posted on high platforms.
pub open spec fn level_enemies() -> Seq<EnemySpawn> {
    seq![
        guard(18, 25, 15, 25),
        guard(48, 24, 45, 55),
        guard(75, 21, 70, 78),
        guard(105, 23, 100, 108),
        guard(148, 24, 140, 150),
        guard(198, 25, 190, 200),
        archer(62, 18),
        archer(118, 17),
        archer(167, 16),
    ]
}

/// The pickups of the level: five scrolls, two hearts, one ammo pack.
pub open spec fn level_pickups() -> Seq<PickupSpawn> {
    seq![
        pickup(PickupKind::Scroll, 25, 21),
        pickup(PickupKind::Scroll, 55, 22),
        pickup(PickupKind::Scroll, 95, 18),
        pickup(PickupKind::Scroll, 155, 19),
        pickup(PickupKind::Scroll, 210, 20),
        pickup(PickupKind::Heart, 38, 19),
        pickup(PickupKind::Heart, 145, 21),
        pickup(PickupKind::Ammo, 88, 18),
    ]
}

/// The level map is `MAP_ROWS` x `MAP_COLS` and holds `level_tile` everywhere.
pub open spec fn is_level_map(map: Seq<Vec<u8>>) -> bool {
    &&& map.len() == MAP_ROWS
    &&& forall|r: int| 0 <= r < MAP_ROWS ==> #[trigger] map[r]@.len() == MAP_COLS
    &&& forall|r: int, c: int|
        0 <= r < MAP_ROWS && 0 <= c < MAP_COLS ==> #[trigger] map[r]@[c] == level_tile(r, c)
}

/// Build the Bamboo Forest level.
pub fn generate_level() -> (level: Level)
    ensures
        is_level_map(level.map@),
        level.enemies@ == level_enemies(),
        level.pickups@ == level_pickups(),
{
    let mut map: Vec<Vec<u8>> = Vec::new();
    let mut r: usize = 0;
    while r < MAP_ROWS
        invariant
            r <= MAP_ROWS,
            map@.len() == r,
            forall|i: int| 0 <= i < r ==> #[trigger] map@[i]@.len() == MAP_COLS,
            forall|i: int, c: int| 0 <= i < r && 0 <= c < MAP_COLS ==> #[trigger] map@[i]@[c] == level_tile(i, c),
        decreases MAP_ROWS - r,
    {
        let mut row: Vec<u8> = Vec::new();
        let mut c: usize = 0;
        while c < MAP_COLS
            invariant
                c <= MAP_COLS,
                r < MAP_ROWS,
                row@.len() == c,
                forall|j: int| 0 <= j < c ==> #[trigger] row@[j] == level_tile(r as int, j),
            decreases MAP_COLS - c,
        {
            row.push(level_tile_exec(r, c));
            c = c + 1;
        }
        map.push(row);
        r = r + 1;
    }
    let enemies = vec![
        EnemySpawn { kind: EnemyKind::Guard, col: 18, row: 25, patrol_left: 15, patrol_right: 25 },
        EnemySpawn { kind: EnemyKind::Guard, col: 48, row: 24, patrol_left: 45, patrol_right: 55 },
        EnemySpawn { kind: EnemyKind::Guard, col: 75, row: 21, patrol_left: 70, patrol_right: 78 },
        EnemySpawn { kind: EnemyKind::Guard, col: 105, row: 23, patrol_left: 100, patrol_right: 108 },
        EnemySpawn { kind: EnemyKind::Guard, col: 148, row: 24, patrol_left: 140, patrol_right: 150 },
        EnemySpawn { kind: EnemyKind::Guard, col: 198, row: 25, patrol_left: 190, patrol_right: 200 },
        EnemySpawn { kind: EnemyKind::Archer, col: 62, row: 18, patrol_left: 62, patrol_right: 62 },
        EnemySpawn { kind: EnemyKind::Archer, col: 118, row: 17, patrol_left: 118, patrol_right: 118 },
        EnemySpawn { kind: EnemyKind::Archer, col: 167, row: 16, patrol_left: 167, patrol_right: 167 },
    ];
    let pickups = vec![
        PickupSpawn { kind: PickupKind::Scroll, col: 25, row: 21 },
        PickupSpawn { kind: PickupKind::Scroll, col: 55, row: 22 },
        PickupSpawn { kind: PickupKind::Scroll, col: 95, row: 18 },
        PickupSpawn { kind: PickupKind::Scroll, col: 155, row: 19 },
        PickupSpawn { kind: PickupKind::Scroll, col: 210, row: 20 },
        PickupSpawn { kind: PickupKind::Heart, col: 38, row: 19 },
        PickupSpawn { kind: PickupKind::Heart, col: 145, row: 21 },
        PickupSpawn { kind: PickupKind::Ammo, col: 88, row: 18 },
    ];
    assert(enemies@ =~= level_enemies());
    assert(pickups@ =~= level_pickups());
    Level { map, enemies, pickups }
}

// ---------------------------------------------------------------------------
// Tile queries
// ---------------------------------------------------------------------------

/// The map covers at least the level's rows and columns.
pub open spec fn covers_level(map: Seq<Vec<u8>>) -> bool {
    &&& map.len() >= MAP_ROWS
    &&& forall|r: int| 0 <= r < MAP_ROWS ==> #[trigger] map[r]@.len() >= MAP_COLS
}

/// The tile at column `col`, row `row`; everything outside the level is empty.
pub open spec fn tile_of(map: Seq<Vec<u8>>, col: int, row: int) -> u8 {
    if 0 <= col < MAP_COLS && 0 <= row < MAP_ROWS {
        map[row]@[col]
    } else {
        TILE_EMPTY
    }
}

/// The tile at column `col`, row `row` (the caller divides pixel coordinates
/// by the tile size); everything outside the level is empty.
pub fn tile_at(map: &Vec<Vec<u8>>, col: isize, row: isize) -> (t: u8)
    requires
        covers_level(map@),
    ensures
        t == tile_of(map@, col as int, row as int),
{
    if col < 0 || row < 0 || col >= MAP_COLS as isize || row >= MAP_ROWS as isize {
        return TILE_EMPTY;
    }
    map[row as usize][col as usize]
}

/// Ground and pillars block movement from every side.
pub open spec fn blocks(t: u8) -> bool {
    t == TILE_GROUND || t == TILE_WALL
}

/// Whether the tile at (`col`, `row`) blocks movement.
pub fn is_solid(map: &Vec<Vec<u8>>, col: isize, row: isize) -> (b: bool)
    requires
        covers_level(map@),
    ensures
        b == blocks(tile_of(map@, col as int, row as int)),
{
    let t = tile_at(map, col, row);
    t == TILE_GROUND || t == TILE_WALL
}

/// Whether the tile at (`col`, `row`) holds up a falling body: blocking tiles
/// always do; a platform does when the body is falling (`falling`) and its feet
/// were at most two pixels below the platform's top (`feet_on_top`).
pub fn is_solid_or_platform_top(map: &Vec<Vec<u8>>, col: isize, row: isize, falling: bool, feet_on_top: bool) -> (b: bool)
    requires
        covers_level(map@),
    ensures
        b == (blocks(tile_of(map@, col as int, row as int)) || (tile_of(map@, col as int, row as int)
            == TILE_PLATFORM && falling && feet_on_top)),
{
    let t = tile_at(map, col, row);
    if t == TILE_GROUND || t == TILE_WALL {
        return true;
    }
    t == TILE_PLATFORM && falling && feet_on_top
}

/// The generated level covers itself.
pub proof fn lemma_level_map_covers(map: Seq<Vec<u8>>)
    requires
        is_level_map(map),
    ensures
        covers_level(map),
{
}

// ---------------------------------------------------------------------------
// Rules of play
// ---------------------------------------------------------------------------

pub const DASH_FRAMES: i32 = 6;
pub const SLIDE_FRAMES: i32 = 10;
pub const SHURIKEN_COOLDOWN: i32 = 15;
pub const COMBO_WINDOW: i32 = 20;
pub const ATTACK_DURATION: i32 = 12;
pub const INVULN_FRAMES: i32 = 40;
pub const MAX_SHURIKEN: i32 = 30;
pub const DEATH_FRAMES: i32 = 120;
pub const PLAYER_MAX_HP: i32 = 5;

/// Screens of the game.
#[derive(Debug, Clone, Copy, PartialEq, Eq, Structural)]
pub enum GamePhase {
    Title,
    Playing,
    Paused,
    Death,
    GameOver,
    Victory,
}

/// What a hit did to the player.
#[derive(Debug, Clone, Copy, PartialEq, Eq, Structural)]
pub enum DamageOutcome {
    /// The player was invulnerable or already dead.
    Ignored,
    /// The player lost health and is briefly invulnerable.
    Hurt,
    /// The player lost the last health and died.
    Died,
}

/// What a death-screen frame did.
#[derive(Debug, Clone, Copy, PartialEq, Eq, Structural)]
pub enum DeathStep {
    Waiting,
    Respawned,
    GameOver,
}

/// What a press of the dash button started.
#[derive(Debug, Clone, Copy, PartialEq, Eq, Structural)]
pub enum DashStart {
    Nothing,
    AirDash,
    Slide,
}

/// The integer state of a run: screen, the ninja's health, ammunition,
/// sword combo and move timers.
pub struct NinjaState {
    pub phase: GamePhase,
    pub hp: i32,
    pub max_hp: i32,
    pub invuln: i32,
    pub dead: bool,
    pub score: i32,
    pub shuriken: i32,
    pub shuriken_cd: i32,
    pub combo: i32,
    pub combo_timer: i32,
    pub attacking: i32,
    pub dashing: i32,
    pub sliding: i32,
    pub can_dash: bool,
    pub death_timer: i32,
    pub blink_timer: i32,
}

impl NinjaState {
    /// Ranges the rules keep: health at most the maximum, a combo of at most
    /// three hits, at most 30 shuriken, and non-negative timers.
    pub open spec fn wf(&self) -> bool {
        &&& self.max_hp == PLAYER_MAX_HP
        &&& self.hp <= self.max_hp
        &&& !self.dead ==> self.hp > 0
        &&& 0 <= self.combo <= 3
        &&& 0 <= self.shuriken <= MAX_SHURIKEN
        &&& 0 <= self.shuriken_cd <= SHURIKEN_COOLDOWN
        &&& 0 <= self.combo_timer <= COMBO_WINDOW + ATTACK_DURATION
        &&& 0 <= self.attacking <= ATTACK_DURATION
        &&& 0 <= self.dashing <= DASH_FRAMES
        &&& 0 <= self.sliding <= SLIDE_FRAMES
        &&& 0 <= self.invuln <= 2 * INVULN_FRAMES
        &&& 0 <= self.death_timer <= DEATH_FRAMES + 1
        &&& self.phase == GamePhase::Death ==> self.death_timer <= DEATH_FRAMES
        &&& 0 <= self.blink_timer < 60
        &&& 0 <= self.score
    }

    /// `s` with the ninja as a run starts: full health, ten shuriken, no
    /// timers running.
    pub open spec fn fresh_player_of(s: NinjaState) -> NinjaState {
        NinjaState {
            hp: PLAYER_MAX_HP,
            max_hp: PLAYER_MAX_HP,
            invuln: 0,
            dead: false,
            score: 0,
            shuriken: 10,
            shuriken_cd: 0,
            combo: 0,
            combo_timer: 0,
            attacking: 0,
            dashing: 0,
            sliding: 0,
            can_dash: true,
            death_timer: 0,
            ..s
        }
    }

    /// A new game on the title screen.
    pub fn new() -> (s: Self)
        ensures
            s.wf(),
            s == (NinjaState { phase: GamePhase::Title, blink_timer: 0, ..NinjaState::fresh_player_of(s) }),
    {
        NinjaState {
            phase: GamePhase::Title,
            hp: PLAYER_MAX_HP,
            max_hp: PLAYER_MAX_HP,
            invuln: 0,
            dead: false,
            score: 0,
            shuriken: 10,
            shuriken_cd: 0,
            combo: 0,
            combo_timer: 0,
            attacking: 0,
            dashing: 0,
            sliding: 0,
            can_dash: true,
            death_timer: 0,
            blink_timer: 0,
        }
    }

    /// Start the run over with a fresh ninja; the screen stays as it is.
    pub fn reset_game(&mut self)
        requires
            old(self).wf(),
        ensures
            final(self).wf(),
            *final(self) == NinjaState::fresh_player_of(*old(self)),
    {
        self.hp = PLAYER_MAX_HP;
        self.max_hp = PLAYER_MAX_HP;
        self.invuln = 0;
        self.dead = false;
        self.score = 0;
        self.shuriken = 10;
        self.shuriken_cd = 0;
        self.combo = 0;
        self.combo_timer = 0;
        self.attacking = 0;
        self.dashing = 0;
        self.sliding = 0;
        self.can_dash = true;
        self.death_timer = 0;
    }

    /// Advance the title blink cycle (every frame, on every screen).
    pub fn blink_tick(&mut self)
        requires
            old(self).wf(),
        ensures
            final(self).wf(),
            *final(self) == (NinjaState { blink_timer: ((old(self).blink_timer + 1) % 60) as i32, ..*old(self) }),
    {
        self.blink_timer = (self.blink_timer + 1) % 60;
    }

    /// Title (and victory) screen: Enter or X starts a new run.
    /// Returns whether the level must be rebuilt.
    pub fn update_title(&mut self, start_pressed: bool) -> (reset: bool)
        requires
            old(self).wf(),
        ensures
            final(self).wf(),
            reset == start_pressed,
            start_pressed ==> *final(self) == (NinjaState {
                phase: GamePhase::Playing,
                ..NinjaState::fresh_player_of(*old(self))
            }),
            !start_pressed ==> *final(self) == *old(self),
    {
        if start_pressed {
            self.reset_game();
            self.phase = GamePhase::Playing;
            true
        } else {
            false
        }
    }

    /// Pause screen: Enter or Escape resumes.
    pub fn update_paused(&mut self, resume_pressed: bool)
        requires
            old(self).wf(),
        ensures
            final(self).wf(),
            *final(self) == (if resume_pressed { NinjaState { phase: GamePhase::Playing, ..*old(self) } } else { *old(self) }),
    {
        if resume_pressed {
            self.phase = GamePhase::Playing;
        }
    }

    /// Game-over screen: Enter or X starts over on the title screen.
    /// Returns whether the level must be rebuilt.
    pub fn update_game_over(&mut self, restart_pressed: bool) -> (reset: bool)
        requires
            old(self).wf(),
        ensures
            final(self).wf(),
            reset == restart_pressed,
            restart_pressed ==> *final(self) == (NinjaState {
                phase: GamePhase::Title,
                ..NinjaState::fresh_player_of(*old(self))
            }),
            !restart_pressed ==> *final(self) == *old(self),
    {
        if restart_pressed {
            self.reset_game();
            self.phase = GamePhase::Title;
            true
        } else {
            false
        }
    }

    /// While playing, Enter or Escape pauses; the rest of the frame is skipped.
    pub fn pause_if_requested(&mut self, pause_pressed: bool) -> (paused: bool)
        requires
            old(self).wf(),
        ensures
            final(self).wf(),
            paused == pause_pressed,
            *final(self) == (if pause_pressed { NinjaState { phase: GamePhase::Paused, ..*old(self) } } else { *old(self) }),
    {
        if pause_pressed {
            self.phase = GamePhase::Paused;
        }
        pause_pressed
    }

    /// Reaching the right end of the level wins the run.
    pub fn reach_end(&mut self)
        requires
            old(self).wf(),
        ensures
            final(self).wf(),
            *final(self) == (NinjaState { phase: GamePhase::Victory, ..*old(self) }),
    {
        self.phase = GamePhase::Victory;
    }

    /// One frame of the death screen: after 120 frames the ninja either
    /// respawns (with double invulnerability) or, out of health, the game is over.
    pub fn update_death(&mut self) -> (step: DeathStep)
        requires
            old(self).wf(),
            old(self).phase == GamePhase::Death,
        ensures
            final(self).wf(),
            ({
                let waited = NinjaState { death_timer: (old(self).death_timer + 1) as i32, ..*old(self) };
                &&& old(self).death_timer + 1 <= DEATH_FRAMES ==> step == DeathStep::Waiting && *final(self) == waited
                &&& old(self).death_timer + 1 > DEATH_FRAMES && old(self).hp <= 0 ==> step == DeathStep::GameOver
                    && *final(self) == (NinjaState { phase: GamePhase::GameOver, ..waited })
                &&& old(self).death_timer + 1 > DEATH_FRAMES && old(self).hp > 0 ==> step == DeathStep::Respawned
                    && *final(self) == (NinjaState {
                        dead: false,
                        invuln: (2 * INVULN_FRAMES) as i32,
                        phase: GamePhase::Playing,
                        ..waited
                    })
            }),
    {
        self.death_timer = self.death_timer + 1;
        if self.death_timer > DEATH_FRAMES {
            if self.hp <= 0 {
                self.phase = GamePhase::GameOver;
                DeathStep::GameOver
            } else {
                self.dead = false;
                self.invuln = INVULN_FRAMES * 2;
                self.phase = GamePhase::Playing;
                DeathStep::Respawned
            }
        } else {
            DeathStep::Waiting
        }
    }

    /// Per-frame countdowns at the start of the ninja's update: invulnerability,
    /// shuriken cooldown and the combo window (the combo resets when it closes).
    pub fn tick_timers(&mut self)
        requires
            old(self).wf(),
        ensures
            final(self).wf(),
            *final(self) == (NinjaState {
                invuln: if old(self).invuln > 0 { (old(self).invuln - 1) as i32 } else { old(self).invuln },
                shuriken_cd: if old(self).shuriken_cd > 0 { (old(self).shuriken_cd - 1) as i32 } else { old(self).shuriken_cd },
                combo_timer: if old(self).combo_timer > 0 { (old(self).combo_timer - 1) as i32 } else { old(self).combo_timer },
                combo: if old(self).combo_timer == 1 { 0 } else { old(self).combo },
                ..*old(self)
            }),
    {
        if self.invuln > 0 {
            self.invuln = self.invuln - 1;
        }
        if self.shuriken_cd > 0 {
            self.shuriken_cd = self.shuriken_cd - 1;
        }
        if self.combo_timer > 0 {
            self.combo_timer = self.combo_timer - 1;
            if self.combo_timer == 0 {
                self.combo = 0;
            }
        }
    }

    /// Dash button: in the air with a dash available, start an air dash (brief
    /// invulnerability, no second dash until landing); on the ground while
    /// moving, start a slide. Not while attacking.
    pub fn try_dash_or_slide(&mut self, dash_pressed: bool, on_ground: bool, moving: bool) -> (started: DashStart)
        requires
            old(self).wf(),
        ensures
            final(self).wf(),
            started == (if dash_pressed && old(self).attacking <= 0 {
                if !on_ground && old(self).can_dash && old(self).dashing <= 0 {
                    DashStart::AirDash
                } else if on_ground && moving && old(self).sliding <= 0 {
                    DashStart::Slide
                } else {
                    DashStart::Nothing
                }
            } else {
                DashStart::Nothing
            }),
            started == DashStart::AirDash ==> *final(self) == (NinjaState {
                dashing: DASH_FRAMES,
                can_dash: false,
                invuln: DASH_FRAMES,
                ..*old(self)
            }),
            started == DashStart::Slide ==> *final(self) == (NinjaState { sliding: SLIDE_FRAMES, ..*old(self) }),
            started == DashStart::Nothing ==> *final(self) == *old(self),
    {
        if dash_pressed && self.attacking <= 0 {
            if !on_ground && self.can_dash && self.dashing <= 0 {
                self.dashing = DASH_FRAMES;
                self.can_dash = false;
                self.invuln = DASH_FRAMES;
                return DashStart::AirDash;
            } else if on_ground && moving && self.sliding <= 0 {
                self.sliding = SLIDE_FRAMES;
                return DashStart::Slide;
            }
        }
        DashStart::Nothing
    }

    /// Landing restores the air dash.
    pub fn land(&mut self)
        requires
            old(self).wf(),
        ensures
            final(self).wf(),
            *final(self) == (NinjaState { can_dash: true, ..*old(self) }),
    {
        self.can_dash = true;
    }

    /// Count down an air dash; returns whether the ninja was dashing.
    pub fn dash_tick(&mut self) -> (was_dashing: bool)
        requires
            old(self).wf(),
        ensures
            final(self).wf(),
            was_dashing == (old(self).dashing > 0),
            *final(self) == (NinjaState {
                dashing: if was_dashing { (old(self).dashing - 1) as i32 } else { old(self).dashing },
                ..*old(self)
            }),
    {
        if self.dashing > 0 {
            self.dashing = self.dashing - 1;
            true
        } else {
            false
        }
    }

    /// Count down a slide (only when not dashing); returns whether the ninja was sliding.
    pub fn slide_tick(&mut self) -> (was_sliding: bool)
        requires
            old(self).wf(),
        ensures
            final(self).wf(),
            was_sliding == (old(self).sliding > 0),
            *final(self) == (NinjaState {
                sliding: if was_sliding { (old(self).sliding - 1) as i32 } else { old(self).sliding },
                ..*old(self)
            }),
    {
        if self.sliding > 0 {
            self.sliding = self.sliding - 1;
            true
        } else {
            false
        }
    }

    /// Attack button: a swing within the combo window continues the combo (up
    /// to its third hit), otherwise a new combo starts at the first hit. Not
    /// while a swing or a dash is under way.
    pub fn try_attack(&mut self, attack_pressed: bool) -> (swung: bool)
        requires
            old(self).wf(),
        ensures
            final(self).wf(),
            swung == (attack_pressed && old(self).attacking <= 0 && old(self).dashing <= 0),
            swung ==> *final(self) == (NinjaState {
                combo: if old(self).combo_timer > 0 && old(self).combo < 3 { (old(self).combo + 1) as i32 } else { 1 },
                attacking: ATTACK_DURATION,
                combo_timer: (COMBO_WINDOW + ATTACK_DURATION) as i32,
                ..*old(self)
            }),
            !swung ==> *final(self) == *old(self),
    {
        if attack_pressed && self.attacking <= 0 && self.dashing <= 0 {
            if self.combo_timer > 0 && self.combo < 3 {
                self.combo = self.combo + 1;
            } else {
                self.combo = 1;
            }
            self.attacking = ATTACK_DURATION;
            self.combo_timer = COMBO_WINDOW + ATTACK_DURATION;
            true
        } else {
            false
        }
    }

    /// Count down a swing.
    pub fn attack_tick(&mut self)
        requires
            old(self).wf(),
        ensures
            final(self).wf(),
            *final(self) == (NinjaState {
                attacking: if old(self).attacking > 0 { (old(self).attacking - 1) as i32 } else { 0 },
                ..*old(self)
            }),
    {
        if self.attacking > 0 {
            self.attacking = self.attacking - 1;
        }
    }

    /// A swing hits during its first six frames.
    pub fn attack_hits(&self) -> (b: bool)
        ensures
            b == (self.attacking > 0 && self.attacking > ATTACK_DURATION - 6),
    {
        self.attacking > 0 && self.attacking > ATTACK_DURATION - 6
    }

    /// The third hit of a combo deals double damage.
    pub fn attack_damage(&self) -> (d: i32)
        ensures
            d == (if self.combo == 3 { 2i32 } else { 1i32 }),
    {
        if self.combo == 3 {
            2
        } else {
            1
        }
    }

    /// Shuriken button: throw one when any are left and the cooldown is over.
    /// Returns `Some(spawn)` for a throw, where `spawn` is whether there is
    /// room for the projectile (`room`).
    pub fn try_throw(&mut self, throw_pressed: bool, room: bool) -> (thrown: Option<bool>)
        requires
            old(self).wf(),
        ensures
            final(self).wf(),
            (thrown is Some) == (throw_pressed && old(self).shuriken > 0 && old(self).shuriken_cd <= 0),
            thrown is Some ==> thrown == Some(room) && *final(self) == (NinjaState {
                shuriken: (old(self).shuriken - 1) as i32,
                shuriken_cd: SHURIKEN_COOLDOWN,
                ..*old(self)
            }),
            thrown is None ==> *final(self) == *old(self),
    {
        if throw_pressed && self.shuriken > 0 && self.shuriken_cd <= 0 {
            self.shuriken = self.shuriken - 1;
            self.shuriken_cd = SHURIKEN_COOLDOWN;
            Some(room)
        } else {
            None
        }
    }

    /// The ninja dies: the death screen starts.
    pub fn player_die(&mut self)
        requires
            old(self).wf(),
        ensures
            final(self).wf(),
            *final(self) == (NinjaState { dead: true, death_timer: 0, phase: GamePhase::Death, ..*old(self) }),
    {
        self.dead = true;
        self.death_timer = 0;
        self.phase = GamePhase::Death;
    }

    /// A hit of `dmg`: ignored while invulnerable or dead; otherwise health
    /// drops by `dmg`, invulnerability starts, and at no health the ninja dies.
    pub fn damage_player(&mut self, dmg: i32) -> (outcome: DamageOutcome)
        requires
            old(self).wf(),
            0 <= dmg,
            old(self).hp - dmg >= i32::MIN,
        ensures
            final(self).wf(),
            (old(self).invuln > 0 || old(self).dead) ==> outcome == DamageOutcome::Ignored && *final(self) == *old(self),
            !(old(self).invuln > 0 || old(self).dead) ==> {
                let hit = NinjaState { hp: (old(self).hp - dmg) as i32, invuln: INVULN_FRAMES, ..*old(self) };
                &&& old(self).hp - dmg <= 0 ==> outcome == DamageOutcome::Died && *final(self) == (NinjaState {
                    dead: true,
                    death_timer: 0,
                    phase: GamePhase::Death,
                    ..hit
                })
                &&& old(self).hp - dmg > 0 ==> outcome == DamageOutcome::Hurt && *final(self) == hit
            },
    {
        if self.invuln > 0 || self.dead {
            return DamageOutcome::Ignored;
        }
        self.hp = self.hp - dmg;
        self.invuln = INVULN_FRAMES;
        if self.hp <= 0 {
            self.dead = true;
            self.death_timer = 0;
            self.phase = GamePhase::Death;
            DamageOutcome::Died
        } else {
            DamageOutcome::Hurt
        }
    }

    /// Falling out of the level kills the ninja outright.
    pub fn fall_out(&mut self)
        requires
            old(self).wf(),
        ensures
            final(self).wf(),
            *final(self) == (NinjaState { hp: 0, dead: true, death_timer: 0, phase: GamePhase::Death, ..*old(self) }),
    {
        self.hp = 0;
        self.dead = true;
        self.death_timer = 0;
        self.phase = GamePhase::Death;
    }

    /// `s` after picking up an item of kind `kind`.
    pub open spec fn collected(s: NinjaState, kind: PickupKind) -> NinjaState {
        match kind {
            PickupKind::Heart => if s.hp < s.max_hp {
                NinjaState { hp: (s.hp + 1) as i32, ..s }
            } else {
                s
            },
            PickupKind::Scroll => NinjaState { score: (s.score + 200) as i32, ..s },
            PickupKind::Ammo => NinjaState {
                shuriken: if s.shuriken + 5 < MAX_SHURIKEN { (s.shuriken + 5) as i32 } else { MAX_SHURIKEN },
                ..s
            },
        }
    }

    /// `s` after the first `n` pickups were checked: each one still lying
    /// there that the ninja touches (`touching`) is collected, in order.
    pub open spec fn pickups_collected(s: NinjaState, pickups: Seq<PickupSlot>, touching: Seq<bool>, n: int) -> NinjaState
        decreases n,
    {
        if n <= 0 {
            s
        } else {
            let prev = NinjaState::pickups_collected(s, pickups, touching, n - 1);
            if pickups[n - 1].active && touching[n - 1] {
                NinjaState::collected(prev, pickups[n - 1].kind)
            } else {
                prev
            }
        }
    }

    /// Picking up an item: a heart heals one point up to the maximum, a scroll
    /// is worth 200 points, ammo adds five shuriken up to 30.
    pub fn collect(&mut self, kind: PickupKind)
        requires
            old(self).wf(),
            kind == PickupKind::Scroll ==> old(self).score + 200 <= i32::MAX,
        ensures
            final(self).wf(),
            *final(self) == NinjaState::collected(*old(self), kind),
    {
        match kind {
            PickupKind::Heart => {
                if self.hp < self.max_hp {
                    self.hp = self.hp + 1;
                }
            },
            PickupKind::Scroll => {
                self.score = self.score + 200;
            },
            PickupKind::Ammo => {
                self.shuriken = if self.shuriken + 5 < MAX_SHURIKEN { self.shuriken + 5 } else { MAX_SHURIKEN };
            },
        }
    }

    /// Number of scrolls among the first `n` pickups that are taken: still
    /// lying there and touched.
    pub open spec fn scrolls_taken(pickups: Seq<PickupSlot>, touching: Seq<bool>, n: int) -> int
        decreases n,
    {
        if n <= 0 {
            0
        } else {
            NinjaState::scrolls_taken(pickups, touching, n - 1) + if pickups[n - 1].active && touching[n - 1]
                && pickups[n - 1].kind == PickupKind::Scroll {
                1int
            } else {
                0int
            }
        }
    }

    proof fn lemma_scrolls_taken_grow(pickups: Seq<PickupSlot>, touching: Seq<bool>, a: int, b: int)
        requires
            0 <= a <= b,
        ensures
            0 <= NinjaState::scrolls_taken(pickups, touching, a) <= NinjaState::scrolls_taken(pickups, touching, b),
        decreases b,
    {
        if a < b {
            NinjaState::lemma_scrolls_taken_grow(pickups, touching, a, b - 1);
        } else if a > 0 {
            NinjaState::lemma_scrolls_taken_grow(pickups, touching, a - 1, a - 1);
        }
    }

    /// The pickup check of a frame: every pickup still lying there that the
    /// ninja touches (`touching[i]` for pickup `i`) is taken -- it is gone
    /// from the level -- and collected, in order; the others stay as they are.
    /// Health stays within the maximum and the shuriken within 30 throughout.
    pub fn update_pickups(&mut self, pickups: &mut Vec<PickupSlot>, touching: &[bool])
        requires
            old(self).wf(),
            touching@.len() == old(pickups)@.len(),
            old(self).score + 200 * NinjaState::scrolls_taken(
                old(pickups)@,
                touching@,
                old(pickups)@.len() as int,
            ) <= i32::MAX,
        ensures
            final(self).wf(),
            final(self).hp <= final(self).max_hp && final(self).shuriken <= MAX_SHURIKEN,
            *final(self) == NinjaState::pickups_collected(
                *old(self),
                old(pickups)@,
                touching@,
                old(pickups)@.len() as int,
            ),
            final(pickups)@.len() == old(pickups)@.len(),
            forall|i: int|
                0 <= i < old(pickups)@.len() ==> #[trigger] final(pickups)@[i] == (if old(pickups)@[i].active
                    && touching@[i] {
                    PickupSlot { active: false, ..old(pickups)@[i] }
                } else {
                    old(pickups)@[i]
                }),
    {
        let n = pickups.len();
        let mut i: usize = 0;
        while i < n
            invariant
                n == pickups@.len(),
                n == old(pickups)@.len(),
                touching@.len() == n,
                0 <= i <= n,
                old(self).wf(),
                self.wf(),
                old(self).score + 200 * NinjaState::scrolls_taken(old(pickups)@, touching@, n as int) <= i32::MAX,
                self.score == old(self).score + 200 * NinjaState::scrolls_taken(old(pickups)@, touching@, i as int),
                *self == NinjaState::pickups_collected(*old(self), old(pickups)@, touching@, i as int),
                forall|j: int|
                    0 <= j < i ==> #[trigger] pickups@[j] == (if old(pickups)@[j].active && touching@[j] {
                        PickupSlot { active: false, ..old(pickups)@[j] }
                    } else {
                        old(pickups)@[j]
                    }),
                forall|j: int| i <= j < n ==> #[trigger] pickups@[j] == old(pickups)@[j],
            decreases n - i,
        {
            let p = pickups[i];
            proof {
                NinjaState::lemma_scrolls_taken_grow(old(pickups)@, touching@, i + 1, n as int);
            }
            if p.active && touching[i] {
                pickups.set(i, PickupSlot { active: false, ..p });
                self.collect(p.kind);
            }
            i = i + 1;
        }
    }

    /// Defeating an enemy adds its score value.
    pub fn add_score(&mut self, points: i32)
        requires
            old(self).wf(),
            0 <= points,
            old(self).score + points <= i32::MAX,
        ensures
            final(self).wf(),
            *final(self) == (NinjaState { score: (old(self).score + points) as i32, ..*old(self) }),
    {
        self.score = self.score + points;
    }
}

} // verus!
