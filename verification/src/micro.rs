//! Micro Mages (vertical climber with a grappling anchor): tower maps, the
//! button edge detection and aiming, and the integer rules of the climb
//! (jumps, anchor, scoring, level flow).
use vstd::prelude::*;
use crate::sprite::lemma_chars_le_bytes;

verus! {

// ---------------------------------------------------------------------------
// Tower maps
// ---------------------------------------------------------------------------

/// What a tower map places at a cell.
#[derive(Debug, Clone, Copy, PartialEq, Eq, Structural)]
pub enum Thing {
    /// '#': brick (the anchor grips it).
    Brick,
    /// '%': stone (the anchor mines it).
    Stone,
    /// 'C': chest (mined for a gem).
    Chest,
    /// 'P': patrolling guard.
    Patrol,
    /// 'B': bat.
    Bat,
    /// 'T': turret.
    Turret,
    /// 'G': gem.
    Gem,
}

/// A thing at column `col`, row `row` of the map.
#[derive(Debug, Clone, Copy, PartialEq, Eq, Structural)]
pub struct Spawn {
    pub thing: Thing,
    pub col: usize,
    pub row: usize,
}

/// The thing a map character places; other characters place nothing.
pub open spec fn char_thing(ch: char) -> Option<Thing> {
    if ch == '#' {
        Some(Thing::Brick)
    } else if ch == '%' {
        Some(Thing::Stone)
    } else if ch == 'C' {
        Some(Thing::Chest)
    } else if ch == 'P' {
        Some(Thing::Patrol)
    } else if ch == 'B' {
        Some(Thing::Bat)
    } else if ch == 'T' {
        Some(Thing::Turret)
    } else if ch == 'G' {
        Some(Thing::Gem)
    } else {
        None
    }
}

/// The map legend: '#' is a brick, '%' stone, 'C' a chest, 'P' a patrolling
/// guard, 'B' a bat, 'T' a turret and 'G' a gem; no other character places
/// anything.
pub proof fn lemma_map_legend(ch: char)
    ensures
        char_thing('#') == Some(Thing::Brick),
        char_thing('%') == Some(Thing::Stone),
        char_thing('C') == Some(Thing::Chest),
        char_thing('P') == Some(Thing::Patrol),
        char_thing('B') == Some(Thing::Bat),
        char_thing('T') == Some(Thing::Turret),
        char_thing('G') == Some(Thing::Gem),
        ch != '#' && ch != '%' && ch != 'C' && ch != 'P' && ch != 'B' && ch != 'T' && ch != 'G' ==> char_thing(ch) is None,
{
}

fn char_thing_exec(ch: char) -> (t: Option<Thing>)
    ensures
        t == char_thing(ch),
{
    if ch == '#' {
        Some(Thing::Brick)
    } else if ch == '%' {
        Some(Thing::Stone)
    } else if ch == 'C' {
        Some(Thing::Chest)
    } else if ch == 'P' {
        Some(Thing::Patrol)
    } else if ch == 'B' {
        Some(Thing::Bat)
    } else if ch == 'T' {
        Some(Thing::Turret)
    } else if ch == 'G' {
        Some(Thing::Gem)
    } else {
        None
    }
}

/// The things row `r` (its characters `chars`) places, left to right.
pub open spec fn row_spawns(chars: Seq<char>, r: int) -> Seq<Spawn>
    decreases chars.len(),
{
    if chars.len() == 0 {
        Seq::empty()
    } else {
        row_spawns(chars.drop_last(), r) + match char_thing(chars.last()) {
            Some(t) => seq![Spawn { thing: t, col: (chars.len() - 1) as usize, row: r as usize }],
            None => Seq::empty(),
        }
    }
}

/// The things a map places, row by row, left to right.
pub open spec fn map_spawns(rows: Seq<&str>) -> Seq<Spawn>
    decreases rows.len(),
{
    if rows.len() == 0 {
        Seq::empty()
    } else {
        map_spawns(rows.drop_last()) + row_spawns(rows.last()@, rows.len() - 1)
    }
}

/// Scan a tower map: blocks, enemies and gems, in reading order.
pub fn scan_map(map: &[&str]) -> (spawns: Vec<Spawn>)
    ensures
        spawns@ == map_spawns(map@),
{
    let mut spawns: Vec<Spawn> = Vec::new();
    let mut r: usize = 0;
    while r < map.len()
        invariant
            r <= map@.len(),
            spawns@ == map_spawns(map@.subrange(0, r as int)),
        decreases map@.len() - r,
    {
        let line = map[r];
        let blen = line.as_bytes().len();
        proof {
            lemma_chars_le_bytes(line@);
        }
        let ghost spawns0 = spawns@;
        let mut c: usize = 0;
        for ch in it: line.chars()
            invariant
                c == it.index(),
                it.seq() == line@,
                line@.len() <= blen,
                line == map@[r as int],
                spawns@ == spawns0 + row_spawns(line@.subrange(0, c as int), r as int),
                r < map@.len(),
        {
            match char_thing_exec(ch) {
                Some(thing) => {
                    spawns.push(Spawn { thing, col: c, row: r });
                },
                None => {},
            }
            proof {
                let pre = line@.subrange(0, c as int);
                let post = line@.subrange(0, c + 1);
                assert(post.drop_last() =~= pre);
                assert(post.last() == ch);
            }
            c = c + 1;
        }
        proof {
            assert(line@.subrange(0, line@.len() as int) =~= line@);
            let pre_rows = map@.subrange(0, r as int);
            let post_rows = map@.subrange(0, r + 1);
            assert(post_rows.drop_last() =~= pre_rows);
            assert(post_rows.last() == line);
        }
        r = r + 1;
    }
    assert(map@.subrange(0, map@.len() as int) =~= map@);
    spawns
}

/// The tower map of level `level` (the last one for any later index).
pub open spec fn level_map_of(level: int) -> Seq<&'static str> {
    if level == 0 {
        seq![
            "################################",
            "#..............................#",
            "#.............Goal.............#",
            "#.............####.............#",
            "#..............................#",
            "#..............................#",
            "#...................C..........#",
            "#....#####.......#######.......#",
            "#..............................#",
            "#..........#####...............#",
            "#..............................#",
            "#####################%%%########",
            "#####################%%%########",
            "#..............................#",
            "#..............................#",
            "#.................P............#",
            "#...........#############......#",
            "#..............................#",
            "#..............................#",
            "#..............................#",
            "#......######..................#",
            "#..............................#",
            "#..............................#",
            "#..............................#",
            "#..............................#",
            "#....####......................#",
            "#..............................#",
            "#..............................#",
            "#..............................#",
            "#..............................#",
            "#..............................#",
            "################################",
        ]
    } else if level == 1 {
        seq![
            "################################",
            "#..............................#",
            "#.............Goal.............#",
            "#.............####.............#",
            "#..............................#",
            "#......####..........####......#",
            "#%%%............B...........%%%#",
            "#%%%........................%%%#",
            "#............######............#",
            "#......###............###......#",
            "#........T.......C.............#",
            "#............######............#",
            "#.......G......................#",
            "#......####..........####......#",
            "################################",
            "#%%%........................%%%#",
            "#%%%.....C......B...........%%%#",
            "#%%%........................%%%#",
            "#...........########...........#",
            "#.........P..........P.........#",
            "#..............................#",
            "#....#####............#####....#",
            "#..........................G...#",
            "#%%%........................%%%#",
            "#%%%..................C.....%%%#",
            "#%%%........................%%%#",
            "#...........########...........#",
            "#................T.............#",
            "#..............................#",
            "#..........P...................#",
            "#..............................#",
            "################################",
        ]
    } else {
        seq![
            "################################",
            "#..............................#",
            "#.............Goal.............#",
            "#.............####.............#",
            "#..............................#",
            "#........B............B........#",
            "#..####........C.........####..#",
            "#..............................#",
            "#........T............T........#",
            "#......######......######......#",
            "#..............................#",
            "#..G...C.......P.......C...G...#",
            "#...#######..........#######...#",
            "#..............................#",
            "#%%%........................%%%#",
            "#%%%...........B............%%%#",
            "#%%%........................%%%#",
            "#...........########...........#",
            "#..............................#",
            "#..............................#",
            "#....#####............#####....#",
            "#...........G......G...........#",
            "#...T......##########......T...#",
            "#..............................#",
            "#.........P..........P.........#",
            "#..............................#",
            "################################",
        ]
    }
}

/// The tower map of level `level` (the last one for any later index).
pub fn level_map(level: usize) -> (map: Vec<&'static str>)
    ensures
        map@ == level_map_of(level as int),
{
    if level == 0 {
        vec![
            "################################",
            "#..............................#",
            "#.............Goal.............#",
            "#.............####.............#",
            "#..............................#",
            "#..............................#",
            "#...................C..........#",
            "#....#####.......#######.......#",
            "#..............................#",
            "#..........#####...............#",
            "#..............................#",
            "#####################%%%########",
            "#####################%%%########",
            "#..............................#",
            "#..............................#",
            "#.................P............#",
            "#...........#############......#",
            "#..............................#",
            "#..............................#",
            "#..............................#",
            "#......######..................#",
            "#..............................#",
            "#..............................#",
            "#..............................#",
            "#..............................#",
            "#....####......................#",
            "#..............................#",
            "#..............................#",
            "#..............................#",
            "#..............................#",
            "#..............................#",
            "################################",
        ]
    } else if level == 1 {
        vec![
            "################################",
            "#..............................#",
            "#.............Goal.............#",
            "#.............####.............#",
            "#..............................#",
            "#......####..........####......#",
            "#%%%............B...........%%%#",
            "#%%%........................%%%#",
            "#............######............#",
            "#......###............###......#",
            "#........T.......C.............#",
            "#............######............#",
            "#.......G......................#",
            "#......####..........####......#",
            "################################",
            "#%%%........................%%%#",
            "#%%%.....C......B...........%%%#",
            "#%%%........................%%%#",
            "#...........########...........#",
            "#.........P..........P.........#",
            "#..............................#",
            "#....#####............#####....#",
            "#..........................G...#",
            "#%%%........................%%%#",
            "#%%%..................C.....%%%#",
            "#%%%........................%%%#",
            "#...........########...........#",
            "#................T.............#",
            "#..............................#",
            "#..........P...................#",
            "#..............................#",
            "################################",
        ]
    } else {
        vec![
            "################################",
            "#..............................#",
            "#.............Goal.............#",
            "#.............####.............#",
            "#..............................#",
            "#........B............B........#",
            "#..####........C.........####..#",
            "#..............................#",
            "#........T............T........#",
            "#......######......######......#",
            "#..............................#",
            "#..G...C.......P.......C...G...#",
            "#...#######..........#######...#",
            "#..............................#",
            "#%%%........................%%%#",
            "#%%%...........B............%%%#",
            "#%%%........................%%%#",
            "#...........########...........#",
            "#..............................#",
            "#..............................#",
            "#....#####............#####....#",
            "#...........G......G...........#",
            "#...T......##########......T...#",
            "#..............................#",
            "#.........P..........P.........#",
            "#..............................#",
            "################################",
        ]
    }
}

/// Name of level `level`.
pub fn level_name(level: usize) -> (text: &'static str)
    ensures
        text == (if level == 0 {
            "THE OVERGROWN DEPTHS"
        } else if level == 1 {
            "THE FROZEN ARCHIVE"
        } else {
            "THE LIVING CORE"
        }),
{
    if level == 0 {
        "THE OVERGROWN DEPTHS"
    } else if level == 1 {
        "THE FROZEN ARCHIVE"
    } else {
        "THE LIVING CORE"
    }
}

// ---------------------------------------------------------------------------
// Buttons
// ---------------------------------------------------------------------------

pub const COYOTE_MAX: i32 = 6;
pub const JUMP_BUFFER_MAX: i32 = 6;
/// Frames the jump button must be held before the anchor fires.
pub const ANCHOR_HOLD_FRAMES: i32 = 9;

/// The keyboard as read at the start of a frame.
#[derive(Debug, Clone, Copy, PartialEq, Eq, Structural)]
pub struct KeySnapshot {
    pub right: bool,
    pub left: bool,
    pub up: bool,
    pub down: bool,
    /// Space or Z (B: jump and anchor) held.
    pub b_held: bool,
    /// X (A: shoot) went down this frame.
    pub shoot_pressed: bool,
}

/// Button state of the mage.
#[derive(Debug, Clone, Copy, PartialEq, Eq, Structural)]
pub struct Input {
    pub right: bool,
    pub left: bool,
    pub up: bool,
    pub down: bool,
    pub jump_buffer: i32,
    pub shoot_pressed: bool,
    pub b_down: bool,
    pub b_down_frames: i32,
    pub anchor_fired: bool,
}

impl Input {
    /// Nothing held or pressed.
    pub fn new() -> (i: Self)
        ensures
            !i.right && !i.left && !i.up && !i.down,
            i.jump_buffer == 0 && !i.shoot_pressed,
            !i.b_down && i.b_down_frames == 0 && !i.anchor_fired,
    {
        Input {
            right: false,
            left: false,
            up: false,
            down: false,
            jump_buffer: 0,
            shoot_pressed: false,
            b_down: false,
            b_down_frames: 0,
            anchor_fired: false,
        }
    }

    /// Read the keyboard: directions as they are; B going down fills the jump
    /// buffer and restarts its hold count, which grows while B is held; a
    /// shot press is latched until used.
    pub fn poll(&mut self, keys: KeySnapshot)
        requires
            old(self).b_down_frames < i32::MAX,
        ensures
            final(self).right == keys.right && final(self).left == keys.left,
            final(self).up == keys.up && final(self).down == keys.down,
            final(self).b_down == keys.b_held,
            final(self).jump_buffer == if keys.b_held && !old(self).b_down {
                JUMP_BUFFER_MAX
            } else {
                old(self).jump_buffer
            },
            final(self).b_down_frames == if keys.b_held && !old(self).b_down {
                1
            } else if keys.b_held {
                old(self).b_down_frames + 1
            } else {
                old(self).b_down_frames as int
            },
            final(self).shoot_pressed == (old(self).shoot_pressed || keys.shoot_pressed),
            final(self).anchor_fired == old(self).anchor_fired,
    {
        self.right = keys.right;
        self.left = keys.left;
        self.up = keys.up;
        self.down = keys.down;
        let b_now = keys.b_held;
        if b_now && !self.b_down {
            self.b_down = true;
            self.b_down_frames = 0;
            self.jump_buffer = JUMP_BUFFER_MAX;
        }
        if b_now {
            self.b_down_frames = self.b_down_frames + 1;
        }
        if !b_now && self.b_down {
            self.b_down = false;
        }
        if keys.shoot_pressed {
            self.shoot_pressed = true;
        }
    }

    /// Aim as unit steps (see [`Input::get_trajectory`]).
    pub open spec fn get_trajectory_spec(&self, facing_right: bool) -> (i32, i32) {
        if self.up && self.right {
            (1i32, -1i32)
        } else if self.up && self.left {
            (-1i32, -1i32)
        } else if self.down && self.right {
            (1i32, 1i32)
        } else if self.down && self.left {
            (-1i32, 1i32)
        } else if self.up {
            (0i32, -1i32)
        } else if self.down {
            (0i32, 1i32)
        } else if self.right {
            (1i32, 0i32)
        } else if self.left {
            (-1i32, 0i32)
        } else if facing_right {
            (1i32, 0i32)
        } else {
            (-1i32, 0i32)
        }
    }

    /// The aim follows the held directions, screen y down: holding right
    /// aims right (x = 1), else holding left aims left (x = -1); holding up
    /// aims up (y = -1), else holding down aims down (y = 1). With neither
    /// side held, a held up or down aims straight (x = 0), and with nothing
    /// held the aim is level (y = 0), the way the mage faces.
    pub proof fn lemma_aim_follows_held_directions(&self, facing_right: bool)
        ensures
            ({
                let (x, y) = self.get_trajectory_spec(facing_right);
                &&& self.right ==> x == 1
                &&& !self.right && self.left ==> x == -1
                &&& !self.right && !self.left && (self.up || self.down) ==> x == 0
                &&& !self.right && !self.left && !self.up && !self.down ==> x == (if facing_right { 1i32 } else { -1i32 })
                &&& self.up ==> y == -1
                &&& !self.up && self.down ==> y == 1
                &&& !self.up && !self.down ==> y == 0
            }),
    {
    }

    /// Aim as unit steps (-1, 0 or 1 per axis, screen y down): a held
    /// diagonal, else up, down, right or left, else the way the mage faces.
    /// Shots and the anchor fly this way at their own speed.
    pub fn get_trajectory(&self, facing_right: bool) -> (dir: (i32, i32))
        ensures
            dir == self.get_trajectory_spec(facing_right),
    {
        if self.up && self.right {
            (1, -1)
        } else if self.up && self.left {
            (-1, -1)
        } else if self.down && self.right {
            (1, 1)
        } else if self.down && self.left {
            (-1, 1)
        } else if self.up {
            (0, -1)
        } else if self.down {
            (0, 1)
        } else if self.right {
            (1, 0)
        } else if self.left {
            (-1, 0)
        } else if facing_right {
            (1, 0)
        } else {
            (-1, 0)
        }
    }
}

// ---------------------------------------------------------------------------
// Rules of the climb
// ---------------------------------------------------------------------------

pub const LEVEL_COUNT: usize = 3;

/// Screens of the game.
#[derive(Debug, Clone, Copy, PartialEq, Eq, Structural)]
pub enum GameState {
    Start,
    Story,
    LevelStory,
    Playing,
    GameOver,
    Win,
}

/// The story on a between-levels screen.
#[derive(Debug, Clone, Copy, PartialEq, Eq, Structural)]
pub enum StoryKind {
    /// After the first level.
    AfterLevel1,
    /// After the second level.
    AfterLevel2,
    /// After the last level.
    Victory,
}

/// The opening story.
pub open spec fn intro_story_of() -> Seq<&'static str> {
    seq![
        "The Obsidian Spire has awakened after a thousand years.",
        "Its corruption spreads across the land --",
        "forests wither, rivers turn black.",
        "The Crystal Mages are gone. All but one.",
        "",
        "You are Vael, the last of your order.",
        "The Elder Council has sent you on a final mission:",
        "ascend the Spire and destroy its heart",
        "before the corruption consumes everything.",
    ]
}

/// The opening story.
pub fn intro_story() -> (lines: Vec<&'static str>)
    ensures
        lines@ == intro_story_of(),
{
    vec![
        "The Obsidian Spire has awakened after a thousand years.",
        "Its corruption spreads across the land --",
        "forests wither, rivers turn black.",
        "The Crystal Mages are gone. All but one.",
        "",
        "You are Vael, the last of your order.",
        "The Elder Council has sent you on a final mission:",
        "ascend the Spire and destroy its heart",
        "before the corruption consumes everything.",
    ]
}

/// The lines of the story `kind` shown between levels.
pub open spec fn story_lines_of(kind: StoryKind) -> Seq<&'static str> {
    match kind {
        StoryKind::AfterLevel1 => seq![
            "The walls pulse with a dark rhythm.",
            "You feel it in your chest -- familiar,",
            "like a heartbeat that isn't your own.",
            "",
            "Something inside the Spire recognizes you.",
        ],
        StoryKind::AfterLevel2 => seq![
            "The whispers grow louder.",
            "Fragments of memory flash before your eyes --",
            "a child running through these very halls, laughing.",
            "",
            "Your hands begin to glow with the same",
            "dark energy as the walls.",
        ],
        StoryKind::Victory => seq![
            "You reach the heart chamber.",
            "The pulsing crystal at the center is... familiar.",
            "",
            "You place your hand on it",
            "and remember everything.",
            "",
            "You ARE the heart.",
            "",
            "The Crystal Mages didn't send you",
            "to destroy the Spire --",
            "they sent you home, hoping you'd merge back",
            "and end your rebellion.",
            "",
            "But you are Vael now.",
            "You shatter the crystal,",
            "and the Spire crumbles.",
            "",
            "Free at last.",
        ],
    }
}

/// The lines of the story `kind` shown between levels.
pub fn story_lines(kind: StoryKind) -> (lines: Vec<&'static str>)
    ensures
        lines@ == story_lines_of(kind),
{
    match kind {
        StoryKind::AfterLevel1 => vec![
            "The walls pulse with a dark rhythm.",
            "You feel it in your chest -- familiar,",
            "like a heartbeat that isn't your own.",
            "",
            "Something inside the Spire recognizes you.",
        ],
        StoryKind::AfterLevel2 => vec![
            "The whispers grow louder.",
            "Fragments of memory flash before your eyes --",
            "a child running through these very halls, laughing.",
            "",
            "Your hands begin to glow with the same",
            "dark energy as the walls.",
        ],
        StoryKind::Victory => vec![
            "You reach the heart chamber.",
            "The pulsing crystal at the center is... familiar.",
            "",
            "You place your hand on it",
            "and remember everything.",
            "",
            "You ARE the heart.",
            "",
            "The Crystal Mages didn't send you",
            "to destroy the Spire --",
            "they sent you home, hoping you'd merge back",
            "and end your rebellion.",
            "",
            "But you are Vael now.",
            "You shatter the crystal,",
            "and the Spire crumbles.",
            "",
            "Free at last.",
        ],
    }
}

/// How the mage left the ground, if at all.
#[derive(Debug, Clone, Copy, PartialEq, Eq, Structural)]
pub enum JumpKind {
    /// No jump (nothing buffered, or swinging on the anchor, or out of jumps).
    NoJump,
    /// A jump from the ground or in coyote time.
    Ground,
    /// A kick off the wall the mage slides on.
    Wall,
    /// A jump in mid-air.
    Double,
}

/// What the anchor did this frame.
#[derive(Debug, Clone, Copy, PartialEq, Eq, Structural)]
pub enum AnchorEvent {
    Idle,
    /// Fired in direction (`dx`, `dy`) (unit steps).
    Fired(i32, i32),
    /// Released while flying.
    Released,
    /// Released while gripping a brick: the mage is flung upward.
    Flung,
}

/// A step of play, with what it reads besides the world.
#[derive(Debug, Clone, Copy, PartialEq, Eq, Structural)]
pub enum PlayStep {
    BeginFrame,
    CoyoteTick,
    /// The anchor button, as the input shows it.
    AnchorStep(Input),
    /// The flying anchor strikes a block of this kind.
    AnchorStrikes(Thing),
    AnchorLost,
    /// The jump button, as the input shows it.
    JumpStep(Input),
    ShootStep,
    Land,
    /// An enemy is killed (stomped or not).
    KillEnemy(bool),
    CollectGem,
    Die,
    ReachGoal,
}

/// The integer state of the climb: screen, level, score and the mage's
/// jump, wall and anchor state.
#[derive(Debug, Clone, Copy, PartialEq, Eq, Structural)]
pub struct World {
    pub state: GameState,
    pub score: i32,
    pub current_level: usize,
    pub coyote_frames: i32,
    pub hit_stop_frames: i32,
    pub frame_count: u64,
    pub on_ground: bool,
    /// -1: touching a wall on the left, 1: on the right, 0: none.
    pub wall_dir: i8,
    pub facing_right: bool,
    pub jumps: u8,
    pub max_jumps: u8,
    pub anchor_active: bool,
    pub anchor_attached: bool,
    pub story: StoryKind,
    pub story_is_victory: bool,
}

impl World {
    /// Ranges the rules keep, and a screen that fits the level.
    pub open spec fn wf(&self) -> bool {
        &&& self.ranges_ok()
        &&& self.state == GameState::Playing ==> self.current_level < LEVEL_COUNT
    }

    /// Ranges of the counters.
    pub open spec fn ranges_ok(&self) -> bool {
        &&& self.max_jumps == 2
        &&& self.jumps <= self.max_jumps
        &&& 0 <= self.hit_stop_frames <= 3
        &&& 0 <= self.score
        &&& self.coyote_frames <= COYOTE_MAX
        &&& -1 <= self.wall_dir <= 1
        &&& self.anchor_attached ==> self.anchor_active
        &&& self.current_level <= LEVEL_COUNT
    }

    /// The title screen, with the first level laid out: returns the world
    /// and what the first level's map places.
    pub fn new() -> (r: (Self, Vec<Spawn>))
        ensures
            r.0.wf(),
            r.0 == (World {
                state: GameState::Start,
                score: 0,
                current_level: 0,
                coyote_frames: 0,
                hit_stop_frames: 0,
                frame_count: 0,
                on_ground: false,
                wall_dir: 0,
                facing_right: true,
                jumps: 0,
                max_jumps: 2,
                anchor_active: false,
                anchor_attached: false,
                story: StoryKind::AfterLevel1,
                story_is_victory: false,
            }),
            r.1@ == map_spawns(level_map_of(0)),
    {
        let mut w = World {
            state: GameState::Start,
            score: 0,
            current_level: 0,
            coyote_frames: 0,
            hit_stop_frames: 0,
            frame_count: 0,
            on_ground: false,
            wall_dir: 0,
            facing_right: true,
            jumps: 0,
            max_jumps: 2,
            anchor_active: false,
            anchor_attached: false,
            story: StoryKind::AfterLevel1,
            story_is_victory: false,
        };
        let spawns = w.reset_game(true);
        w.state = GameState::Start;
        (w, spawns)
    }

    /// (Re)start the current level, from the first one with score 0 on a
    /// full reset: a fresh mage and the level's map, and play begins.
    /// Returns what the map places.
    pub fn reset_game(&mut self, full_reset: bool) -> (spawns: Vec<Spawn>)
        requires
            old(self).ranges_ok(),
            !full_reset ==> old(self).current_level < LEVEL_COUNT,
        ensures
            final(self).wf(),
            spawns@ == map_spawns(level_map_of(final(self).current_level as int)),
            *final(self) == (World {
                score: if full_reset { 0 } else { old(self).score },
                current_level: if full_reset { 0 } else { old(self).current_level },
                on_ground: false,
                wall_dir: 0,
                facing_right: true,
                jumps: 0,
                max_jumps: 2,
                anchor_active: false,
                anchor_attached: false,
                hit_stop_frames: 0,
                coyote_frames: 0,
                state: GameState::Playing,
                ..*old(self)
            }),
    {
        if full_reset {
            self.score = 0;
            self.current_level = 0;
        }
        self.on_ground = false;
        self.wall_dir = 0;
        self.facing_right = true;
        self.jumps = 0;
        self.max_jumps = 2;
        self.anchor_active = false;
        self.anchor_attached = false;
        self.hit_stop_frames = 0;
        self.coyote_frames = 0;
        let map = level_map(self.current_level);
        let spawns = scan_map(map.as_slice());
        self.state = GameState::Playing;
        spawns
    }

    /// Show a story between levels.
    pub fn init_story_screen(&mut self, story: StoryKind, is_victory: bool)
        requires
            old(self).ranges_ok(),
        ensures
            final(self).wf(),
            *final(self) == (World { story, story_is_victory: is_victory, state: GameState::LevelStory, ..*old(self) }),
    {
        self.story = story;
        self.story_is_victory = is_victory;
        self.state = GameState::LevelStory;
    }

    /// A frame on a screen other than play: a press (a buffered jump or a
    /// shot) moves from the title to the story, and from the story, game
    /// over or victory screens into a new game; both presses are consumed.
    /// The between-levels screen does not react. Returns the new level's
    /// spawns when a game starts.
    pub fn update_screen(&mut self, input: &mut Input) -> (spawns: Option<Vec<Spawn>>)
        requires
            old(self).wf(),
            old(self).state != GameState::Playing,
        ensures
            final(self).wf(),
            ({
                let pressed = old(input).jump_buffer > 0 || old(input).shoot_pressed;
                let st = old(self).state;
                &&& pressed ==> *final(input) == (Input { jump_buffer: 0, shoot_pressed: false, ..*old(input) })
                &&& !pressed ==> *final(input) == *old(input)
                &&& pressed && st == GameState::Start ==> spawns is None
                    && *final(self) == (World { state: GameState::Story, ..*old(self) })
                &&& pressed && (st == GameState::Story || st == GameState::GameOver || st == GameState::Win)
                    ==> spawns is Some && spawns->0@ == map_spawns(level_map_of(0)) && *final(self) == (World {
                    score: 0,
                    current_level: 0,
                    on_ground: false,
                    wall_dir: 0,
                    facing_right: true,
                    jumps: 0,
                    max_jumps: 2,
                    anchor_active: false,
                    anchor_attached: false,
                    hit_stop_frames: 0,
                    coyote_frames: 0,
                    state: GameState::Playing,
                    ..*old(self)
                })
                &&& !pressed || st == GameState::LevelStory ==> *final(self) == *old(self) && spawns is None
            }),
    {
        let mut spawns: Option<Vec<Spawn>> = None;
        if input.jump_buffer > 0 || input.shoot_pressed {
            match self.state {
                GameState::Start => {
                    self.state = GameState::Story;
                },
                GameState::Story | GameState::GameOver | GameState::Win => {
                    spawns = Some(self.reset_game(true));
                },
                _ => {},
            }
            input.jump_buffer = 0;
            input.shoot_pressed = false;
        }
        spawns
    }

    /// The start of a frame of play: the frame counts, and while hit stop
    /// lasts the frame is used up (returns `false`).
    pub fn begin_frame(&mut self) -> (runs: bool)
        requires
            old(self).wf(),
            old(self).frame_count < u64::MAX,
        ensures
            *final(self) == after_step(*old(self), PlayStep::BeginFrame),
            final(self).wf(),
            runs == (old(self).hit_stop_frames <= 0),
            *final(self) == (World {
                frame_count: (old(self).frame_count + 1) as u64,
                hit_stop_frames: if runs { old(self).hit_stop_frames } else { (old(self).hit_stop_frames - 1) as i32 },
                ..*old(self)
            }),
    {
        self.frame_count = self.frame_count + 1;
        if self.hit_stop_frames > 0 {
            self.hit_stop_frames = self.hit_stop_frames - 1;
            return false;
        }
        true
    }

    /// Coyote time refills on the ground and runs down in the air; the jump
    /// buffer runs down.
    pub fn coyote_tick(&mut self, input: &mut Input)
        requires
            old(self).wf(),
            old(self).coyote_frames > i32::MIN,
        ensures
            *final(self) == after_step(*old(self), PlayStep::CoyoteTick),
            final(self).wf(),
            *final(self) == (World {
                coyote_frames: if old(self).on_ground { COYOTE_MAX } else { (old(self).coyote_frames - 1) as i32 },
                ..*old(self)
            }),
            *final(input) == (Input {
                jump_buffer: if old(input).jump_buffer > 0 { (old(input).jump_buffer - 1) as i32 } else { old(input).jump_buffer },
                ..*old(input)
            }),
    {
        if self.on_ground {
            self.coyote_frames = COYOTE_MAX;
        } else {
            self.coyote_frames = self.coyote_frames - 1;
        }
        if input.jump_buffer > 0 {
            input.jump_buffer = input.jump_buffer - 1;
        }
    }

    /// The anchor: holding B for more than 9 frames fires it (once per hold)
    /// the way the mage aims; letting go stows it, and letting go while it
    /// grips a brick flings the mage up with one jump used and no coyote time.
    pub fn anchor_step(&mut self, input: &mut Input) -> (ev: AnchorEvent)
        requires
            old(self).wf(),
        ensures
            *final(self) == after_step(*old(self), PlayStep::AnchorStep(*old(input))),
            final(self).wf(),
            ({
                let fires = old(input).b_down && !old(self).anchor_active && !old(input).anchor_fired
                    && old(input).b_down_frames > ANCHOR_HOLD_FRAMES;
                let dir = old(input).get_trajectory_spec(old(self).facing_right);
                if fires {
                    &&& ev == AnchorEvent::Fired(dir.0, dir.1)
                    &&& *final(self) == (World { anchor_active: true, anchor_attached: false, ..*old(self) })
                    &&& *final(input) == (Input { anchor_fired: true, ..*old(input) })
                } else if !old(input).b_down {
                    &&& *final(input) == (Input { anchor_fired: false, ..*old(input) })
                    &&& ev == if !old(self).anchor_active {
                        AnchorEvent::Idle
                    } else if old(self).anchor_attached {
                        AnchorEvent::Flung
                    } else {
                        AnchorEvent::Released
                    }
                    &&& ev == AnchorEvent::Idle ==> *final(self) == *old(self)
                    &&& ev == AnchorEvent::Released ==> *final(self) == (World { anchor_active: false, ..*old(self) })
                    &&& ev == AnchorEvent::Flung ==> *final(self) == (World {
                        anchor_active: false,
                        anchor_attached: false,
                        jumps: 1,
                        coyote_frames: 0,
                        ..*old(self)
                    })
                } else {
                    &&& ev == AnchorEvent::Idle
                    &&& *final(self) == *old(self)
                    &&& *final(input) == *old(input)
                }
            }),
    {
        let mut ev = AnchorEvent::Idle;
        if input.b_down && !self.anchor_active && !input.anchor_fired && input.b_down_frames > ANCHOR_HOLD_FRAMES {
            let dir = input.get_trajectory(self.facing_right);
            self.anchor_active = true;
            self.anchor_attached = false;
            input.anchor_fired = true;
            ev = AnchorEvent::Fired(dir.0, dir.1);
        }
        if !input.b_down {
            input.anchor_fired = false;
            if self.anchor_active {
                self.anchor_active = false;
                if self.anchor_attached {
                    self.jumps = 1;
                    self.anchor_attached = false;
                    self.coyote_frames = 0;
                    ev = AnchorEvent::Flung;
                } else {
                    ev = AnchorEvent::Released;
                }
            }
        }
        ev
    }

    /// The flying anchor strikes a block: stone and chests are mined (the
    /// anchor is spent), a brick is gripped. Returns whether it grips.
    pub fn anchor_strikes(&mut self, block: Thing) -> (grips: bool)
        requires
            old(self).wf(),
            old(self).anchor_active && !old(self).anchor_attached,
            block == Thing::Brick || block == Thing::Stone || block == Thing::Chest,
        ensures
            *final(self) == after_step(*old(self), PlayStep::AnchorStrikes(block)),
            final(self).wf(),
            grips == (block == Thing::Brick),
            grips ==> *final(self) == (World { anchor_attached: true, ..*old(self) }),
            !grips ==> *final(self) == (World { anchor_active: false, ..*old(self) }),
    {
        if block == Thing::Brick {
            self.anchor_attached = true;
            true
        } else {
            self.anchor_active = false;
            false
        }
    }

    /// The flying anchor went out of reach and is stowed.
    pub fn anchor_lost(&mut self)
        requires
            old(self).wf(),
            !old(self).anchor_attached,
        ensures
            *final(self) == after_step(*old(self), PlayStep::AnchorLost),
            final(self).wf(),
            *final(self) == (World { anchor_active: false, ..*old(self) }),
    {
        self.anchor_active = false;
    }

    /// A buffered jump is taken: never while swinging on the anchor; from the
    /// ground or in coyote time; else off a wall (facing away from it); else
    /// in mid-air while jumps remain. A taken jump empties the buffer.
    pub fn jump_step(&mut self, input: &mut Input) -> (kind: JumpKind)
        requires
            old(self).wf(),
        ensures
            *final(self) == after_step(*old(self), PlayStep::JumpStep(*old(input))),
            final(self).wf(),
            kind == if old(input).jump_buffer <= 0 || old(self).anchor_attached {
                JumpKind::NoJump
            } else if old(self).coyote_frames > 0 {
                JumpKind::Ground
            } else if old(self).wall_dir != 0 {
                JumpKind::Wall
            } else if old(self).jumps < old(self).max_jumps {
                JumpKind::Double
            } else {
                JumpKind::NoJump
            },
            kind == JumpKind::NoJump ==> *final(self) == *old(self) && *final(input) == *old(input),
            kind != JumpKind::NoJump ==> *final(input) == (Input { jump_buffer: 0, ..*old(input) }),
            kind == JumpKind::Ground ==> *final(self) == (World { jumps: 1, coyote_frames: 0, ..*old(self) }),
            kind == JumpKind::Wall ==> *final(self) == (World {
                jumps: 1,
                facing_right: old(self).wall_dir == -1,
                ..*old(self)
            }),
            kind == JumpKind::Double ==> *final(self) == (World { jumps: (old(self).jumps + 1) as u8, ..*old(self) }),
    {
        if input.jump_buffer > 0 {
            if self.anchor_attached {
                JumpKind::NoJump
            } else if self.coyote_frames > 0 {
                self.jumps = 1;
                self.coyote_frames = 0;
                input.jump_buffer = 0;
                JumpKind::Ground
            } else if self.wall_dir != 0 {
                self.facing_right = self.wall_dir == -1;
                self.jumps = 1;
                input.jump_buffer = 0;
                JumpKind::Wall
            } else if self.jumps < self.max_jumps {
                self.jumps = self.jumps + 1;
                input.jump_buffer = 0;
                JumpKind::Double
            } else {
                JumpKind::NoJump
            }
        } else {
            JumpKind::NoJump
        }
    }

    /// A latched shot is fired the way the mage aims and the latch clears.
    pub fn shoot_step(&mut self, input: &mut Input) -> (shot: Option<(i32, i32)>)
        requires
            old(self).wf(),
        ensures
            *final(self) == after_step(*old(self), PlayStep::ShootStep),
            *final(self) == *old(self),
            old(input).shoot_pressed ==> shot == Some(old(input).get_trajectory_spec(old(self).facing_right))
                && *final(input) == (Input { shoot_pressed: false, ..*old(input) }),
            !old(input).shoot_pressed ==> shot is None && *final(input) == *old(input),
    {
        if input.shoot_pressed {
            let dir = input.get_trajectory(self.facing_right);
            input.shoot_pressed = false;
            Some(dir)
        } else {
            None
        }
    }

    /// Landing on a block: on the ground with all jumps back.
    pub fn land(&mut self)
        requires
            old(self).wf(),
        ensures
            *final(self) == after_step(*old(self), PlayStep::Land),
            final(self).wf(),
            *final(self) == (World { on_ground: true, jumps: 0, ..*old(self) }),
    {
        self.on_ground = true;
        self.jumps = 0;
    }

    /// An enemy is destroyed (shot, or stomped from above): 100 points and
    /// three frames of hit stop; a stomp bounces the mage with one jump used.
    pub fn kill_enemy(&mut self, stomped: bool)
        requires
            old(self).wf(),
            old(self).score + 100 <= i32::MAX,
        ensures
            *final(self) == after_step(*old(self), PlayStep::KillEnemy(stomped)),
            final(self).wf(),
            *final(self) == (World {
                score: (old(self).score + 100) as i32,
                hit_stop_frames: 3,
                jumps: if stomped { 1 } else { old(self).jumps },
                ..*old(self)
            }),
    {
        if stomped {
            self.jumps = 1;
        }
        self.score = self.score + 100;
        self.hit_stop_frames = 3;
    }

    /// A gem is picked up: 50 points.
    pub fn collect_gem(&mut self)
        requires
            old(self).wf(),
            old(self).score + 50 <= i32::MAX,
        ensures
            *final(self) == after_step(*old(self), PlayStep::CollectGem),
            final(self).wf(),
            *final(self) == (World { score: (old(self).score + 50) as i32, ..*old(self) }),
    {
        self.score = self.score + 50;
    }

    /// The mage touches an enemy, an enemy bullet or the lava: game over.
    pub fn die(&mut self)
        requires
            old(self).wf(),
        ensures
            *final(self) == after_step(*old(self), PlayStep::Die),
            final(self).wf(),
            *final(self) == (World { state: GameState::GameOver, ..*old(self) }),
    {
        self.state = GameState::GameOver;
    }

    /// The mage reaches the top of the tower: the next level's story, or the
    /// victory story after the last level.
    pub fn reach_goal(&mut self) -> (spawns: Option<Vec<Spawn>>)
        requires
            old(self).wf(),
            old(self).state == GameState::Playing,
        ensures
            *final(self) == after_step(*old(self), PlayStep::ReachGoal),
            final(self).wf(),
            spawns is None,
            *final(self) == (World {
                current_level: (old(self).current_level + 1) as usize,
                state: GameState::LevelStory,
                story: if old(self).current_level + 1 >= LEVEL_COUNT {
                    StoryKind::Victory
                } else if old(self).current_level == 0 {
                    StoryKind::AfterLevel1
                } else {
                    StoryKind::AfterLevel2
                },
                story_is_victory: old(self).current_level + 1 >= LEVEL_COUNT,
                ..*old(self)
            }),
    {
        let just_finished = self.current_level;
        self.current_level = self.current_level + 1;
        if self.current_level >= LEVEL_COUNT {
            self.init_story_screen(StoryKind::Victory, true);
            None
        } else if just_finished == 0 {
            self.init_story_screen(StoryKind::AfterLevel1, false);
            None
        } else if just_finished == 1 {
            self.init_story_screen(StoryKind::AfterLevel2, false);
            None
        } else {
            Some(self.reset_game(false))
        }
    }
}

/// The world after one step of play.
pub open spec fn after_step(w: World, step: PlayStep) -> World {
    match step {
        PlayStep::BeginFrame => World {
            frame_count: (w.frame_count + 1) as u64,
            hit_stop_frames: if w.hit_stop_frames <= 0 { w.hit_stop_frames } else { (w.hit_stop_frames - 1) as i32 },
            ..w
        },
        PlayStep::CoyoteTick => World {
            coyote_frames: if w.on_ground { COYOTE_MAX } else { (w.coyote_frames - 1) as i32 },
            ..w
        },
        PlayStep::AnchorStep(i) => {
            if i.b_down && !w.anchor_active && !i.anchor_fired && i.b_down_frames > ANCHOR_HOLD_FRAMES {
                World { anchor_active: true, anchor_attached: false, ..w }
            } else if !i.b_down && w.anchor_active {
                if w.anchor_attached {
                    World { anchor_active: false, anchor_attached: false, jumps: 1, coyote_frames: 0, ..w }
                } else {
                    World { anchor_active: false, ..w }
                }
            } else {
                w
            }
        },
        PlayStep::AnchorStrikes(block) => if block == Thing::Brick {
            World { anchor_attached: true, ..w }
        } else {
            World { anchor_active: false, ..w }
        },
        PlayStep::AnchorLost => World { anchor_active: false, ..w },
        PlayStep::JumpStep(i) => {
            if i.jump_buffer <= 0 || w.anchor_attached {
                w
            } else if w.coyote_frames > 0 {
                World { jumps: 1, coyote_frames: 0, ..w }
            } else if w.wall_dir != 0 {
                World { jumps: 1, facing_right: w.wall_dir == -1, ..w }
            } else if w.jumps < w.max_jumps {
                World { jumps: (w.jumps + 1) as u8, ..w }
            } else {
                w
            }
        },
        PlayStep::ShootStep => w,
        PlayStep::Land => World { on_ground: true, jumps: 0, ..w },
        PlayStep::KillEnemy(stomped) => World {
            score: (w.score + 100) as i32,
            hit_stop_frames: 3,
            jumps: if stomped { 1 } else { w.jumps },
            ..w
        },
        PlayStep::CollectGem => World { score: (w.score + 50) as i32, ..w },
        PlayStep::Die => World { state: GameState::GameOver, ..w },
        PlayStep::ReachGoal => World {
            current_level: (w.current_level + 1) as usize,
            state: GameState::LevelStory,
            story: if w.current_level + 1 >= LEVEL_COUNT {
                StoryKind::Victory
            } else if w.current_level == 0 {
                StoryKind::AfterLevel1
            } else {
                StoryKind::AfterLevel2
            },
            story_is_victory: w.current_level + 1 >= LEVEL_COUNT,
            ..w
        },
    }
}

/// The world after `steps`, taken in order.
pub open spec fn after_steps(w: World, steps: Seq<PlayStep>) -> World
    decreases steps.len(),
{
    if steps.len() == 0 {
        w
    } else {
        after_step(after_steps(w, steps.drop_last()), steps.last())
    }
}

/// Points `steps` earn: 100 per enemy killed, 50 per gem collected.
pub open spec fn score_gain(steps: Seq<PlayStep>) -> int
    decreases steps.len(),
{
    if steps.len() == 0 {
        0
    } else {
        score_gain(steps.drop_last()) + match steps.last() {
            PlayStep::KillEnemy(_) => 100int,
            PlayStep::CollectGem => 50int,
            _ => 0int,
        }
    }
}

/// During play the score never falls: whatever steps of play are taken, in
/// whatever order, the score ends where it began plus 100 for each enemy
/// killed and 50 for each gem collected (as long as it stays within `i32`).
pub proof fn lemma_play_never_lowers_score(w: World, steps: Seq<PlayStep>)
    requires
        0 <= w.score,
        w.score + 100 * steps.len() <= i32::MAX,
    ensures
        after_steps(w, steps).score == w.score + score_gain(steps),
        0 <= score_gain(steps) <= 100 * steps.len(),
        after_steps(w, steps).score >= w.score,
    decreases steps.len(),
{
    if steps.len() > 0 {
        lemma_play_never_lowers_score(w, steps.drop_last());
    }
}

} // verus!
