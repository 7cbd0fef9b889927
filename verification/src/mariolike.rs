//! Pixel Knight (Mario-like platformer): level maps, the button edge
//! detection, the story typewriter and the integer rules of play.
use vstd::prelude::*;
use vstd::string::StringSliceAdditionalSpecFns;
use crate::sprite::{lemma_chars_le_bytes, max_row_len, max_row_bytes};

verus! {

// ---------------------------------------------------------------------------
// Level maps
// ---------------------------------------------------------------------------

/// What a level map places at a cell.
#[derive(Debug, Clone, Copy, PartialEq, Eq, Structural)]
pub enum Thing {
    /// '#': solid block.
    Solid,
    /// '?': breakable block.
    Breakable,
    /// 'K': spikes.
    Spike,
    /// 'C': crystal gem.
    Crystal,
    /// 'S': slime.
    Slime,
    /// 'B': bat.
    Bat,
    /// 'X': the sorcerer (placed one row higher).
    Boss,
    /// 'P': crystal shard (restores the shield).
    Shard,
    /// 'F': fire crystal.
    FireCrystal,
    /// 'G': the level goal.
    Goal,
}

/// A thing at column `col`, row `row` of the map.
#[derive(Debug, Clone, Copy, PartialEq, Eq, Structural)]
pub struct Spawn {
    pub thing: Thing,
    pub col: usize,
    pub row: usize,
}

/// The thing a map character places; '.' and other characters place nothing.
pub open spec fn char_thing(ch: char) -> Option<Thing> {
    if ch == '#' {
        Some(Thing::Solid)
    } else if ch == '?' {
        Some(Thing::Breakable)
    } else if ch == 'K' {
        Some(Thing::Spike)
    } else if ch == 'C' {
        Some(Thing::Crystal)
    } else if ch == 'S' {
        Some(Thing::Slime)
    } else if ch == 'B' {
        Some(Thing::Bat)
    } else if ch == 'X' {
        Some(Thing::Boss)
    } else if ch == 'P' {
        Some(Thing::Shard)
    } else if ch == 'F' {
        Some(Thing::FireCrystal)
    } else if ch == 'G' {
        Some(Thing::Goal)
    } else {
        None
    }
}

/// The map legend: '#' is solid ground, '?' a breakable block, 'K' spikes,
/// 'C' a crystal, 'S' a slime, 'B' a bat, 'X' the boss, 'P' a shard, 'F' a
/// fire crystal and 'G' the goal; no other character places anything.
pub proof fn lemma_map_legend(ch: char)
    ensures
        char_thing('#') == Some(Thing::Solid),
        char_thing('?') == Some(Thing::Breakable),
        char_thing('K') == Some(Thing::Spike),
        char_thing('C') == Some(Thing::Crystal),
        char_thing('S') == Some(Thing::Slime),
        char_thing('B') == Some(Thing::Bat),
        char_thing('X') == Some(Thing::Boss),
        char_thing('P') == Some(Thing::Shard),
        char_thing('F') == Some(Thing::FireCrystal),
        char_thing('G') == Some(Thing::Goal),
        ch != '#' && ch != '?' && ch != 'K' && ch != 'C' && ch != 'S' && ch != 'B' && ch != 'X' && ch != 'P' && ch
            != 'F' && ch != 'G' ==> char_thing(ch) is None,
{
}

fn char_thing_exec(ch: char) -> (t: Option<Thing>)
    ensures
        t == char_thing(ch),
{
    if ch == '#' {
        Some(Thing::Solid)
    } else if ch == '?' {
        Some(Thing::Breakable)
    } else if ch == 'K' {
        Some(Thing::Spike)
    } else if ch == 'C' {
        Some(Thing::Crystal)
    } else if ch == 'S' {
        Some(Thing::Slime)
    } else if ch == 'B' {
        Some(Thing::Bat)
    } else if ch == 'X' {
        Some(Thing::Boss)
    } else if ch == 'P' {
        Some(Thing::Shard)
    } else if ch == 'F' {
        Some(Thing::FireCrystal)
    } else if ch == 'G' {
        Some(Thing::Goal)
    } else {
        None
    }
}

/// The things row `r` (its characters `chars`) places, left to right.
pub open spec fn row_spawns(chars: Seq<char>, r: int) -> Seq<Spawn>
    decreases chars.len(),
{
    if chars.len() == 0 {
        Seq::empty()
    } else {
        row_spawns(chars.drop_last(), r) + match char_thing(chars.last()) {
            Some(t) => seq![Spawn { thing: t, col: (chars.len() - 1) as usize, row: r as usize }],
            None => Seq::empty(),
        }
    }
}

/// The things a map places, row by row, left to right.
pub open spec fn map_spawns(rows: Seq<&str>) -> Seq<Spawn>
    decreases rows.len(),
{
    if rows.len() == 0 {
        Seq::empty()
    } else {
        map_spawns(rows.drop_last()) + row_spawns(rows.last()@, rows.len() - 1)
    }
}

/// Number of crystal gems among the things.
pub open spec fn crystal_count(s: Seq<Spawn>) -> nat
    decreases s.len(),
{
    if s.len() == 0 {
        0
    } else {
        crystal_count(s.drop_last()) + if s.last().thing == Thing::Crystal { 1nat } else { 0nat }
    }
}

/// A scanned level map.
pub struct LevelLayout {
    /// Everything the map places, in reading order.
    pub spawns: Vec<Spawn>,
    /// Width of the map in tiles: its longest row.
    pub cols: usize,
    /// Number of rows.
    pub rows: usize,
    /// Crystal gems to collect.
    pub total_crystals: usize,
}

proof fn lemma_crystal_count_push(s: Seq<Spawn>, x: Spawn)
    ensures
        crystal_count(s.push(x)) == crystal_count(s) + if x.thing == Thing::Crystal { 1nat } else { 0nat },
{
    assert(s.push(x).drop_last() =~= s);
}

/// Scan a level map: tiles, gems, enemies, powerups and the goal, in reading
/// order; the map is as wide as its longest row.
pub fn load_level(map: &[&str]) -> (layout: LevelLayout)
    ensures
        layout.spawns@ == map_spawns(map@),
        layout.cols == max_row_len(map@),
        layout.rows == map@.len(),
        layout.total_crystals == crystal_count(map_spawns(map@)),
{
    let cols = max_row_bytes(map);
    let mut spawns: Vec<Spawn> = Vec::new();
    let mut crystals: usize = 0;
    let mut r: usize = 0;
    while r < map.len()
        invariant
            r <= map@.len(),
            spawns@ == map_spawns(map@.subrange(0, r as int)),
            crystals == crystal_count(spawns@),
            crystals <= spawns@.len(),
        decreases map@.len() - r,
    {
        let line = map[r];
        let blen = line.as_bytes().len();
        proof {
            lemma_chars_le_bytes(line@);
        }
        let ghost spawns0 = spawns@;
        let mut c: usize = 0;
        for ch in it: line.chars()
            invariant
                c == it.index(),
                it.seq() == line@,
                line@.len() <= blen,
                line == map@[r as int],
                spawns@ == spawns0 + row_spawns(line@.subrange(0, c as int), r as int),
                crystals == crystal_count(spawns@),
                crystals <= spawns@.len(),
                r < map@.len(),
        {
            match char_thing_exec(ch) {
                Some(thing) => {
                    proof {
                        lemma_crystal_count_push(spawns@, Spawn { thing, col: c, row: r });
                    }
                    spawns.push(Spawn { thing, col: c, row: r });
                    let n = spawns.len();
                    if thing == Thing::Crystal {
                        assert(crystals + 1 <= n);
                        crystals = crystals + 1;
                    }
                },
                None => {},
            }
            proof {
                let pre = line@.subrange(0, c as int);
                let post = line@.subrange(0, c + 1);
                assert(post.drop_last() =~= pre);
                assert(post.last() == ch);
            }
            c = c + 1;
        }
        proof {
            assert(line@.subrange(0, line@.len() as int) =~= line@);
            let pre_rows = map@.subrange(0, r as int);
            let post_rows = map@.subrange(0, r + 1);
            assert(post_rows.drop_last() =~= pre_rows);
            assert(post_rows.last() == line);
        }
        r = r + 1;
    }
    assert(map@.subrange(0, map@.len() as int) =~= map@);
    LevelLayout { spawns, cols, rows: map.len(), total_crystals: crystals }
}

// ---------------------------------------------------------------------------
// Level and story data
// ---------------------------------------------------------------------------

/// The map of level `level` (the last one for any later index).
pub open spec fn level_map_of(level: int) -> Seq<&'static str> {
    if level == 0 {
        seq![
            "......................................................................................................",
            "......................................................................................................",
            "......................................................................................................",
            "......................................................................................................",
            "......................................................................................................",
            "......................................................................................................",
            "..........C.C.C..........................................................C.C.C........................",
            "..........#####.......................C...............................##########.........G..............",
            "....................C.............#####.......C.C.....................................####..............",
            ".................######.......................###..........C..C..C.........####.........................",
            "..............................................................########................................",
            "...S.................S..........S..........S.........S............................................S....",
            "####..........####.......####.......####.......####.....####.......####..####.....####.....KK..####.##",
            "####..........####.......####.......####.......####.....####.......####..####.....####.....KK..####.##",
            "####..........####.......####.......####.......####.....####.......####..####.....####.........####.##",
        ]
    } else if level == 1 {
        seq![
            "######..........................................................................######################",
            "#.............C........C.......C...............................................................C......#",
            "#........................................................................##########..................#",
            "#.C.C......####..........####.......??.........................................B.........C............#",
            "#.###.....................B.................C.C.C.............####.....................................#",
            "#..........................####.....########.........####.........................................S...#",
            "#........S.......S.........................S.............................####.....####.....####..####.#",
            "#..####.....####.....####.....####.....####.....####.....C.C.C..................................####.#",
            "#...........................................P...............###......S.........B...........C.C.C......#",
            "#...............B..............B..........................................####.............######......#",
            "#.......####.......????............####.......####..........####.....................................G#",
            "#....S........S........S.....KKKK.......S..........S...........S........S.......S.....KKKK.....S..###",
            "####..####..####..####..####.####..####..####..####..####..####..####..####..####..####.####..####.##",
            "####..####..####..####..####.####..####..####..####..####..####..####..####..####..####.####..####.##",
            "####..####..####..####..####.####..####..####..####..####..####..####..####..####..####.####..####.##",
        ]
    } else {
        seq![
            "####################################################################################################",
            "#..................................................................................................G.#",
            "#...........................................................................#####.............####..#",
            "#.............C..........C..........C.......................................#.....................X..#",
            "#...........####.......####.......####.........................####.........#.....####..............#",
            "#....................................................................####..#..........................#",
            "#.......B...........B............B..............F......................#..........................S..#",
            "#......####.......####.......####..........####.....####...............#.....####.....####..####.####",
            "#...............................S.....S..........S.............####...#...............................#",
            "#..####.....####.....####..####...####...####...####..........#..........S.........B..........S.....#",
            "#..........................................................................####.....####.....####...#",
            "#...S..........S.........S......KKKK.......S..........S..........S..........KKKKK.......S..........#",
            "####..####..####..####..####.####..####..####..####..####..####..####..####..####..####..####..#####",
            "####..####..####..####..####.####..####..####..####..####..####..####..####..####..####..####..#####",
            "####..####..####..####..####.####..####..####..####..####..####..####..####..####..####..####..#####",
        ]
    }
}

/// The map of level `level` (the last one for any later index).
pub fn get_level_map(level: usize) -> (lines: Vec<&'static str>)
    ensures
        lines@ == level_map_of(level as int),
{
    if level == 0 {
        vec![
            "......................................................................................................",
            "......................................................................................................",
            "......................................................................................................",
            "......................................................................................................",
            "......................................................................................................",
            "......................................................................................................",
            "..........C.C.C..........................................................C.C.C........................",
            "..........#####.......................C...............................##########.........G..............",
            "....................C.............#####.......C.C.....................................####..............",
            ".................######.......................###..........C..C..C.........####.........................",
            "..............................................................########................................",
            "...S.................S..........S..........S.........S............................................S....",
            "####..........####.......####.......####.......####.....####.......####..####.....####.....KK..####.##",
            "####..........####.......####.......####.......####.....####.......####..####.....####.....KK..####.##",
            "####..........####.......####.......####.......####.....####.......####..####.....####.........####.##",
        ]
    } else if level == 1 {
        vec![
            "######..........................................................................######################",
            "#.............C........C.......C...............................................................C......#",
            "#........................................................................##########..................#",
            "#.C.C......####..........####.......??.........................................B.........C............#",
            "#.###.....................B.................C.C.C.............####.....................................#",
            "#..........................####.....########.........####.........................................S...#",
            "#........S.......S.........................S.............................####.....####.....####..####.#",
            "#..####.....####.....####.....####.....####.....####.....C.C.C..................................####.#",
            "#...........................................P...............###......S.........B...........C.C.C......#",
            "#...............B..............B..........................................####.............######......#",
            "#.......####.......????............####.......####..........####.....................................G#",
            "#....S........S........S.....KKKK.......S..........S...........S........S.......S.....KKKK.....S..###",
            "####..####..####..####..####.####..####..####..####..####..####..####..####..####..####.####..####.##",
            "####..####..####..####..####.####..####..####..####..####..####..####..####..####..####.####..####.##",
            "####..####..####..####..####.####..####..####..####..####..####..####..####..####..####.####..####.##",
        ]
    } else {
        vec![
            "####################################################################################################",
            "#..................................................................................................G.#",
            "#...........................................................................#####.............####..#",
            "#.............C..........C..........C.......................................#.....................X..#",
            "#...........####.......####.......####.........................####.........#.....####..............#",
            "#....................................................................####..#..........................#",
            "#.......B...........B............B..............F......................#..........................S..#",
            "#......####.......####.......####..........####.....####...............#.....####.....####..####.####",
            "#...............................S.....S..........S.............####...#...............................#",
            "#..####.....####.....####..####...####...####...####..........#..........S.........B..........S.....#",
            "#..........................................................................####.....####.....####...#",
            "#...S..........S.........S......KKKK.......S..........S..........S..........KKKKK.......S..........#",
            "####..####..####..####..####.####..####..####..####..####..####..####..####..####..####..####..#####",
            "####..####..####..####..####.####..####..####..####..####..####..####..####..####..####..####..#####",
            "####..####..####..####..####.####..####..####..####..####..####..####..####..####..####..####..#####",
        ]
    }
}

/// The briefing of level `level` (the last one for any later index).
pub open spec fn level_story_of(level: int) -> Seq<&'static str> {
    if level == 0 {
        seq![
            "LEVEL 1: CRYSTAL MEADOWS",
            "",
            "The meadows have grown dark and cold.",
            "Slimes and bats roam the corrupted fields.",
            "Find the crystal shard hidden at the end.",
            "",
            "Move: D-Pad   Jump: B (Space)",
            "Attack: A (X)   Stomp enemies from above!",
        ]
    } else if level == 1 {
        seq![
            "LEVEL 2: SHADOW CAVERNS",
            "",
            "The caves twist deeper into the earth.",
            "Strange echoes bounce off crystalline walls.",
            "The corruption is stronger here --",
            "more creatures guard the second shard.",
            "",
            "Watch for spikes and falling bats!",
        ]
    } else {
        seq![
            "LEVEL 3: THE DARK TOWER",
            "",
            "Malachar's tower pierces the twilight sky.",
            "His dark knights patrol every corridor.",
            "At the summit, the sorcerer himself awaits.",
            "",
            "Defeat Malachar and restore the Crystal Heart!",
        ]
    }
}

/// The briefing of level `level` (the last one for any later index).
pub fn get_level_story(level: usize) -> (lines: Vec<&'static str>)
    ensures
        lines@ == level_story_of(level as int),
{
    if level == 0 {
        vec![
            "LEVEL 1: CRYSTAL MEADOWS",
            "",
            "The meadows have grown dark and cold.",
            "Slimes and bats roam the corrupted fields.",
            "Find the crystal shard hidden at the end.",
            "",
            "Move: D-Pad   Jump: B (Space)",
            "Attack: A (X)   Stomp enemies from above!",
        ]
    } else if level == 1 {
        vec![
            "LEVEL 2: SHADOW CAVERNS",
            "",
            "The caves twist deeper into the earth.",
            "Strange echoes bounce off crystalline walls.",
            "The corruption is stronger here --",
            "more creatures guard the second shard.",
            "",
            "Watch for spikes and falling bats!",
        ]
    } else {
        vec![
            "LEVEL 3: THE DARK TOWER",
            "",
            "Malachar's tower pierces the twilight sky.",
            "His dark knights patrol every corridor.",
            "At the summit, the sorcerer himself awaits.",
            "",
            "Defeat Malachar and restore the Crystal Heart!",
        ]
    }
}

/// The opening story.
pub open spec fn intro_story_of() -> Seq<&'static str> {
    seq![
        "The Crystal Kingdom once shone with eternal light.",
        "Its radiance kept the darkness at bay",
        "and all creatures lived in peace.",
        "",
        "But the sorcerer Malachar grew jealous of the light.",
        "He shattered the Crystal Heart into three shards,",
        "plunging the realm into endless twilight.",
        "",
        "You are the last Pixel Knight.",
        "Take up your sword and reclaim the crystal shards.",
        "Restore the light... or all is lost.",
    ]
}

/// The opening story.
pub fn intro_story() -> (lines: Vec<&'static str>)
    ensures
        lines@ == intro_story_of(),
{
    vec![
        "The Crystal Kingdom once shone with eternal light.",
        "Its radiance kept the darkness at bay",
        "and all creatures lived in peace.",
        "",
        "But the sorcerer Malachar grew jealous of the light.",
        "He shattered the Crystal Heart into three shards,",
        "plunging the realm into endless twilight.",
        "",
        "You are the last Pixel Knight.",
        "Take up your sword and reclaim the crystal shards.",
        "Restore the light... or all is lost.",
    ]
}

/// The closing story.
pub open spec fn victory_story_of() -> Seq<&'static str> {
    seq![
        "With a final blow, Malachar falls.",
        "The three crystal shards rise into the air,",
        "drawn together by an ancient force.",
        "",
        "The Crystal Heart reforms, and light",
        "erupts across the kingdom.",
        "",
        "The twilight shatters like glass.",
        "Flowers bloom. Rivers sparkle.",
        "The darkness retreats to the forgotten places.",
        "",
        "You kneel, exhausted but triumphant.",
        "The Crystal Kingdom is reborn.",
        "",
        "Thank you, Pixel Knight.",
        "",
        "THE END",
    ]
}

/// The closing story.
pub fn victory_story() -> (lines: Vec<&'static str>)
    ensures
        lines@ == victory_story_of(),
{
    vec![
        "With a final blow, Malachar falls.",
        "The three crystal shards rise into the air,",
        "drawn together by an ancient force.",
        "",
        "The Crystal Heart reforms, and light",
        "erupts across the kingdom.",
        "",
        "The twilight shatters like glass.",
        "Flowers bloom. Rivers sparkle.",
        "The darkness retreats to the forgotten places.",
        "",
        "You kneel, exhausted but triumphant.",
        "The Crystal Kingdom is reborn.",
        "",
        "Thank you, Pixel Knight.",
        "",
        "THE END",
    ]
}

/// Name of level `level`.
pub fn get_level_name(level: usize) -> (text: &'static str)
    ensures
        text == (if level == 0 {
            "CRYSTAL MEADOWS"
        } else if level == 1 {
            "SHADOW CAVERNS"
        } else {
            "THE DARK TOWER"
        }),
{
    if level == 0 {
        "CRYSTAL MEADOWS"
    } else if level == 1 {
        "SHADOW CAVERNS"
    } else {
        "THE DARK TOWER"
    }
}

// ---------------------------------------------------------------------------
// Buttons
// ---------------------------------------------------------------------------

pub const JUMP_BUFFER_MAX: i32 = 6;
pub const COYOTE_MAX: i32 = 6;
pub const JUMP_HOLD_MAX: i32 = 12;
pub const INVULN_MAX: i32 = 60;
pub const PLAYER_MAX_HP: i32 = 2;
pub const LEVEL_COUNT: usize = 3;

/// The keyboard as read at the start of a frame.
#[derive(Debug, Clone, Copy, PartialEq, Eq, Structural)]
pub struct KeySnapshot {
    pub left_down: bool,
    pub right_down: bool,
    pub up_down: bool,
    pub down_down: bool,
    /// Space (B, jump) held.
    pub jump_down: bool,
    /// X (A, attack) held.
    pub attack_down: bool,
    /// X went down this frame.
    pub attack_pressed: bool,
    /// Enter (Start) went down this frame.
    pub start_pressed: bool,
}

/// Button state of the knight, with edge detection for the jump button and a
/// jump buffer.
#[derive(Debug, Clone, Copy, PartialEq, Eq, Structural)]
pub struct Input {
    pub left: bool,
    pub right: bool,
    pub up: bool,
    pub down: bool,
    pub jump: bool,
    pub jump_pressed: bool,
    pub jump_released: bool,
    pub attack: bool,
    pub attack_pressed: bool,
    pub start: bool,
    pub jump_buffer: i32,
    pub prev_jump: bool,
}

impl Input {
    /// Nothing held, nothing pressed.
    pub fn new() -> (i: Self)
        ensures
            !i.left && !i.right && !i.up && !i.down,
            !i.jump && !i.jump_pressed && !i.jump_released && !i.prev_jump,
            !i.attack && !i.attack_pressed && !i.start,
            i.jump_buffer == 0,
    {
        Input {
            left: false,
            right: false,
            up: false,
            down: false,
            jump: false,
            jump_pressed: false,
            jump_released: false,
            attack: false,
            attack_pressed: false,
            start: false,
            jump_buffer: 0,
            prev_jump: false,
        }
    }

    /// Read the keyboard: directions and held buttons as they are; the jump
    /// button is pressed when it goes down and released when it goes up
    /// (compared with the previous poll), and a press fills the jump buffer.
    pub fn poll(&mut self, keys: KeySnapshot)
        requires
            0 <= old(self).jump_buffer <= JUMP_BUFFER_MAX,
        ensures
            0 <= final(self).jump_buffer <= JUMP_BUFFER_MAX,
            final(self).left == keys.left_down,
            final(self).right == keys.right_down,
            final(self).up == keys.up_down,
            final(self).down == keys.down_down,
            final(self).jump == keys.jump_down,
            final(self).jump_pressed == (keys.jump_down && !old(self).prev_jump),
            final(self).jump_released == (!keys.jump_down && old(self).prev_jump),
            final(self).prev_jump == keys.jump_down,
            final(self).jump_buffer == (if final(self).jump_pressed { JUMP_BUFFER_MAX } else { old(self).jump_buffer }),
            final(self).attack_pressed == keys.attack_pressed,
            final(self).attack == keys.attack_down,
            final(self).start == keys.start_pressed,
    {
        self.left = keys.left_down;
        self.right = keys.right_down;
        self.up = keys.up_down;
        self.down = keys.down_down;
        let jump_now = keys.jump_down;
        self.jump_pressed = jump_now && !self.prev_jump;
        self.jump_released = !jump_now && self.prev_jump;
        self.jump = jump_now;
        self.prev_jump = jump_now;
        if self.jump_pressed {
            self.jump_buffer = JUMP_BUFFER_MAX;
        }
        self.attack_pressed = keys.attack_pressed;
        self.attack = keys.attack_down;
        self.start = keys.start_pressed;
    }

    /// After each fixed update step: the jump buffer runs down and the one-shot
    /// presses are consumed.
    pub fn end_step(&mut self)
        requires
            0 <= old(self).jump_buffer <= JUMP_BUFFER_MAX,
        ensures
            0 <= final(self).jump_buffer <= JUMP_BUFFER_MAX,
            final(self).jump_buffer == (if old(self).jump_buffer > 0 { old(self).jump_buffer - 1 } else { 0 }),
            !final(self).jump_pressed && !final(self).jump_released,
            !final(self).attack_pressed && !final(self).start,
            final(self).left == old(self).left && final(self).right == old(self).right,
            final(self).up == old(self).up && final(self).down == old(self).down,
            final(self).jump == old(self).jump && final(self).attack == old(self).attack,
            final(self).prev_jump == old(self).prev_jump,
    {
        if self.jump_buffer > 0 {
            self.jump_buffer = self.jump_buffer - 1;
        }
        self.jump_pressed = false;
        self.jump_released = false;
        self.attack_pressed = false;
        self.start = false;
    }
}

// ---------------------------------------------------------------------------
// Story typewriter
// ---------------------------------------------------------------------------

/// The bytes of every line before line `n`, each followed by a newline.
pub open spec fn lines_with_breaks(lines: Seq<&str>, n: int) -> Seq<u8>
    decreases n,
{
    if n <= 0 {
        Seq::empty()
    } else {
        lines_with_breaks(lines, n - 1) + lines[n - 1].spec_bytes() + seq![10u8]
    }
}

/// All lines joined with newlines between them.
pub open spec fn joined(lines: Seq<&str>) -> Seq<u8> {
    if lines.len() == 0 {
        Seq::empty()
    } else {
        lines_with_breaks(lines, lines.len() - 1) + lines[lines.len() - 1].spec_bytes()
    }
}

/// The text the typewriter shows at line `li`, byte `ci`: the finished lines,
/// then the first `ci` bytes of the current line.
pub open spec fn typed(lines: Seq<&str>, li: int, ci: int) -> Seq<u8> {
    if li < lines.len() {
        lines_with_breaks(lines, li) + lines[li].spec_bytes().subrange(0, ci)
    } else {
        lines_with_breaks(lines, li)
    }
}

/// Which story is on screen.
#[derive(Debug, Clone, Copy, PartialEq, Eq, Structural)]
pub enum StoryKind {
    Intro,
    /// The briefing of level `i`.
    Level(usize),
    Victory,
}

/// The lines of story `kind`.
pub open spec fn story_lines_of(kind: StoryKind) -> Seq<&'static str> {
    match kind {
        StoryKind::Intro => intro_story_of(),
        StoryKind::Level(i) => level_story_of(i as int),
        StoryKind::Victory => victory_story_of(),
    }
}

/// The lines of story `kind`.
pub fn story_lines(kind: StoryKind) -> (lines: Vec<&'static str>)
    ensures
        lines@ == story_lines_of(kind),
{
    match kind {
        StoryKind::Intro => intro_story(),
        StoryKind::Level(i) => get_level_story(i),
        StoryKind::Victory => victory_story(),
    }
}

/// Screens of the game.
#[derive(Debug, Clone, Copy, PartialEq, Eq, Structural)]
pub enum GameState {
    Start,
    Story,
    LevelStory,
    Playing,
    GameOver,
    Win,
}

/// Where a story screen leads once it has been read.
#[derive(Debug, Clone, Copy, PartialEq, Eq, Structural)]
pub enum StoryExit {
    /// Still reading.
    Stay,
    /// The intro was read: the briefing of the current level follows.
    LevelBriefing,
    /// The briefing was read: the current level must be loaded and played.
    LoadLevel,
    /// The victory story was read.
    Won,
}

/// The integer state of the world: screen, level, story typewriter and the
/// knight's health, lives, gems and score.
pub struct WorldState {
    pub state: GameState,
    pub current_level: usize,
    pub hp: i32,
    pub max_hp: i32,
    pub has_fire: bool,
    pub invuln: i32,
    pub lives: i32,
    pub crystals_collected: i32,
    pub score: i32,
    pub hit_stop_frames: i32,
    pub boss_defeated: bool,
    pub goal_reached: bool,
    pub goal_timer: i32,
    pub coyote_frames: i32,
    pub jump_held: i32,
    pub total_crystals: usize,
    pub story: StoryKind,
    pub story_line_index: usize,
    pub story_char_index: usize,
    pub story_frame_counter: u64,
    /// The story text revealed so far (bytes of the lines, newline-separated).
    pub story_text: Vec<u8>,
    pub story_is_victory: bool,
}

impl WorldState {
    /// Ranges the rules keep, and a screen that fits the level.
    pub open spec fn wf(&self) -> bool {
        &&& self.ranges_ok()
        &&& self.state == GameState::Playing ==> self.current_level < LEVEL_COUNT
        &&& self.state == GameState::Playing && self.goal_reached ==> self.goal_timer <= 60
        &&& self.state == GameState::LevelStory ==> self.current_level < LEVEL_COUNT
        &&& self.state == GameState::Story && !self.story_is_victory ==> self.current_level < LEVEL_COUNT
    }

    /// Ranges of the counters.
    pub open spec fn ranges_ok(&self) -> bool {
        &&& self.max_hp == PLAYER_MAX_HP
        &&& self.hp <= self.max_hp
        &&& self.lives <= 3
        &&& 0 <= self.invuln <= INVULN_MAX
        &&& 0 <= self.coyote_frames <= COYOTE_MAX
        &&& 0 <= self.jump_held <= JUMP_HOLD_MAX
        &&& 0 <= self.hit_stop_frames <= 3
        &&& 0 <= self.goal_timer <= 61
        &&& 0 <= self.score
        &&& 0 <= self.crystals_collected
        &&& self.current_level <= LEVEL_COUNT
    }

    /// The story text matches the typewriter position, or the whole story was
    /// revealed at once.
    pub open spec fn story_consistent(&self, lines: Seq<&str>) -> bool {
        ||| self.story_line_index < lines.len() && self.story_char_index <= lines[self.story_line_index as int].spec_bytes().len()
            && self.story_text@ == typed(lines, self.story_line_index as int, self.story_char_index as int)
        ||| self.story_line_index == lines.len() && (self.story_text@ == lines_with_breaks(lines, lines.len() as int)
            || self.story_text@ == joined(lines))
    }

    /// A new world on the start screen.
    pub fn new() -> (w: Self)
        ensures
            w.wf(),
            w.state == GameState::Start,
            w.current_level == 0,
            w.hp == 1,
            w.lives == 3,
            w.score == 0,
    {
        WorldState {
            state: GameState::Start,
            current_level: 0,
            hp: 1,
            max_hp: PLAYER_MAX_HP,
            has_fire: false,
            invuln: 0,
            lives: 3,
            crystals_collected: 0,
            score: 0,
            hit_stop_frames: 0,
            boss_defeated: false,
            goal_reached: false,
            goal_timer: 0,
            coyote_frames: 0,
            jump_held: 0,
            total_crystals: 0,
            story: StoryKind::Intro,
            story_line_index: 0,
            story_char_index: 0,
            story_frame_counter: 0,
            story_text: Vec::new(),
            story_is_victory: false,
        }
    }

    /// A new knight at level 0 (one hit point, three lives, no fire).
    pub fn reset_game(&mut self)
        requires
            old(self).wf(),
        ensures
            final(self).wf(),
            *final(self) == (WorldState {
                hp: 1,
                max_hp: PLAYER_MAX_HP,
                has_fire: false,
                invuln: 0,
                jump_held: 0,
                lives: 3,
                crystals_collected: 0,
                score: 0,
                current_level: 0,
                boss_defeated: false,
                goal_reached: false,
                goal_timer: 0,
                ..*old(self)
            }),
    {
        self.hp = 1;
        self.max_hp = PLAYER_MAX_HP;
        self.has_fire = false;
        self.invuln = 0;
        self.jump_held = 0;
        self.lives = 3;
        self.crystals_collected = 0;
        self.score = 0;
        self.current_level = 0;
        self.boss_defeated = false;
        self.goal_reached = false;
        self.goal_timer = 0;
    }

    /// Put a story on screen with the typewriter at its start.
    pub fn start_story(&mut self, story: StoryKind, is_victory: bool)
        requires
            old(self).ranges_ok(),
            !is_victory ==> old(self).current_level < LEVEL_COUNT,
        ensures
            final(self).wf(),
            final(self).story_text@ == Seq::<u8>::empty(),
            *final(self) == (WorldState {
                story,
                story_line_index: 0,
                story_char_index: 0,
                story_frame_counter: 0,
                story_text: final(self).story_text,
                story_is_victory: is_victory,
                state: GameState::Story,
                ..*old(self)
            }),
    {
        self.story = story;
        self.story_line_index = 0;
        self.story_char_index = 0;
        self.story_frame_counter = 0;
        self.story_text = Vec::new();
        self.story_is_victory = is_victory;
        self.state = GameState::Story;
    }

    /// Put the briefing of the current level on screen.
    pub fn start_level_story(&mut self)
        requires
            old(self).ranges_ok(),
            old(self).current_level < LEVEL_COUNT,
        ensures
            final(self).wf(),
            final(self).story_text@ == Seq::<u8>::empty(),
            *final(self) == (WorldState {
                story: StoryKind::Level(old(self).current_level),
                story_line_index: 0,
                story_char_index: 0,
                story_frame_counter: 0,
                story_text: final(self).story_text,
                story_is_victory: false,
                state: GameState::LevelStory,
                ..*old(self)
            }),
    {
        self.story = StoryKind::Level(self.current_level);
        self.story_line_index = 0;
        self.story_char_index = 0;
        self.story_frame_counter = 0;
        self.story_text = Vec::new();
        self.story_is_victory = false;
        self.state = GameState::LevelStory;
    }

    /// One frame of a story screen showing `lines`: every second frame the
    /// typewriter adds the next byte of the current line, or a newline at its
    /// end; a skip press (jump, attack or start) first reveals all lines
    /// joined by newlines, then leaves the story.
    pub fn update_story(&mut self, lines: &[&str], level_map: &[&str], skip_pressed: bool) -> (exit: StoryExit)
        requires
            old(self).wf(),
            old(self).state == GameState::Story || old(self).state == GameState::LevelStory,
            old(self).story_line_index <= lines@.len(),
            old(self).story_line_index < lines@.len() ==> old(self).story_char_index
                <= lines@[old(self).story_line_index as int].spec_bytes().len(),
            old(self).story_frame_counter < u64::MAX,
            old(self).story_text@.len() + 1 <= usize::MAX,
        ensures
            final(self).wf(),
            old(self).story_consistent(lines@) && exit == StoryExit::Stay ==> final(self).story_consistent(lines@),
            ({
                let li = old(self).story_line_index as int;
                let ci = old(self).story_char_index as int;
                let text = old(self).story_text@;
                let counter = (old(self).story_frame_counter + 1) as u64;
                let types = counter % 2 == 0 && li < lines@.len();
                let line = if li < lines@.len() { lines@[li].spec_bytes() } else { Seq::<u8>::empty() };
                let (li1, ci1, text1) = if !types {
                    (li, ci, text)
                } else if ci < line.len() {
                    (li, ci + 1, text.push(line[ci]))
                } else {
                    (li + 1, 0int, text.push(10u8))
                };
                let typed_world = WorldState {
                    story_frame_counter: counter,
                    story_line_index: li1 as usize,
                    story_char_index: ci1 as usize,
                    story_text: final(self).story_text,
                    ..*old(self)
                };
                if !skip_pressed {
                    &&& exit == StoryExit::Stay
                    &&& final(self).story_text@ == text1
                    &&& *final(self) == typed_world
                } else if li1 < lines@.len() {
                    &&& exit == StoryExit::Stay
                    &&& final(self).story_text@ == joined(lines@)
                    &&& *final(self) == (WorldState { story_line_index: lines@.len() as usize, ..typed_world })
                } else if old(self).story_is_victory {
                    &&& exit == StoryExit::Won
                    &&& final(self).story_text@ == text1
                    &&& *final(self) == (WorldState { state: GameState::Win, ..typed_world })
                } else if old(self).state == GameState::Story {
                    &&& exit == StoryExit::LevelBriefing
                    &&& final(self).story_text@ == Seq::<u8>::empty()
                    &&& *final(self) == (WorldState {
                        story: StoryKind::Level(old(self).current_level),
                        story_line_index: 0,
                        story_char_index: 0,
                        story_frame_counter: 0,
                        story_is_victory: false,
                        state: GameState::LevelStory,
                        ..typed_world
                    })
                } else {
                    &&& exit == StoryExit::LoadLevel
                    &&& final(self).story_text@ == text1
                    &&& *final(self) == (WorldState {
                        boss_defeated: false,
                        goal_reached: false,
                        goal_timer: 0,
                        hit_stop_frames: 0,
                        total_crystals: crystal_count(map_spawns(level_map@)) as usize,
                        invuln: INVULN_MAX,
                        jump_held: 0,
                        coyote_frames: 0,
                        state: GameState::Playing,
                        ..typed_world
                    })
                }
            }),
    {
        self.story_frame_counter = self.story_frame_counter + 1;
        if self.story_frame_counter % 2 == 0 {
            if self.story_line_index < lines.len() {
                let li = self.story_line_index;
                let ci = self.story_char_index;
                let line = lines[li].as_bytes();
                if ci < line.len() {
                    self.story_text.push(line[ci]);
                    self.story_char_index = ci + 1;
                    proof {
                        let l = lines@[li as int].spec_bytes();
                        assert(l.subrange(0, ci + 1) =~= l.subrange(0, ci as int).push(l[ci as int]));
                        if old(self).story_consistent(lines@) {
                            assert(typed(lines@, li as int, ci + 1) =~= typed(lines@, li as int, ci as int).push(l[ci as int]));
                        }
                    }
                } else {
                    self.story_text.push(10u8);
                    self.story_line_index = li + 1;
                    self.story_char_index = 0;
                    proof {
                        let l = lines@[li as int].spec_bytes();
                        assert(l.subrange(0, ci as int) =~= l);
                        if old(self).story_consistent(lines@) {
                            assert(lines_with_breaks(lines@, li + 1) == lines_with_breaks(lines@, li as int) + l + seq![10u8]);
                            assert(typed(lines@, li as int, ci as int).push(10u8) =~= lines_with_breaks(lines@, li + 1));
                            if li + 1 < lines@.len() {
                                assert(typed(lines@, li + 1, 0) =~= lines_with_breaks(lines@, li + 1));
                            }
                        }
                    }
                }
            }
        }
        if !skip_pressed {
            return StoryExit::Stay;
        }
        if self.story_line_index < lines.len() {
            self.story_text = join_lines(lines);
            self.story_line_index = lines.len();
            return StoryExit::Stay;
        }
        if self.story_is_victory {
            self.state = GameState::Win;
            StoryExit::Won
        } else if self.state == GameState::Story {
            self.start_level_story();
            StoryExit::LevelBriefing
        } else {
            let _layout = self.enter_level(level_map);
            StoryExit::LoadLevel
        }
    }

    /// Start playing the current level from its map: the level-scoped state
    /// is reset and the gems of the map are counted; the knight keeps health,
    /// fire and lives from the previous level.
    pub fn enter_level(&mut self, map: &[&str]) -> (layout: LevelLayout)
        requires
            old(self).wf(),
            old(self).current_level < LEVEL_COUNT,
        ensures
            final(self).wf(),
            layout.spawns@ == map_spawns(map@),
            layout.cols == max_row_len(map@),
            layout.rows == map@.len(),
            layout.total_crystals == crystal_count(map_spawns(map@)),
            *final(self) == (WorldState {
                boss_defeated: false,
                goal_reached: false,
                goal_timer: 0,
                hit_stop_frames: 0,
                total_crystals: layout.total_crystals,
                invuln: INVULN_MAX,
                jump_held: 0,
                coyote_frames: 0,
                state: GameState::Playing,
                ..*old(self)
            }),
    {
        let layout = load_level(map);
        self.boss_defeated = false;
        self.goal_reached = false;
        self.goal_timer = 0;
        self.hit_stop_frames = 0;
        self.total_crystals = layout.total_crystals;
        self.invuln = INVULN_MAX;
        self.jump_held = 0;
        self.coyote_frames = 0;
        self.state = GameState::Playing;
        layout
    }
}

/// All lines joined with newlines between them, as bytes.
pub fn join_lines(lines: &[&str]) -> (text: Vec<u8>)
    ensures
        text@ == joined(lines@),
{
    let mut text: Vec<u8> = Vec::new();
    let n = lines.len();
    if n == 0 {
        return text;
    }
    let mut i: usize = 0;
    while i < n
        invariant
            n == lines@.len(),
            n > 0,
            i <= n,
            i < n ==> text@ == lines_with_breaks(lines@, i as int),
            i == n ==> text@ == joined(lines@),
        decreases n - i,
    {
        let bytes = lines[i].as_bytes();
        let mut j: usize = 0;
        let ghost start = text@;
        while j < bytes.len()
            invariant
                j <= bytes@.len(),
                text@ == start + bytes@.subrange(0, j as int),
            decreases bytes@.len() - j,
        {
            text.push(bytes[j]);
            assert(bytes@.subrange(0, j + 1) =~= bytes@.subrange(0, j as int).push(bytes@[j as int]));
            j = j + 1;
        }
        assert(bytes@.subrange(0, bytes@.len() as int) =~= bytes@);
        if i + 1 < n {
            text.push(10u8);
        }
        i = i + 1;
    }
    text
}

// ---------------------------------------------------------------------------
// Rules of play
// ---------------------------------------------------------------------------

pub const BOSS_HP: i32 = 10;

/// Kinds of enemies.
#[derive(Debug, Clone, Copy, PartialEq, Eq, Structural)]
pub enum EnemyKind {
    Slime,
    Bat,
    Boss,
}

/// Hit points an enemy enters the level with: slimes and bats take one
/// hit, the boss `BOSS_HP`.
pub open spec fn start_hp_of(kind: EnemyKind) -> i32 {
    match kind {
        EnemyKind::Slime => 1,
        EnemyKind::Bat => 1,
        EnemyKind::Boss => BOSS_HP,
    }
}

/// Hit points an enemy of kind `kind` enters the level with.
pub fn start_hp(kind: EnemyKind) -> (hp: i32)
    ensures
        hp == start_hp_of(kind),
{
    match kind {
        EnemyKind::Slime => 1,
        EnemyKind::Bat => 1,
        EnemyKind::Boss => BOSS_HP,
    }
}

/// Kinds of powerups.
#[derive(Debug, Clone, Copy, PartialEq, Eq, Structural)]
pub enum PowerupKind {
    /// Restores the shield to full health.
    Shard,
    /// Lets the knight throw fireballs.
    FireCrystal,
}

/// What a hit on the knight did.
#[derive(Debug, Clone, Copy, PartialEq, Eq, Structural)]
pub enum DamageOutcome {
    /// Still invulnerable: nothing happened.
    Ignored,
    /// One hit point lost; invulnerable for a while.
    Hurt,
    /// Out of hit points: a life was lost and the knight respawns.
    Respawned,
    /// Out of hit points and out of lives.
    GameOver,
}

/// What a frame of the level-clear pause did.
#[derive(Debug, Clone, Copy, PartialEq, Eq, Structural)]
pub enum GoalStep {
    /// Still celebrating.
    Waiting,
    /// The next level's briefing is on screen.
    NextLevel,
    /// The last level was cleared: the victory story is on screen.
    Victory,
}

impl WorldState {
    /// A frame of hit stop: while frames are left, one is used up and the
    /// frame is skipped (returns `true`).
    pub fn hit_stop_tick(&mut self) -> (skipped: bool)
        requires
            old(self).wf(),
        ensures
            final(self).wf(),
            skipped == (old(self).hit_stop_frames > 0),
            *final(self) == (WorldState {
                hit_stop_frames: if skipped { (old(self).hit_stop_frames - 1) as i32 } else { 0 },
                ..*old(self)
            }),
    {
        if self.hit_stop_frames > 0 {
            self.hit_stop_frames = self.hit_stop_frames - 1;
            true
        } else {
            false
        }
    }

    /// A frame after the goal was reached: after more than a second the next
    /// level's briefing follows, or the victory story after the last level.
    pub fn goal_tick(&mut self) -> (step: GoalStep)
        requires
            old(self).wf(),
            old(self).state == GameState::Playing,
            old(self).goal_reached,
        ensures
            final(self).wf(),
            old(self).goal_timer + 1 <= 60 ==> step == GoalStep::Waiting && *final(self) == (WorldState {
                goal_timer: (old(self).goal_timer + 1) as i32,
                ..*old(self)
            }),
            old(self).goal_timer + 1 > 60 ==> {
                let victory = old(self).current_level + 1 >= LEVEL_COUNT;
                &&& step == if victory { GoalStep::Victory } else { GoalStep::NextLevel }
                &&& final(self).story_text@ == Seq::<u8>::empty()
                &&& *final(self) == (WorldState {
                    goal_timer: (old(self).goal_timer + 1) as i32,
                    current_level: (old(self).current_level + 1) as usize,
                    story: if victory { StoryKind::Victory } else { StoryKind::Level((old(self).current_level + 1) as usize) },
                    story_line_index: 0,
                    story_char_index: 0,
                    story_frame_counter: 0,
                    story_text: final(self).story_text,
                    story_is_victory: victory,
                    state: if victory { GameState::Story } else { GameState::LevelStory },
                    ..*old(self)
                })
            },
    {
        self.goal_timer = self.goal_timer + 1;
        if self.goal_timer > 60 {
            self.current_level = self.current_level + 1;
            if self.current_level >= LEVEL_COUNT {
                self.start_story(StoryKind::Victory, true);
                GoalStep::Victory
            } else {
                self.start_level_story();
                GoalStep::NextLevel
            }
        } else {
            GoalStep::Waiting
        }
    }

    /// The knight touches the goal: the level is cleared, except on the last
    /// level while the sorcerer lives.
    pub fn reach_goal(&mut self) -> (cleared: bool)
        requires
            old(self).wf(),
        ensures
            final(self).wf(),
            cleared == !(old(self).current_level == 2 && !old(self).boss_defeated),
            cleared ==> *final(self) == (WorldState { goal_reached: true, goal_timer: 0, ..*old(self) }),
            !cleared ==> *final(self) == *old(self),
    {
        if self.current_level == 2 && !self.boss_defeated {
            false
        } else {
            self.goal_reached = true;
            self.goal_timer = 0;
            true
        }
    }

    /// The knight loses a life; with lives left it respawns with one hit
    /// point, spawn invulnerability and no fire, otherwise the game is over.
    pub fn player_die(&mut self) -> (over: bool)
        requires
            old(self).wf(),
            old(self).lives > i32::MIN,
        ensures
            final(self).wf(),
            over == (old(self).lives - 1 <= 0),
            over ==> *final(self) == (WorldState {
                lives: (old(self).lives - 1) as i32,
                state: GameState::GameOver,
                ..*old(self)
            }),
            !over ==> *final(self) == (WorldState {
                lives: (old(self).lives - 1) as i32,
                invuln: INVULN_MAX,
                hp: 1,
                has_fire: false,
                jump_held: 0,
                ..*old(self)
            }),
    {
        self.lives = self.lives - 1;
        if self.lives <= 0 {
            self.state = GameState::GameOver;
            true
        } else {
            self.invuln = INVULN_MAX;
            self.hp = 1;
            self.has_fire = false;
            self.jump_held = 0;
            false
        }
    }

    /// The knight is hit: ignored while invulnerable; otherwise a hit point
    /// is lost with a short hit stop, and at zero hit points a life.
    pub fn damage_player(&mut self) -> (outcome: DamageOutcome)
        requires
            old(self).wf(),
            old(self).hp > i32::MIN,
            old(self).lives > i32::MIN,
        ensures
            final(self).wf(),
            outcome == if old(self).invuln > 0 {
                DamageOutcome::Ignored
            } else if old(self).hp - 1 > 0 {
                DamageOutcome::Hurt
            } else if old(self).lives - 1 > 0 {
                DamageOutcome::Respawned
            } else {
                DamageOutcome::GameOver
            },
            outcome == DamageOutcome::Ignored ==> *final(self) == *old(self),
            outcome == DamageOutcome::Hurt ==> *final(self) == (WorldState {
                hp: (old(self).hp - 1) as i32,
                hit_stop_frames: 3,
                invuln: INVULN_MAX,
                ..*old(self)
            }),
            outcome == DamageOutcome::Respawned ==> *final(self) == (WorldState {
                hp: 1,
                hit_stop_frames: 3,
                lives: (old(self).lives - 1) as i32,
                invuln: INVULN_MAX,
                has_fire: false,
                jump_held: 0,
                ..*old(self)
            }),
            outcome == DamageOutcome::GameOver ==> *final(self) == (WorldState {
                hp: (old(self).hp - 1) as i32,
                hit_stop_frames: 3,
                lives: (old(self).lives - 1) as i32,
                state: GameState::GameOver,
                ..*old(self)
            }),
    {
        if self.invuln > 0 {
            return DamageOutcome::Ignored;
        }
        self.hp = self.hp - 1;
        self.hit_stop_frames = 3;
        if self.hp <= 0 {
            if self.player_die() {
                DamageOutcome::GameOver
            } else {
                DamageOutcome::Respawned
            }
        } else {
            self.invuln = INVULN_MAX;
            DamageOutcome::Hurt
        }
    }

    /// A crystal gem is picked up: one more gem and 50 points.
    pub fn collect_crystal(&mut self)
        requires
            old(self).wf(),
            old(self).score + 50 <= i32::MAX,
            old(self).crystals_collected + 1 <= i32::MAX,
        ensures
            final(self).wf(),
            *final(self) == (WorldState {
                crystals_collected: (old(self).crystals_collected + 1) as i32,
                score: (old(self).score + 50) as i32,
                ..*old(self)
            }),
    {
        self.crystals_collected = self.crystals_collected + 1;
        self.score = self.score + 50;
    }

    /// A powerup is picked up: a shard restores full health, a fire crystal
    /// grants fireballs; either is worth 100 points.
    pub fn collect_powerup(&mut self, kind: PowerupKind)
        requires
            old(self).wf(),
            old(self).score + 100 <= i32::MAX,
        ensures
            final(self).wf(),
            *final(self) == (WorldState {
                hp: if kind == PowerupKind::Shard { old(self).max_hp } else { old(self).hp },
                has_fire: kind == PowerupKind::FireCrystal || old(self).has_fire,
                score: (old(self).score + 100) as i32,
                ..*old(self)
            }),
    {
        match kind {
            PowerupKind::Shard => {
                self.hp = self.max_hp;
            },
            PowerupKind::FireCrystal => {
                self.has_fire = true;
            },
        }
        self.score = self.score + 100;
    }

    /// A breakable block is smashed: 10 points.
    pub fn break_block(&mut self)
        requires
            old(self).wf(),
            old(self).score + 10 <= i32::MAX,
        ensures
            final(self).wf(),
            *final(self) == (WorldState { score: (old(self).score + 10) as i32, ..*old(self) }),
    {
        self.score = self.score + 10;
    }

    /// The knight lands on an enemy with `enemy_hp` hit points: the enemy
    /// loses one, the knight bounces (jump hold cleared), the game stops for
    /// three frames and 100 points are scored; beating the sorcerer adds
    /// 1000 more and marks him defeated. Returns the enemy's hit points left.
    pub fn stomp_enemy(&mut self, kind: EnemyKind, enemy_hp: i32) -> (left: i32)
        requires
            old(self).wf(),
            enemy_hp > i32::MIN,
            old(self).score + 1100 <= i32::MAX,
        ensures
            final(self).wf(),
            left == enemy_hp - 1,
            *final(self) == (WorldState {
                jump_held: 0,
                hit_stop_frames: 3,
                score: (old(self).score + 100 + if left <= 0 && kind == EnemyKind::Boss { 1000int } else { 0int }) as i32,
                boss_defeated: old(self).boss_defeated || (left <= 0 && kind == EnemyKind::Boss),
                ..*old(self)
            }),
    {
        let left = enemy_hp - 1;
        self.jump_held = 0;
        self.hit_stop_frames = 3;
        self.score = self.score + 100;
        if left <= 0 && kind == EnemyKind::Boss {
            self.boss_defeated = true;
            self.score = self.score + 1000;
        }
        left
    }

    /// A fireball hits an enemy with `enemy_hp` hit points: the enemy loses
    /// one and the game stops for two frames; a kill is worth 100 points,
    /// and the sorcerer 1000 more. Returns the enemy's hit points left.
    pub fn fireball_hit(&mut self, kind: EnemyKind, enemy_hp: i32) -> (left: i32)
        requires
            old(self).wf(),
            enemy_hp > i32::MIN,
            old(self).score + 1100 <= i32::MAX,
        ensures
            final(self).wf(),
            left == enemy_hp - 1,
            *final(self) == (WorldState {
                hit_stop_frames: 2,
                score: (old(self).score + (if left <= 0 { 100int } else { 0int }) + (if left <= 0 && kind
                    == EnemyKind::Boss { 1000int } else { 0int })) as i32,
                boss_defeated: old(self).boss_defeated || (left <= 0 && kind == EnemyKind::Boss),
                ..*old(self)
            }),
    {
        let left = enemy_hp - 1;
        self.hit_stop_frames = 2;
        if left <= 0 {
            self.score = self.score + 100;
            if kind == EnemyKind::Boss {
                self.boss_defeated = true;
                self.score = self.score + 1000;
            }
        }
        left
    }

    /// Invulnerability runs down by one frame.
    pub fn invuln_tick(&mut self)
        requires
            old(self).wf(),
        ensures
            final(self).wf(),
            *final(self) == (WorldState {
                invuln: if old(self).invuln > 0 { (old(self).invuln - 1) as i32 } else { 0 },
                ..*old(self)
            }),
    {
        if self.invuln > 0 {
            self.invuln = self.invuln - 1;
        }
    }

    /// Coyote time: refilled while on the ground, running down in the air.
    pub fn coyote_tick(&mut self, on_ground: bool)
        requires
            old(self).wf(),
        ensures
            final(self).wf(),
            *final(self) == (WorldState {
                coyote_frames: if on_ground {
                    COYOTE_MAX
                } else if old(self).coyote_frames > 0 {
                    (old(self).coyote_frames - 1) as i32
                } else {
                    0
                },
                ..*old(self)
            }),
    {
        if on_ground {
            self.coyote_frames = COYOTE_MAX;
        } else if self.coyote_frames > 0 {
            self.coyote_frames = self.coyote_frames - 1;
        }
    }

    /// A buffered jump is taken while coyote time lasts: coyote time ends
    /// and the jump hold starts. Returns whether the knight jumps.
    pub fn try_jump(&mut self, jump_buffer: i32) -> (jumped: bool)
        requires
            old(self).wf(),
        ensures
            final(self).wf(),
            jumped == (jump_buffer > 0 && old(self).coyote_frames > 0),
            jumped ==> *final(self) == (WorldState { coyote_frames: 0, jump_held: 1, ..*old(self) }),
            !jumped ==> *final(self) == *old(self),
    {
        if jump_buffer > 0 && self.coyote_frames > 0 {
            self.coyote_frames = 0;
            self.jump_held = 1;
            true
        } else {
            false
        }
    }

    /// Holding jump lifts the knight higher for a limited number of frames;
    /// letting go ends the hold. Returns whether the hold force applies.
    pub fn jump_hold(&mut self, jump_down: bool, jump_released: bool) -> (lift: bool)
        requires
            old(self).wf(),
        ensures
            final(self).wf(),
            lift == (jump_down && 0 < old(self).jump_held < JUMP_HOLD_MAX),
            *final(self) == (WorldState {
                jump_held: if jump_released {
                    0
                } else if lift {
                    (old(self).jump_held + 1) as i32
                } else {
                    old(self).jump_held
                },
                ..*old(self)
            }),
    {
        let lift = jump_down && self.jump_held > 0 && self.jump_held < JUMP_HOLD_MAX;
        if lift {
            self.jump_held = self.jump_held + 1;
        }
        if jump_released {
            self.jump_held = 0;
        }
        lift
    }

    /// Landing on a tile ends the jump hold.
    pub fn land(&mut self)
        requires
            old(self).wf(),
        ensures
            final(self).wf(),
            *final(self) == (WorldState { jump_held: 0, ..*old(self) }),
    {
        self.jump_held = 0;
    }

    /// The title screen: a press starts the intro story.
    pub fn update_start(&mut self, pressed: bool)
        requires
            old(self).wf(),
            old(self).state == GameState::Start,
            old(self).current_level < LEVEL_COUNT,
        ensures
            final(self).wf(),
            pressed ==> final(self).story_text@ == Seq::<u8>::empty() && *final(self) == (WorldState {
                story: StoryKind::Intro,
                story_line_index: 0,
                story_char_index: 0,
                story_frame_counter: 0,
                story_text: final(self).story_text,
                story_is_victory: false,
                state: GameState::Story,
                ..*old(self)
            }),
            !pressed ==> *final(self) == *old(self),
    {
        if pressed {
            self.start_story(StoryKind::Intro, false);
        }
    }

    /// The game-over screen: a press starts a new game at the intro story.
    pub fn update_game_over(&mut self, pressed: bool)
        requires
            old(self).wf(),
            old(self).state == GameState::GameOver,
        ensures
            final(self).wf(),
            pressed ==> final(self).story_text@ == Seq::<u8>::empty() && *final(self) == (WorldState {
                hp: 1,
                max_hp: PLAYER_MAX_HP,
                has_fire: false,
                invuln: 0,
                jump_held: 0,
                lives: 3,
                crystals_collected: 0,
                score: 0,
                current_level: 0,
                boss_defeated: false,
                goal_reached: false,
                goal_timer: 0,
                story: StoryKind::Intro,
                story_line_index: 0,
                story_char_index: 0,
                story_frame_counter: 0,
                story_text: final(self).story_text,
                story_is_victory: false,
                state: GameState::Story,
                ..*old(self)
            }),
            !pressed ==> *final(self) == *old(self),
    {
        if pressed {
            self.reset_game();
            self.start_story(StoryKind::Intro, false);
        }
    }

    /// The victory screen: a press resets the game to the title screen.
    pub fn update_win(&mut self, pressed: bool)
        requires
            old(self).wf(),
            old(self).state == GameState::Win,
        ensures
            final(self).wf(),
            pressed ==> *final(self) == (WorldState {
                hp: 1,
                max_hp: PLAYER_MAX_HP,
                has_fire: false,
                invuln: 0,
                jump_held: 0,
                lives: 3,
                crystals_collected: 0,
                score: 0,
                current_level: 0,
                boss_defeated: false,
                goal_reached: false,
                goal_timer: 0,
                state: GameState::Start,
                ..*old(self)
            }),
            !pressed ==> *final(self) == *old(self),
    {
        if pressed {
            self.reset_game();
            self.state = GameState::Start;
        }
    }
}

} // verus!
