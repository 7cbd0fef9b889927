//! Neon Runner (cyberpunk platformer): level maps, tile queries and the
//! integer rules of play (story flow, damage).
use vstd::prelude::*;
use vstd::string::StringSliceAdditionalSpecFns;
use crate::sprite::lemma_chars_le_bytes;
use vstd::utf8::is_char_boundary;

verus! {

/// Rows of every level map.
pub const MAP_ROWS: usize = 15;

pub const TILE_EMPTY: u8 = 0;
pub const TILE_SOLID: u8 = 1;
pub const TILE_LASER: u8 = 2;
pub const TILE_ELECTRIC: u8 = 3;
pub const TILE_FALLING: u8 = 4;
pub const TILE_TERMINAL: u8 = 5;

/// Things a level map places besides tiles.
#[derive(Debug, Clone, Copy, PartialEq, Eq, Structural)]
pub enum Thing {
    Drone,
    Guard,
    Turret,
    Boss,
    LaserGrid,
    DataChip,
    Health,
    EmpAmmo,
    FallingPlatform,
}

/// The integer stats an enemy enters the level with: hit points, the
/// points it is worth, and the frames before its first shot.
#[derive(Debug, Clone, Copy, PartialEq, Eq, Structural)]
pub struct EnemyStats {
    pub hp: i32,
    pub score_val: i32,
    pub shoot_timer: i32,
}

/// A drone (1 hit, 100 points), a guard (2 hits, 150, first shot after 60
/// frames), a turret (3 hits, 200, after 40) and the boss (12 hits, 1000,
/// after 30); other things are no enemies.
pub open spec fn enemy_stats_of(thing: Thing) -> Option<EnemyStats> {
    match thing {
        Thing::Drone => Some(EnemyStats { hp: 1, score_val: 100, shoot_timer: 0 }),
        Thing::Guard => Some(EnemyStats { hp: 2, score_val: 150, shoot_timer: 60 }),
        Thing::Turret => Some(EnemyStats { hp: 3, score_val: 200, shoot_timer: 40 }),
        Thing::Boss => Some(EnemyStats { hp: 12, score_val: 1000, shoot_timer: 30 }),
        _ => None,
    }
}

/// The stats an enemy placed as `thing` enters the level with, or `None`
/// when `thing` is no enemy.
pub fn enemy_stats(thing: Thing) -> (st: Option<EnemyStats>)
    ensures
        st == enemy_stats_of(thing),
{
    match thing {
        Thing::Drone => Some(EnemyStats { hp: 1, score_val: 100, shoot_timer: 0 }),
        Thing::Guard => Some(EnemyStats { hp: 2, score_val: 150, shoot_timer: 60 }),
        Thing::Turret => Some(EnemyStats { hp: 3, score_val: 200, shoot_timer: 40 }),
        Thing::Boss => Some(EnemyStats { hp: 12, score_val: 1000, shoot_timer: 30 }),
        _ => None,
    }
}

/// Kinds of enemies.
#[derive(Debug, Clone, Copy, PartialEq, Eq, Structural)]
pub enum EnemyKind {
    Drone,
    Guard,
    Turret,
    Boss,
}

/// The map thing that places an enemy of kind `kind`.
pub open spec fn enemy_thing(kind: EnemyKind) -> Thing {
    match kind {
        EnemyKind::Drone => Thing::Drone,
        EnemyKind::Guard => Thing::Guard,
        EnemyKind::Turret => Thing::Turret,
        EnemyKind::Boss => Thing::Boss,
    }
}

/// Frames before an enemy that fired may fire again: a guard 90, a turret
/// 50, the boss 25 (a drone never fires).
pub open spec fn reload_frames(kind: EnemyKind) -> i32 {
    match kind {
        EnemyKind::Drone => 0,
        EnemyKind::Guard => 90,
        EnemyKind::Turret => 50,
        EnemyKind::Boss => 25,
    }
}

/// The integer state of an enemy: whether it is still in play, its hit
/// points, shot timer, hurt flash, points and EMP stun.
#[derive(Debug, Clone, Copy, PartialEq, Eq, Structural)]
pub struct NeonEnemy {
    pub kind: EnemyKind,
    pub active: bool,
    pub hp: i32,
    pub shoot_timer: i32,
    pub hurt_timer: i32,
    pub score_val: i32,
    pub stunned: i32,
}

/// What an enemy's frame did.
#[derive(Debug, Clone, Copy, PartialEq, Eq, Structural)]
pub struct EnemyTick {
    /// The enemy moved this frame, so its contact with the runner and the
    /// runner's blade are checked.
    pub acts: bool,
    /// The enemy fires a shot (when there is room for the projectile).
    pub fires: bool,
}

/// An enemy's frame: an inactive enemy does nothing; a stunned one only
/// counts its stun down; otherwise its hurt flash counts down, and when it
/// is near the camera (`in_view`) it acts: every enemy but a drone counts its
/// shot timer down and, once it has run out, fires and reloads -- a guard or
/// turret only when the runner is within its range (`can_shoot`), the boss
/// always.
pub open spec fn enemy_tick(e: NeonEnemy, in_view: bool, can_shoot: bool) -> (NeonEnemy, EnemyTick) {
    let idle = EnemyTick { acts: false, fires: false };
    if !e.active {
        (e, idle)
    } else if e.stunned > 0 {
        (NeonEnemy { stunned: (e.stunned - 1) as i32, ..e }, idle)
    } else {
        let calmer = NeonEnemy {
            hurt_timer: if e.hurt_timer > 0 { (e.hurt_timer - 1) as i32 } else { e.hurt_timer },
            ..e
        };
        if !in_view {
            (calmer, idle)
        } else if e.kind == EnemyKind::Drone {
            (calmer, EnemyTick { acts: true, fires: false })
        } else {
            let t = e.shoot_timer - 1;
            let fires = t <= 0 && (e.kind == EnemyKind::Boss || can_shoot);
            (
                NeonEnemy { shoot_timer: if fires { reload_frames(e.kind) } else { t as i32 }, ..calmer },
                EnemyTick { acts: true, fires },
            )
        }
    }
}

/// What a blow of the runner's blade did to an enemy.
#[derive(Debug, Clone, Copy, PartialEq, Eq, Structural)]
pub enum MeleeOutcome {
    /// The enemy was still flashing from a hit.
    Ignored,
    /// The enemy lost a hit point.
    Hit,
    /// The enemy lost its last hit point.
    Killed,
}

impl NeonEnemy {
    /// A fresh enemy of kind `kind`, with its stats.
    pub fn new(kind: EnemyKind) -> (e: Self)
        ensures
            ({
                let st = enemy_stats_of(enemy_thing(kind))->0;
                e == (NeonEnemy {
                    kind,
                    active: true,
                    hp: st.hp,
                    shoot_timer: st.shoot_timer,
                    hurt_timer: 0,
                    score_val: st.score_val,
                    stunned: 0,
                })
            }),
    {
        let thing = match kind {
            EnemyKind::Drone => Thing::Drone,
            EnemyKind::Guard => Thing::Guard,
            EnemyKind::Turret => Thing::Turret,
            EnemyKind::Boss => Thing::Boss,
        };
        let st = enemy_stats(thing).unwrap();
        NeonEnemy {
            kind,
            active: true,
            hp: st.hp,
            shoot_timer: st.shoot_timer,
            hurt_timer: 0,
            score_val: st.score_val,
            stunned: 0,
        }
    }

    /// One frame of the enemy (see [`enemy_tick`]).
    pub fn tick(&mut self, in_view: bool, can_shoot: bool) -> (t: EnemyTick)
        requires
            old(self).shoot_timer > i32::MIN,
        ensures
            (*final(self), t) == enemy_tick(*old(self), in_view, can_shoot),
    {
        let idle = EnemyTick { acts: false, fires: false };
        if !self.active {
            return idle;
        }
        if self.stunned > 0 {
            self.stunned = self.stunned - 1;
            return idle;
        }
        if self.hurt_timer > 0 {
            self.hurt_timer = self.hurt_timer - 1;
        }
        if !in_view {
            return idle;
        }
        match self.kind {
            EnemyKind::Drone => EnemyTick { acts: true, fires: false },
            _ => {
                self.shoot_timer = self.shoot_timer - 1;
                let fires = self.shoot_timer <= 0 && (self.kind == EnemyKind::Boss || can_shoot);
                if fires {
                    self.shoot_timer = match self.kind {
                        EnemyKind::Guard => 90,
                        EnemyKind::Turret => 50,
                        _ => 25,
                    };
                }
                EnemyTick { acts: true, fires }
            },
        }
    }

    /// An EMP burst within reach: an enemy still in play is stunned for 120
    /// frames.
    pub fn emp_stun(&mut self)
        ensures
            *final(self) == (if old(self).active { NeonEnemy { stunned: 120, ..*old(self) } } else { *old(self) }),
    {
        if self.active {
            self.stunned = 120;
        }
    }
}

/// A thing placed at column `col`, row `row` of the map.
#[derive(Debug, Clone, Copy, PartialEq, Eq, Structural)]
pub struct Spawn {
    pub thing: Thing,
    pub col: usize,
    pub row: usize,
}

/// The tile a map character stands for: '#' solid, 'E' electric floor,
/// 'K' terminal, 'F' falling platform; everything else is empty.
pub open spec fn char_tile(ch: char) -> u8 {
    if ch == '#' {
        TILE_SOLID
    } else if ch == 'E' {
        TILE_ELECTRIC
    } else if ch == 'K' {
        TILE_TERMINAL
    } else if ch == 'F' {
        TILE_FALLING
    } else {
        TILE_EMPTY
    }
}

/// The thing a map character places: 'D' drone, 'G' guard, 'T' turret,
/// 'B' boss, 'L' laser grid, 'C' data chip, 'H' health, 'M' EMP ammo,
/// 'F' falling platform.
pub open spec fn char_thing(ch: char) -> Option<Thing> {
    if ch == 'D' {
        Some(Thing::Drone)
    } else if ch == 'G' {
        Some(Thing::Guard)
    } else if ch == 'T' {
        Some(Thing::Turret)
    } else if ch == 'B' {
        Some(Thing::Boss)
    } else if ch == 'L' {
        Some(Thing::LaserGrid)
    } else if ch == 'C' {
        Some(Thing::DataChip)
    } else if ch == 'H' {
        Some(Thing::Health)
    } else if ch == 'M' {
        Some(Thing::EmpAmmo)
    } else if ch == 'F' {
        Some(Thing::FallingPlatform)
    } else {
        None
    }
}

/// The things row `r` (its characters `chars`) places, left to right.
pub open spec fn row_spawns(chars: Seq<char>, r: int) -> Seq<Spawn>
    decreases chars.len(),
{
    if chars.len() == 0 {
        Seq::empty()
    } else {
        row_spawns(chars.drop_last(), r) + match char_thing(chars.last()) {
            Some(t) => seq![Spawn { thing: t, col: (chars.len() - 1) as usize, row: r as usize }],
            None => Seq::empty(),
        }
    }
}

/// The things a map places, row by row, left to right.
pub open spec fn map_spawns(rows: Seq<&str>) -> Seq<Spawn>
    decreases rows.len(),
{
    if rows.len() == 0 {
        Seq::empty()
    } else {
        map_spawns(rows.drop_last()) + row_spawns(rows.last()@, rows.len() - 1)
    }
}

/// The tile legend: '#' is solid, 'E' an electric floor, 'K' a terminal and
/// 'F' a falling platform; every other character leaves the cell empty.
pub proof fn lemma_tile_legend(ch: char)
    ensures
        char_tile('#') == TILE_SOLID,
        char_tile('E') == TILE_ELECTRIC,
        char_tile('K') == TILE_TERMINAL,
        char_tile('F') == TILE_FALLING,
        ch != '#' && ch != 'E' && ch != 'K' && ch != 'F' ==> char_tile(ch) == TILE_EMPTY,
{
}

/// The map legend: 'D' places a drone, 'G' a guard, 'T' a turret, 'B' the
/// boss, 'L' a laser grid, 'C' a data chip, 'H' health, 'M' EMP ammo and 'F'
/// a falling platform; no other character places anything.
pub proof fn lemma_map_legend(ch: char)
    ensures
        char_thing('D') == Some(Thing::Drone),
        char_thing('G') == Some(Thing::Guard),
        char_thing('T') == Some(Thing::Turret),
        char_thing('B') == Some(Thing::Boss),
        char_thing('L') == Some(Thing::LaserGrid),
        char_thing('C') == Some(Thing::DataChip),
        char_thing('H') == Some(Thing::Health),
        char_thing('M') == Some(Thing::EmpAmmo),
        char_thing('F') == Some(Thing::FallingPlatform),
        ch != 'D' && ch != 'G' && ch != 'T' && ch != 'B' && ch != 'L' && ch != 'C' && ch != 'H' && ch != 'M' && ch
            != 'F' ==> char_thing(ch) is None,
{
}

proof fn lemma_row_spawns_places(chars: Seq<char>, r: int, c: int)
    requires
        0 <= c < chars.len(),
        char_thing(chars[c]) is Some,
    ensures
        row_spawns(chars, r).contains(Spawn { thing: char_thing(chars[c])->0, col: c as usize, row: r as usize }),
    decreases chars.len(),
{
    broadcast use vstd::seq_lib::lemma_seq_concat_contains_all_elements;

    let sp = Spawn { thing: char_thing(chars[c])->0, col: c as usize, row: r as usize };
    if c == chars.len() - 1 {
        let tail = seq![sp];
        assert(tail[0] == sp);
        assert(row_spawns(chars, r) == row_spawns(chars.drop_last(), r) + tail);
    } else {
        assert(chars.drop_last()[c] == chars[c]);
        lemma_row_spawns_places(chars.drop_last(), r, c);
    }
}

proof fn lemma_row_spawns_from(chars: Seq<char>, r: int, sp: Spawn)
    requires
        row_spawns(chars, r).contains(sp),
        chars.len() <= usize::MAX,
        0 <= r <= usize::MAX,
    ensures
        sp.row == r,
        sp.col < chars.len(),
        char_thing(chars[sp.col as int]) == Some(sp.thing),
    decreases chars.len(),
{
    broadcast use vstd::seq_lib::lemma_seq_concat_contains_all_elements;

    if chars.len() > 0 {
        let last = match char_thing(chars.last()) {
            Some(t) => seq![Spawn { thing: t, col: (chars.len() - 1) as usize, row: r as usize }],
            None => Seq::<Spawn>::empty(),
        };
        assert(row_spawns(chars, r) == row_spawns(chars.drop_last(), r) + last);
        if row_spawns(chars.drop_last(), r).contains(sp) {
            lemma_row_spawns_from(chars.drop_last(), r, sp);
            assert(chars.drop_last()[sp.col as int] == chars[sp.col as int]);
        } else {
            assert(last.contains(sp));
            let k = choose|k: int| 0 <= k < last.len() && last[k] == sp;
            assert(last[k] == sp);
        }
    }
}

/// Parsing places exactly what the legend says, where it stands: every
/// character of the map that places a thing yields that thing at its own row
/// and column, and every placed thing comes from such a character.
pub proof fn lemma_map_spawns_follow_legend(rows: Seq<&str>)
    requires
        rows.len() <= usize::MAX,
        forall|r: int| 0 <= r < rows.len() ==> #[trigger] rows[r]@.len() <= usize::MAX,
    ensures
        forall|r: int, c: int|
            0 <= r < rows.len() && 0 <= c < rows[r]@.len() && (#[trigger] char_thing(rows[r]@[c])) is Some
                ==> map_spawns(rows).contains(
                Spawn { thing: char_thing(rows[r]@[c])->0, col: c as usize, row: r as usize },
            ),
        forall|sp: Spawn|
            #[trigger] map_spawns(rows).contains(sp) ==> sp.row < rows.len() && sp.col < rows[sp.row as int]@.len()
                && char_thing(rows[sp.row as int]@[sp.col as int]) == Some(sp.thing),
    decreases rows.len(),
{
    broadcast use vstd::seq_lib::lemma_seq_concat_contains_all_elements;

    if rows.len() > 0 {
        let prev = rows.drop_last();
        assert forall|r: int| 0 <= r < prev.len() implies #[trigger] prev[r]@.len() <= usize::MAX by {
            assert(prev[r] == rows[r]);
        }
        lemma_map_spawns_follow_legend(prev);
        let n = rows.len() - 1;
        assert(map_spawns(rows) == map_spawns(prev) + row_spawns(rows[n]@, n));
        assert forall|r: int, c: int|
            0 <= r < rows.len() && 0 <= c < rows[r]@.len() && (#[trigger] char_thing(rows[r]@[c])) is Some
                implies map_spawns(rows).contains(
            Spawn { thing: char_thing(rows[r]@[c])->0, col: c as usize, row: r as usize },
        ) by {
            if r < n {
                assert(prev[r] == rows[r]);
                assert(char_thing(prev[r]@[c]) is Some);
            } else {
                lemma_row_spawns_places(rows[n]@, n, c);
            }
        }
        assert forall|sp: Spawn| #[trigger] map_spawns(rows).contains(sp) implies sp.row < rows.len()
            && sp.col < rows[sp.row as int]@.len() && char_thing(rows[sp.row as int]@[sp.col as int]) == Some(
            sp.thing,
        ) by {
            if map_spawns(prev).contains(sp) {
                assert(prev[sp.row as int] == rows[sp.row as int]);
            } else {
                assert(rows[n]@.len() <= usize::MAX);
                lemma_row_spawns_from(rows[n]@, n, sp);
            }
        }
    }
}

/// Tile characters of every row stay within the width of the first row.
pub open spec fn tiles_fit(rows: Seq<&str>) -> bool {
    forall|r: int, c: int|
        0 <= r < rows.len() && 0 <= c < rows[r]@.len() && #[trigger] char_tile(rows[r]@[c]) != TILE_EMPTY
            ==> c < rows[0].spec_bytes().len()
}

/// The tile grid of a map: as many rows as the map, each as wide as the first
/// row (in bytes); a cell holds its character's tile, cells past the end of a
/// short row are empty.
pub open spec fn is_tile_grid(grid: Seq<Vec<u8>>, rows: Seq<&str>, cols: int) -> bool {
    &&& grid.len() == rows.len()
    &&& forall|r: int| 0 <= r < rows.len() ==> #[trigger] grid[r]@.len() == cols
    &&& forall|r: int, c: int|
        0 <= r < rows.len() && 0 <= c < cols ==> #[trigger] grid[r]@[c] == (if c < rows[r]@.len() {
            char_tile(rows[r]@[c])
        } else {
            TILE_EMPTY
        })
}

/// A parsed level.
pub struct Level {
    /// Tile grid, one row per map row.
    pub map: Vec<Vec<u8>>,
    /// Width of the map: the length of its first row.
    pub cols: usize,
    /// Enemies, lasers, pickups and falling platforms in reading order.
    pub spawns: Vec<Spawn>,
}

fn char_tile_exec(ch: char) -> (t: u8)
    ensures
        t == char_tile(ch),
{
    if ch == '#' {
        TILE_SOLID
    } else if ch == 'E' {
        TILE_ELECTRIC
    } else if ch == 'K' {
        TILE_TERMINAL
    } else if ch == 'F' {
        TILE_FALLING
    } else {
        TILE_EMPTY
    }
}

fn char_thing_exec(ch: char) -> (t: Option<Thing>)
    ensures
        t == char_thing(ch),
{
    if ch == 'D' {
        Some(Thing::Drone)
    } else if ch == 'G' {
        Some(Thing::Guard)
    } else if ch == 'T' {
        Some(Thing::Turret)
    } else if ch == 'B' {
        Some(Thing::Boss)
    } else if ch == 'L' {
        Some(Thing::LaserGrid)
    } else if ch == 'C' {
        Some(Thing::DataChip)
    } else if ch == 'H' {
        Some(Thing::Health)
    } else if ch == 'M' {
        Some(Thing::EmpAmmo)
    } else if ch == 'F' {
        Some(Thing::FallingPlatform)
    } else {
        None
    }
}

/// Parse a level map: '#' solid, 'E' electric, 'K' terminal and 'F' falling
/// platform tiles; 'D', 'G', 'T', 'B' enemies, 'L' laser grids, 'C', 'H', 'M'
/// pickups and 'F' falling platforms as things. The map is as wide as its
/// first row.
pub fn parse_level(map_data: &[&str]) -> (level: Level)
    requires
        map_data@.len() >= 1,
        tiles_fit(map_data@),
    ensures
        level.cols == map_data@[0].spec_bytes().len(),
        is_tile_grid(level.map@, map_data@, level.cols as int),
        level.spawns@ == map_spawns(map_data@),
{
    let cols = map_data[0].as_bytes().len();
    let mut map: Vec<Vec<u8>> = Vec::new();
    let mut spawns: Vec<Spawn> = Vec::new();
    let mut r: usize = 0;
    while r < map_data.len()
        invariant
            r <= map_data@.len(),
            map_data@.len() >= 1,
            tiles_fit(map_data@),
            cols == map_data@[0].spec_bytes().len(),
            map@.len() == r,
            forall|i: int| 0 <= i < r ==> #[trigger] map@[i]@.len() == cols,
            forall|i: int, c: int|
                0 <= i < r && 0 <= c < cols ==> #[trigger] map@[i]@[c] == (if c < map_data@[i]@.len() {
                    char_tile(map_data@[i]@[c])
                } else {
                    TILE_EMPTY
                }),
            spawns@ == map_spawns(map_data@.subrange(0, r as int)),
        decreases map_data@.len() - r,
    {
        let line = map_data[r];
        let blen = line.as_bytes().len();
        proof {
            lemma_chars_le_bytes(line@);
        }
        let mut row: Vec<u8> = vec![TILE_EMPTY; cols];
        let ghost spawns0 = spawns@;
        let mut c: usize = 0;
        for ch in it: line.chars()
            invariant
                c == it.index(),
                it.seq() == line@,
                line@.len() <= blen,
                line == map_data@[r as int],
                r < map_data@.len(),
                tiles_fit(map_data@),
                cols == map_data@[0].spec_bytes().len(),
                row@.len() == cols,
                forall|j: int| 0 <= j < cols ==> #[trigger] row@[j] == (if j < c { char_tile(line@[j]) } else { TILE_EMPTY }),
                spawns@ == spawns0 + row_spawns(line@.subrange(0, c as int), r as int),
        {
            let t = char_tile_exec(ch);
            if t != TILE_EMPTY {
                assert(char_tile(map_data@[r as int]@[c as int]) != TILE_EMPTY);
                row.set(c, t);
            }
            match char_thing_exec(ch) {
                Some(thing) => {
                    spawns.push(Spawn { thing, col: c, row: r });
                },
                None => {},
            }
            proof {
                let pre = line@.subrange(0, c as int);
                let post = line@.subrange(0, c + 1);
                assert(post.drop_last() =~= pre);
                assert(post.last() == ch);
            }
            c = c + 1;
        }
        proof {
            assert(line@.subrange(0, line@.len() as int) =~= line@);
            let pre_rows = map_data@.subrange(0, r as int);
            let post_rows = map_data@.subrange(0, r + 1);
            assert(post_rows.drop_last() =~= pre_rows);
            assert(post_rows.last() == line);
        }
        map.push(row);
        r = r + 1;
    }
    assert(map_data@.subrange(0, map_data@.len() as int) =~= map_data@);
    Level { map, cols, spawns }
}

/// Whether a map can be parsed: it has a first row and no tile character lies
/// beyond the width of that row.
pub fn tiles_fit_exec(map_data: &[&str]) -> (ok: bool)
    ensures
        ok == (map_data@.len() >= 1 && tiles_fit(map_data@)),
{
    if map_data.len() == 0 {
        return false;
    }
    let cols = map_data[0].as_bytes().len();
    let mut r: usize = 0;
    while r < map_data.len()
        invariant
            r <= map_data@.len(),
            map_data@.len() >= 1,
            cols == map_data@[0].spec_bytes().len(),
            forall|i: int, c: int|
                0 <= i < r && 0 <= c < map_data@[i]@.len() && #[trigger] char_tile(map_data@[i]@[c]) != TILE_EMPTY
                    ==> c < cols,
        decreases map_data@.len() - r,
    {
        let line = map_data[r];
        let blen = line.as_bytes().len();
        proof {
            lemma_chars_le_bytes(line@);
        }
        let mut c: usize = 0;
        for ch in it: line.chars()
            invariant
                c == it.index(),
                it.seq() == line@,
                line@.len() <= blen,
                line == map_data@[r as int],
                r < map_data@.len(),
                map_data@.len() >= 1,
                cols == map_data@[0].spec_bytes().len(),
                forall|i: int, c: int|
                    0 <= i < r && 0 <= c < map_data@[i]@.len() && #[trigger] char_tile(map_data@[i]@[c]) != TILE_EMPTY
                        ==> c < cols,
                forall|j: int| 0 <= j < c && #[trigger] char_tile(line@[j]) != TILE_EMPTY ==> j < cols,
        {
            if char_tile_exec(ch) != TILE_EMPTY && c >= cols {
                proof {
                    assert(line@.subrange(0, c + 1).last() == ch);
                    assert(line@[c as int] == ch);
                    assert(char_tile(map_data@[r as int]@[c as int]) != TILE_EMPTY);
                }
                return false;
            }
            c = c + 1;
        }
        r = r + 1;
    }
    true
}

/// Parse a level map, or `None` when a tile character lies beyond the width of
/// the first row or there is no row (maps on which the game would fail).
pub fn parse_level_checked(map_data: &[&str]) -> (level: Option<Level>)
    ensures
        level is Some <==> (map_data@.len() >= 1 && tiles_fit(map_data@)),
        level matches Some(l) ==> {
            &&& l.cols == map_data@[0].spec_bytes().len()
            &&& is_tile_grid(l.map@, map_data@, l.cols as int)
            &&& l.spawns@ == map_spawns(map_data@)
        },
{
    if tiles_fit_exec(map_data) {
        Some(parse_level(map_data))
    } else {
        None
    }
}

// ---------------------------------------------------------------------------
// Tile queries
// ---------------------------------------------------------------------------

/// The grid covers `MAP_ROWS` rows of at least `cols` tiles.
pub open spec fn covers(map: Seq<Vec<u8>>, cols: int) -> bool {
    &&& map.len() >= MAP_ROWS
    &&& forall|r: int| 0 <= r < MAP_ROWS ==> #[trigger] map[r]@.len() >= cols
}

/// The tile at column `col`, row `row`; outside the map everything is empty.
pub open spec fn tile_of(map: Seq<Vec<u8>>, cols: int, col: int, row: int) -> u8 {
    if 0 <= col < cols && 0 <= row < MAP_ROWS {
        map[row]@[col]
    } else {
        TILE_EMPTY
    }
}

/// The tile at column `col`, row `row` of a map `map_cols` wide (the caller
/// divides pixel coordinates by the tile size).
pub fn tile_at(map: &Vec<Vec<u8>>, map_cols: usize, col: isize, row: isize) -> (t: u8)
    requires
        covers(map@, map_cols as int),
        map_cols <= isize::MAX,
    ensures
        t == tile_of(map@, map_cols as int, col as int, row as int),
{
    if col < 0 || row < 0 || col >= map_cols as isize || row >= MAP_ROWS as isize {
        return TILE_EMPTY;
    }
    map[row as usize][col as usize]
}

/// Only solid tiles block movement.
pub fn is_solid(map: &Vec<Vec<u8>>, map_cols: usize, col: isize, row: isize) -> (b: bool)
    requires
        covers(map@, map_cols as int),
        map_cols <= isize::MAX,
    ensures
        b == (tile_of(map@, map_cols as int, col as int, row as int) == TILE_SOLID),
{
    tile_at(map, map_cols, col, row) == TILE_SOLID
}

// ---------------------------------------------------------------------------
// Screens and story flow
// ---------------------------------------------------------------------------

/// Screens of the game.
#[derive(Debug, Clone, Copy, PartialEq, Eq, Structural)]
pub enum GameState {
    Start,
    Story,
    LevelStory,
    Playing,
    GameOver,
    Win,
}

/// What happens when a story has been read.
#[derive(Debug, Clone, Copy, PartialEq, Eq, Structural)]
pub enum StoryCallback {
    /// Play on.
    PlayOn,
    /// Show the briefing of the current sector.
    StartLevelIntro,
    /// Build the current level and play it.
    BeginLevel,
    /// Move on to the next sector, or win after the last.
    AdvanceAfterPost,
}

/// Which story text is on screen: the briefing shown before sector `i`
/// (0 is the prologue) or the debriefing after sector `i`.
#[derive(Debug, Clone, Copy, PartialEq, Eq, Structural)]
pub enum StoryText {
    Pre(usize),
    Post(usize),
}

/// What the game loop must do after a story frame.
#[derive(Debug, Clone, Copy, PartialEq, Eq, Structural)]
pub enum FlowAction {
    Nothing,
    /// Build the given level and place the runner at its start.
    BuildLevel(usize),
}

/// What a hit did to the runner.
#[derive(Debug, Clone, Copy, PartialEq, Eq, Structural)]
pub enum DamageOutcome {
    /// Invulnerable or already dead.
    Ignored,
    /// Lost health.
    Hurt,
    /// Lost the last health point and a life; respawns at the sector start.
    LifeLost,
    /// Lost the last life: game over.
    Died,
}

/// Pickups of the sectors.
#[derive(Debug, Clone, Copy, PartialEq, Eq, Structural)]
pub enum PickupKind {
    DataChip,
    Health,
    EmpAmmo,
}

pub const PLAYER_MAX_HP: i32 = 3;
pub const PLAYER_LIVES: i32 = 3;
pub const INVULN_FRAMES: i32 = 60;
pub const DASH_FRAMES: i32 = 8;
pub const DASH_COOLDOWN: i32 = 30;
pub const ATTACK_DURATION: i32 = 10;
pub const LAST_LEVEL: usize = 2;

/// The first index at or after `i` where a character of `bytes` starts, or the end.
pub open spec fn next_boundary(bytes: Seq<u8>, i: int) -> int
    decreases bytes.len() - i,
{
    if i >= bytes.len() {
        bytes.len() as int
    } else if is_char_boundary(bytes, i) {
        i
    } else {
        next_boundary(bytes, i + 1)
    }
}

/// The integer state of a run: screen, sector, story typewriter and the
/// runner's health, lives and move timers.
pub struct NeonState {
    pub state: GameState,
    pub current_level: usize,
    pub story_text: StoryText,
    /// Bytes of the story text shown so far (always at a character start).
    pub story_char_index: usize,
    pub story_type_timer: i32,
    pub story_skip_ready: bool,
    pub story_callback: StoryCallback,
    pub hp: i32,
    pub max_hp: i32,
    pub lives: i32,
    pub invuln: i32,
    pub dead: bool,
    pub emp_count: i32,
    pub score: i32,
    pub chips_collected: i32,
    pub dashing: i32,
    pub dash_cooldown: i32,
    pub can_dash: bool,
    pub attacking: i32,
    pub hit_stop: i32,
    pub blink_timer: i32,
}

impl NeonState {
    /// Ranges the rules keep.
    pub open spec fn wf(&self) -> bool {
        &&& self.max_hp == PLAYER_MAX_HP
        &&& self.hp <= self.max_hp
        &&& -1 <= self.lives <= PLAYER_LIVES
        &&& !self.dead ==> self.hp > 0 && self.lives >= 1
        &&& 0 <= self.invuln <= 2 * INVULN_FRAMES
        &&& 0 <= self.dashing <= DASH_FRAMES
        &&& 0 <= self.dash_cooldown <= DASH_COOLDOWN
        &&& 0 <= self.attacking <= ATTACK_DURATION
        &&& 0 <= self.hit_stop <= 4
        &&& 0 <= self.blink_timer < 60
        &&& 0 <= self.story_type_timer
        &&& 0 <= self.emp_count
        &&& 0 <= self.score
        &&& 0 <= self.chips_collected
        &&& self.current_level <= LAST_LEVEL + 1
        &&& (self.state == GameState::Story || self.state == GameState::Playing) ==> self.current_level <= LAST_LEVEL
    }

    /// `s` with the runner as a run starts.
    pub open spec fn fresh_player_of(s: NeonState) -> NeonState {
        NeonState {
            hp: PLAYER_MAX_HP,
            max_hp: PLAYER_MAX_HP,
            lives: PLAYER_LIVES,
            invuln: 0,
            dead: false,
            emp_count: 3,
            score: 0,
            chips_collected: 0,
            dashing: 0,
            dash_cooldown: 0,
            can_dash: true,
            attacking: 0,
            hit_stop: 0,
            ..s
        }
    }

    /// `s` on a fresh story screen showing `text`, which calls `callback`
    /// when read.
    pub open spec fn story_shown_of(s: NeonState, text: StoryText, callback: StoryCallback) -> NeonState {
        NeonState {
            state: GameState::Story,
            story_text: text,
            story_char_index: 0,
            story_type_timer: 0,
            story_skip_ready: false,
            story_callback: callback,
            ..s
        }
    }

    /// A new game on the start screen.
    pub fn new() -> (s: Self)
        ensures
            s.wf(),
            s == (NeonState {
                state: GameState::Start,
                current_level: 0,
                story_text: StoryText::Pre(0),
                story_char_index: 0,
                story_type_timer: 0,
                story_skip_ready: false,
                story_callback: StoryCallback::PlayOn,
                blink_timer: 0,
                ..NeonState::fresh_player_of(s)
            }),
    {
        NeonState {
            state: GameState::Start,
            current_level: 0,
            story_text: StoryText::Pre(0),
            story_char_index: 0,
            story_type_timer: 0,
            story_skip_ready: false,
            story_callback: StoryCallback::PlayOn,
            hp: PLAYER_MAX_HP,
            max_hp: PLAYER_MAX_HP,
            lives: PLAYER_LIVES,
            invuln: 0,
            dead: false,
            emp_count: 3,
            score: 0,
            chips_collected: 0,
            dashing: 0,
            dash_cooldown: 0,
            can_dash: true,
            attacking: 0,
            hit_stop: 0,
            blink_timer: 0,
        }
    }

    fn fresh_player(&mut self)
        requires
            old(self).wf(),
        ensures
            final(self).wf(),
            *final(self) == NeonState::fresh_player_of(*old(self)),
    {
        self.hp = PLAYER_MAX_HP;
        self.max_hp = PLAYER_MAX_HP;
        self.lives = PLAYER_LIVES;
        self.invuln = 0;
        self.dead = false;
        self.emp_count = 3;
        self.score = 0;
        self.chips_collected = 0;
        self.dashing = 0;
        self.dash_cooldown = 0;
        self.can_dash = true;
        self.attacking = 0;
        self.hit_stop = 0;
    }

    /// Start over at sector 0 with a fresh runner (the caller rebuilds level 0).
    pub fn reset_game(&mut self)
        requires
            old(self).wf(),
        ensures
            final(self).wf(),
            *final(self) == NeonState::fresh_player_of(NeonState { current_level: 0, ..*old(self) }),
    {
        self.current_level = 0;
        self.fresh_player();
    }

    /// Put `text` on a fresh story screen.
    pub fn show_story(&mut self, text: StoryText, callback: StoryCallback)
        requires
            old(self).wf(),
            old(self).current_level <= LAST_LEVEL,
        ensures
            final(self).wf(),
            *final(self) == NeonState::story_shown_of(*old(self), text, callback),
    {
        self.state = GameState::Story;
        self.story_text = text;
        self.story_char_index = 0;
        self.story_type_timer = 0;
        self.story_skip_ready = false;
        self.story_callback = callback;
    }

    /// Advance the blink cycle (every frame).
    pub fn blink_tick(&mut self)
        requires
            old(self).wf(),
        ensures
            final(self).wf(),
            *final(self) == (NeonState { blink_timer: ((old(self).blink_timer + 1) % 60) as i32, ..*old(self) }),
    {
        self.blink_timer = (self.blink_timer + 1) % 60;
    }

    /// Start screen: Enter, X or Space starts a run with the prologue.
    /// Returns whether the game was reset (level 0 must be rebuilt).
    pub fn update_start(&mut self, start_pressed: bool) -> (reset: bool)
        requires
            old(self).wf(),
        ensures
            final(self).wf(),
            reset == start_pressed,
            start_pressed ==> *final(self) == NeonState::story_shown_of(
                NeonState::fresh_player_of(NeonState { current_level: 0, ..*old(self) }),
                StoryText::Pre(0),
                StoryCallback::StartLevelIntro,
            ),
            !start_pressed ==> *final(self) == *old(self),
    {
        if start_pressed {
            self.reset_game();
            self.show_story(StoryText::Pre(0), StoryCallback::StartLevelIntro);
            true
        } else {
            false
        }
    }

    /// Win screen: Enter or X returns to the start screen.
    pub fn update_win(&mut self, pressed: bool)
        requires
            old(self).wf(),
        ensures
            final(self).wf(),
            *final(self) == (if pressed { NeonState { state: GameState::Start, ..*old(self) } } else { *old(self) }),
    {
        if pressed {
            self.state = GameState::Start;
        }
    }

    /// Game-over screen: Enter or X resets the run and returns to the start
    /// screen. Returns whether the game was reset.
    pub fn update_game_over(&mut self, pressed: bool) -> (reset: bool)
        requires
            old(self).wf(),
        ensures
            final(self).wf(),
            reset == pressed,
            pressed ==> *final(self) == (NeonState {
                state: GameState::Start,
                ..NeonState::fresh_player_of(NeonState { current_level: 0, ..*old(self) })
            }),
            !pressed ==> *final(self) == *old(self),
    {
        if pressed {
            self.reset_game();
            self.state = GameState::Start;
            true
        } else {
            false
        }
    }

    /// Sector cleared: show its debriefing, then move on.
    pub fn advance_level(&mut self)
        requires
            old(self).wf(),
            old(self).state == GameState::Playing,
        ensures
            final(self).wf(),
            *final(self) == NeonState::story_shown_of(
                *old(self),
                StoryText::Post(old(self).current_level),
                StoryCallback::AdvanceAfterPost,
            ),
    {
        let post = self.current_level;
        self.show_story(StoryText::Post(post), StoryCallback::AdvanceAfterPost);
    }

    /// One frame of a story screen showing `full_text`: every second frame the
    /// typewriter reveals one more character; the skip buttons (Z, Enter, X,
    /// Space) first reveal the whole text, then close the story and run its
    /// callback.
    pub fn update_story(&mut self, full_text: &str, skip_pressed: bool) -> (action: FlowAction)
        requires
            old(self).wf(),
            old(self).state == GameState::Story,
            old(self).story_char_index <= full_text.spec_bytes().len(),
            old(self).story_type_timer < i32::MAX,
        ensures
            final(self).wf(),
            final(self).story_char_index <= full_text.spec_bytes().len(),
            ({
                let bytes = full_text.spec_bytes();
                let len = bytes.len() as int;
                let ci = old(self).story_char_index as int;
                let timer = old(self).story_type_timer + 1;
                let typing = timer >= 2 && ci < len;
                let ci1 = if typing { next_boundary(bytes, ci + 1) } else { ci };
                let ready = old(self).story_skip_ready || ci1 >= len;
                let ticked = NeonState {
                    story_char_index: ci1 as usize,
                    story_type_timer: if typing { 0 } else { timer as i32 },
                    story_skip_ready: ready,
                    ..*old(self)
                };
                let closed = NeonState { story_callback: StoryCallback::PlayOn, ..ticked };
                let level = old(self).current_level;
                if !skip_pressed {
                    &&& action == FlowAction::Nothing
                    &&& *final(self) == ticked
                } else if !ready {
                    &&& action == FlowAction::Nothing
                    &&& *final(self) == (NeonState { story_char_index: len as usize, story_skip_ready: true, ..ticked })
                } else {
                    match old(self).story_callback {
                        StoryCallback::StartLevelIntro => {
                            &&& action == FlowAction::Nothing
                            &&& *final(self) == NeonState::story_shown_of(
                                closed,
                                StoryText::Pre((level + 1) as usize),
                                StoryCallback::BeginLevel,
                            )
                        },
                        StoryCallback::BeginLevel => {
                            &&& action == FlowAction::BuildLevel(level)
                            &&& *final(self) == (NeonState { state: GameState::Playing, ..closed })
                        },
                        StoryCallback::AdvanceAfterPost => {
                            let advanced = NeonState { current_level: (level + 1) as usize, ..closed };
                            &&& action == FlowAction::Nothing
                            &&& level + 1 > LAST_LEVEL ==> *final(self) == (NeonState { state: GameState::Win, ..advanced })
                            &&& level + 1 <= LAST_LEVEL ==> *final(self) == NeonState::story_shown_of(
                                advanced,
                                StoryText::Pre((level + 2) as usize),
                                StoryCallback::BeginLevel,
                            )
                        },
                        StoryCallback::PlayOn => {
                            &&& action == FlowAction::Nothing
                            &&& *final(self) == (NeonState { state: GameState::Playing, ..closed })
                        },
                    }
                }
            }),
    {
        let len = full_text.as_bytes().len();
        let ghost bytes = full_text.spec_bytes();
        self.story_type_timer = self.story_type_timer + 1;
        if self.story_type_timer >= 2 && self.story_char_index < len {
            let mut end = self.story_char_index + 1;
            while end < len && !full_text.is_char_boundary(end)
                invariant
                    len == bytes.len(),
                    bytes == full_text.spec_bytes(),
                    old(self).story_char_index < end <= len,
                    next_boundary(bytes, end as int) == next_boundary(bytes, old(self).story_char_index + 1),
                decreases len - end,
            {
                end = end + 1;
            }
            self.story_char_index = end;
            self.story_type_timer = 0;
        }
        if self.story_char_index >= len {
            self.story_skip_ready = true;
        }
        if !skip_pressed {
            return FlowAction::Nothing;
        }
        if !self.story_skip_ready {
            self.story_char_index = len;
            self.story_skip_ready = true;
            return FlowAction::Nothing;
        }
        let cb = self.story_callback;
        self.story_callback = StoryCallback::PlayOn;
        match cb {
            StoryCallback::StartLevelIntro => {
                let next = self.current_level + 1;
                self.show_story(StoryText::Pre(next), StoryCallback::BeginLevel);
                FlowAction::Nothing
            },
            StoryCallback::BeginLevel => {
                self.state = GameState::Playing;
                FlowAction::BuildLevel(self.current_level)
            },
            StoryCallback::AdvanceAfterPost => {
                self.current_level = self.current_level + 1;
                if self.current_level > LAST_LEVEL {
                    self.state = GameState::Win;
                } else {
                    let next = self.current_level + 1;
                    self.show_story(StoryText::Pre(next), StoryCallback::BeginLevel);
                }
                FlowAction::Nothing
            },
            StoryCallback::PlayOn => {
                self.state = GameState::Playing;
                FlowAction::Nothing
            },
        }
    }

    /// The runner dies for good: game over.
    pub fn player_die(&mut self)
        requires
            old(self).wf(),
        ensures
            final(self).wf(),
            *final(self) == (NeonState { dead: true, state: GameState::GameOver, ..*old(self) }),
    {
        self.dead = true;
        self.state = GameState::GameOver;
    }

    /// The runner falls out of the map: a life and all health are lost. When
    /// the electric floor or a laser also hit this frame (`zapped`), that hit
    /// of one point still lands unless the runner is invulnerable (taking a
    /// further life, with full health and double invulnerability if one is
    /// left); then the runner dies and the game is over.
    pub fn player_fall(&mut self, zapped: bool)
        requires
            old(self).wf(),
            !old(self).dead,
        ensures
            final(self).wf(),
            ({
                let fallen = NeonState { lives: (old(self).lives - 1) as i32, hp: 0, ..*old(self) };
                let hit = NeonState {
                    hp: -1i32,
                    invuln: INVULN_FRAMES,
                    hit_stop: 4,
                    lives: (fallen.lives - 1) as i32,
                    ..fallen
                };
                let after = if zapped && old(self).invuln <= 0 {
                    if fallen.lives - 1 > 0 {
                        NeonState { hp: old(self).max_hp, invuln: (2 * INVULN_FRAMES) as i32, ..hit }
                    } else {
                        hit
                    }
                } else {
                    fallen
                };
                *final(self) == (NeonState { dead: true, state: GameState::GameOver, ..after })
            }),
    {
        self.lives = self.lives - 1;
        self.hp = 0;
        if zapped && self.invuln <= 0 {
            self.hp = self.hp - 1;
            self.invuln = INVULN_FRAMES;
            self.hit_stop = 4;
            self.lives = self.lives - 1;
            if self.lives > 0 {
                self.hp = self.max_hp;
                self.invuln = INVULN_FRAMES * 2;
            }
        }
        self.dead = true;
        self.state = GameState::GameOver;
    }

    /// A blow of the runner's blade lands on enemy `e`: ignored while it still
    /// flashes from a hit; otherwise it loses a hit point, flashes for 10
    /// frames and the game freezes for 3; at no hit points it leaves play and
    /// its points are scored.
    pub fn melee_hit(&mut self, e: &mut NeonEnemy) -> (outcome: MeleeOutcome)
        requires
            old(self).wf(),
            old(e).active,
            old(e).hp > i32::MIN,
            0 <= old(e).score_val,
            old(self).score + old(e).score_val <= i32::MAX,
        ensures
            final(self).wf(),
            old(e).hurt_timer > 0 ==> outcome == MeleeOutcome::Ignored && *final(self) == *old(self)
                && *final(e) == *old(e),
            old(e).hurt_timer <= 0 ==> ({
                let hit = NeonEnemy { hp: (old(e).hp - 1) as i32, hurt_timer: 10, ..*old(e) };
                let killed = hit.hp <= 0;
                &&& outcome == (if killed { MeleeOutcome::Killed } else { MeleeOutcome::Hit })
                &&& *final(e) == (if killed { NeonEnemy { active: false, ..hit } } else { hit })
                &&& *final(self) == (NeonState {
                    hit_stop: 3,
                    score: if killed { (old(self).score + old(e).score_val) as i32 } else { old(self).score },
                    ..*old(self)
                })
            }),
    {
        if e.hurt_timer > 0 {
            return MeleeOutcome::Ignored;
        }
        e.hp = e.hp - 1;
        e.hurt_timer = 10;
        self.hit_stop = 3;
        if e.hp <= 0 {
            e.active = false;
            self.score = self.score + e.score_val;
            MeleeOutcome::Killed
        } else {
            MeleeOutcome::Hit
        }
    }

    /// A bullet of the runner hits enemy `e`: it loses a hit point and flashes
    /// for 8 frames; at no hit points it leaves play and its points are
    /// scored. Returns whether it was killed.
    pub fn shot_hit(&mut self, e: &mut NeonEnemy) -> (killed: bool)
        requires
            old(self).wf(),
            old(e).active,
            old(e).hp > i32::MIN,
            0 <= old(e).score_val,
            old(self).score + old(e).score_val <= i32::MAX,
        ensures
            final(self).wf(),
            killed == (old(e).hp - 1 <= 0),
            *final(e) == (NeonEnemy {
                hp: (old(e).hp - 1) as i32,
                hurt_timer: 8,
                active: !killed,
                ..*old(e)
            }),
            *final(self) == (NeonState {
                score: if killed { (old(self).score + old(e).score_val) as i32 } else { old(self).score },
                ..*old(self)
            }),
    {
        e.hp = e.hp - 1;
        e.hurt_timer = 8;
        if e.hp <= 0 {
            e.active = false;
            self.score = self.score + e.score_val;
            true
        } else {
            false
        }
    }

    /// A hit of `dmg`: ignored while invulnerable or dead; otherwise health
    /// drops, invulnerability and a short hit-stop start; at no health a life
    /// is lost -- the runner respawns with full health and double
    /// invulnerability, or, with no life left, the game is over.
    pub fn damage_player(&mut self, dmg: i32) -> (outcome: DamageOutcome)
        requires
            old(self).wf(),
            0 <= dmg,
            old(self).hp - dmg >= i32::MIN,
        ensures
            final(self).wf(),
            (old(self).invuln > 0 || old(self).dead) ==> outcome == DamageOutcome::Ignored && *final(self) == *old(self),
            !(old(self).invuln > 0 || old(self).dead) ==> {
                let hit = NeonState {
                    hp: (old(self).hp - dmg) as i32,
                    invuln: INVULN_FRAMES,
                    hit_stop: 4,
                    ..*old(self)
                };
                &&& old(self).hp - dmg > 0 ==> outcome == DamageOutcome::Hurt && *final(self) == hit
                &&& old(self).hp - dmg <= 0 && old(self).lives - 1 > 0 ==> outcome == DamageOutcome::LifeLost
                    && *final(self) == (NeonState {
                        lives: (old(self).lives - 1) as i32,
                        hp: old(self).max_hp,
                        invuln: (2 * INVULN_FRAMES) as i32,
                        ..hit
                    })
                &&& old(self).hp - dmg <= 0 && old(self).lives - 1 <= 0 ==> outcome == DamageOutcome::Died
                    && *final(self) == (NeonState {
                        lives: (old(self).lives - 1) as i32,
                        dead: true,
                        state: GameState::GameOver,
                        ..hit
                    })
            },
    {
        if self.invuln > 0 || self.dead {
            return DamageOutcome::Ignored;
        }
        self.hp = self.hp - dmg;
        self.invuln = INVULN_FRAMES;
        self.hit_stop = 4;
        if self.hp <= 0 {
            self.lives = self.lives - 1;
            if self.lives <= 0 {
                self.dead = true;
                self.state = GameState::GameOver;
                DamageOutcome::Died
            } else {
                self.hp = self.max_hp;
                self.invuln = INVULN_FRAMES * 2;
                DamageOutcome::LifeLost
            }
        } else {
            DamageOutcome::Hurt
        }
    }

    /// Picking up an item: a data chip counts and is worth 250 points, health
    /// heals one point up to the maximum, EMP ammo adds two charges.
    pub fn collect(&mut self, kind: PickupKind)
        requires
            old(self).wf(),
            old(self).score + 250 <= i32::MAX,
            old(self).chips_collected + 1 <= i32::MAX,
            old(self).emp_count + 2 <= i32::MAX,
        ensures
            final(self).wf(),
            *final(self) == (match kind {
                PickupKind::DataChip => NeonState {
                    chips_collected: (old(self).chips_collected + 1) as i32,
                    score: (old(self).score + 250) as i32,
                    ..*old(self)
                },
                PickupKind::Health => if old(self).hp < old(self).max_hp {
                    NeonState { hp: (old(self).hp + 1) as i32, ..*old(self) }
                } else {
                    *old(self)
                },
                PickupKind::EmpAmmo => NeonState { emp_count: (old(self).emp_count + 2) as i32, ..*old(self) },
            }),
    {
        match kind {
            PickupKind::DataChip => {
                self.chips_collected = self.chips_collected + 1;
                self.score = self.score + 250;
            },
            PickupKind::Health => {
                if self.hp < self.max_hp {
                    self.hp = self.hp + 1;
                }
            },
            PickupKind::EmpAmmo => {
                self.emp_count = self.emp_count + 2;
            },
        }
    }

    /// Hacking a terminal is worth 100 points.
    pub fn hack_terminal(&mut self)
        requires
            old(self).wf(),
            old(self).score + 100 <= i32::MAX,
        ensures
            final(self).wf(),
            *final(self) == (NeonState { score: (old(self).score + 100) as i32, ..*old(self) }),
    {
        self.score = self.score + 100;
    }

    /// Defeating an enemy adds its score value.
    pub fn add_score(&mut self, points: i32)
        requires
            old(self).wf(),
            0 <= points,
            old(self).score + points <= i32::MAX,
        ensures
            final(self).wf(),
            *final(self) == (NeonState { score: (old(self).score + points) as i32, ..*old(self) }),
    {
        self.score = self.score + points;
    }

    /// Per-frame countdowns of invulnerability and the dash cooldown.
    pub fn tick_timers(&mut self)
        requires
            old(self).wf(),
        ensures
            final(self).wf(),
            *final(self) == (NeonState {
                invuln: if old(self).invuln > 0 { (old(self).invuln - 1) as i32 } else { 0 },
                dash_cooldown: if old(self).dash_cooldown > 0 { (old(self).dash_cooldown - 1) as i32 } else { 0 },
                ..*old(self)
            }),
    {
        if self.invuln > 0 {
            self.invuln = self.invuln - 1;
        }
        if self.dash_cooldown > 0 {
            self.dash_cooldown = self.dash_cooldown - 1;
        }
    }

    /// Count down a dash; the cooldown starts when it ends. Returns whether the
    /// runner was dashing.
    pub fn dash_tick(&mut self) -> (was_dashing: bool)
        requires
            old(self).wf(),
        ensures
            final(self).wf(),
            was_dashing == (old(self).dashing > 0),
            *final(self) == (NeonState {
                dashing: if was_dashing { (old(self).dashing - 1) as i32 } else { old(self).dashing },
                dash_cooldown: if old(self).dashing == 1 { DASH_COOLDOWN } else { old(self).dash_cooldown },
                ..*old(self)
            }),
    {
        if self.dashing > 0 {
            self.dashing = self.dashing - 1;
            if self.dashing == 0 {
                self.dash_cooldown = DASH_COOLDOWN;
            }
            true
        } else {
            false
        }
    }

    /// Dash button: start a dash (with brief invulnerability) when one is
    /// available, none is under way and the cooldown is over.
    pub fn try_dash(&mut self, dash_pressed: bool) -> (dashed: bool)
        requires
            old(self).wf(),
        ensures
            final(self).wf(),
            dashed == (dash_pressed && old(self).can_dash && old(self).dashing <= 0 && old(self).dash_cooldown <= 0),
            dashed ==> *final(self) == (NeonState {
                dashing: DASH_FRAMES,
                can_dash: false,
                invuln: DASH_FRAMES,
                ..*old(self)
            }),
            !dashed ==> *final(self) == *old(self),
    {
        if dash_pressed && self.can_dash && self.dashing <= 0 && self.dash_cooldown <= 0 {
            self.dashing = DASH_FRAMES;
            self.can_dash = false;
            self.invuln = DASH_FRAMES;
            true
        } else {
            false
        }
    }

    /// Landing restores the dash.
    pub fn land(&mut self)
        requires
            old(self).wf(),
        ensures
            final(self).wf(),
            *final(self) == (NeonState { can_dash: true, ..*old(self) }),
    {
        self.can_dash = true;
    }

    /// Attack button: swing the blade when no swing or dash is under way.
    pub fn try_attack(&mut self, attack_pressed: bool) -> (swung: bool)
        requires
            old(self).wf(),
        ensures
            final(self).wf(),
            swung == (attack_pressed && old(self).attacking <= 0 && old(self).dashing <= 0),
            swung ==> *final(self) == (NeonState { attacking: ATTACK_DURATION, ..*old(self) }),
            !swung ==> *final(self) == *old(self),
    {
        if attack_pressed && self.attacking <= 0 && self.dashing <= 0 {
            self.attacking = ATTACK_DURATION;
            true
        } else {
            false
        }
    }

    /// Count down a swing.
    pub fn attack_tick(&mut self)
        requires
            old(self).wf(),
        ensures
            final(self).wf(),
            *final(self) == (NeonState {
                attacking: if old(self).attacking > 0 { (old(self).attacking - 1) as i32 } else { 0 },
                ..*old(self)
            }),
    {
        if self.attacking > 0 {
            self.attacking = self.attacking - 1;
        }
    }

    /// EMP button: throw a charge when one is left. Returns `Some(spawn)` for a
    /// throw, where `spawn` is whether there is room for the projectile.
    pub fn try_throw_emp(&mut self, emp_pressed: bool, room: bool) -> (thrown: Option<bool>)
        requires
            old(self).wf(),
        ensures
            final(self).wf(),
            (thrown is Some) == (emp_pressed && old(self).emp_count > 0),
            thrown is Some ==> thrown == Some(room) && *final(self) == (NeonState {
                emp_count: (old(self).emp_count - 1) as i32,
                ..*old(self)
            }),
            thrown is None ==> *final(self) == *old(self),
    {
        if emp_pressed && self.emp_count > 0 {
            self.emp_count = self.emp_count - 1;
            Some(room)
        } else {
            None
        }
    }

    /// Count down the hit-stop freeze; returns whether the frame is frozen.
    pub fn hit_stop_tick(&mut self) -> (frozen: bool)
        requires
            old(self).wf(),
        ensures
            final(self).wf(),
            frozen == (old(self).hit_stop > 0),
            *final(self) == (NeonState {
                hit_stop: if frozen { (old(self).hit_stop - 1) as i32 } else { old(self).hit_stop },
                ..*old(self)
            }),
    {
        if self.hit_stop > 0 {
            self.hit_stop = self.hit_stop - 1;
            true
        } else {
            false
        }
    }

}

// ---------------------------------------------------------------------------
// Level and story data
// ---------------------------------------------------------------------------

/// The story lines before chapter `index` (0: the prologue, then one per
/// level); none past the last.
pub open spec fn story_pre_of(index: int) -> Seq<&'static str> {
    if index == 0 {
        seq![
            "Neo-Kyoto, 2087.",
            "",
            "The megacorps control everything --",
            "information, resources, lives.",
            "",
            "You are Kira-7, a rogue hacker.",
            "Once an engineer for Nexus Corp,",
            "you discovered their darkest secret:",
            "Project Ghost Protocol.",
            "",
            "They are rewriting memories.",
            "Erasing dissidents from existence.",
            "",
            "You stole the proof. They erased your identity.",
            "Now you must reach the broadcast tower",
            "and expose the truth to the world.",
        ]
    } else if index == 1 {
        seq![
            "--- SECTOR 1: NEON DISTRICT ---",
            "",
            "The rooftops of the Neon District.",
            "Security drones patrol the skyline.",
            "",
            "Keep moving. They are tracking your signal.",
        ]
    } else if index == 2 {
        seq![
            "--- SECTOR 2: INDUSTRIAL ZONE ---",
            "",
            "The old factories. Automated turrets",
            "guard every corridor.",
            "",
            "Your contact left EMP charges hidden",
            "along the route. Use them wisely.",
        ]
    } else if index == 3 {
        seq![
            "--- SECTOR 3: NEXUS TOWER ---",
            "",
            "The broadcast tower looms above.",
            "Nexus Corp has deployed everything --",
            "drones, guards, and their prototype:",
            "the Cerberus combat unit.",
            "",
            "This is it. No turning back.",
        ]
    } else {
        Seq::empty()
    }
}

/// The story lines before chapter `index` (0: the prologue, then one per
/// level); none past the last.
pub fn story_pre(index: usize) -> (lines: Vec<&'static str>)
    ensures
        lines@ == story_pre_of(index as int),
{
    if index == 0 {
        vec![
            "Neo-Kyoto, 2087.",
            "",
            "The megacorps control everything --",
            "information, resources, lives.",
            "",
            "You are Kira-7, a rogue hacker.",
            "Once an engineer for Nexus Corp,",
            "you discovered their darkest secret:",
            "Project Ghost Protocol.",
            "",
            "They are rewriting memories.",
            "Erasing dissidents from existence.",
            "",
            "You stole the proof. They erased your identity.",
            "Now you must reach the broadcast tower",
            "and expose the truth to the world.",
        ]
    } else if index == 1 {
        vec![
            "--- SECTOR 1: NEON DISTRICT ---",
            "",
            "The rooftops of the Neon District.",
            "Security drones patrol the skyline.",
            "",
            "Keep moving. They are tracking your signal.",
        ]
    } else if index == 2 {
        vec![
            "--- SECTOR 2: INDUSTRIAL ZONE ---",
            "",
            "The old factories. Automated turrets",
            "guard every corridor.",
            "",
            "Your contact left EMP charges hidden",
            "along the route. Use them wisely.",
        ]
    } else if index == 3 {
        vec![
            "--- SECTOR 3: NEXUS TOWER ---",
            "",
            "The broadcast tower looms above.",
            "Nexus Corp has deployed everything --",
            "drones, guards, and their prototype:",
            "the Cerberus combat unit.",
            "",
            "This is it. No turning back.",
        ]
    } else {
        Vec::new()
    }
}

/// The story lines after level `index`; none past the last.
pub open spec fn story_post_of(index: int) -> Seq<&'static str> {
    if index == 0 {
        seq![
            "You clear the Neon District rooftops.",
            "A message flickers on a broken screen:",
            "",
            "'Kira -- they know you are coming.",
            " The Industrial Zone is locked down.",
            " I left supplies. Stay ghost.'",
            "",
            "-- ZERO (Unknown Ally)",
        ]
    } else if index == 1 {
        seq![
            "The factory sector falls behind you.",
            "Your decoder crackles with static.",
            "",
            "A familiar voice: your old partner, Ren.",
            "'Kira, I am inside Nexus Tower.",
            " I have been feeding them false data.",
            " The broadcast array is on the roof.",
            " But they deployed Cerberus.'",
            "",
            "'I will keep the doors open. Hurry.'",
        ]
    } else if index == 2 {
        seq![
            "The Cerberus unit crashes to the ground.",
            "You plug into the broadcast array.",
            "",
            "Every screen in Neo-Kyoto flickers.",
            "The Ghost Protocol files stream out",
            "to millions of eyes.",
            "",
            "Names. Dates. Erased lives restored.",
            "",
            "Nexus Corp's towers go dark, one by one.",
            "",
            "Ren's voice, barely a whisper:",
            "'You did it, Kira. The ghosts are free.'",
            "",
            "The rain washes over Neo-Kyoto.",
            "For the first time in years,",
            "the city breathes.",
        ]
    } else {
        Seq::empty()
    }
}

/// The story lines after level `index`; none past the last.
pub fn story_post(index: usize) -> (lines: Vec<&'static str>)
    ensures
        lines@ == story_post_of(index as int),
{
    if index == 0 {
        vec![
            "You clear the Neon District rooftops.",
            "A message flickers on a broken screen:",
            "",
            "'Kira -- they know you are coming.",
            " The Industrial Zone is locked down.",
            " I left supplies. Stay ghost.'",
            "",
            "-- ZERO (Unknown Ally)",
        ]
    } else if index == 1 {
        vec![
            "The factory sector falls behind you.",
            "Your decoder crackles with static.",
            "",
            "A familiar voice: your old partner, Ren.",
            "'Kira, I am inside Nexus Tower.",
            " I have been feeding them false data.",
            " The broadcast array is on the roof.",
            " But they deployed Cerberus.'",
            "",
            "'I will keep the doors open. Hurry.'",
        ]
    } else if index == 2 {
        vec![
            "The Cerberus unit crashes to the ground.",
            "You plug into the broadcast array.",
            "",
            "Every screen in Neo-Kyoto flickers.",
            "The Ghost Protocol files stream out",
            "to millions of eyes.",
            "",
            "Names. Dates. Erased lives restored.",
            "",
            "Nexus Corp's towers go dark, one by one.",
            "",
            "Ren's voice, barely a whisper:",
            "'You did it, Kira. The ghosts are free.'",
            "",
            "The rain washes over Neo-Kyoto.",
            "For the first time in years,",
            "the city breathes.",
        ]
    } else {
        Vec::new()
    }
}

/// The map of level `index` (the last one for any later index).
pub open spec fn level_data_of(index: int) -> Seq<&'static str> {
    if index == 0 {
        seq![
            ".......................................................................................................",
            ".......................................................................................................",
            "..............................................C.........................................................",
            ".............####...................#####..####...........................C.............................",
            ".......................................................................................................",
            "......C...............................................................................................#",
            ".....####...........##...............................................####.......####.............######",
            ".....................................................................................##................",
            "#####........##..........###.....D....####.......##...D.......###.............##..............##......#",
            ".......................................................##..........................................####",
            "..........D.......##.........####.............##.........####........D........####....####..........H.#",
            "##..............................................................##.....................................#",
            "......####...........###...........####..H.........####...........####.........####.......####......##",
            "##################################################################################################.#",
            "####################################################################################################",
        ]
    } else if index == 1 {
        seq![
            ".......................................................................................................",
            "......C...........................................................C....................................",
            "....####..........................................................................####.................",
            "...........##...............T.............####...........T.............................................#",
            ".......................####.......................................................####.................",
            "#####.........###...............##..............###...........##..............###.............##......#",
            "..........G..........................................................G.................................#",
            "....####...........####..K..........####............####..K..........####............####.......####.#",
            "..................................................................................................M..#",
            ".............###..........####..........H...####..........####..........####..........####..........##",
            "#####.............##.................##.............##.................##.............##.............G.#",
            "..........####..........####..........####..........####..........####..........####..........####...#",
            ".....G............................G............................G............................G........#",
            "####################################################################################################",
            "####################################################################################################",
        ]
    } else {
        seq![
            ".......................................................................................................",
            "...........................................................................C...........................",
            "......C...........T.......................................T...........####.............................",
            "....####...............####.......####............####..............................................####",
            ".................##.......................................................................####........",
            "#####........##..........###.........####.......##.........###..........####......##................G.#",
            "..........G..............................G.....................................................####..#",
            "....####...........####..K..........####............####..........####..K.......####.............H...#",
            "..................................................................................................####",
            ".............###..........####..........####..........####.......M..####..........####..........####.#",
            "#####.............##.................##.............##.......####..........##.............##.........B#",
            "..........####..........####..........####..........####..........####..........####..........####...#",
            ".....G............................G............................G......................D.....D........#",
            "####################################################################################################",
            "####################################################################################################",
        ]
    }
}

/// The map of level `index` (the last one for any later index).
pub fn level_data(index: usize) -> (lines: Vec<&'static str>)
    ensures
        lines@ == level_data_of(index as int),
{
    if index == 0 {
        vec![
            ".......................................................................................................",
            ".......................................................................................................",
            "..............................................C.........................................................",
            ".............####...................#####..####...........................C.............................",
            ".......................................................................................................",
            "......C...............................................................................................#",
            ".....####...........##...............................................####.......####.............######",
            ".....................................................................................##................",
            "#####........##..........###.....D....####.......##...D.......###.............##..............##......#",
            ".......................................................##..........................................####",
            "..........D.......##.........####.............##.........####........D........####....####..........H.#",
            "##..............................................................##.....................................#",
            "......####...........###...........####..H.........####...........####.........####.......####......##",
            "##################################################################################################.#",
            "####################################################################################################",
        ]
    } else if index == 1 {
        vec![
            ".......................................................................................................",
            "......C...........................................................C....................................",
            "....####..........................................................................####.................",
            "...........##...............T.............####...........T.............................................#",
            ".......................####.......................................................####.................",
            "#####.........###...............##..............###...........##..............###.............##......#",
            "..........G..........................................................G.................................#",
            "....####...........####..K..........####............####..K..........####............####.......####.#",
            "..................................................................................................M..#",
            ".............###..........####..........H...####..........####..........####..........####..........##",
            "#####.............##.................##.............##.................##.............##.............G.#",
            "..........####..........####..........####..........####..........####..........####..........####...#",
            ".....G............................G............................G............................G........#",
            "####################################################################################################",
            "####################################################################################################",
        ]
    } else {
        vec![
            ".......................................................................................................",
            "...........................................................................C...........................",
            "......C...........T.......................................T...........####.............................",
            "....####...............####.......####............####..............................................####",
            ".................##.......................................................................####........",
            "#####........##..........###.........####.......##.........###..........####......##................G.#",
            "..........G..............................G.....................................................####..#",
            "....####...........####..K..........####............####..........####..K.......####.............H...#",
            "..................................................................................................####",
            ".............###..........####..........####..........####.......M..####..........####..........####.#",
            "#####.............##.................##.............##.......####..........##.............##.........B#",
            "..........####..........####..........####..........####..........####..........####..........####...#",
            ".....G............................G............................G......................D.....D........#",
            "####################################################################################################",
            "####################################################################################################",
        ]
    }
}

/// Name of level `index`.
pub fn level_name(index: usize) -> (text: &'static str)
    ensures
        text == (if index == 0 {
            "NEON DISTRICT"
        } else if index == 1 {
            "INDUSTRIAL ZONE"
        } else {
            "NEXUS TOWER"
        }),
{
    if index == 0 {
        "NEON DISTRICT"
    } else if index == 1 {
        "INDUSTRIAL ZONE"
    } else {
        "NEXUS TOWER"
    }
}

/// The story lines a story screen shows.
pub open spec fn story_text_lines_of(text: StoryText) -> Seq<&'static str> {
    match text {
        StoryText::Pre(i) => story_pre_of(i as int),
        StoryText::Post(i) => story_post_of(i as int),
    }
}

/// The story lines a story screen shows.
pub fn story_text_lines(text: StoryText) -> (lines: Vec<&'static str>)
    ensures
        lines@ == story_text_lines_of(text),
{
    match text {
        StoryText::Pre(i) => story_pre(i),
        StoryText::Post(i) => story_post(i),
    }
}

} // verus!
