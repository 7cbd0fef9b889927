//! Dragon Fury (side-scrolling brawler): the story and stage data, the
//! screen flow (title, typewriter stories, boss introductions, stage
//! transitions, continues, victory), wave triggering and the integer side of
//! the fighter (lives, score, weapons).
use vstd::prelude::*;
use crate::sprite::lemma_chars_le_bytes;

verus! {

/// Number of stages.
pub const STAGE_COUNT: usize = 3;
pub const PLAYER_START_LIVES: i32 = 3;
pub const RESPAWN_INV_FRAMES: i32 = 120;
/// Frames the mid-stage dialogue stays up.
pub const MID_STAGE_FRAMES: i32 = 240;

/// Screens of the game.
#[derive(Debug, Clone, Copy, PartialEq, Eq, Structural)]
pub enum GameState {
    Title,
    Story,
    BossIntro,
    Playing,
    Paused,
    StageTransition,
    GameOver,
    Victory,
}

/// Which kind of story is on screen.
#[derive(Debug, Clone, Copy, PartialEq, Eq, Structural)]
pub enum StoryPhase {
    Intro,
    PreStage,
    PostStage,
    VictoryStory,
}

/// What follows a story once its last line is read.
#[derive(Debug, Clone, Copy, PartialEq, Eq, Structural)]
pub enum StoryNext {
    /// Back to play.
    Resume,
    /// The current stage's pre-stage story, then its transition.
    PreStage,
    /// The current stage's transition.
    StageIntro,
    /// The closing story, then the victory screen.
    VictoryStory,
    /// The victory screen.
    Victory,
    /// The next stage's pre-stage story.
    NextStage,
    /// After the last stage: the closing story.
    FinalVictory,
}

/// Weapons lying in the streets.
#[derive(Debug, Clone, Copy, PartialEq, Eq, Structural)]
pub enum WeaponKind {
    Pipe,
    Knife,
    Bottle,
}

/// Pickups lying in the streets.
#[derive(Debug, Clone, Copy, PartialEq, Eq, Structural)]
pub enum PickupKind {
    Chicken,
    Pizza,
    ExtraLife,
}

/// Blows a weapon lasts.
pub open spec fn durability_of(kind: WeaponKind) -> i32 {
    match kind {
        WeaponKind::Pipe => 8,
        WeaponKind::Knife => 12,
        WeaponKind::Bottle => 3,
    }
}

/// Whether each wave of stage `stage` holds its boss, in trigger order: the
/// last wave of every stage.
pub open spec fn boss_waves_of(stage: int) -> Seq<bool> {
    if stage == 0 {
        seq![false, false, false, false, true]
    } else if stage == 1 {
        seq![false, false, false, false, false, true]
    } else {
        seq![false, false, false, false, false, true]
    }
}

/// Whether each wave of stage `stage` holds its boss.
pub fn boss_waves(stage: usize) -> (b: Vec<bool>)
    ensures
        b@ == boss_waves_of(stage as int),
{
    if stage == 0 {
        vec![false, false, false, false, true]
    } else if stage == 1 {
        vec![false, false, false, false, false, true]
    } else {
        vec![false, false, false, false, false, true]
    }
}

// ---------------------------------------------------------------------------
// Story data
// ---------------------------------------------------------------------------

/// The opening story.
pub open spec fn story_intro_of() -> Seq<&'static str> {
    seq![
        "NEO-OSAKA, KABUKI DISTRICT -- 3:47 AM",
        "The Dragon Fist dojo burns. Grandmaster Sato is gone.",
        "A witness saw the Iron Serpents heading east toward the port district. Their tag is fresh on every wall.",
        "You crack your knuckles. Ten blocks east. That's where this starts.",
    ]
}

/// The opening story.
pub fn story_intro() -> (lines: Vec<&'static str>)
    ensures
        lines@ == story_intro_of(),
{
    vec![
        "NEO-OSAKA, KABUKI DISTRICT -- 3:47 AM",
        "The Dragon Fist dojo burns. Grandmaster Sato is gone.",
        "A witness saw the Iron Serpents heading east toward the port district. Their tag is fresh on every wall.",
        "You crack your knuckles. Ten blocks east. That's where this starts.",
    ]
}

/// The story before stage `stage`.
pub open spec fn story_pre_stage_of(stage: int) -> Seq<&'static str> {
    if stage == 0 {
        seq![
            "The alleys behind Kabuki are Iron Serpent territory. Low-level thugs and dealers. Someone here knows where Sato is.",
        ]
    } else if stage == 1 {
        seq![
            "The Iron Serpents' base of operations. Crates of weapons, stolen goods, and something else -- medical equipment. What are they doing to Sato?",
        ]
    } else {
        seq![
            "The neon skyline of Neo-Osaka stretches before you. On the highest rooftop, Jin waits. Sato kneels beside him, alive but broken.",
        ]
    }
}

/// The story before stage `stage`.
pub fn story_pre_stage(stage: usize) -> (lines: Vec<&'static str>)
    requires
        stage < STAGE_COUNT,
    ensures
        lines@ == story_pre_stage_of(stage as int),
{
    if stage == 0 {
        vec![
            "The alleys behind Kabuki are Iron Serpent territory. Low-level thugs and dealers. Someone here knows where Sato is.",
        ]
    } else if stage == 1 {
        vec![
            "The Iron Serpents' base of operations. Crates of weapons, stolen goods, and something else -- medical equipment. What are they doing to Sato?",
        ]
    } else {
        vec![
            "The neon skyline of Neo-Osaka stretches before you. On the highest rooftop, Jin waits. Sato kneels beside him, alive but broken.",
        ]
    }
}

/// The story after stage `stage`.
pub open spec fn story_post_stage_of(stage: int) -> Seq<&'static str> {
    if stage == 0 {
        seq![
            "Blade falls. Through his radio, you hear a voice -- cold, familiar.",
            "\"Let him come. I want to see what Sato taught him.\"",
            "It's Jin. He knows you're coming.",
        ]
    } else if stage == 1 {
        seq![
            "Behind the warehouse, you find a passage leading up -- to the rooftops.",
            "And a note in Sato's handwriting, hidden under a loose brick:",
            "\"Ryu -- Jin doesn't want the technique to sell. He wants it to destroy. The rage consumed him long ago. Forgive him if you can. Stop him if you must. --Sato\"",
        ]
    } else {
        seq![
            "Jin falls to his knees. His rage is spent.",
            "Sato limps forward and places a hand on Jin's shoulder.",
            "\"I didn't refuse you because you were weak, Jin. I refused because the Dragon's Breath amplifies what's in your heart. And your heart was full of anger. But anger fades.\"",
            "Jin looks up. For the first time in ten years, he doesn't look furious. He looks tired.",
        ]
    }
}

/// The story after stage `stage`.
pub fn story_post_stage(stage: usize) -> (lines: Vec<&'static str>)
    requires
        stage < STAGE_COUNT,
    ensures
        lines@ == story_post_stage_of(stage as int),
{
    if stage == 0 {
        vec![
            "Blade falls. Through his radio, you hear a voice -- cold, familiar.",
            "\"Let him come. I want to see what Sato taught him.\"",
            "It's Jin. He knows you're coming.",
        ]
    } else if stage == 1 {
        vec![
            "Behind the warehouse, you find a passage leading up -- to the rooftops.",
            "And a note in Sato's handwriting, hidden under a loose brick:",
            "\"Ryu -- Jin doesn't want the technique to sell. He wants it to destroy. The rage consumed him long ago. Forgive him if you can. Stop him if you must. --Sato\"",
        ]
    } else {
        vec![
            "Jin falls to his knees. His rage is spent.",
            "Sato limps forward and places a hand on Jin's shoulder.",
            "\"I didn't refuse you because you were weak, Jin. I refused because the Dragon's Breath amplifies what's in your heart. And your heart was full of anger. But anger fades.\"",
            "Jin looks up. For the first time in ten years, he doesn't look furious. He looks tired.",
        ]
    }
}

/// The closing story.
pub open spec fn story_victory_of() -> Seq<&'static str> {
    seq![
        "The sun rises over Neo-Osaka. The Iron Serpents scatter without their leader.",
        "Grandmaster Sato begins rebuilding the dojo. It will take months. Jin Takeda turns himself in to the authorities.",
        "Three months later, you visit Jin in prison. He's thinner. Quieter. He asks about the dojo.",
        "\"We saved you a spot,\" you tell him. \"When you're ready.\"",
        "The Dragon Fist endures.",
    ]
}

/// The closing story.
pub fn story_victory() -> (lines: Vec<&'static str>)
    ensures
        lines@ == story_victory_of(),
{
    vec![
        "The sun rises over Neo-Osaka. The Iron Serpents scatter without their leader.",
        "Grandmaster Sato begins rebuilding the dojo. It will take months. Jin Takeda turns himself in to the authorities.",
        "Three months later, you visit Jin in prison. He's thinner. Quieter. He asks about the dojo.",
        "\"We saved you a spot,\" you tell him. \"When you're ready.\"",
        "The Dragon Fist endures.",
    ]
}

/// The dialogue shown halfway through stage `stage` (the last one for any
/// later index).
pub fn story_mid_stage(stage: usize) -> (text: &'static str)
    ensures
        text == (if stage == 0 {
            "A beaten thug spits blood and laughs: \"You think you're tough? Wait till you see what's waiting at the warehouse. The Viper's got plans for your old man...\""
        } else if stage == 1 {
            "You find a room with a chair, restraints, and recording equipment. On a screen: footage of Sato being forced to demonstrate the Dragon's Breath technique. He refuses. They hurt him. He still refuses."
        } else {
            "Jin's voice echoes across the rooftops: \"Do you know WHY Sato refused to teach me the Dragon's Breath? Because he saw what I really am. But he taught YOU. His precious student. His chosen son. While I got NOTHING.\""
        }),
{
    if stage == 0 {
        "A beaten thug spits blood and laughs: \"You think you're tough? Wait till you see what's waiting at the warehouse. The Viper's got plans for your old man...\""
    } else if stage == 1 {
        "You find a room with a chair, restraints, and recording equipment. On a screen: footage of Sato being forced to demonstrate the Dragon's Breath technique. He refuses. They hurt him. He still refuses."
    } else {
        "Jin's voice echoes across the rooftops: \"Do you know WHY Sato refused to teach me the Dragon's Breath? Because he saw what I really am. But he taught YOU. His precious student. His chosen son. While I got NOTHING.\""
    }
}

/// Name of the boss of stage `stage`.
pub fn boss_name(stage: usize) -> (text: &'static str)
    ensures
        text == (if stage == 0 {
            "BLADE"
        } else if stage == 1 {
            "CRUSHER"
        } else {
            "JIN TAKEDA -- THE VIPER"
        }),
{
    if stage == 0 {
        "BLADE"
    } else if stage == 1 {
        "CRUSHER"
    } else {
        "JIN TAKEDA -- THE VIPER"
    }
}

/// Title of the boss of stage `stage`.
pub fn boss_title(stage: usize) -> (text: &'static str)
    ensures
        text == (if stage == 0 {
            "Iron Serpent Lieutenant"
        } else if stage == 1 {
            "Iron Serpent Enforcer"
        } else {
            "Former Dragon Fist Disciple"
        }),
{
    if stage == 0 {
        "Iron Serpent Lieutenant"
    } else if stage == 1 {
        "Iron Serpent Enforcer"
    } else {
        "Former Dragon Fist Disciple"
    }
}

/// What the boss of stage `stage` says on entering.
pub fn boss_quote(stage: usize) -> (text: &'static str)
    ensures
        text == (if stage == 0 {
            "Nothing personal, Dragon boy. Just business."
        } else if stage == 1 {
            "The Viper said to break every bone in your body. I always follow orders."
        } else {
            "Sato chose you over me. Now I'll take everything from both of you."
        }),
{
    if stage == 0 {
        "Nothing personal, Dragon boy. Just business."
    } else if stage == 1 {
        "The Viper said to break every bone in your body. I always follow orders."
    } else {
        "Sato chose you over me. Now I'll take everything from both of you."
    }
}

/// Name of stage `stage`.
pub fn stage_name(stage: usize) -> (text: &'static str)
    ensures
        text == (if stage == 0 {
            "BACK ALLEY"
        } else if stage == 1 {
            "WAREHOUSE"
        } else {
            "ROOFTOP SHOWDOWN"
        }),
{
    if stage == 0 {
        "BACK ALLEY"
    } else if stage == 1 {
        "WAREHOUSE"
    } else {
        "ROOFTOP SHOWDOWN"
    }
}

/// One `false` flag per wave of stage `stage`.
pub open spec fn no_waves_of(stage: int) -> Seq<bool> {
    Seq::new(boss_waves_of(stage).len(), |i: int| false)
}

/// One `false` flag per wave of stage `stage`.
pub fn no_waves(stage: usize) -> (v: Vec<bool>)
    ensures
        v@ == no_waves_of(stage as int),
{
    let n = boss_waves(stage).len();
    let mut v: Vec<bool> = Vec::new();
    let mut i: usize = 0;
    while i < n
        invariant
            i <= n,
            n == boss_waves_of(stage as int).len(),
            v@ == Seq::new(i as nat, |k: int| false),
        decreases n - i,
    {
        v.push(false);
        i = i + 1;
    }
    v
}

// ---------------------------------------------------------------------------
// Flow of the game
// ---------------------------------------------------------------------------

/// Number of characters of `s`.
pub fn char_count(s: &str) -> (n: usize)
    ensures
        n == s@.len(),
{
    let blen = s.as_bytes().len();
    proof {
        lemma_chars_le_bytes(s@);
    }
    let mut n: usize = 0;
    for ch in it: s.chars()
        invariant
            n == it.index(),
            it.seq() == s@,
            s@.len() <= blen,
    {
        n = n + 1;
    }
    n
}

/// What the wave check of a frame did.
#[derive(Debug, Clone, Copy, PartialEq, Eq, Structural)]
pub enum WaveTrigger {
    /// No wave was due.
    Nothing,
    /// The boss wave `i` was reached: its introduction comes first.
    BossIntro(usize),
    /// Wave `i` enters now.
    Spawn(usize),
}

/// The integer state of the brawler: screen, stage, story typewriter, boss
/// introductions, waves, and the fighter's lives, score and weapon.
pub struct Flow {
    pub state: GameState,
    pub stage_index: usize,
    pub story_lines: Vec<&'static str>,
    pub story_line_index: usize,
    /// Characters of the current line shown so far.
    pub story_char_index: usize,
    pub story_char_timer: i32,
    pub story_phase: StoryPhase,
    pub story_next: StoryNext,
    pub boss_intro_index: usize,
    pub boss_intro_timer: i32,
    pub lives: i32,
    pub score: i32,
    pub inv_frames: i32,
    pub weapon: Option<WeaponKind>,
    pub weapon_durability: i32,
    /// Whether each stage's mid-stage dialogue was shown.
    pub mid_stage_shown: Vec<bool>,
    /// The mid-stage dialogue on screen (by stage), if any.
    pub mid_stage_dialogue: Option<usize>,
    pub mid_stage_timer: i32,
    /// Whether each wave of the current stage has entered.
    pub waves_triggered: Vec<bool>,
    /// Whether each wave's boss introduction was shown.
    pub boss_intro_shown: Vec<bool>,
    pub all_waves_done: bool,
}

/// What ends a story `a` (its last line just read) leads to, `b`, by what
/// the story was to be followed by.
pub open spec fn story_complete_post(a: Flow, b: Flow) -> bool {
    match a.story_next {
        StoryNext::PreStage => b.story_of(
            a,
            story_pre_stage_of(a.stage_index as int),
            StoryPhase::PreStage,
            StoryNext::StageIntro,
        ),
        StoryNext::StageIntro => b == (Flow { state: GameState::StageTransition, ..a }),
        StoryNext::VictoryStory => b.story_of(a, story_victory_of(), StoryPhase::VictoryStory, StoryNext::Victory),
        StoryNext::Victory => b == (Flow { state: GameState::Victory, ..a }),
        StoryNext::NextStage => {
            &&& b.story_of(
                Flow {
                    stage_index: (a.stage_index + 1) as usize,
                    waves_triggered: b.waves_triggered,
                    boss_intro_shown: b.boss_intro_shown,
                    ..a
                },
                story_pre_stage_of(a.stage_index + 1),
                StoryPhase::PreStage,
                StoryNext::StageIntro,
            )
            &&& b.waves_triggered@ == no_waves_of(a.stage_index + 1)
            &&& b.boss_intro_shown@ == no_waves_of(a.stage_index + 1)
        },
        StoryNext::FinalVictory => b.story_of(a, story_victory_of(), StoryPhase::VictoryStory, StoryNext::Victory),
        StoryNext::Resume => b == (Flow { state: GameState::Playing, ..a }),
    }
}

impl Flow {
    /// Ranges the rules keep; a story leading to the next stage is not on
    /// the last stage.
    pub open spec fn wf(&self) -> bool {
        &&& self.ranges_ok()
        &&& self.story_next == StoryNext::NextStage ==> self.stage_index + 1 < STAGE_COUNT
    }

    /// Ranges of the counters and tables.
    pub open spec fn ranges_ok(&self) -> bool {
        &&& self.stage_index < STAGE_COUNT
        &&& self.mid_stage_shown@.len() == STAGE_COUNT
        &&& self.waves_triggered@.len() == boss_waves_of(self.stage_index as int).len()
        &&& self.boss_intro_shown@.len() == boss_waves_of(self.stage_index as int).len()
        &&& self.story_line_index <= self.story_lines@.len()
        &&& 0 <= self.story_char_timer <= 2
        &&& 0 <= self.boss_intro_timer
        &&& 0 <= self.inv_frames <= RESPAWN_INV_FRAMES
        &&& 0 <= self.score
        &&& 0 <= self.mid_stage_timer <= MID_STAGE_FRAMES
        &&& self.mid_stage_dialogue matches Some(i) ==> i < STAGE_COUNT && self.mid_stage_timer > 0
    }

    /// `f` with the fighter of a new game: three lives, no score, no weapon.
    pub open spec fn fresh_fighter_of(f: Flow) -> Flow {
        Flow {
            lives: PLAYER_START_LIVES,
            score: 0,
            inv_frames: 0,
            weapon: None,
            weapon_durability: 0,
            ..f
        }
    }

    /// `self` is `f` with a story of `lines` on screen at its start, followed
    /// by `next`.
    pub open spec fn story_of(&self, f: Flow, lines: Seq<&'static str>, phase: StoryPhase, next: StoryNext) -> bool {
        &&& *self == (Flow {
            state: GameState::Story,
            story_lines: self.story_lines,
            story_line_index: 0,
            story_char_index: 0,
            story_char_timer: 0,
            story_phase: phase,
            story_next: next,
            ..f
        })
        &&& self.story_lines@ == lines
    }

    /// The title screen.
    pub fn new() -> (f: Self)
        ensures
            f.wf(),
            f == (Flow {
                state: GameState::Title,
                stage_index: 0,
                story_lines: f.story_lines,
                story_line_index: 0,
                story_char_index: 0,
                story_char_timer: 0,
                story_phase: StoryPhase::Intro,
                story_next: StoryNext::Resume,
                boss_intro_index: 0,
                boss_intro_timer: 0,
                mid_stage_shown: f.mid_stage_shown,
                mid_stage_dialogue: None,
                mid_stage_timer: 0,
                waves_triggered: f.waves_triggered,
                boss_intro_shown: f.boss_intro_shown,
                all_waves_done: false,
                ..Flow::fresh_fighter_of(f)
            }),
            f.story_lines@.len() == 0,
            f.mid_stage_shown@ == seq![false, false, false],
            f.waves_triggered@ == no_waves_of(0) && f.boss_intro_shown@ == no_waves_of(0),
    {
        Flow {
            state: GameState::Title,
            stage_index: 0,
            story_lines: Vec::new(),
            story_line_index: 0,
            story_char_index: 0,
            story_char_timer: 0,
            story_phase: StoryPhase::Intro,
            story_next: StoryNext::Resume,
            boss_intro_index: 0,
            boss_intro_timer: 0,
            lives: PLAYER_START_LIVES,
            score: 0,
            inv_frames: 0,
            weapon: None,
            weapon_durability: 0,
            mid_stage_shown: vec![false, false, false],
            mid_stage_dialogue: None,
            mid_stage_timer: 0,
            waves_triggered: no_waves(0),
            boss_intro_shown: no_waves(0),
            all_waves_done: false,
        }
    }

    /// Put a story on screen.
    pub fn start_story(&mut self, lines: Vec<&'static str>, phase: StoryPhase, next: StoryNext)
        requires
            old(self).ranges_ok(),
            next == StoryNext::NextStage ==> old(self).stage_index + 1 < STAGE_COUNT,
        ensures
            final(self).wf(),
            final(self).story_of(*old(self), lines@, phase, next),
    {
        self.story_lines = lines;
        self.story_line_index = 0;
        self.story_char_index = 0;
        self.story_char_timer = 0;
        self.story_phase = phase;
        self.story_next = next;
        self.state = GameState::Story;
    }

    /// The title screen: Enter or X starts a new game with the opening story.
    pub fn update_title(&mut self, pressed: bool)
        requires
            old(self).wf(),
            old(self).state == GameState::Title,
        ensures
            final(self).wf(),
            pressed ==> final(self).story_of(
                Flow {
                    stage_index: 0,
                    waves_triggered: final(self).waves_triggered,
                    boss_intro_shown: final(self).boss_intro_shown,
                    mid_stage_shown: final(self).mid_stage_shown,
                    ..Flow::fresh_fighter_of(*old(self))
                },
                story_intro_of(),
                StoryPhase::Intro,
                StoryNext::PreStage,
            ) && final(self).mid_stage_shown@ == seq![false, false, false]
                && final(self).waves_triggered@ == no_waves_of(0) && final(self).boss_intro_shown@ == no_waves_of(0),
            !pressed ==> *final(self) == *old(self),
    {
        if pressed {
            self.lives = PLAYER_START_LIVES;
            self.score = 0;
            self.inv_frames = 0;
            self.weapon = None;
            self.weapon_durability = 0;
            self.stage_index = 0;
            self.waves_triggered = no_waves(0);
            self.boss_intro_shown = no_waves(0);
            self.mid_stage_shown = vec![false, false, false];
            let lines = story_intro();
            self.start_story(lines, StoryPhase::Intro, StoryNext::PreStage);
        }
    }

    /// A story screen's frame: every second frame one more character of the
    /// current line shows; Enter or X shows the whole line, or, once it is
    /// whole, moves to the next line; past the last line the story ends.
    pub fn update_story(&mut self, pressed: bool)
        requires
            old(self).wf(),
            old(self).state == GameState::Story,
        ensures
            final(self).wf(),
            ({
                let lines = old(self).story_lines@;
                let li = old(self).story_line_index as int;
                let timer = old(self).story_char_timer + 1;
                let cc = if li < lines.len() { lines[li]@.len() as int } else { 0 };
                let ci = if timer >= 2 && li < lines.len() && old(self).story_char_index < cc {
                    old(self).story_char_index + 1
                } else {
                    old(self).story_char_index as int
                };
                let ticked = Flow {
                    story_char_index: ci as usize,
                    story_char_timer: if timer >= 2 { 0 } else { timer as i32 },
                    ..*old(self)
                };
                let next_line = Flow {
                    story_line_index: (li + 1) as usize,
                    story_char_index: 0,
                    story_char_timer: 0,
                    ..*old(self)
                };
                if !pressed || li >= lines.len() {
                    *final(self) == ticked
                } else if ci < cc {
                    *final(self) == (Flow { story_char_index: cc as usize, ..ticked })
                } else if li + 1 < lines.len() {
                    *final(self) == next_line
                } else {
                    story_complete_post(next_line, *final(self))
                }
            }),
    {
        self.story_char_timer = self.story_char_timer + 1;
        if self.story_char_timer >= 2 {
            self.story_char_timer = 0;
            if self.story_line_index < self.story_lines.len() {
                let cc = char_count(self.story_lines[self.story_line_index]);
                if self.story_char_index < cc {
                    self.story_char_index = self.story_char_index + 1;
                }
            }
        }
        if pressed {
            if self.story_line_index < self.story_lines.len() {
                let cc = char_count(self.story_lines[self.story_line_index]);
                if self.story_char_index < cc {
                    self.story_char_index = cc;
                } else {
                    self.story_line_index = self.story_line_index + 1;
                    self.story_char_index = 0;
                    self.story_char_timer = 0;
                    if self.story_line_index >= self.story_lines.len() {
                        self.story_complete();
                    }
                }
            }
        }
    }

    /// The last line of a story was read: go where the story leads.
    fn story_complete(&mut self)
        requires
            old(self).wf(),
        ensures
            final(self).wf(),
            story_complete_post(*old(self), *final(self)),
    {
        match self.story_next {
            StoryNext::PreStage => {
                let idx = self.stage_index;
                if idx < STAGE_COUNT {
                    let lines = story_pre_stage(idx);
                    self.start_story(lines, StoryPhase::PreStage, StoryNext::StageIntro);
                } else {
                    self.state = GameState::StageTransition;
                }
            },
            StoryNext::StageIntro => {
                self.state = GameState::StageTransition;
            },
            StoryNext::VictoryStory => {
                let lines = story_victory();
                self.start_story(lines, StoryPhase::VictoryStory, StoryNext::Victory);
            },
            StoryNext::Victory => {
                self.state = GameState::Victory;
            },
            StoryNext::NextStage => {
                self.stage_index = self.stage_index + 1;
                self.waves_triggered = no_waves(self.stage_index);
                self.boss_intro_shown = no_waves(self.stage_index);
                let idx = self.stage_index;
                if idx < STAGE_COUNT {
                    let lines = story_pre_stage(idx);
                    self.start_story(lines, StoryPhase::PreStage, StoryNext::StageIntro);
                } else {
                    self.state = GameState::StageTransition;
                }
            },
            StoryNext::FinalVictory => {
                let lines = story_victory();
                self.start_story(lines, StoryPhase::VictoryStory, StoryNext::Victory);
            },
            StoryNext::Resume => {
                self.state = GameState::Playing;
            },
        }
    }
}

/// Kinds of enemies.
#[derive(Debug, Clone, Copy, PartialEq, Eq, Structural)]
pub enum EnemyKind {
    Thug,
    KnifeWielder,
    Brawler,
    BossBlade,
    BossCrusher,
    BossDragonKing,
}

/// Points for knocking out an enemy of kind `kind`.
pub open spec fn ko_points_of(kind: EnemyKind) -> i32 {
    match kind {
        EnemyKind::Thug => 200,
        EnemyKind::KnifeWielder => 300,
        EnemyKind::Brawler => 500,
        EnemyKind::BossBlade => 2000,
        EnemyKind::BossCrusher => 3000,
        EnemyKind::BossDragonKing => 5000,
    }
}

/// Points for knocking out an enemy of kind `kind`.
pub fn ko_points(kind: EnemyKind) -> (p: i32)
    ensures
        p == ko_points_of(kind),
{
    match kind {
        EnemyKind::Thug => 200,
        EnemyKind::KnifeWielder => 300,
        EnemyKind::Brawler => 500,
        EnemyKind::BossBlade => 2000,
        EnemyKind::BossCrusher => 3000,
        EnemyKind::BossDragonKing => 5000,
    }
}

impl Flow {
    /// The boss introduction: after 15 frames, Enter or X starts the fight.
    pub fn update_boss_intro(&mut self, pressed: bool)
        requires
            old(self).wf(),
            old(self).state == GameState::BossIntro,
            old(self).boss_intro_timer < i32::MAX,
        ensures
            final(self).wf(),
            *final(self) == (Flow {
                boss_intro_timer: (old(self).boss_intro_timer + 1) as i32,
                state: if pressed && old(self).boss_intro_timer + 1 > 15 { GameState::Playing } else { GameState::BossIntro },
                ..*old(self)
            }),
    {
        self.boss_intro_timer = self.boss_intro_timer + 1;
        if pressed && self.boss_intro_timer > 15 {
            self.state = GameState::Playing;
        }
    }

    /// The pause screen: Enter resumes.
    pub fn update_paused(&mut self, enter: bool)
        requires
            old(self).wf(),
            old(self).state == GameState::Paused,
        ensures
            final(self).wf(),
            *final(self) == (Flow { state: if enter { GameState::Playing } else { GameState::Paused }, ..*old(self) }),
    {
        if enter {
            self.state = GameState::Playing;
        }
    }

    /// During play Enter pauses the game; returns whether it did.
    pub fn pause_if_requested(&mut self, enter: bool) -> (paused: bool)
        requires
            old(self).wf(),
            old(self).state == GameState::Playing,
        ensures
            final(self).wf(),
            paused == enter,
            *final(self) == (Flow { state: if enter { GameState::Paused } else { GameState::Playing }, ..*old(self) }),
    {
        if enter {
            self.state = GameState::Paused;
        }
        enter
    }

    /// The stage transition is over: play begins on the current stage.
    pub fn finish_transition(&mut self)
        requires
            old(self).wf(),
            old(self).state == GameState::StageTransition,
        ensures
            final(self).wf(),
            final(self).stage_started_of(Flow { state: GameState::Playing, ..*old(self) }, old(self).stage_index),
    {
        self.state = GameState::Playing;
        let idx = self.stage_index;
        self.start_stage(idx);
    }

    /// `self` is `f` with stage `idx` just started: no wave in, no boss
    /// introduced, the screen free, and the fighter briefly invulnerable.
    pub open spec fn stage_started_of(&self, f: Flow, idx: usize) -> bool {
        &&& *self == (Flow {
            stage_index: idx,
            all_waves_done: false,
            inv_frames: RESPAWN_INV_FRAMES,
            waves_triggered: self.waves_triggered,
            boss_intro_shown: self.boss_intro_shown,
            ..f
        })
        &&& self.waves_triggered@ == no_waves_of(idx as int)
        &&& self.boss_intro_shown@ == no_waves_of(idx as int)
    }

    /// Set up stage `idx`.
    pub fn start_stage(&mut self, idx: usize)
        requires
            old(self).wf(),
            idx < STAGE_COUNT,
            old(self).story_next == StoryNext::NextStage ==> idx + 1 < STAGE_COUNT,
        ensures
            final(self).wf(),
            final(self).stage_started_of(*old(self), idx),
    {
        self.stage_index = idx;
        self.all_waves_done = false;
        self.inv_frames = RESPAWN_INV_FRAMES;
        self.waves_triggered = no_waves(idx);
        self.boss_intro_shown = no_waves(idx);
    }

    /// The game-over screen with its continue countdown: Enter or X
    /// continues on the current stage with three lives; when the countdown
    /// has run out (`expired`) the game returns to the title with a new
    /// fighter.
    pub fn update_game_over(&mut self, pressed: bool, expired: bool)
        requires
            old(self).wf(),
            old(self).state == GameState::GameOver,
        ensures
            final(self).wf(),
            ({
                let continued = if pressed {
                    Flow { lives: PLAYER_START_LIVES, state: GameState::StageTransition, ..*old(self) }
                } else {
                    *old(self)
                };
                &&& expired ==> *final(self) == (Flow { state: GameState::Title, ..Flow::fresh_fighter_of(continued) })
                &&& !expired ==> *final(self) == continued
            }),
    {
        if pressed {
            self.lives = PLAYER_START_LIVES;
            self.state = GameState::StageTransition;
        }
        if expired {
            self.state = GameState::Title;
            self.new_fighter();
        }
    }

    /// The victory screen: once it has been shown a while (`ready`), Enter or
    /// X returns to the title with a new fighter.
    pub fn update_victory(&mut self, ready: bool, pressed: bool)
        requires
            old(self).wf(),
            old(self).state == GameState::Victory,
        ensures
            final(self).wf(),
            ready && pressed ==> *final(self) == (Flow { state: GameState::Title, ..Flow::fresh_fighter_of(*old(self)) }),
            !(ready && pressed) ==> *final(self) == *old(self),
    {
        if ready && pressed {
            self.state = GameState::Title;
            self.new_fighter();
        }
    }

    fn new_fighter(&mut self)
        requires
            old(self).wf(),
        ensures
            final(self).wf(),
            *final(self) == Flow::fresh_fighter_of(*old(self)),
    {
        self.lives = PLAYER_START_LIVES;
        self.score = 0;
        self.inv_frames = 0;
        self.weapon = None;
        self.weapon_durability = 0;
    }

    /// The fighter is knocked out for good: a life is lost; with none left
    /// the game is over (returns `true`), otherwise the fighter gets up
    /// unarmed and briefly invulnerable.
    pub fn player_die(&mut self) -> (over: bool)
        requires
            old(self).wf(),
            old(self).lives > i32::MIN,
        ensures
            final(self).wf(),
            over == (old(self).lives - 1 <= 0),
            over ==> *final(self) == (Flow {
                lives: (old(self).lives - 1) as i32,
                state: GameState::GameOver,
                ..*old(self)
            }),
            !over ==> *final(self) == (Flow {
                lives: (old(self).lives - 1) as i32,
                inv_frames: RESPAWN_INV_FRAMES,
                weapon: None,
                weapon_durability: 0,
                ..*old(self)
            }),
    {
        self.lives = self.lives - 1;
        if self.lives <= 0 {
            self.state = GameState::GameOver;
            true
        } else {
            self.inv_frames = RESPAWN_INV_FRAMES;
            self.weapon = None;
            self.weapon_durability = 0;
            false
        }
    }

    /// The fighter steps on a weapon: picked up when the hands are empty,
    /// with its durability (pipe 8, knife 12, bottle 3 blows). Returns
    /// whether it was taken.
    pub fn pick_up_weapon(&mut self, kind: WeaponKind) -> (taken: bool)
        requires
            old(self).wf(),
        ensures
            final(self).wf(),
            taken == (old(self).weapon is None),
            taken ==> *final(self) == (Flow {
                weapon: Some(kind),
                weapon_durability: durability_of(kind),
                ..*old(self)
            }),
            !taken ==> *final(self) == *old(self),
    {
        if self.weapon.is_none() {
            self.weapon = Some(kind);
            self.weapon_durability = match kind {
                WeaponKind::Pipe => 8,
                WeaponKind::Knife => 12,
                WeaponKind::Bottle => 3,
            };
            true
        } else {
            false
        }
    }

    /// A blow with the weapon ends: it wears by one and breaks at zero.
    /// Returns whether it broke.
    pub fn wear_weapon(&mut self) -> (broke: bool)
        requires
            old(self).wf(),
            old(self).weapon_durability > i32::MIN,
        ensures
            final(self).wf(),
            old(self).weapon is None ==> !broke && *final(self) == *old(self),
            old(self).weapon is Some ==> broke == (old(self).weapon_durability - 1 <= 0) && *final(self) == (Flow {
                weapon_durability: (old(self).weapon_durability - 1) as i32,
                weapon: if broke { None } else { old(self).weapon },
                ..*old(self)
            }),
    {
        if self.weapon.is_some() {
            self.weapon_durability = self.weapon_durability - 1;
            if self.weapon_durability <= 0 {
                self.weapon = None;
                return true;
            }
        }
        false
    }

    /// A pickup is collected: an extra life adds one (food restores health),
    /// and any pickup is worth 500 points.
    pub fn collect_pickup(&mut self, kind: PickupKind)
        requires
            old(self).wf(),
            old(self).score + 500 <= i32::MAX,
            old(self).lives < i32::MAX,
        ensures
            final(self).wf(),
            *final(self) == (Flow {
                score: (old(self).score + 500) as i32,
                lives: if kind == PickupKind::ExtraLife { (old(self).lives + 1) as i32 } else { old(self).lives },
                ..*old(self)
            }),
    {
        if kind == PickupKind::ExtraLife {
            self.lives = self.lives + 1;
        }
        self.score = self.score + 500;
    }

    /// Points scored in a fight: `points` more.
    pub fn add_score(&mut self, points: i32)
        requires
            old(self).wf(),
            0 <= points,
            old(self).score + points <= i32::MAX,
        ensures
            final(self).wf(),
            *final(self) == (Flow { score: (old(self).score + points) as i32, ..*old(self) }),
    {
        self.score = self.score + points;
    }

    /// An enemy of kind `kind` is knocked out: its points are scored.
    /// Returns the points.
    pub fn knock_out(&mut self, kind: EnemyKind) -> (points: i32)
        requires
            old(self).wf(),
            old(self).score + ko_points_of(kind) <= i32::MAX,
        ensures
            final(self).wf(),
            points == ko_points_of(kind),
            *final(self) == (Flow { score: (old(self).score + points) as i32, ..*old(self) }),
    {
        let points = ko_points(kind);
        self.add_score(points);
        points
    }

    /// Invulnerability and the mid-stage dialogue run down by a frame; Z
    /// dismisses the dialogue.
    pub fn tick_timers(&mut self, z_pressed: bool)
        requires
            old(self).wf(),
        ensures
            final(self).wf(),
            ({
                let on = old(self).mid_stage_dialogue is Some;
                let t = old(self).mid_stage_timer - 1;
                *final(self) == (Flow {
                    inv_frames: if old(self).inv_frames > 0 { (old(self).inv_frames - 1) as i32 } else { 0 },
                    mid_stage_timer: if on { t as i32 } else { old(self).mid_stage_timer },
                    mid_stage_dialogue: if on && (t <= 0 || z_pressed) { None } else { old(self).mid_stage_dialogue },
                    ..*old(self)
                })
            }),
    {
        if self.inv_frames > 0 {
            self.inv_frames = self.inv_frames - 1;
        }
        if self.mid_stage_dialogue.is_some() {
            self.mid_stage_timer = self.mid_stage_timer - 1;
            if self.mid_stage_timer <= 0 || z_pressed {
                self.mid_stage_dialogue = None;
            }
        }
    }
}

/// Number of `true` entries of `s`.
pub open spec fn count_true(s: Seq<bool>) -> nat
    decreases s.len(),
{
    if s.len() == 0 {
        0
    } else {
        count_true(s.drop_last()) + if s.last() { 1nat } else { 0nat }
    }
}

/// Wave `k` is the first wave not yet in whose trigger point was reached.
pub open spec fn first_due(triggered: Seq<bool>, reached: Seq<bool>, k: int) -> bool {
    &&& 0 <= k < triggered.len()
    &&& !triggered[k] && reached[k]
    &&& forall|j: int| 0 <= j < k ==> triggered[j] || !reached[j]
}

/// No wave is due.
pub open spec fn none_due(triggered: Seq<bool>, reached: Seq<bool>) -> bool {
    forall|j: int| 0 <= j < triggered.len() ==> triggered[j] || !reached[j]
}

proof fn lemma_count_true_update(s: Seq<bool>, k: int)
    requires
        0 <= k < s.len(),
        !s[k],
    ensures
        count_true(s.update(k, true)) == count_true(s) + 1,
    decreases s.len(),
{
    let t = s.update(k, true);
    if k == s.len() - 1 {
        assert(t.drop_last() =~= s.drop_last());
    } else {
        assert(t.drop_last() =~= s.drop_last().update(k, true));
        lemma_count_true_update(s.drop_last(), k);
    }
}

fn count_triggered(v: &Vec<bool>) -> (n: usize)
    ensures
        n == count_true(v@),
{
    let mut n: usize = 0;
    let mut i: usize = 0;
    while i < v.len()
        invariant
            i <= v@.len(),
            n == count_true(v@.subrange(0, i as int)),
            n <= i,
        decreases v@.len() - i,
    {
        assert(v@.subrange(0, i + 1).drop_last() =~= v@.subrange(0, i as int));
        if v[i] {
            n = n + 1;
        }
        i = i + 1;
    }
    assert(v@.subrange(0, v@.len() as int) =~= v@);
    n
}

impl Flow {
    /// The wave check of a frame of play: the first wave whose trigger point
    /// the fighter has passed (`reached`) and that is not in yet enters, one
    /// per frame; a boss wave gets its introduction screen first (once).
    /// When the third wave of a stage enters, its mid-stage dialogue shows
    /// (once). The stage's waves are done when all are in and every enemy is
    /// down (`enemies_cleared`, and none entered this frame).
    pub fn check_wave_triggers(&mut self, reached: &[bool], enemies_cleared: bool) -> (t: WaveTrigger)
        requires
            old(self).wf(),
            old(self).state == GameState::Playing,
            reached@.len() == old(self).waves_triggered@.len(),
        ensures
            final(self).wf(),
            ({
                let trig = old(self).waves_triggered@;
                let bosses = boss_waves_of(old(self).stage_index as int);
                match t {
                    WaveTrigger::BossIntro(k) => {
                        &&& first_due(trig, reached@, k as int)
                        &&& bosses[k as int] && !old(self).boss_intro_shown@[k as int]
                        &&& final(self).boss_intro_shown@ == old(self).boss_intro_shown@.update(k as int, true)
                        &&& *final(self) == (Flow {
                            boss_intro_shown: final(self).boss_intro_shown,
                            boss_intro_index: old(self).stage_index,
                            boss_intro_timer: 0,
                            state: GameState::BossIntro,
                            ..*old(self)
                        })
                    },
                    WaveTrigger::Spawn(k) => {
                        let trig1 = trig.update(k as int, true);
                        let stage = old(self).stage_index as int;
                        let mid = count_true(trig1) == 3 && !old(self).mid_stage_shown@[stage];
                        &&& first_due(trig, reached@, k as int)
                        &&& !(bosses[k as int] && !old(self).boss_intro_shown@[k as int])
                        &&& final(self).waves_triggered@ == trig1
                        &&& final(self).mid_stage_shown@ == if mid {
                            old(self).mid_stage_shown@.update(stage, true)
                        } else {
                            old(self).mid_stage_shown@
                        }
                        &&& *final(self) == (Flow {
                            waves_triggered: final(self).waves_triggered,
                            mid_stage_shown: final(self).mid_stage_shown,
                            mid_stage_dialogue: if mid { Some(stage as usize) } else { old(self).mid_stage_dialogue },
                            mid_stage_timer: if mid { MID_STAGE_FRAMES } else { old(self).mid_stage_timer },
                            all_waves_done: false,
                            ..*old(self)
                        })
                    },
                    WaveTrigger::Nothing => {
                        &&& none_due(trig, reached@)
                        &&& *final(self) == (Flow {
                            all_waves_done: (forall|j: int| 0 <= j < trig.len() ==> trig[j]) && enemies_cleared,
                            ..*old(self)
                        })
                    },
                }
            }),
    {
        let n = self.waves_triggered.len();
        let bosses = boss_waves(self.stage_index);
        let mut spawn: Option<usize> = None;
        let mut wi: usize = 0;
        while wi < n
            invariant_except_break
                spawn is None,
            invariant
                wi <= n,
                n == self.waves_triggered@.len(),
                self.waves_triggered@ == old(self).waves_triggered@,
                reached@.len() == n,
                bosses@ == boss_waves_of(self.stage_index as int),
                forall|j: int| 0 <= j < wi ==> self.waves_triggered@[j] || !reached@[j],
            ensures
                self.waves_triggered@ == old(self).waves_triggered@,
                spawn is None ==> none_due(self.waves_triggered@, reached@),
                spawn matches Some(k) ==> first_due(self.waves_triggered@, reached@, k as int),
            decreases n - wi,
        {
            if !self.waves_triggered[wi] && reached[wi] {
                spawn = Some(wi);
                break;
            }
            wi = wi + 1;
        }
        match spawn {
            Some(k) => {
                if bosses[k] && !self.boss_intro_shown[k] {
                    self.boss_intro_shown.set(k, true);
                    self.boss_intro_index = self.stage_index;
                    self.boss_intro_timer = 0;
                    self.state = GameState::BossIntro;
                    return WaveTrigger::BossIntro(k);
                }
                proof {
                    lemma_count_true_update(self.waves_triggered@, k as int);
                }
                self.waves_triggered.set(k, true);
                let count = count_triggered(&self.waves_triggered);
                let stage = self.stage_index;
                if count == 3 && !self.mid_stage_shown[stage] && stage < STAGE_COUNT {
                    self.mid_stage_shown.set(stage, true);
                    self.mid_stage_dialogue = Some(stage);
                    self.mid_stage_timer = MID_STAGE_FRAMES;
                }
                self.all_waves_done = false;
                WaveTrigger::Spawn(k)
            },
            None => {
                let mut all = true;
                let mut j: usize = 0;
                while j < n
                    invariant
                        j <= n,
                        n == self.waves_triggered@.len(),
                        all == forall|i: int| 0 <= i < j ==> self.waves_triggered@[i],
                    decreases n - j,
                {
                    if !self.waves_triggered[j] {
                        all = false;
                    }
                    j = j + 1;
                }
                self.all_waves_done = all && enemies_cleared;
                WaveTrigger::Nothing
            },
        }
    }

    /// The end of the stage: with all waves done and the fighter at the end
    /// (`at_end`), the stage's post-stage story begins, leading to the next
    /// stage, or after the last stage to the closing story. Returns whether
    /// it did.
    pub fn check_stage_complete(&mut self, at_end: bool) -> (done: bool)
        requires
            old(self).wf(),
            old(self).state == GameState::Playing,
        ensures
            final(self).wf(),
            done == (old(self).all_waves_done && at_end),
            done ==> final(self).story_of(
                *old(self),
                story_post_stage_of(old(self).stage_index as int),
                StoryPhase::PostStage,
                if old(self).stage_index + 1 < STAGE_COUNT { StoryNext::NextStage } else { StoryNext::FinalVictory },
            ),
            !done ==> *final(self) == *old(self),
    {
        if !self.all_waves_done {
            return false;
        }
        if at_end {
            let si = self.stage_index;
            let lines = story_post_stage(si);
            if si < 2 {
                self.start_story(lines, StoryPhase::PostStage, StoryNext::NextStage);
            } else {
                self.start_story(lines, StoryPhase::PostStage, StoryNext::FinalVictory);
            }
            true
        } else {
            false
        }
    }
}

/// Knock-out points: a thug is worth 200, a knife wielder 300, a brawler 500,
/// and the bosses 2000, 3000 and 5000; every boss is worth more than any
/// ordinary enemy, and each stage's boss more than the one before.
pub proof fn lemma_ko_points_table(ordinary: EnemyKind)
    ensures
        ko_points_of(EnemyKind::Thug) == 200,
        ko_points_of(EnemyKind::KnifeWielder) == 300,
        ko_points_of(EnemyKind::Brawler) == 500,
        ko_points_of(EnemyKind::BossBlade) == 2000,
        ko_points_of(EnemyKind::BossCrusher) == 3000,
        ko_points_of(EnemyKind::BossDragonKing) == 5000,
        (ordinary == EnemyKind::Thug || ordinary == EnemyKind::KnifeWielder || ordinary == EnemyKind::Brawler)
            ==> ko_points_of(ordinary) < ko_points_of(EnemyKind::BossBlade),
        ko_points_of(EnemyKind::BossBlade) < ko_points_of(EnemyKind::BossCrusher) < ko_points_of(
            EnemyKind::BossDragonKing,
        ),
{
}

/// Weapon durability in blows: a pipe lasts 8, a knife 12, a bottle 3.
pub proof fn lemma_durability_table()
    ensures
        durability_of(WeaponKind::Pipe) == 8,
        durability_of(WeaponKind::Knife) == 12,
        durability_of(WeaponKind::Bottle) == 3,
{
}

} // verus!
