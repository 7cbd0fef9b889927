use vstd::prelude::*;

verus! {

/// Logical key codes of the handheld's buttons.
/// D-Pad: Left/Right/Up/Down; face buttons: X = A, Space = B;
/// menu: Return = Start, Escape = quit.
#[derive(Debug, Clone, Copy, PartialEq, Eq, Hash, Structural)]
pub enum KeyCode {
    Left,
    Right,
    Up,
    Down,
    Space,
    Z,
    X,
    Return,
    Escape,
}

/// Number of logical keys.
pub const KEY_COUNT: usize = 9;

/// Position of a key in the key tables.
pub open spec fn key_index(k: KeyCode) -> int {
    match k {
        KeyCode::Left => 0,
        KeyCode::Right => 1,
        KeyCode::Up => 2,
        KeyCode::Down => 3,
        KeyCode::Space => 4,
        KeyCode::Z => 5,
        KeyCode::X => 6,
        KeyCode::Return => 7,
        KeyCode::Escape => 8,
    }
}

impl KeyCode {
    /// Position of this key in the key tables.
    pub fn index(self) -> (i: usize)
        ensures
            i == key_index(self),
            i < KEY_COUNT,
    {
        match self {
            KeyCode::Left => 0,
            KeyCode::Right => 1,
            KeyCode::Up => 2,
            KeyCode::Down => 3,
            KeyCode::Space => 4,
            KeyCode::Z => 5,
            KeyCode::X => 6,
            KeyCode::Return => 7,
            KeyCode::Escape => 8,
        }
    }
}

/// One window-system event, as far as the input handler cares about it.
#[derive(Debug, Clone, Copy, PartialEq, Eq, Structural)]
pub enum InputEvent {
    /// The window was closed.
    Quit,
    /// A key went down; `None` for a key that is not one of the logical keys.
    KeyDown(Option<KeyCode>),
    /// A key went up.
    KeyUp(Option<KeyCode>),
    /// Any other event.
    Other,
}

/// Abstract state of the input handler.
pub struct InputView {
    /// Keys held this frame.
    pub current: Set<KeyCode>,
    /// Keys held the previous frame.
    pub previous: Set<KeyCode>,
    /// A quit was requested (window closed or Escape pressed).
    pub quit: bool,
}

/// Whether the events contain a key-down of `k`.
pub open spec fn key_down_event(events: Seq<InputEvent>, k: KeyCode) -> bool {
    exists|i: int| 0 <= i < events.len() && events[i] == InputEvent::KeyDown(Some(k))
}

/// Whether the events ask the game to quit: a window close or an Escape key-down.
pub open spec fn quit_event(events: Seq<InputEvent>) -> bool {
    exists|i: int|
        0 <= i < events.len() && (events[i] == InputEvent::Quit || events[i] == InputEvent::KeyDown(
            Some(KeyCode::Escape),
        ))
}

/// The state after one poll: the held keys move to `previous`; a key is held now
/// when a key-down event for it arrived or the keyboard snapshot shows it pressed.
pub open spec fn polled(v: InputView, events: Seq<InputEvent>, held: Seq<KeyCode>) -> InputView {
    InputView {
        current: Set::new(|k: KeyCode| key_down_event(events, k) || held.contains(k)),
        previous: v.current,
        quit: v.quit || quit_event(events),
    }
}

/// A key is down while it is held this frame.
pub open spec fn key_down(v: InputView, k: KeyCode) -> bool {
    v.current.contains(k)
}

/// A key is pressed on the frame it goes from released to held.
pub open spec fn key_pressed(v: InputView, k: KeyCode) -> bool {
    v.current.contains(k) && !v.previous.contains(k)
}

/// Keyboard input handler with edge detection.
pub struct Input {
    current: Vec<bool>,
    previous: Vec<bool>,
    quit: bool,
}

impl View for Input {
    type V = InputView;

    closed spec fn view(&self) -> InputView {
        InputView {
            current: Set::new(|k: KeyCode| self.current@[key_index(k)]),
            previous: Set::new(|k: KeyCode| self.previous@[key_index(k)]),
            quit: self.quit,
        }
    }
}

impl Input {
    /// Table invariant: one flag per logical key.
    pub closed spec fn wf(&self) -> bool {
        self.current@.len() == KEY_COUNT && self.previous@.len() == KEY_COUNT
    }

    /// A handler with no key held and no quit requested.
    pub fn new() -> (r: Self)
        ensures
            r.wf(),
            r@.current == Set::<KeyCode>::empty(),
            r@.previous == Set::<KeyCode>::empty(),
            !r@.quit,
    {
        let r = Input { current: vec![false; KEY_COUNT], previous: vec![false; KEY_COUNT], quit: false };
        assert(r@.current =~= Set::<KeyCode>::empty());
        assert(r@.previous =~= Set::<KeyCode>::empty());
        r
    }

    /// Take in the events of one frame and the keyboard snapshot of the logical
    /// keys held now. Call once per frame at the start of the game loop.
    pub fn poll(&mut self, events: &[InputEvent], held: &[KeyCode])
        requires
            old(self).wf(),
        ensures
            final(self).wf(),
            final(self)@ == polled(old(self)@, events@, held@),
    {
        let ghost old_view = self@;
        let mut cur: Vec<bool> = vec![false; KEY_COUNT];
        let mut quit = self.quit;
        let mut i: usize = 0;
        while i < events.len()
            invariant
                i <= events.len(),
                cur@.len() == KEY_COUNT,
                forall|k: KeyCode| #[trigger] cur@[key_index(k)] == key_down_event(events@.subrange(0, i as int), k),
                quit == (old_view.quit || quit_event(events@.subrange(0, i as int))),
            decreases events.len() - i,
        {
            let ghost pre = events@.subrange(0, i as int);
            let ghost post = events@.subrange(0, i + 1);
            assert(post =~= pre.push(events@[i as int]));
            let ghost cur_old = cur@;
            let ghost quit_old = quit;
            let e = events[i];
            match e {
                InputEvent::Quit => {
                    quit = true;
                },
                InputEvent::KeyDown(Some(k)) => {
                    if k == KeyCode::Escape {
                        quit = true;
                    }
                    cur.set(k.index(), true);
                },
                _ => {},
            }
            assert forall|k: KeyCode| #[trigger] cur@[key_index(k)] == key_down_event(post, k) by {
                assert(cur@[key_index(k)] == (cur_old[key_index(k)] || e == InputEvent::KeyDown(Some(k))));
                assert(cur_old[key_index(k)] == key_down_event(pre, k));
                if key_down_event(pre, k) {
                    let j = choose|j: int| 0 <= j < pre.len() && pre[j] == InputEvent::KeyDown(Some(k));
                    assert(post[j] == pre[j]);
                }
                if e == InputEvent::KeyDown(Some(k)) {
                    assert(post[i as int] == e);
                }
                if key_down_event(post, k) {
                    let j = choose|j: int| 0 <= j < post.len() && post[j] == InputEvent::KeyDown(Some(k));
                    if j < pre.len() {
                        assert(pre[j] == post[j]);
                    } else {
                        assert(post[j] == e);
                    }
                }
            }
            assert(quit == (old_view.quit || quit_event(post))) by {
                assert(quit == (quit_old || e == InputEvent::Quit || e == InputEvent::KeyDown(Some(KeyCode::Escape))));
                if quit_event(pre) {
                    let j = choose|j: int| 0 <= j < pre.len() && (pre[j] == InputEvent::Quit || pre[j] == InputEvent::KeyDown(Some(KeyCode::Escape)));
                    assert(post[j] == pre[j]);
                }
                if e == InputEvent::Quit || e == InputEvent::KeyDown(Some(KeyCode::Escape)) {
                    assert(post[i as int] == e);
                }
                if quit_event(post) {
                    let j = choose|j: int| 0 <= j < post.len() && (post[j] == InputEvent::Quit || post[j] == InputEvent::KeyDown(Some(KeyCode::Escape)));
                    if j < pre.len() {
                        assert(pre[j] == post[j]);
                    } else {
                        assert(post[j] == e);
                    }
                }
            }
            i = i + 1;
        }
        assert(events@.subrange(0, events@.len() as int) =~= events@);
        let mut j: usize = 0;
        while j < held.len()
            invariant
                j <= held.len(),
                cur@.len() == KEY_COUNT,
                forall|k: KeyCode| #[trigger] cur@[key_index(k)] == (key_down_event(events@, k) || held@.subrange(0, j as int).contains(k)),
            decreases held.len() - j,
        {
            let ghost pre = held@.subrange(0, j as int);
            let ghost post = held@.subrange(0, j + 1);
            assert(post =~= pre.push(held@[j as int]));
            let k0 = held[j];
            cur.set(k0.index(), true);
            assert forall|k: KeyCode| #[trigger] cur@[key_index(k)] == (key_down_event(events@, k) || post.contains(k)) by {
                if pre.contains(k) {
                    let t = choose|t: int| 0 <= t < pre.len() && pre[t] == k;
                    assert(post[t] == k);
                }
                if post.contains(k) && k != k0 {
                    let t = choose|t: int| 0 <= t < post.len() && post[t] == k;
                    assert(t < pre.len());
                    assert(pre[t] == k);
                }
                if k == k0 {
                    assert(post[j as int] == k);
                }
            }
            j = j + 1;
        }
        assert(held@.subrange(0, held@.len() as int) =~= held@);
        std::mem::swap(&mut self.previous, &mut self.current);
        self.current = cur;
        self.quit = quit;
        assert(self@.current =~= polled(old_view, events@, held@).current);
        assert(self@.previous =~= old_view.current);
    }

    /// `true` while `key` is held down this frame.
    pub fn is_key_down(&self, key: KeyCode) -> (r: bool)
        requires
            self.wf(),
        ensures
            r == key_down(self@, key),
    {
        self.current[key.index()]
    }

    /// `true` only on the frame the key was first pressed.
    pub fn is_key_pressed(&self, key: KeyCode) -> (r: bool)
        requires
            self.wf(),
        ensures
            r == key_pressed(self@, key),
    {
        let i = key.index();
        self.current[i] && !self.previous[i]
    }

    /// `true` once the window was closed or Escape was pressed.
    pub fn should_quit(&self) -> (r: bool)
        ensures
            r == self@.quit,
    {
        self.quit
    }
}

/// A key reported as pressed is also reported as down.
pub proof fn lemma_pressed_implies_down(v: InputView, k: KeyCode)
    ensures
        key_pressed(v, k) ==> key_down(v, k),
{
}

/// The press edge lasts one frame: a key held when a poll starts is not
/// reported as pressed after that poll, whether or not it is still held.
pub proof fn lemma_press_lasts_one_frame(
    v: InputView,
    events: Seq<InputEvent>,
    held: Seq<KeyCode>,
    k: KeyCode,
)
    requires
        key_down(v, k),
    ensures
        !key_pressed(polled(v, events, held), k),
{
}

/// A key that goes down on a frame after being released is reported as pressed.
pub proof fn lemma_new_key_is_pressed(v: InputView, events: Seq<InputEvent>, held: Seq<KeyCode>, k: KeyCode)
    requires
        !key_down(v, k),
        held.contains(k) || key_down_event(events, k),
    ensures
        key_pressed(polled(v, events, held), k),
{
}

/// A quit request is never withdrawn by later polls.
pub proof fn lemma_quit_is_sticky(v: InputView, events: Seq<InputEvent>, held: Seq<KeyCode>)
    requires
        v.quit,
    ensures
        polled(v, events, held).quit,
{
}

/// A frame with no events and an empty snapshot releases every key.
pub proof fn lemma_idle_frame_releases_all(v: InputView, k: KeyCode)
    ensures
        !key_down(polled(v, Seq::empty(), Seq::empty()), k),
        !key_pressed(polled(v, Seq::empty(), Seq::empty()), k),
{
}

} // verus!
