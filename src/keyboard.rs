use vstd::prelude::*;

verus! {

/// The keys the framework tracks. Native key codes outside this set are ignored.
#[derive(PartialEq, Eq, Structural, Clone, Copy, Hash, Debug)]
pub enum KeyCode {
    A,
    B,
    D,
    Q,
    S,
    Z,
    Up,
    Down,
    Left,
    Right,
    Space,
}

/// Number of keys in the vocabulary.
pub const KEY_COUNT: usize = 11;

// Native key codes, as the platform layer reports them.
pub const NATIVE_A: i32 = 97;
pub const NATIVE_B: i32 = 98;
pub const NATIVE_D: i32 = 100;
pub const NATIVE_Q: i32 = 113;
pub const NATIVE_S: i32 = 115;
pub const NATIVE_Z: i32 = 122;
pub const NATIVE_SPACE: i32 = 32;
pub const NATIVE_RIGHT: i32 = 1073741903;
pub const NATIVE_LEFT: i32 = 1073741904;
pub const NATIVE_DOWN: i32 = 1073741905;
pub const NATIVE_UP: i32 = 1073741906;

/// The position of a key in the tracker's table.
pub open spec fn key_index(k: KeyCode) -> int {
    match k {
        KeyCode::A => 0,
        KeyCode::B => 1,
        KeyCode::D => 2,
        KeyCode::Q => 3,
        KeyCode::S => 4,
        KeyCode::Z => 5,
        KeyCode::Up => 6,
        KeyCode::Down => 7,
        KeyCode::Left => 8,
        KeyCode::Right => 9,
        KeyCode::Space => 10,
    }
}

/// The key at a position of the tracker's table.
pub open spec fn key_at(i: int) -> KeyCode {
    if i == 0 {
        KeyCode::A
    } else if i == 1 {
        KeyCode::B
    } else if i == 2 {
        KeyCode::D
    } else if i == 3 {
        KeyCode::Q
    } else if i == 4 {
        KeyCode::S
    } else if i == 5 {
        KeyCode::Z
    } else if i == 6 {
        KeyCode::Up
    } else if i == 7 {
        KeyCode::Down
    } else if i == 8 {
        KeyCode::Left
    } else if i == 9 {
        KeyCode::Right
    } else {
        KeyCode::Space
    }
}

/// The fixed table from native key codes to tracked keys.
pub open spec fn control_of(code: i32) -> Option<KeyCode> {
    if code == NATIVE_A {
        Some(KeyCode::A)
    } else if code == NATIVE_B {
        Some(KeyCode::B)
    } else if code == NATIVE_D {
        Some(KeyCode::D)
    } else if code == NATIVE_Q {
        Some(KeyCode::Q)
    } else if code == NATIVE_S {
        Some(KeyCode::S)
    } else if code == NATIVE_Z {
        Some(KeyCode::Z)
    } else if code == NATIVE_UP {
        Some(KeyCode::Up)
    } else if code == NATIVE_DOWN {
        Some(KeyCode::Down)
    } else if code == NATIVE_LEFT {
        Some(KeyCode::Left)
    } else if code == NATIVE_RIGHT {
        Some(KeyCode::Right)
    } else if code == NATIVE_SPACE {
        Some(KeyCode::Space)
    } else {
        None
    }
}

/// Whether a raw snapshot (the native codes of the keys held down) reports `k` down.
pub open spec fn snapshot_holds(raw: Seq<i32>, k: KeyCode) -> bool {
    exists|i: int| 0 <= i < raw.len() && control_of(#[trigger] raw[i]) == Some(k)
}

impl KeyCode {
    pub fn index(&self) -> (r: usize)
        ensures
            r == key_index(*self),
    {
        match self {
            KeyCode::A => 0,
            KeyCode::B => 1,
            KeyCode::D => 2,
            KeyCode::Q => 3,
            KeyCode::S => 4,
            KeyCode::Z => 5,
            KeyCode::Up => 6,
            KeyCode::Down => 7,
            KeyCode::Left => 8,
            KeyCode::Right => 9,
            KeyCode::Space => 10,
        }
    }

    pub fn from_index(i: usize) -> (r: KeyCode)
        requires
            i < KEY_COUNT,
        ensures
            r == key_at(i as int),
    {
        if i == 0 {
            KeyCode::A
        } else if i == 1 {
            KeyCode::B
        } else if i == 2 {
            KeyCode::D
        } else if i == 3 {
            KeyCode::Q
        } else if i == 4 {
            KeyCode::S
        } else if i == 5 {
            KeyCode::Z
        } else if i == 6 {
            KeyCode::Up
        } else if i == 7 {
            KeyCode::Down
        } else if i == 8 {
            KeyCode::Left
        } else if i == 9 {
            KeyCode::Right
        } else {
            KeyCode::Space
        }
    }

    /// The tracked key for a native key code, if it has one.
    pub fn from_native(code: i32) -> (r: Option<KeyCode>)
        ensures
            r == control_of(code),
    {
        if code == NATIVE_A {
            Some(KeyCode::A)
        } else if code == NATIVE_B {
            Some(KeyCode::B)
        } else if code == NATIVE_D {
            Some(KeyCode::D)
        } else if code == NATIVE_Q {
            Some(KeyCode::Q)
        } else if code == NATIVE_S {
            Some(KeyCode::S)
        } else if code == NATIVE_Z {
            Some(KeyCode::Z)
        } else if code == NATIVE_UP {
            Some(KeyCode::Up)
        } else if code == NATIVE_DOWN {
            Some(KeyCode::Down)
        } else if code == NATIVE_LEFT {
            Some(KeyCode::Left)
        } else if code == NATIVE_RIGHT {
            Some(KeyCode::Right)
        } else if code == NATIVE_SPACE {
            Some(KeyCode::Space)
        } else {
            None
        }
    }
}

/// The state of one key: whether it is down in this frame and whether it was
/// down in the previous one. Edges are derived from the two.
#[derive(PartialEq, Eq, Structural, Clone, Copy, Debug)]
pub struct KeyCodeState {
    pub pressed: bool,
    pub old_pressed: bool,
}

pub open spec fn just_pressed(s: KeyCodeState) -> bool {
    s.pressed && !s.old_pressed
}

pub open spec fn just_released(s: KeyCodeState) -> bool {
    !s.pressed && s.old_pressed
}

impl KeyCodeState {
    pub fn new() -> (r: KeyCodeState)
        ensures
            !r.pressed,
            !r.old_pressed,
    {
        KeyCodeState { pressed: false, old_pressed: false }
    }

    pub fn is_just_pressed(&self) -> (r: bool)
        ensures
            r == just_pressed(*self),
    {
        self.pressed && !self.old_pressed
    }

    pub fn is_just_released(&self) -> (r: bool)
        ensures
            r == just_released(*self),
    {
        !self.pressed && self.old_pressed
    }
}

/// One frame of the tracker: every key's `pressed` moves to `old_pressed`, and
/// `pressed` becomes whether the raw snapshot reports the key down.
pub open spec fn frame_step(states: Seq<KeyCodeState>, raw: Seq<i32>) -> Seq<KeyCodeState> {
    Seq::new(
        states.len(),
        |i: int| KeyCodeState { pressed: snapshot_holds(raw, key_at(i)), old_pressed: states[i].pressed },
    )
}

/// The key states after one frame per snapshot, in order.
pub open spec fn run_frames(states: Seq<KeyCodeState>, snapshots: Seq<Seq<i32>>) -> Seq<KeyCodeState>
    decreases snapshots.len(),
{
    if snapshots.len() == 0 {
        states
    } else {
        frame_step(run_frames(states, snapshots.drop_last()), snapshots.last())
    }
}

/// After `t` frames, a key's state depends only on the last two snapshots (or,
/// after the first frame, on the last snapshot and the starting state).
proof fn lemma_run_frames_at(states: Seq<KeyCodeState>, snapshots: Seq<Seq<i32>>, t: int, k: KeyCode)
    requires
        states.len() == KEY_COUNT,
        1 <= t <= snapshots.len(),
    ensures
        run_frames(states, snapshots.take(t)).len() == KEY_COUNT,
        run_frames(states, snapshots.take(t))[key_index(k)] == (KeyCodeState {
            pressed: snapshot_holds(snapshots[t - 1], k),
            old_pressed: if t == 1 {
                states[key_index(k)].pressed
            } else {
                snapshot_holds(snapshots[t - 2], k)
            },
        }),
    decreases t,
{
    lemma_run_frames_len(states, snapshots.take(t));
    lemma_run_frames_len(states, snapshots.take(t - 1));
    assert(snapshots.take(t).drop_last() =~= snapshots.take(t - 1));
    assert(snapshots.take(t).last() == snapshots[t - 1]);
    assert(run_frames(states, snapshots.take(t)) == frame_step(
        run_frames(states, snapshots.take(t - 1)),
        snapshots[t - 1],
    ));
    assert(key_at(key_index(k)) == k);
    if t == 1 {
        assert(run_frames(states, snapshots.take(0)) == states);
    } else {
        lemma_run_frames_at(states, snapshots, t - 1, k);
    }
}

proof fn lemma_run_frames_len(states: Seq<KeyCodeState>, snapshots: Seq<Seq<i32>>)
    ensures
        run_frames(states, snapshots).len() == states.len(),
    decreases snapshots.len(),
{
    if snapshots.len() > 0 {
        lemma_run_frames_len(states, snapshots.drop_last());
    }
}

/// Edge detection is exact: a key that the raw snapshots report down in frames
/// `1..=n` and up from frame `n + 1` on is just pressed in frame 1 only, just
/// released in frame `n + 1` only, and down in frames `1..=n` only. Frame `t`
/// is the state after the first `t` snapshots.
pub proof fn lemma_edge_detection_exact(
    states: Seq<KeyCodeState>,
    snapshots: Seq<Seq<i32>>,
    k: KeyCode,
    n: int,
    t: int,
)
    requires
        states.len() == KEY_COUNT,
        !states[key_index(k)].pressed,
        1 <= n,
        forall|f: int| 0 <= f < snapshots.len() ==> (snapshot_holds(#[trigger] snapshots[f], k) <==> f < n),
        1 <= t <= snapshots.len(),
    ensures
        run_frames(states, snapshots.take(t))[key_index(k)].pressed <==> t <= n,
        just_pressed(run_frames(states, snapshots.take(t))[key_index(k)]) <==> t == 1,
        just_released(run_frames(states, snapshots.take(t))[key_index(k)]) <==> t == n + 1,
{
    lemma_run_frames_at(states, snapshots, t, k);
    if t >= 2 {
        assert(snapshot_holds(snapshots[t - 2], k) <==> t - 2 < n);
    }
    assert(snapshot_holds(snapshots[t - 1], k) <==> t - 1 < n);
}

/// No edge is missed: a key that the snapshot of one frame reports down, and
/// the snapshot of the next frame reports up, gives one press in the first
/// frame and one release in the second, however briefly it was held.
pub proof fn lemma_no_missed_edges(states: Seq<KeyCodeState>, down: Seq<i32>, up: Seq<i32>, k: KeyCode)
    requires
        states.len() == KEY_COUNT,
        !states[key_index(k)].pressed,
        snapshot_holds(down, k),
        !snapshot_holds(up, k),
    ensures
        just_pressed(frame_step(states, down)[key_index(k)]),
        just_released(frame_step(frame_step(states, down), up)[key_index(k)]),
{
    assert(key_at(key_index(k)) == k);
}

/// Edge detection over the keyboard, refreshed once per frame from a raw snapshot.
pub struct Keyboard {
    keys_states: Vec<KeyCodeState>,
}

impl View for Keyboard {
    type V = Seq<KeyCodeState>;

    closed spec fn view(&self) -> Seq<KeyCodeState> {
        self.keys_states@
    }
}

impl Keyboard {
    pub closed spec fn wf(&self) -> bool {
        self.keys_states@.len() == KEY_COUNT
    }

    pub fn new() -> (r: Keyboard)
        ensures
            r.wf(),
            r@.len() == KEY_COUNT,
            forall|i: int| 0 <= i < KEY_COUNT ==> !(#[trigger] r@[i]).pressed && !r@[i].old_pressed,
    {
        let mut keys_states: Vec<KeyCodeState> = Vec::new();
        let mut i: usize = 0;
        while i < KEY_COUNT
            invariant
                i <= KEY_COUNT,
                keys_states@.len() == i,
                forall|j: int| 0 <= j < i ==> !(#[trigger] keys_states@[j]).pressed && !keys_states@[j].old_pressed,
            decreases KEY_COUNT - i,
        {
            keys_states.push(KeyCodeState::new());
            i = i + 1;
        }
        Keyboard { keys_states }
    }

    /// Starts a frame: what was down becomes what was down last frame, and
    /// nothing is down until the raw snapshot is applied.
    pub fn begin_frame(&mut self)
        requires
            old(self).wf(),
        ensures
            final(self).wf(),
            final(self)@.len() == KEY_COUNT,
            final(self)@ == Seq::new(
                KEY_COUNT as nat,
                |i: int| KeyCodeState { pressed: false, old_pressed: old(self)@[i].pressed },
            ),
    {
        let ghost start = self@;
        let mut i: usize = 0;
        while i < KEY_COUNT
            invariant
                i <= KEY_COUNT,
                self.keys_states@.len() == KEY_COUNT,
                forall|j: int|
                    0 <= j < i ==> #[trigger] self.keys_states@[j] == (KeyCodeState {
                        pressed: false,
                        old_pressed: start[j].pressed,
                    }),
                forall|j: int| i <= j < KEY_COUNT ==> #[trigger] self.keys_states@[j] == start[j],
            decreases KEY_COUNT - i,
        {
            let was = self.keys_states[i].pressed;
            self.keys_states.set(i, KeyCodeState { pressed: false, old_pressed: was });
            i = i + 1;
        }
        assert(self@ =~= Seq::new(
            KEY_COUNT as nat,
            |i: int| KeyCodeState { pressed: false, old_pressed: start[i].pressed },
        ));
    }

    /// Marks down every tracked key whose native code is in the raw snapshot.
    pub fn apply_raw_state(&mut self, raw: &Vec<i32>)
        requires
            old(self).wf(),
        ensures
            final(self).wf(),
            final(self)@.len() == KEY_COUNT,
            forall|i: int|
                0 <= i < KEY_COUNT ==> (#[trigger] final(self)@[i]).old_pressed == old(self)@[i].old_pressed
                    && final(self)@[i].pressed == (old(self)@[i].pressed || snapshot_holds(
                    raw@,
                    key_at(i),
                )),
    {
        let ghost start = self@;
        let mut n: usize = 0;
        while n < raw.len()
            invariant
                n <= raw@.len(),
                self.keys_states@.len() == KEY_COUNT,
                forall|i: int|
                    0 <= i < KEY_COUNT ==> (#[trigger] self.keys_states@[i]).old_pressed
                        == start[i].old_pressed && self.keys_states@[i].pressed == (start[i].pressed
                        || exists|j: int| 0 <= j < n && control_of(#[trigger] raw@[j]) == Some(key_at(i))),
            decreases raw@.len() - n,
        {
            match KeyCode::from_native(raw[n]) {
                Some(k) => {
                    let i = k.index();
                    let was = self.keys_states[i].old_pressed;
                    self.keys_states.set(i, KeyCodeState { pressed: true, old_pressed: was });
                    proof {
                        assert(key_at(i as int) == k);
                        assert forall|ii: int| 0 <= ii < KEY_COUNT && ii != i implies key_at(ii) != k by {}
                    }
                },
                None => {},
            }
            n = n + 1;
        }
    }

    /// Refreshes the key states from a raw snapshot: one whole frame.
    pub fn update(&mut self, raw: &Vec<i32>)
        requires
            old(self).wf(),
        ensures
            final(self).wf(),
            final(self)@.len() == KEY_COUNT,
            final(self)@ == frame_step(old(self)@, raw@),
    {
        let ghost start = self@;
        self.begin_frame();
        self.apply_raw_state(raw);
        assert(self@ =~= frame_step(start, raw@));
    }

    pub fn is_down(&self, key_code: KeyCode) -> (r: bool)
        requires
            self.wf(),
        ensures
            r == self@[key_index(key_code)].pressed,
    {
        self.keys_states[key_code.index()].pressed
    }

    /// The keys that went down this frame, each once.
    pub fn get_keys_just_pressed(&self) -> (r: Vec<KeyCode>)
        requires
            self.wf(),
        ensures
            r@.no_duplicates(),
            forall|k: KeyCode| r@.contains(k) <==> just_pressed(self@[key_index(k)]),
    {
        self.collect_keys(true)
    }

    /// The keys that went up this frame, each once.
    pub fn get_keys_just_released(&self) -> (r: Vec<KeyCode>)
        requires
            self.wf(),
        ensures
            r@.no_duplicates(),
            forall|k: KeyCode| r@.contains(k) <==> just_released(self@[key_index(k)]),
    {
        self.collect_keys(false)
    }

    fn collect_keys(&self, pressed: bool) -> (r: Vec<KeyCode>)
        requires
            self.wf(),
        ensures
            r@.no_duplicates(),
            forall|k: KeyCode|
                r@.contains(k) <==> if pressed {
                    just_pressed(self@[key_index(k)])
                } else {
                    just_released(self@[key_index(k)])
                },
    {
        let mut r: Vec<KeyCode> = Vec::new();
        let mut i: usize = 0;
        while i < KEY_COUNT
            invariant
                self.wf(),
                i <= KEY_COUNT,
                r@.no_duplicates(),
                forall|j: int| 0 <= j < r@.len() ==> key_index(#[trigger] r@[j]) < i,
                forall|k: KeyCode|
                    key_index(k) < i ==> (r@.contains(k) <==> if pressed {
                        just_pressed(self@[key_index(k)])
                    } else {
                        just_released(self@[key_index(k)])
                    }),
            decreases KEY_COUNT - i,
        {
            let s = self.keys_states[i];
            let hit = if pressed {
                s.is_just_pressed()
            } else {
                s.is_just_released()
            };
            if hit {
                let k = KeyCode::from_index(i);
                let ghost before = r@;
                proof {
                    assert(key_index(k) == i);
                    assert(!before.contains(k));
                }
                r.push(k);
                proof {
                    assert(r@ == before.push(k));
                    assert forall|kk: KeyCode| key_index(kk) < i + 1 implies (r@.contains(kk) <==> if pressed {
                        just_pressed(self@[key_index(kk)])
                    } else {
                        just_released(self@[key_index(kk)])
                    }) by {
                        assert(r@[r@.len() - 1] == k);
                        if kk != k {
                            assert(key_index(kk) < i);
                            if r@.contains(kk) {
                                let j = choose|j: int| 0 <= j < r@.len() && r@[j] == kk;
                                assert(before[j] == kk);
                            }
                            if before.contains(kk) {
                                let j = choose|j: int| 0 <= j < before.len() && before[j] == kk;
                                assert(r@[j] == kk);
                            }
                        }
                    }
                }
            } else {
                proof {
                    let k = key_at(i as int);
                    assert(key_index(k) == i);
                }
            }
            i = i + 1;
        }
        r
    }
}

} // verus!
