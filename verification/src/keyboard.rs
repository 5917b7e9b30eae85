use vstd::prelude::*;

verus! {

/// Button state for input tracking.
#[derive(Debug, Clone, Copy, PartialEq, Eq, Structural)]
pub enum ButtonState {
    /// Button is not pressed.
    Released,
    /// Button was just pressed this frame.
    JustPressed,
    /// Button is being held down.
    Held,
    /// Button was just released this frame.
    JustReleased,
}

impl Default for ButtonState {
    /// A button starts released.
    fn default() -> (r: Self)
        ensures
            r == ButtonState::Released,
    {
        ButtonState::Released
    }
}

impl ButtonState {
    /// Whether the button is currently down (just pressed or held).
    pub fn is_pressed(self) -> (r: bool)
        ensures
            r == (self == ButtonState::JustPressed || self == ButtonState::Held),
    {
        self == ButtonState::JustPressed || self == ButtonState::Held
    }

    /// Whether the button was pressed this frame.
    pub fn is_just_pressed(self) -> (r: bool)
        ensures
            r == (self == ButtonState::JustPressed),
    {
        self == ButtonState::JustPressed
    }

    /// Whether the button was released this frame.
    pub fn is_just_released(self) -> (r: bool)
        ensures
            r == (self == ButtonState::JustReleased),
    {
        self == ButtonState::JustReleased
    }
}

/// How a button state settles when a frame ends: the just-pressed edge
/// becomes held, the just-released edge becomes released, steady states
/// stay.
pub open spec fn spec_settle(s: ButtonState) -> ButtonState {
    match s {
        ButtonState::JustPressed => ButtonState::Held,
        ButtonState::JustReleased => ButtonState::Released,
        x => x,
    }
}

/// Whether a button state counts as pressed.
pub open spec fn spec_pressed(s: ButtonState) -> bool {
    s == ButtonState::JustPressed || s == ButtonState::Held
}

/// Keyboard key codes (a subset of common keys).
#[derive(Debug, Clone, Copy, PartialEq, Eq, Structural, Hash)]
pub enum KeyCode {
    A,
    B,
    C,
    D,
    E,
    F,
    G,
    H,
    I,
    J,
    K,
    L,
    M,
    N,
    O,
    P,
    Q,
    R,
    S,
    T,
    U,
    V,
    W,
    X,
    Y,
    Z,
    Key0,
    Key1,
    Key2,
    Key3,
    Key4,
    Key5,
    Key6,
    Key7,
    Key8,
    Key9,
    F1,
    F2,
    F3,
    F4,
    F5,
    F6,
    F7,
    F8,
    F9,
    F10,
    F11,
    F12,
    Up,
    Down,
    Left,
    Right,
    LShift,
    RShift,
    LCtrl,
    RCtrl,
    LAlt,
    RAlt,
    Space,
    Enter,
    Escape,
    Tab,
    Backspace,
    /// Unknown or unsupported key.
    Unknown,
}

/// Tracks the state of every keyboard key across frames.
#[derive(Debug, Default)]
pub struct KeyboardState {
    /// Known key states; each key occurs at most once.
    keys: Vec<(KeyCode, ButtonState)>,
    /// Keys whose state carries a this-frame edge, to settle at frame end.
    changed_keys: Vec<KeyCode>,
}

impl KeyboardState {
    /// The tracked (key, state) pairs.
    pub closed spec fn keys_view(self) -> Seq<(KeyCode, ButtonState)> {
        self.keys@
    }

    /// Whether a key is tracked.
    pub open spec fn spec_has_key(self, key: KeyCode) -> bool {
        exists|i: int| 0 <= i < self.keys_view().len() && (#[trigger] self.keys_view()[i]).0 == key
    }

    /// The state of a key; untracked keys are released.
    pub open spec fn spec_state(self, key: KeyCode) -> ButtonState {
        if self.spec_has_key(key) {
            self.keys_view()[choose|i: int|
                0 <= i < self.keys_view().len() && (#[trigger] self.keys_view()[i]).0 == key].1
        } else {
            ButtonState::Released
        }
    }

    /// Every key is tracked at most once, and every key carrying a
    /// this-frame edge is on the changed list (so the end of the frame can
    /// settle it).
    pub closed spec fn wf(self) -> bool {
        &&& forall|i: int, j: int|
            0 <= i < j < self.keys@.len() ==> (#[trigger] self.keys@[i]).0 != (
            #[trigger] self.keys@[j]).0
        &&& forall|i: int|
            0 <= i < self.keys@.len() && ((#[trigger] self.keys@[i]).1 == ButtonState::JustPressed
                || self.keys@[i].1 == ButtonState::JustReleased) ==> self.changed_keys@.contains(
                self.keys@[i].0,
            )
    }

    /// A fresh keyboard: no key is pressed.
    pub fn new() -> (k: KeyboardState)
        ensures
            k.wf(),
            forall|key: KeyCode| k.spec_state(key) == ButtonState::Released,
    {
        KeyboardState { keys: Vec::new(), changed_keys: Vec::new() }
    }

    /// Position of a key in the tracked list, if present.
    fn find_key(&self, key: KeyCode) -> (r: Option<usize>)
        ensures
            match r {
                Some(i) => (i as int) < self.keys_view().len() && self.keys_view()[i as int].0
                    == key,
                None => !self.spec_has_key(key),
            },
    {
        let mut i: usize = 0;
        while i < self.keys.len()
            invariant
                i <= self.keys@.len(),
                forall|j: int| 0 <= j < i ==> (#[trigger] self.keys@[j]).0 != key,
            decreases self.keys@.len() - i,
        {
            if self.keys[i].0 == key {
                return Some(i);
            }
            i = i + 1;
        }
        None
    }

    /// Record a key press: a key that was not down becomes just-pressed; a
    /// key already down is unchanged. The unknown key is ignored.
    pub fn on_key_pressed(&mut self, key: KeyCode)
        requires
            old(self).wf(),
        ensures
            final(self).wf(),
            key == KeyCode::Unknown ==> *final(self) == *old(self),
            key != KeyCode::Unknown ==> {
                &&& final(self).spec_state(key) == (if spec_pressed(old(self).spec_state(key)) {
                    old(self).spec_state(key)
                } else {
                    ButtonState::JustPressed
                })
                &&& forall|k2: KeyCode|
                    k2 != key ==> final(self).spec_state(k2) == old(self).spec_state(k2)
            },
    {
        if key == KeyCode::Unknown {
            return ;
        }

        let idx: usize = match self.find_key(key) {
            Some(i) => i,
            None => {
                let ghost orig = self.keys@;
                self.keys.push((key, ButtonState::Released));
                proof {
                    lemma_unique_key(*self, key, orig.len() as int);
                    assert forall|k2: KeyCode| k2 != key implies self.spec_state(k2) == old(
                        self,
                    ).spec_state(k2) by {
                        lemma_key_unaffected(*old(self), *self, k2, orig.len() as int);
                    }
                    assert(self.spec_state(key) == ButtonState::Released);
                }
                self.keys.len() - 1
            },
        };

        proof {
            lemma_unique_key(*self, key, idx as int);
        }
        let ghost mid = *self;
        let current = self.keys[idx].1;
        if !current.is_pressed() {
            let ghost before = self.keys@;
            self.keys[idx] = (key, ButtonState::JustPressed);
            self.changed_keys.push(key);
            proof {
                lemma_unique_key(*self, key, idx as int);
                assert forall|k2: KeyCode| k2 != key implies final(self).spec_state(k2)
                    == mid.spec_state(k2) by {
                    lemma_key_unaffected(mid, *self, k2, idx as int);
                }
                assert forall|i: int|
                    0 <= i < self.keys@.len() && ((#[trigger] self.keys@[i]).1
                        == ButtonState::JustPressed || self.keys@[i].1 == ButtonState::JustReleased)
                    implies self.changed_keys@.contains(self.keys@[i].0) by {
                    if i != idx {
                        assert(mid.changed_keys@.contains(before[i].0));
                        let w = choose|w: int|
                            0 <= w < mid.changed_keys@.len() && mid.changed_keys@[w] == before[i].0;
                        assert(self.changed_keys@[w] == before[i].0);
                    } else {
                        assert(self.changed_keys@.last() == key);
                    }
                }
            }
        }
    }

    /// Record a key release: a key that was down becomes just-released; a
    /// key already up is unchanged. The unknown key is ignored.
    pub fn on_key_released(&mut self, key: KeyCode)
        requires
            old(self).wf(),
        ensures
            final(self).wf(),
            key == KeyCode::Unknown ==> *final(self) == *old(self),
            key != KeyCode::Unknown ==> {
                &&& final(self).spec_state(key) == (if spec_pressed(old(self).spec_state(key)) {
                    ButtonState::JustReleased
                } else {
                    old(self).spec_state(key)
                })
                &&& forall|k2: KeyCode|
                    k2 != key ==> final(self).spec_state(k2) == old(self).spec_state(k2)
            },
    {
        if key == KeyCode::Unknown {
            return ;
        }

        let idx: usize = match self.find_key(key) {
            Some(i) => i,
            None => {
                let ghost orig = self.keys@;
                self.keys.push((key, ButtonState::Released));
                proof {
                    lemma_unique_key(*self, key, orig.len() as int);
                    assert forall|k2: KeyCode| k2 != key implies self.spec_state(k2) == old(
                        self,
                    ).spec_state(k2) by {
                        lemma_key_unaffected(*old(self), *self, k2, orig.len() as int);
                    }
                    assert(self.spec_state(key) == ButtonState::Released);
                }
                self.keys.len() - 1
            },
        };

        proof {
            lemma_unique_key(*self, key, idx as int);
        }
        let ghost mid = *self;
        let current = self.keys[idx].1;
        if current.is_pressed() {
            let ghost before = self.keys@;
            self.keys[idx] = (key, ButtonState::JustReleased);
            self.changed_keys.push(key);
            proof {
                lemma_unique_key(*self, key, idx as int);
                assert forall|k2: KeyCode| k2 != key implies final(self).spec_state(k2)
                    == mid.spec_state(k2) by {
                    lemma_key_unaffected(mid, *self, k2, idx as int);
                }
                assert forall|i: int|
                    0 <= i < self.keys@.len() && ((#[trigger] self.keys@[i]).1
                        == ButtonState::JustPressed || self.keys@[i].1 == ButtonState::JustReleased)
                    implies self.changed_keys@.contains(self.keys@[i].0) by {
                    if i != idx {
                        assert(mid.changed_keys@.contains(before[i].0));
                        let w = choose|w: int|
                            0 <= w < mid.changed_keys@.len() && mid.changed_keys@[w] == before[i].0;
                        assert(self.changed_keys@[w] == before[i].0);
                    } else {
                        assert(self.changed_keys@.last() == key);
                    }
                }
            }
        }
    }

    /// Settle all states at the end of a frame: every key's this-frame edge
    /// resolves (just-pressed becomes held, just-released becomes released),
    /// every steady state stays.
    pub fn end_frame(&mut self)
        requires
            old(self).wf(),
        ensures
            final(self).wf(),
            forall|key: KeyCode| final(self).spec_state(key) == spec_settle(
                old(self).spec_state(key),
            ),
    {
        let ghost orig = self.keys@;
        let mut c: usize = 0;
        while c < self.changed_keys.len()
            invariant
                old(self).wf(),
                self.changed_keys@ == old(self).changed_keys@,
                self.keys@.len() == orig.len(),
                orig == old(self).keys@,
                c <= self.changed_keys@.len(),
                forall|i: int| 0 <= i < orig.len() ==> (#[trigger] self.keys@[i]).0 == orig[i].0,
                forall|i: int|
                    0 <= i < orig.len() ==> (#[trigger] self.keys@[i]).1 == orig[i].1
                        || self.keys@[i].1 == spec_settle(orig[i].1),
                forall|i: int|
                    0 <= i < orig.len() && self.changed_keys@.take(c as int).contains(
                        (#[trigger] self.keys@[i]).0,
                    ) ==> self.keys@[i].1 == spec_settle(orig[i].1),
            decreases self.changed_keys@.len() - c,
        {
            let key = self.changed_keys[c];
            match self.find_key(key) {
                Some(i) => {
                    let ghost before = self.keys@;
                    let state = self.keys[i].1;
                    match state {
                        ButtonState::JustPressed => {
                            self.keys[i] = (key, ButtonState::Held);
                        },
                        ButtonState::JustReleased => {
                            self.keys[i] = (key, ButtonState::Released);
                        },
                        _ => {},
                    }
                    proof {
                        assert(self.changed_keys@.take(c + 1) =~= self.changed_keys@.take(
                            c as int,
                        ).push(key));
                        assert forall|j: int|
                            0 <= j < orig.len() && self.changed_keys@.take(c + 1).contains(
                                (#[trigger] self.keys@[j]).0,
                            ) implies self.keys@[j].1 == spec_settle(orig[j].1) by {
                            if self.keys@[j].0 != key {
                                assert(self.changed_keys@.take(c as int).contains(before[j].0));
                            } else {
                                assert(j == i || before[j].0 != before[i as int].0 || j
                                    == i as int);
                                if j != i {
                                    assert(orig[j].0 == orig[i as int].0);
                                    assert(old(self).wf());
                                }
                            }
                        }
                    }
                },
                None => {
                    proof {
                        assert(self.changed_keys@.take(c + 1) =~= self.changed_keys@.take(
                            c as int,
                        ).push(key));
                    }
                },
            }
            c = c + 1;
        }

        self.changed_keys = Vec::new();

        proof {
            assert(self.changed_keys@.take(self.changed_keys@.len() as int)
                =~= self.changed_keys@);
            assert(old(self).changed_keys@.take(old(self).changed_keys@.len() as int) =~= old(self).changed_keys@);
            assert forall|i: int| 0 <= i < self.keys@.len() implies (#[trigger] self.keys@[i]).1
                == spec_settle(orig[i].1) by {
                if orig[i].1 == ButtonState::JustPressed || orig[i].1 == ButtonState::JustReleased {
                    assert(old(self).changed_keys@.contains(orig[i].0));
                } else {
                    assert(spec_settle(orig[i].1) == orig[i].1);
                }
            }
            assert forall|key: KeyCode| final(self).spec_state(key) == spec_settle(
                old(self).spec_state(key),
            ) by {
                if old(self).spec_has_key(key) {
                    let w = choose|w: int|
                        0 <= w < orig.len() && (#[trigger] orig[w]).0 == key;
                    lemma_unique_key(*old(self), key, w);
                    lemma_unique_key(*self, key, w);
                } else {
                    if final(self).spec_has_key(key) {
                        let w = choose|w: int|
                            0 <= w < self.keys@.len() && (#[trigger] self.keys@[w]).0 == key;
                        assert(orig[w].0 == key);
                    }
                }
            }
        }
    }

    /// Whether a key is currently down.
    pub fn is_pressed(&self, key: KeyCode) -> (r: bool)
        requires
            self.wf(),
        ensures
            r == spec_pressed(self.spec_state(key)),
    {
        match self.find_key(key) {
            Some(i) => {
                proof {
                    lemma_unique_key(*self, key, i as int);
                }
                self.keys[i].1.is_pressed()
            },
            None => false,
        }
    }

    /// Whether a key was pressed this frame.
    pub fn is_just_pressed(&self, key: KeyCode) -> (r: bool)
        requires
            self.wf(),
        ensures
            r == (self.spec_state(key) == ButtonState::JustPressed),
    {
        match self.find_key(key) {
            Some(i) => {
                proof {
                    lemma_unique_key(*self, key, i as int);
                }
                self.keys[i].1.is_just_pressed()
            },
            None => false,
        }
    }

    /// Whether a key was released this frame.
    pub fn is_just_released(&self, key: KeyCode) -> (r: bool)
        requires
            self.wf(),
        ensures
            r == (self.spec_state(key) == ButtonState::JustReleased),
    {
        match self.find_key(key) {
            Some(i) => {
                proof {
                    lemma_unique_key(*self, key, i as int);
                }
                self.keys[i].1.is_just_released()
            },
            None => false,
        }
    }

    /// The state of a key; untracked keys are released.
    pub fn get_state(&self, key: KeyCode) -> (r: ButtonState)
        requires
            self.wf(),
        ensures
            r == self.spec_state(key),
    {
        match self.find_key(key) {
            Some(i) => {
                proof {
                    lemma_unique_key(*self, key, i as int);
                }
                self.keys[i].1
            },
            None => ButtonState::Released,
        }
    }
}

/// In a keyboard with unique keys, an index holding `key` is the entry
/// `spec_state` denotes.
proof fn lemma_unique_key(k: KeyboardState, key: KeyCode, i: int)
    requires
        forall|a: int, b: int|
            0 <= a < b < k.keys_view().len() ==> (#[trigger] k.keys_view()[a]).0 != (
            #[trigger] k.keys_view()[b]).0,
        0 <= i < k.keys_view().len(),
        k.keys_view()[i].0 == key,
    ensures
        k.spec_has_key(key),
        k.spec_state(key) == k.keys_view()[i].1,
{
    assert(k.spec_has_key(key));
    let w = choose|w: int|
        0 <= w < k.keys_view().len() && (#[trigger] k.keys_view()[w]).0 == key;
    if w != i {
        if w < i {
            assert(k.keys_view()[w].0 != k.keys_view()[i].0);
        } else {
            assert(k.keys_view()[i].0 != k.keys_view()[w].0);
        }
    }
}

/// A key's state is unaffected by changing an entry whose key differs, when
/// the entry sequences agree elsewhere.
proof fn lemma_key_unaffected(a: KeyboardState, b: KeyboardState, key: KeyCode, i: int)
    requires
        forall|x: int, y: int|
            0 <= x < y < a.keys_view().len() ==> (#[trigger] a.keys_view()[x]).0 != (
            #[trigger] a.keys_view()[y]).0,
        forall|x: int, y: int|
            0 <= x < y < b.keys_view().len() ==> (#[trigger] b.keys_view()[x]).0 != (
            #[trigger] b.keys_view()[y]).0,
        key != b.keys_view()[i].0,
        0 <= i < b.keys_view().len(),
        a.keys_view().len() == b.keys_view().len() || a.keys_view().len() + 1
            == b.keys_view().len() && i == a.keys_view().len(),
        forall|j: int|
            0 <= j < b.keys_view().len() && j != i ==> (#[trigger] b.keys_view()[j])
                == a.keys_view()[j],
        a.keys_view().len() == b.keys_view().len() ==> key != a.keys_view()[i].0,
    ensures
        b.spec_state(key) == a.spec_state(key),
{
    if b.spec_has_key(key) {
        let w = choose|w: int|
            0 <= w < b.keys_view().len() && (#[trigger] b.keys_view()[w]).0 == key;
        assert(w != i);
        assert(a.keys_view()[w].0 == key);
        lemma_unique_key(a, key, w);
        lemma_unique_key(b, key, w);
    } else if a.spec_has_key(key) {
        let w = choose|w: int|
            0 <= w < a.keys_view().len() && (#[trigger] a.keys_view()[w]).0 == key;
        assert(w != i || a.keys_view().len() == b.keys_view().len());
        assert(b.keys_view()[w].0 == key);
        assert(b.spec_has_key(key));
    }
}

} // verus!
