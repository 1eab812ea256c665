//! The state that the global input listener keeps between events: the keys
//! held down with the label each was shown under, the keyboard layout
//! detected so far, and the mouse button and cursor.
use crate::keys::{
    inferred_layout, key_name_for_event, key_names, next_layout, opt_string_view, opt_view,
    update_keyboard_layout, Key, KeyboardLayout,
};
use vstd::prelude::*;

verus! {

/// Whether a key event is a press or a release.
#[derive(Clone, Copy, Debug, PartialEq, Eq, Structural)]
pub enum KeyState {
    Down,
    Up,
}

impl KeyState {
    /// The text the overlay expects: `DOWN` or `UP`.
    pub fn as_str(&self) -> (r: &'static str)
        ensures
            r@ == match self {
                KeyState::Down => "DOWN"@,
                KeyState::Up => "UP"@,
            },
    {
        match self {
            KeyState::Down => "DOWN",
            KeyState::Up => "UP",
        }
    }
}

/// The names reported with a key event.
#[derive(Debug)]
pub struct RawKey {
    pub name: Option<String>,
    pub name_raw: Option<String>,
}

/// A key event as the overlay receives it.
#[derive(Debug)]
pub struct KeyEvent {
    pub name: String,
    pub state: KeyState,
    pub keyboard_layout: KeyboardLayout,
    pub raw_key: RawKey,
}

/// A key event with the labels of all keys held down after it.
#[derive(Debug)]
pub struct KeyReport {
    pub event: KeyEvent,
    pub down: Vec<String>,
}

/// The mathematical model of the keyboard part of the listener.
pub struct KeyboardModel {
    /// For each key held down, the label it was shown under.
    pub active: Map<Key, Seq<char>>,
    /// The labels shown as held down.
    pub pressed: Set<Seq<char>>,
    /// The layout detected so far.
    pub layout: KeyboardLayout,
}

impl KeyboardModel {
    /// After a key press: the layout updated, the key's label recorded for
    /// it and shown as held down.
    pub open spec fn press(self, key: Key, event_name: Option<Seq<char>>) -> KeyboardModel {
        let name = key_names(event_name, key).0;
        KeyboardModel {
            active: self.active.insert(key, name),
            pressed: self.pressed.insert(name),
            layout: next_layout(self.layout, inferred_layout(key, event_name)),
        }
    }

    /// The label a released key goes under: the one it was pressed under,
    /// else the label of the release event itself.
    pub open spec fn release_name(self, key: Key, event_name: Option<Seq<char>>) -> Seq<char> {
        if self.active.contains_key(key) {
            self.active[key]
        } else {
            key_names(event_name, key).0
        }
    }

    /// After a key release: the layout updated, the key forgotten and its
    /// label no longer shown as held down.
    pub open spec fn release(self, key: Key, event_name: Option<Seq<char>>) -> KeyboardModel {
        KeyboardModel {
            active: self.active.remove(key),
            pressed: self.pressed.remove(self.release_name(key, event_name)),
            layout: next_layout(self.layout, inferred_layout(key, event_name)),
        }
    }
}

/// No two entries of the list belong to the same key.
pub open spec fn distinct_keys(s: Seq<(Key, String)>) -> bool {
    forall|i: int, j: int| 0 <= i < s.len() && 0 <= j < s.len() && i != j ==> #[trigger] s[i].0 != #[trigger] s[j].0
}

/// No two labels of the list are the same.
pub open spec fn distinct_names(s: Seq<String>) -> bool {
    forall|i: int, j: int| 0 <= i < s.len() && 0 <= j < s.len() && i != j ==> #[trigger] s[i]@ != #[trigger] s[j]@
}

/// The map that a list of (key, label) entries holds.
pub open spec fn key_map(s: Seq<(Key, String)>) -> Map<Key, Seq<char>> {
    Map::new(
        |k: Key| exists|i: int| 0 <= i < s.len() && s[i].0 == k,
        |k: Key| s[choose|i: int| 0 <= i < s.len() && s[i].0 == k].1@,
    )
}

/// The set of labels that a list holds.
pub open spec fn name_set(s: Seq<String>) -> Set<Seq<char>> {
    Set::new(|n: Seq<char>| exists|i: int| 0 <= i < s.len() && s[i]@ == n)
}

/// The keyboard part of the listener's state.
pub struct KeyTracker {
    active: Vec<(Key, String)>,
    pressed: Vec<String>,
    layout: KeyboardLayout,
}

impl View for KeyTracker {
    type V = KeyboardModel;

    closed spec fn view(&self) -> KeyboardModel {
        KeyboardModel {
            active: key_map(self.active@),
            pressed: name_set(self.pressed@),
            layout: self.layout,
        }
    }
}

impl KeyTracker {
    #[verifier::type_invariant]
    closed spec fn well_formed(self) -> bool {
        distinct_keys(self.active@) && distinct_names(self.pressed@)
    }

    /// No key held down, layout unknown.
    pub fn new() -> (r: KeyTracker)
        ensures
            r@.active == Map::<Key, Seq<char>>::empty(),
            r@.pressed == Set::<Seq<char>>::empty(),
            r@.layout == KeyboardLayout::Unknown,
    {
        let r = KeyTracker { active: Vec::new(), pressed: Vec::new(), layout: KeyboardLayout::Unknown };
        assert(key_map(r.active@) =~= Map::<Key, Seq<char>>::empty());
        assert(name_set(r.pressed@) =~= Set::<Seq<char>>::empty());
        r
    }

    /// The labels held down, each once.
    pub fn down_names(&self) -> (r: Vec<String>)
        ensures
            name_set(r@) == self@.pressed,
            distinct_names(r@),
    {
        proof {
            use_type_invariant(self);
        }
        self.pressed.clone()
    }

    /// The position of `key` in the entries.
    fn find_key(active: &Vec<(Key, String)>, key: Key) -> (r: Option<usize>)
        ensures
            match r {
                Some(i) => i < active@.len() && active@[i as int].0 == key,
                None => forall|j: int| 0 <= j < active@.len() ==> active@[j].0 != key,
            },
    {
        let n = active.len();
        for i in 0..n
            invariant
                n == active@.len(),
                forall|j: int| 0 <= j < i ==> active@[j].0 != key,
        {
            if active[i].0 == key {
                return Some(i);
            }
        }
        None
    }

    /// The position of `name` in the labels.
    fn find_name(pressed: &Vec<String>, name: &String) -> (r: Option<usize>)
        ensures
            match r {
                Some(i) => i < pressed@.len() && pressed@[i as int]@ == name@,
                None => forall|j: int| 0 <= j < pressed@.len() ==> pressed@[j]@ != name@,
            },
    {
        let n = pressed.len();
        for i in 0..n
            invariant
                n == pressed@.len(),
                forall|j: int| 0 <= j < i ==> pressed@[j]@ != name@,
        {
            if pressed[i] == *name {
                return Some(i);
            }
        }
        None
    }

    /// Records `name` as the label of `key`.
    fn record_key(&mut self, key: Key, name: String)
        ensures
            final(self)@.active == old(self)@.active.insert(key, name@),
            final(self)@.pressed == old(self)@.pressed,
            final(self)@.layout == old(self)@.layout,
    {
        proof {
            use_type_invariant(&*self);
        }
        let ghost s0 = self.active@;
        let mut active: Vec<(Key, String)> = Vec::new();
        std::mem::swap(&mut active, &mut self.active);
        match Self::find_key(&active, key) {
            Some(i) => {
                active.set(i, (key, name));
                proof {
                    assert(distinct_keys(active@));
                    assert forall|k: Key| #![auto]
                        key_map(active@).dom().contains(k) == key_map(s0).insert(key, name@).dom().contains(k)
                    by {
                        if k != key {
                            if key_map(s0).dom().contains(k) {
                                let j = choose|j: int| 0 <= j < s0.len() && s0[j].0 == k;
                                assert(active@[j].0 == k);
                            }
                            if key_map(active@).dom().contains(k) {
                                let j = choose|j: int| 0 <= j < active@.len() && active@[j].0 == k;
                                assert(s0[j].0 == k);
                            }
                        } else {
                            assert(active@[i as int].0 == k);
                        }
                    }
                    assert forall|k: Key| #[trigger] key_map(active@).dom().contains(k) implies key_map(active@)[k]
                        == key_map(s0).insert(key, name@)[k] by {
                        let j = choose|j: int| 0 <= j < active@.len() && active@[j].0 == k;
                        if k == key {
                            assert(j == i);
                        } else {
                            assert(s0[j].0 == k);
                            let j0 = choose|j0: int| 0 <= j0 < s0.len() && s0[j0].0 == k;
                            assert(j0 == j);
                        }
                    }
                    assert(key_map(active@) =~= key_map(s0).insert(key, name@));
                }
            },
            None => {
                active.push((key, name));
                proof {
                    let n = s0.len() as int;
                    assert(active@[n].0 == key);
                    assert(distinct_keys(active@));
                    assert forall|k: Key| #![auto]
                        key_map(active@).dom().contains(k) == key_map(s0).insert(key, name@).dom().contains(k)
                    by {
                        if k != key {
                            if key_map(s0).dom().contains(k) {
                                let j = choose|j: int| 0 <= j < s0.len() && s0[j].0 == k;
                                assert(active@[j].0 == k);
                            }
                            if key_map(active@).dom().contains(k) {
                                let j = choose|j: int| 0 <= j < active@.len() && active@[j].0 == k;
                                assert(s0[j].0 == k);
                            }
                        }
                    }
                    assert forall|k: Key| #[trigger] key_map(active@).dom().contains(k) implies key_map(active@)[k]
                        == key_map(s0).insert(key, name@)[k] by {
                        let j = choose|j: int| 0 <= j < active@.len() && active@[j].0 == k;
                        if k == key {
                            assert(j == n);
                        } else {
                            assert(s0[j].0 == k);
                            let j0 = choose|j0: int| 0 <= j0 < s0.len() && s0[j0].0 == k;
                            assert(j0 == j);
                        }
                    }
                    assert(key_map(active@) =~= key_map(s0).insert(key, name@));
                }
            },
        }
        self.active = active;
    }

    /// Forgets `key`; returns the label it had.
    fn forget_key(&mut self, key: Key) -> (r: Option<String>)
        ensures
            final(self)@.active == old(self)@.active.remove(key),
            final(self)@.pressed == old(self)@.pressed,
            final(self)@.layout == old(self)@.layout,
            opt_string_view(r) == if old(self)@.active.contains_key(key) {
                Some(old(self)@.active[key])
            } else {
                None::<Seq<char>>
            },
    {
        proof {
            use_type_invariant(&*self);
        }
        let ghost s0 = self.active@;
        let mut active: Vec<(Key, String)> = Vec::new();
        std::mem::swap(&mut active, &mut self.active);
        let r = match Self::find_key(&active, key) {
            Some(i) => {
                let (_, name) = active.remove(i);
                proof {
                    assert(key_map(s0).dom().contains(key));
                    let j0 = choose|j0: int| 0 <= j0 < s0.len() && s0[j0].0 == key;
                    assert(j0 == i);
                    assert(distinct_keys(active@)) by {
                        assert forall|a: int, b: int|
                            0 <= a < active@.len() && 0 <= b < active@.len() && a != b implies #[trigger] active@[a].0
                            != #[trigger] active@[b].0 by {
                            let a0 = if a < i { a } else { a + 1 };
                            let b0 = if b < i { b } else { b + 1 };
                            assert(active@[a] == s0[a0]);
                            assert(active@[b] == s0[b0]);
                        }
                    }
                    assert forall|k: Key| #![auto]
                        key_map(active@).dom().contains(k) == key_map(s0).remove(key).dom().contains(k)
                    by {
                        if key_map(s0).dom().contains(k) && k != key {
                            let j = choose|j: int| 0 <= j < s0.len() && s0[j].0 == k;
                            if j < i {
                                assert(active@[j].0 == k);
                            } else {
                                assert(j != i);
                                assert(active@[j - 1].0 == k);
                            }
                        }
                        if key_map(active@).dom().contains(k) {
                            let j = choose|j: int| 0 <= j < active@.len() && active@[j].0 == k;
                            if j < i {
                                assert(s0[j].0 == k);
                            } else {
                                assert(s0[j + 1].0 == k);
                            }
                        }
                    }
                    assert forall|k: Key| #[trigger] key_map(active@).dom().contains(k) implies key_map(active@)[k]
                        == key_map(s0).remove(key)[k] by {
                        let j = choose|j: int| 0 <= j < active@.len() && active@[j].0 == k;
                        let j1 = if j < i { j } else { j + 1 };
                        assert(s0[j1].0 == k);
                        let j0 = choose|j0: int| 0 <= j0 < s0.len() && s0[j0].0 == k;
                        assert(j0 == j1);
                    }
                    assert(key_map(active@) =~= key_map(s0).remove(key));
                }
                Some(name)
            },
            None => {
                assert(key_map(active@) =~= key_map(s0).remove(key));
                None
            },
        };
        self.active = active;
        r
    }

    /// Shows `name` as held down.
    fn add_pressed(&mut self, name: String)
        ensures
            final(self)@.pressed == old(self)@.pressed.insert(name@),
            final(self)@.active == old(self)@.active,
            final(self)@.layout == old(self)@.layout,
    {
        proof {
            use_type_invariant(&*self);
        }
        let ghost s0 = self.pressed@;
        match Self::find_name(&self.pressed, &name) {
            Some(i) => {
                assert(name_set(s0) =~= name_set(s0).insert(name@));
            },
            None => {
                let mut pressed: Vec<String> = Vec::new();
                std::mem::swap(&mut pressed, &mut self.pressed);
                pressed.push(name);
                proof {
                    let n = s0.len() as int;
                    assert(distinct_names(pressed@));
                    assert forall|x: Seq<char>| #![auto]
                        name_set(pressed@).contains(x) == name_set(s0).insert(name@).contains(x) by {
                        if name_set(s0).contains(x) {
                            let j = choose|j: int| 0 <= j < s0.len() && s0[j]@ == x;
                            assert(pressed@[j]@ == x);
                        }
                        if x == name@ {
                            assert(pressed@[n]@ == x);
                        }
                        if name_set(pressed@).contains(x) && x != name@ {
                            let j = choose|j: int| 0 <= j < pressed@.len() && pressed@[j]@ == x;
                            assert(s0[j]@ == x);
                        }
                    }
                    assert(name_set(pressed@) =~= name_set(s0).insert(name@));
                }
                self.pressed = pressed;
            },
        }
    }

    /// No longer shows `name` as held down.
    fn remove_pressed(&mut self, name: &String)
        ensures
            final(self)@.pressed == old(self)@.pressed.remove(name@),
            final(self)@.active == old(self)@.active,
            final(self)@.layout == old(self)@.layout,
    {
        proof {
            use_type_invariant(&*self);
        }
        let ghost s0 = self.pressed@;
        match Self::find_name(&self.pressed, name) {
            Some(i) => {
                let mut pressed: Vec<String> = Vec::new();
                std::mem::swap(&mut pressed, &mut self.pressed);
                pressed.remove(i);
                proof {
                    assert(distinct_names(pressed@)) by {
                        assert forall|a: int, b: int|
                            0 <= a < pressed@.len() && 0 <= b < pressed@.len() && a != b implies #[trigger] pressed@[a]@
                            != #[trigger] pressed@[b]@ by {
                            let a0 = if a < i { a } else { a + 1 };
                            let b0 = if b < i { b } else { b + 1 };
                            assert(pressed@[a] == s0[a0]);
                            assert(pressed@[b] == s0[b0]);
                        }
                    }
                    assert forall|x: Seq<char>| #![auto]
                        name_set(pressed@).contains(x) == name_set(s0).remove(name@).contains(x) by {
                        if name_set(s0).contains(x) && x != name@ {
                            let j = choose|j: int| 0 <= j < s0.len() && s0[j]@ == x;
                            if j < i {
                                assert(pressed@[j]@ == x);
                            } else {
                                assert(j != i);
                                assert(pressed@[j - 1]@ == x);
                            }
                        }
                        if name_set(pressed@).contains(x) {
                            let j = choose|j: int| 0 <= j < pressed@.len() && pressed@[j]@ == x;
                            if j < i {
                                assert(s0[j]@ == x);
                            } else {
                                assert(s0[j + 1]@ == x);
                            }
                        }
                    }
                    assert(name_set(pressed@) =~= name_set(s0).remove(name@));
                }
                self.pressed = pressed;
            },
            None => {
                assert(name_set(s0) =~= name_set(s0).remove(name@));
            },
        }
    }
}

impl KeyTracker {
    /// A key press: the layout is updated, the key's label recorded and
    /// shown as held down, and the event reported with the labels now held
    /// down. While chapter input is paused nothing happens.
    pub fn key_pressed(&mut self, key: Key, event_name: Option<&String>, input_paused: bool) -> (r:
        Option<KeyReport>)
        ensures
            input_paused ==> r is None && final(self)@ == old(self)@,
            !input_paused ==> {
                let (name, raw) = key_names(opt_view(event_name), key);
                let after = old(self)@.press(key, opt_view(event_name));
                &&& final(self)@ == after
                &&& r matches Some(rep) && {
                    &&& rep.event.name@ == name
                    &&& rep.event.state == KeyState::Down
                    &&& rep.event.keyboard_layout == after.layout
                    &&& opt_string_view(rep.event.raw_key.name) == Some(name)
                    &&& opt_string_view(rep.event.raw_key.name_raw) == Some(
                        match raw {
                            Some(x) => x,
                            None => name,
                        },
                    )
                    &&& name_set(rep.down@) == after.pressed
                    &&& distinct_names(rep.down@)
                }
            },
    {
        if input_paused {
            return None;
        }
        proof {
            use_type_invariant(&*self);
        }
        let mut detected = self.layout;
        let layout = update_keyboard_layout(&mut detected, key, event_name);
        self.layout = detected;
        let (name, name_raw) = key_name_for_event(event_name, key);
        self.record_key(key, name.clone());
        self.add_pressed(name.clone());
        let raw_name = match name_raw {
            Some(raw) => raw,
            None => name.clone(),
        };
        let down = self.down_names();
        let event = KeyEvent {
            name: name.clone(),
            state: KeyState::Down,
            keyboard_layout: layout,
            raw_key: RawKey { name: Some(name), name_raw: Some(raw_name) },
        };
        assert(self@ =~= old(self)@.press(key, opt_view(event_name)));
        Some(KeyReport { event, down })
    }

    /// A key release: the layout is updated, the key forgotten, the label it
    /// was pressed under (else the label of this event) no longer shown as
    /// held down, and the event reported under that label with the labels
    /// still held down. While chapter input is paused nothing happens.
    pub fn key_released(&mut self, key: Key, event_name: Option<&String>, input_paused: bool) -> (r:
        Option<KeyReport>)
        ensures
            input_paused ==> r is None && final(self)@ == old(self)@,
            !input_paused ==> {
                let raw = key_names(opt_view(event_name), key).1;
                let name = old(self)@.release_name(key, opt_view(event_name));
                let after = old(self)@.release(key, opt_view(event_name));
                &&& final(self)@ == after
                &&& r matches Some(rep) && {
                    &&& rep.event.name@ == name
                    &&& rep.event.state == KeyState::Up
                    &&& rep.event.keyboard_layout == after.layout
                    &&& opt_string_view(rep.event.raw_key.name) == Some(name)
                    &&& opt_string_view(rep.event.raw_key.name_raw) == Some(
                        match raw {
                            Some(x) => x,
                            None => name,
                        },
                    )
                    &&& name_set(rep.down@) == after.pressed
                    &&& distinct_names(rep.down@)
                }
            },
    {
        if input_paused {
            return None;
        }
        proof {
            use_type_invariant(&*self);
        }
        let mut detected = self.layout;
        let layout = update_keyboard_layout(&mut detected, key, event_name);
        self.layout = detected;
        let (fallback_name, name_raw) = key_name_for_event(event_name, key);
        let name = match self.forget_key(key) {
            Some(n) => n,
            None => fallback_name,
        };
        self.remove_pressed(&name);
        let raw_name = match name_raw {
            Some(raw) => raw,
            None => name.clone(),
        };
        let down = self.down_names();
        let event = KeyEvent {
            name: name.clone(),
            state: KeyState::Up,
            keyboard_layout: layout,
            raw_key: RawKey { name: Some(name), name_raw: Some(raw_name) },
        };
        assert(self@ =~= old(self)@.release(key, opt_view(event_name)));
        Some(KeyReport { event, down })
    }
}

/// A mouse button, as the global input listener reports it.
#[derive(Clone, Copy, Debug, PartialEq, Eq, Structural)]
pub enum Button {
    Left,
    Right,
    Middle,
    Unknown(u8),
}

/// Which button a mouse event concerns, as the overlay names it.
#[derive(Clone, Copy, Debug, PartialEq, Eq, Structural)]
pub enum ButtonPosition {
    Left,
    Right,
    Other,
}

impl ButtonPosition {
    /// `left`, `right` or `other`.
    pub fn as_str(&self) -> (r: &'static str)
        ensures
            r@ == match self {
                ButtonPosition::Left => "left"@,
                ButtonPosition::Right => "right"@,
                ButtonPosition::Other => "other"@,
            },
    {
        match self {
            ButtonPosition::Left => "left",
            ButtonPosition::Right => "right",
            ButtonPosition::Other => "other",
        }
    }
}

/// The overlay's name for a button: the left and right ones by name, any
/// other as `Other`.
pub open spec fn button_position(button: Button) -> ButtonPosition {
    match button {
        Button::Left => ButtonPosition::Left,
        Button::Right => ButtonPosition::Right,
        _ => ButtonPosition::Other,
    }
}

/// What a mouse event reports.
#[derive(Clone, Copy, Debug, PartialEq, Eq, Structural)]
pub enum MouseEventType {
    Down,
    Up,
    Drag,
}

impl MouseEventType {
    /// `down`, `up` or `drag`.
    pub fn as_str(&self) -> (r: &'static str)
        ensures
            r@ == match self {
                MouseEventType::Down => "down"@,
                MouseEventType::Up => "up"@,
                MouseEventType::Drag => "drag"@,
            },
    {
        match self {
            MouseEventType::Down => "down",
            MouseEventType::Up => "up",
            MouseEventType::Drag => "drag",
        }
    }
}

/// A mouse event as the overlay receives it, at overlay coordinates.
#[derive(Clone, Copy, Debug, PartialEq, Eq, Structural)]
pub struct MouseEvent {
    pub position: ButtonPosition,
    pub event_type: MouseEventType,
    pub x: i32,
    pub y: i32,
}

/// The mouse part of the listener's state: whether a button is held down,
/// and the last cursor position.
#[derive(Clone, Copy, Debug)]
pub struct PointerTracker {
    pub button_down: bool,
    pub cursor: (i32, i32),
}

impl PointerTracker {
    /// No button down, cursor at the origin.
    pub fn new() -> (r: PointerTracker)
        ensures
            !r.button_down,
            r.cursor == (0i32, 0i32),
    {
        PointerTracker { button_down: false, cursor: (0, 0) }
    }

    /// The cursor moved to `(x, y)` (overlay coordinates): a drag of the
    /// left button is reported while a button is held down, nothing else.
    pub fn mouse_moved(&mut self, x: i32, y: i32) -> (r: Option<MouseEvent>)
        ensures
            final(self).cursor == (x, y),
            final(self).button_down == old(self).button_down,
            r == if old(self).button_down {
                Some(
                    MouseEvent {
                        position: ButtonPosition::Left,
                        event_type: MouseEventType::Drag,
                        x,
                        y,
                    },
                )
            } else {
                None::<MouseEvent>
            },
    {
        self.cursor = (x, y);
        if self.button_down {
            Some(MouseEvent { position: ButtonPosition::Left, event_type: MouseEventType::Drag, x, y })
        } else {
            None
        }
    }

    fn position_of(button: Button) -> (r: ButtonPosition)
        ensures
            r == button_position(button),
    {
        match button {
            Button::Left => ButtonPosition::Left,
            Button::Right => ButtonPosition::Right,
            _ => ButtonPosition::Other,
        }
    }

    /// A button pressed: it is held down, and the press is reported at the
    /// cursor.
    pub fn button_pressed(&mut self, button: Button) -> (r: MouseEvent)
        ensures
            final(self).button_down,
            final(self).cursor == old(self).cursor,
            r == (MouseEvent {
                position: button_position(button),
                event_type: MouseEventType::Down,
                x: old(self).cursor.0,
                y: old(self).cursor.1,
            }),
    {
        self.button_down = true;
        MouseEvent {
            position: Self::position_of(button),
            event_type: MouseEventType::Down,
            x: self.cursor.0,
            y: self.cursor.1,
        }
    }

    /// A button released: none is held down, and the release is reported
    /// at the cursor.
    pub fn button_released(&mut self, button: Button) -> (r: MouseEvent)
        ensures
            !final(self).button_down,
            final(self).cursor == old(self).cursor,
            r == (MouseEvent {
                position: button_position(button),
                event_type: MouseEventType::Up,
                x: old(self).cursor.0,
                y: old(self).cursor.1,
            }),
    {
        self.button_down = false;
        MouseEvent {
            position: Self::position_of(button),
            event_type: MouseEventType::Up,
            x: self.cursor.0,
            y: self.cursor.1,
        }
    }
}

} // verus!
