//! From one frame of host input to the events the UI is sent.
//!
//! The host is asked once per frame: where the pointer is, whether the
//! primary button went down or up, which characters were typed, which keys
//! are held or were pressed, how far the wheel turned. `forward_input` turns
//! that snapshot into the events for the UI, in the order they are sent.

use vstd::prelude::*;
use crate::scalar::{lemma_negated_flips_sign_only, Point, Scalar};

verus! {

/// The keys of the host's keyboard that the forwarder asks about.
#[derive(Clone, Copy, Debug, PartialEq, Eq, Structural)]
pub enum HostKey {
    Up,
    Down,
    Right,
    Left,
    Home,
    End,
    Delete,
    Backspace,
    Tab,
    Z,
    Y,
    C,
    X,
    V,
    A,
    Escape,
    Enter,
    LeftShift,
    RightShift,
    LeftControl,
    RightControl,
}

/// The state of the host's input devices in one frame.
pub struct InputSnapshot {
    /// Where the pointer is.
    pub mouse_position: Point,
    /// The primary button went down in this frame.
    pub left_pressed: bool,
    /// The primary button went up in this frame.
    pub left_released: bool,
    /// The characters typed in this frame, oldest first.
    pub chars: Vec<char>,
    /// The keys that went down in this frame.
    pub keys_pressed: Vec<HostKey>,
    /// The keys that are held.
    pub keys_down: Vec<HostKey>,
    /// How far the wheel turned, in the host's convention.
    pub mouse_wheel: Point,
}

/// An `InputSnapshot` as a mathematical value.
pub struct InputState {
    pub mouse_position: Point,
    pub left_pressed: bool,
    pub left_released: bool,
    pub chars: Seq<char>,
    pub keys_pressed: Seq<HostKey>,
    pub keys_down: Seq<HostKey>,
    pub mouse_wheel: Point,
}

impl View for InputSnapshot {
    type V = InputState;

    open spec fn view(&self) -> InputState {
        InputState {
            mouse_position: self.mouse_position,
            left_pressed: self.left_pressed,
            left_released: self.left_released,
            chars: self.chars@,
            keys_pressed: self.keys_pressed@,
            keys_down: self.keys_down@,
            mouse_wheel: self.mouse_wheel,
        }
    }
}

impl InputState {
    /// The key went down in this frame.
    pub open spec fn pressed(self, key: HostKey) -> bool {
        self.keys_pressed.contains(key)
    }

    /// The key is held.
    pub open spec fn down(self, key: HostKey) -> bool {
        self.keys_down.contains(key)
    }

    /// The key went down in this frame or is held: what makes a key event.
    pub open spec fn active(self, key: HostKey) -> bool {
        self.pressed(key) || self.down(key)
    }

    /// A shift key is held.
    pub open spec fn shift(self) -> bool {
        self.down(HostKey::LeftShift) || self.down(HostKey::RightShift)
    }

    /// A control key is held.
    pub open spec fn ctrl(self) -> bool {
        self.down(HostKey::LeftControl) || self.down(HostKey::RightControl)
    }
}

/// An event for the UI. The variants are the six calls of
/// `megaui::InputHandler`, each with its arguments.
#[derive(Debug, PartialEq)]
pub enum UiEvent {
    MouseMove { position: Point },
    MouseDown { position: Point },
    MouseUp { position: Point },
    Char { character: char, shift: bool, ctrl: bool },
    KeyDown { key: megaui::KeyCode, shift: bool, ctrl: bool },
    MouseWheel { x: Scalar, y: Scalar },
}

/// The keys that are forwarded, each with the key the UI is told, in the
/// order in which they are looked at.
pub open spec fn key_bindings() -> Seq<(HostKey, megaui::KeyCode)> {
    seq![
        (HostKey::Up, megaui::KeyCode::Up),
        (HostKey::Down, megaui::KeyCode::Down),
        (HostKey::Right, megaui::KeyCode::Right),
        (HostKey::Left, megaui::KeyCode::Left),
        (HostKey::Home, megaui::KeyCode::Home),
        (HostKey::End, megaui::KeyCode::End),
        (HostKey::Delete, megaui::KeyCode::Delete),
        (HostKey::Backspace, megaui::KeyCode::Backspace),
        (HostKey::Tab, megaui::KeyCode::Tab),
        (HostKey::Z, megaui::KeyCode::Z),
        (HostKey::Y, megaui::KeyCode::Y),
        (HostKey::C, megaui::KeyCode::C),
        (HostKey::X, megaui::KeyCode::X),
        (HostKey::V, megaui::KeyCode::V),
        (HostKey::A, megaui::KeyCode::A),
        (HostKey::Escape, megaui::KeyCode::Escape),
        (HostKey::Enter, megaui::KeyCode::Enter),
    ]
}

/// The pointer always moves; the button is reported on the frame it changes.
pub open spec fn pointer_events(input: InputState) -> Seq<UiEvent> {
    seq![UiEvent::MouseMove { position: input.mouse_position }] + (if input.left_pressed {
        seq![UiEvent::MouseDown { position: input.mouse_position }]
    } else {
        Seq::empty()
    }) + (if input.left_released {
        seq![UiEvent::MouseUp { position: input.mouse_position }]
    } else {
        Seq::empty()
    })
}

/// The event for a typed character. The modifiers are never set on it.
pub open spec fn char_event(character: char) -> UiEvent {
    UiEvent::Char { character, shift: false, ctrl: false }
}

/// Every typed character in order, or none of them while control is held.
pub open spec fn char_events(input: InputState) -> Seq<UiEvent> {
    if input.ctrl() {
        Seq::empty()
    } else {
        input.chars.map_values(|c: char| char_event(c))
    }
}

/// The key event that tells the UI of `key`, with the modifiers of the frame.
pub open spec fn key_event(input: InputState, key: megaui::KeyCode) -> UiEvent {
    UiEvent::KeyDown { key, shift: input.shift(), ctrl: input.ctrl() }
}

/// The event for one binding, if its key is active.
pub open spec fn binding_event(
    input: InputState,
    binding: (HostKey, megaui::KeyCode),
) -> Option<UiEvent> {
    if input.active(binding.0) {
        Some(key_event(input, binding.1))
    } else {
        None
    }
}

/// One key event for each active key among the bindings, in their order.
pub open spec fn key_events(input: InputState) -> Seq<UiEvent> {
    key_bindings().filter_map(|b: (HostKey, megaui::KeyCode)| binding_event(input, b))
}

/// The control key has an event of its own while either control key is
/// active.
pub open spec fn control_events(input: InputState) -> Seq<UiEvent> {
    if input.active(HostKey::LeftControl) || input.active(HostKey::RightControl) {
        seq![key_event(input, megaui::KeyCode::Control)]
    } else {
        Seq::empty()
    }
}

/// The wheel, with the vertical axis turned round: the UI counts it the
/// other way than the host.
pub open spec fn wheel_event(input: InputState) -> UiEvent {
    UiEvent::MouseWheel { x: input.mouse_wheel.x, y: input.mouse_wheel.y.negated() }
}

/// All the events of one frame, in the order in which the UI gets them.
pub open spec fn input_events(input: InputState) -> Seq<UiEvent> {
    pointer_events(input) + char_events(input) + key_events(input) + control_events(input)
        + seq![wheel_event(input)]
}

/// Whether `key` occurs in `keys`.
fn key_in(keys: &Vec<HostKey>, key: HostKey) -> (found: bool)
    ensures
        found == keys@.contains(key),
{
    let mut i: usize = 0;
    while i < keys.len()
        invariant
            i <= keys.len(),
            forall|j: int| 0 <= j < i ==> keys@[j] != key,
        decreases keys.len() - i,
    {
        if keys[i] == key {
            return true;
        }
        i += 1;
    }
    false
}

impl InputSnapshot {
    /// The key went down in this frame.
    pub fn is_pressed(&self, key: HostKey) -> (r: bool)
        ensures
            r == self@.pressed(key),
    {
        key_in(&self.keys_pressed, key)
    }

    /// The key is held.
    pub fn is_down(&self, key: HostKey) -> (r: bool)
        ensures
            r == self@.down(key),
    {
        key_in(&self.keys_down, key)
    }

    /// The key went down in this frame or is held.
    pub fn is_active(&self, key: HostKey) -> (r: bool)
        ensures
            r == self@.active(key),
    {
        self.is_pressed(key) || self.is_down(key)
    }

    /// A shift key is held.
    pub fn shift(&self) -> (r: bool)
        ensures
            r == self@.shift(),
    {
        self.is_down(HostKey::LeftShift) || self.is_down(HostKey::RightShift)
    }

    /// A control key is held.
    pub fn ctrl(&self) -> (r: bool)
        ensures
            r == self@.ctrl(),
    {
        self.is_down(HostKey::LeftControl) || self.is_down(HostKey::RightControl)
    }
}

/// The table of forwarded keys.
pub fn bindings() -> (table: [(HostKey, megaui::KeyCode); 17])
    ensures
        table@ == key_bindings(),
{
    let table = [
        (HostKey::Up, megaui::KeyCode::Up),
        (HostKey::Down, megaui::KeyCode::Down),
        (HostKey::Right, megaui::KeyCode::Right),
        (HostKey::Left, megaui::KeyCode::Left),
        (HostKey::Home, megaui::KeyCode::Home),
        (HostKey::End, megaui::KeyCode::End),
        (HostKey::Delete, megaui::KeyCode::Delete),
        (HostKey::Backspace, megaui::KeyCode::Backspace),
        (HostKey::Tab, megaui::KeyCode::Tab),
        (HostKey::Z, megaui::KeyCode::Z),
        (HostKey::Y, megaui::KeyCode::Y),
        (HostKey::C, megaui::KeyCode::C),
        (HostKey::X, megaui::KeyCode::X),
        (HostKey::V, megaui::KeyCode::V),
        (HostKey::A, megaui::KeyCode::A),
        (HostKey::Escape, megaui::KeyCode::Escape),
        (HostKey::Enter, megaui::KeyCode::Enter),
    ];
    assert(table@ =~= key_bindings());
    table
}

/// Turns one frame of host input into the events for the UI: the pointer,
/// the typed characters, the keys, the control key, the wheel.
pub fn forward_input(input: &InputSnapshot) -> (events: Vec<UiEvent>)
    ensures
        events@ == input_events(input@),
{
    let position = input.mouse_position;
    let mut events: Vec<UiEvent> = Vec::new();
    events.push(UiEvent::MouseMove { position });
    if input.left_pressed {
        events.push(UiEvent::MouseDown { position });
    }
    if input.left_released {
        events.push(UiEvent::MouseUp { position });
    }
    assert(events@ =~= pointer_events(input@));

    let shift = input.shift();
    let ctrl = input.ctrl();

    if !ctrl {
        let mut i: usize = 0;
        while i < input.chars.len()
            invariant
                i <= input.chars.len(),
                events@ == pointer_events(input@) + input.chars@.take(i as int).map_values(
                    |c: char| char_event(c),
                ),
            decreases input.chars.len() - i,
        {
            events.push(UiEvent::Char { character: input.chars[i], shift: false, ctrl: false });
            assert(input.chars@.take(i + 1).map_values(|c: char| char_event(c))
                =~= input.chars@.take(i as int).map_values(|c: char| char_event(c)).push(
                char_event(input.chars@[i as int]),
            ));
            i += 1;
        }
        assert(input.chars@.take(i as int) =~= input.chars@);
    }
    assert(events@ =~= pointer_events(input@) + char_events(input@));

    let table = bindings();
    let ghost keyed = |b: (HostKey, megaui::KeyCode)| binding_event(input@, b);
    let mut n: usize = 0;
    while n < 17
        invariant
            n <= 17,
            table@ == key_bindings(),
            key_bindings().len() == 17,
            shift == input@.shift(),
            ctrl == input@.ctrl(),
            keyed == |b: (HostKey, megaui::KeyCode)| binding_event(input@, b),
            events@ == pointer_events(input@) + char_events(input@) + key_bindings().take(
                n as int,
            ).filter_map(keyed),
        decreases 17 - n,
    {
        let (host, key) = table[n];
        proof {
            key_bindings().lemma_filter_map_take_succ(keyed, n as int);
        }
        if input.is_active(host) {
            events.push(UiEvent::KeyDown { key, shift, ctrl });
        }
        n += 1;
    }
    assert(key_bindings().take(17) =~= key_bindings());

    if input.is_active(HostKey::LeftControl) || input.is_active(HostKey::RightControl) {
        events.push(UiEvent::KeyDown { key: megaui::KeyCode::Control, shift, ctrl });
    }
    let wheel = input.mouse_wheel;
    events.push(UiEvent::MouseWheel { x: wheel.x, y: wheel.y.neg() });
    assert(events@ =~= input_events(input@));
    events
}

/// A key of the table that is active is forwarded, among the first `n`
/// bindings as soon as these hold it.
proof fn lemma_active_key_in_prefix(input: InputState, i: int, n: int)
    requires
        0 <= i < n <= key_bindings().len(),
        input.active(key_bindings()[i].0),
    ensures
        key_bindings().take(n).filter_map(
            |b: (HostKey, megaui::KeyCode)| binding_event(input, b),
        ).contains(key_event(input, key_bindings()[i].1)),
    decreases n,
{
    let keyed = |b: (HostKey, megaui::KeyCode)| binding_event(input, b);
    let event = key_event(input, key_bindings()[i].1);
    let before = key_bindings().take(n - 1).filter_map(keyed);
    let after = key_bindings().take(n).filter_map(keyed);
    key_bindings().lemma_filter_map_take_succ(keyed, n - 1);
    if i == n - 1 {
        assert(after[before.len() as int] == event);
    } else {
        lemma_active_key_in_prefix(input, i, n - 1);
        let at = choose|at: int| 0 <= at < before.len() && before[at] == event;
        assert(after[at] == event);
    }
}

/// Every key of the table that went down or is held has its event among
/// the key events: a held key is forwarded in every frame in which it is
/// held.
pub proof fn lemma_active_key_is_forwarded(input: InputState, i: int)
    requires
        0 <= i < key_bindings().len(),
        input.active(key_bindings()[i].0),
    ensures
        key_events(input).contains(key_event(input, key_bindings()[i].1)),
{
    lemma_active_key_in_prefix(input, i, key_bindings().len() as int);
    assert(key_bindings().take(key_bindings().len() as int) =~= key_bindings());
}

/// Every key event stands for a key of the table that went down or is held,
/// and carries the modifiers of the frame.
pub proof fn lemma_forwarded_key_is_active(input: InputState, event: UiEvent)
    requires
        key_events(input).contains(event),
    ensures
        exists|i: int|
            0 <= i < key_bindings().len() && input.active(#[trigger] key_bindings()[i].0)
                && event == key_event(input, key_bindings()[i].1),
{
    let keyed = |b: (HostKey, megaui::KeyCode)| binding_event(input, b);
    key_bindings().lemma_filter_map_contains(keyed, event);
    let binding = choose|b: (HostKey, megaui::KeyCode)| #[trigger]
        key_bindings().contains(b) && keyed(b) == Some(event);
    let i = choose|i: int| 0 <= i < key_bindings().len() && key_bindings()[i] == binding;
    assert(input.active(key_bindings()[i].0));
}

/// The first `n` bindings make at most `n` events.
proof fn lemma_prefix_events_bounded(input: InputState, n: int)
    requires
        0 <= n <= key_bindings().len(),
    ensures
        key_bindings().take(n).filter_map(
            |b: (HostKey, megaui::KeyCode)| binding_event(input, b),
        ).len() <= n,
    decreases n,
{
    let keyed = |b: (HostKey, megaui::KeyCode)| binding_event(input, b);
    if n > 0 {
        lemma_prefix_events_bounded(input, n - 1);
        key_bindings().lemma_filter_map_take_succ(keyed, n - 1);
    }
}

/// A frame has at most one key event for each binding, whatever is held.
pub proof fn lemma_key_events_bounded(input: InputState)
    ensures
        key_events(input).len() <= key_bindings().len(),
        key_bindings().len() == 17,
{
    lemma_prefix_events_bounded(input, key_bindings().len() as int);
    assert(key_bindings().take(key_bindings().len() as int) =~= key_bindings());
}

/// The wheel is the last event of a frame. Its horizontal part is the
/// host's; its vertical part has the host's magnitude and the other sign.
pub proof fn lemma_wheel_is_inverted(input: InputState)
    ensures
        input_events(input).last() == (UiEvent::MouseWheel {
            x: input.mouse_wheel.x,
            y: input.mouse_wheel.y.negated(),
        }),
        input.mouse_wheel.y.negated().sign() == !input.mouse_wheel.y.sign(),
        input.mouse_wheel.y.negated().magnitude() == input.mouse_wheel.y.magnitude(),
{
    lemma_negated_flips_sign_only(input.mouse_wheel.y);
}

/// The pointer's move is the first event of a frame.
pub proof fn lemma_pointer_moves_first(input: InputState)
    ensures
        input_events(input).first() == (UiEvent::MouseMove { position: input.mouse_position }),
{
}

} // verus!
