//! Input mappings and signal slots.
//!
//! Raw key and button events arrive from the platform layer already
//! converted to signal-slot numbers; the system tracks one signal per slot,
//! hands out mappings through the generic storage, and answers the
//! "was this mapping triggered" questions the rest of the engine asks.

use vstd::prelude::*;
use crate::{CPS, Handle, Storage, counted_post};

verus! {

/// How the input system currently interprets signals.
#[derive(Clone, Copy, Debug)]
pub enum Mode {
    Normal,
    /// Only accepts numbers, lower-case letters and space.
    TypingNLS,
    HotKey,
}

/// How many keyboard-and-mouse signal slots exist.
pub const MAX_SIGNAL_SLOTS_KM: usize = 58;

/// Input bindings for the mouse and keyboard input method. Each method
/// owns one signal slot; the slot numbers follow declaration order.
#[derive(Clone, Copy, Debug)]
pub enum MethodKM {
    ESC,
    TAB,
    Space,
    Backspace,
    Enter,
    ShiftLeft,
    ShiftRight,
    F1,
    F2,
    F3,
    F4,
    F5,
    F6,
    F7,
    F8,
    F9,
    F10,
    F11,
    F12,
    Key0,
    Key1,
    Key2,
    Key3,
    Key4,
    Key5,
    Key6,
    Key7,
    Key8,
    Key9,
    A,
    B,
    C,
    D,
    E,
    F,
    G,
    H,
    I,
    J,
    K,
    L,
    N,
    M,
    O,
    P,
    Q,
    R,
    S,
    T,
    U,
    V,
    W,
    X,
    Y,
    Z,
    MouseLeft,
    MouseMiddle,
    MouseRight,
}

impl MethodKM {
    /// The signal slot this method owns.
    pub open spec fn spec_slot(self) -> int {
        match self {
            MethodKM::ESC => 0,
            MethodKM::TAB => 1,
            MethodKM::Space => 2,
            MethodKM::Backspace => 3,
            MethodKM::Enter => 4,
            MethodKM::ShiftLeft => 5,
            MethodKM::ShiftRight => 6,
            MethodKM::F1 => 7,
            MethodKM::F2 => 8,
            MethodKM::F3 => 9,
            MethodKM::F4 => 10,
            MethodKM::F5 => 11,
            MethodKM::F6 => 12,
            MethodKM::F7 => 13,
            MethodKM::F8 => 14,
            MethodKM::F9 => 15,
            MethodKM::F10 => 16,
            MethodKM::F11 => 17,
            MethodKM::F12 => 18,
            MethodKM::Key0 => 19,
            MethodKM::Key1 => 20,
            MethodKM::Key2 => 21,
            MethodKM::Key3 => 22,
            MethodKM::Key4 => 23,
            MethodKM::Key5 => 24,
            MethodKM::Key6 => 25,
            MethodKM::Key7 => 26,
            MethodKM::Key8 => 27,
            MethodKM::Key9 => 28,
            MethodKM::A => 29,
            MethodKM::B => 30,
            MethodKM::C => 31,
            MethodKM::D => 32,
            MethodKM::E => 33,
            MethodKM::F => 34,
            MethodKM::G => 35,
            MethodKM::H => 36,
            MethodKM::I => 37,
            MethodKM::J => 38,
            MethodKM::K => 39,
            MethodKM::L => 40,
            MethodKM::N => 41,
            MethodKM::M => 42,
            MethodKM::O => 43,
            MethodKM::P => 44,
            MethodKM::Q => 45,
            MethodKM::R => 46,
            MethodKM::S => 47,
            MethodKM::T => 48,
            MethodKM::U => 49,
            MethodKM::V => 50,
            MethodKM::W => 51,
            MethodKM::X => 52,
            MethodKM::Y => 53,
            MethodKM::Z => 54,
            MethodKM::MouseLeft => 55,
            MethodKM::MouseMiddle => 56,
            MethodKM::MouseRight => 57,
        }
    }

    /// The signal slot this method owns; always below
    /// `MAX_SIGNAL_SLOTS_KM`.
    pub fn slot(self) -> (slot: usize)
        ensures
            slot == self.spec_slot(),
            slot < MAX_SIGNAL_SLOTS_KM,
    {
        match self {
            MethodKM::ESC => 0,
            MethodKM::TAB => 1,
            MethodKM::Space => 2,
            MethodKM::Backspace => 3,
            MethodKM::Enter => 4,
            MethodKM::ShiftLeft => 5,
            MethodKM::ShiftRight => 6,
            MethodKM::F1 => 7,
            MethodKM::F2 => 8,
            MethodKM::F3 => 9,
            MethodKM::F4 => 10,
            MethodKM::F5 => 11,
            MethodKM::F6 => 12,
            MethodKM::F7 => 13,
            MethodKM::F8 => 14,
            MethodKM::F9 => 15,
            MethodKM::F10 => 16,
            MethodKM::F11 => 17,
            MethodKM::F12 => 18,
            MethodKM::Key0 => 19,
            MethodKM::Key1 => 20,
            MethodKM::Key2 => 21,
            MethodKM::Key3 => 22,
            MethodKM::Key4 => 23,
            MethodKM::Key5 => 24,
            MethodKM::Key6 => 25,
            MethodKM::Key7 => 26,
            MethodKM::Key8 => 27,
            MethodKM::Key9 => 28,
            MethodKM::A => 29,
            MethodKM::B => 30,
            MethodKM::C => 31,
            MethodKM::D => 32,
            MethodKM::E => 33,
            MethodKM::F => 34,
            MethodKM::G => 35,
            MethodKM::H => 36,
            MethodKM::I => 37,
            MethodKM::J => 38,
            MethodKM::K => 39,
            MethodKM::L => 40,
            MethodKM::N => 41,
            MethodKM::M => 42,
            MethodKM::O => 43,
            MethodKM::P => 44,
            MethodKM::Q => 45,
            MethodKM::R => 46,
            MethodKM::S => 47,
            MethodKM::T => 48,
            MethodKM::U => 49,
            MethodKM::V => 50,
            MethodKM::W => 51,
            MethodKM::X => 52,
            MethodKM::Y => 53,
            MethodKM::Z => 54,
            MethodKM::MouseLeft => 55,
            MethodKM::MouseMiddle => 56,
            MethodKM::MouseRight => 57,
        }
    }

    /// The method's name, for listing mappings.
    pub fn make_str(&self) -> &'static str {
        match self {
            MethodKM::ESC => "ESC",
            MethodKM::TAB => "TAB",
            MethodKM::Space => "Space",
            MethodKM::Backspace => "Backspace",
            MethodKM::Enter => "Enter",
            MethodKM::ShiftLeft => "ShiftLeft",
            MethodKM::ShiftRight => "ShiftRight",
            MethodKM::F1 => "F1",
            MethodKM::F2 => "F2",
            MethodKM::F3 => "F3",
            MethodKM::F4 => "F4",
            MethodKM::F5 => "F5",
            MethodKM::F6 => "F6",
            MethodKM::F7 => "F7",
            MethodKM::F8 => "F8",
            MethodKM::F9 => "F9",
            MethodKM::F10 => "F10",
            MethodKM::F11 => "F11",
            MethodKM::F12 => "F12",
            MethodKM::Key0 => "Key0",
            MethodKM::Key1 => "Key1",
            MethodKM::Key2 => "Key2",
            MethodKM::Key3 => "Key3",
            MethodKM::Key4 => "Key4",
            MethodKM::Key5 => "Key5",
            MethodKM::Key6 => "Key6",
            MethodKM::Key7 => "Key7",
            MethodKM::Key8 => "Key8",
            MethodKM::Key9 => "Key9",
            MethodKM::A => "A",
            MethodKM::B => "B",
            MethodKM::C => "C",
            MethodKM::D => "D",
            MethodKM::E => "E",
            MethodKM::F => "F",
            MethodKM::G => "G",
            MethodKM::H => "H",
            MethodKM::I => "I",
            MethodKM::J => "J",
            MethodKM::K => "K",
            MethodKM::L => "L",
            MethodKM::N => "N",
            MethodKM::M => "M",
            MethodKM::O => "O",
            MethodKM::P => "P",
            MethodKM::Q => "Q",
            MethodKM::R => "R",
            MethodKM::S => "S",
            MethodKM::T => "T",
            MethodKM::U => "U",
            MethodKM::V => "V",
            MethodKM::W => "W",
            MethodKM::X => "X",
            MethodKM::Y => "Y",
            MethodKM::Z => "Z",
            MethodKM::MouseLeft => "MouseLeft",
            MethodKM::MouseMiddle => "MouseMiddle",
            MethodKM::MouseRight => "MouseRight",
        }
    }
}

/// Input bindings for the gamepad input method; reading them is declared
/// but not wired up yet.
pub enum MethodGP {
    ButtonAX,
    ButtonBCircle,
    ButtonXRect,
    ButtonYTriangle,
}

/// Whether an active signal was already consumed by a `check` call.
#[derive(Clone, Copy, PartialEq, Eq, Structural, Debug)]
pub struct CheckedOnce(pub bool);

/// The state of one signal slot. An active signal remembers whether it was
/// consumed; it stays active until the key is released.
#[derive(Clone, Copy, PartialEq, Eq, Structural, Debug)]
pub enum Signal {
    Inactive,
    Active(CheckedOnce),
}

/// Whether a key or button is down.
#[derive(Clone, Copy, PartialEq, Eq, Structural, Debug)]
pub enum KeyState {
    Pressed,
    Released,
}

/// A signal fires a `check` when it is active and not yet consumed.
pub open spec fn spec_fires(signal: Signal) -> bool {
    signal == Signal::Active(CheckedOnce(false))
}

/// A checked signal: consumed if it fired, untouched otherwise.
pub open spec fn spec_consume(signal: Signal) -> Signal {
    if spec_fires(signal) {
        Signal::Active(CheckedOnce(true))
    } else {
        signal
    }
}

/// What a pressed key does to its slot: a fresh press arms the signal, a
/// repeat keeps the consumed flag.
pub open spec fn spec_pressed_transition(signal: Signal) -> Signal {
    match signal {
        Signal::Inactive => Signal::Active(CheckedOnce(false)),
        Signal::Active(c) => Signal::Active(c),
    }
}

/// One named input mapping: a default method and an optional custom
/// rebinding that takes precedence.
#[derive(Clone)]
pub struct Mapping {
    name: String,
    default: MethodKM,
    custom: Option<MethodKM>,
}

impl Mapping {
    pub closed spec fn spec_name(&self) -> Seq<char> {
        self.name@
    }

    pub closed spec fn spec_default(&self) -> MethodKM {
        self.default
    }

    pub closed spec fn spec_custom(&self) -> Option<MethodKM> {
        self.custom
    }

    pub fn new(name: &str, default: MethodKM) -> (mapping: Mapping)
        ensures
            mapping.spec_name() == name@,
            mapping.spec_default() == default,
            mapping.spec_custom() is None,
    {
        Mapping { name: name.to_owned(), default, custom: None }
    }

    /// The mapping's display name.
    pub fn name(self) -> (name: String)
        ensures
            name@ == self.spec_name(),
    {
        self.name
    }

    /// The mapping's display name, borrowed.
    pub fn label(&self) -> (name: &str)
        ensures
            name@ == self.spec_name(),
    {
        self.name.as_str()
    }

    /// The default method.
    pub fn default_method(&self) -> (method: MethodKM)
        ensures
            method == self.spec_default(),
    {
        self.default
    }

    /// The custom rebinding, where one is set.
    pub fn custom_method(&self) -> (method: Option<MethodKM>)
        ensures
            method == self.spec_custom(),
    {
        self.custom
    }

    /// Rebinds the mapping to a custom method.
    pub fn bind_custom(&mut self, mapping: MethodKM)
        ensures
            final(self).spec_name() == old(self).spec_name(),
            final(self).spec_default() == old(self).spec_default(),
            final(self).spec_custom() == Some(mapping),
    {
        self.custom = Some(mapping);
    }
}

/// The signal slot a mapping listens on: its custom method where bound,
/// else its default.
pub open spec fn spec_slot_of(mapping: Mapping) -> int {
    match mapping.spec_custom() {
        Some(custom) => custom.spec_slot(),
        None => mapping.spec_default().spec_slot(),
    }
}

/// Tracks one signal per keyboard-and-mouse slot, owns the input mappings,
/// and counts signals per second.
pub struct InputSystem {
    mode: Mode,
    signals_km: Vec<Signal>,
    signals_mouse_cursor: [u32; 2],
    /// Signals per second.
    pub sps: CPS,
    pub mappings: Storage<Mapping>,
}

/// The effect of consuming one mapping's signal: the answer says whether
/// the signal fired, the slot the mapping listens on is consumed, and
/// everything else is untouched.
pub open spec fn checked_once_post(
    pre: InputSystem,
    post: InputSystem,
    handle_index: int,
    fired: bool,
) -> bool {
    let slot = spec_slot_of(pre.spec_mappings()@[handle_index]);
    &&& fired == spec_fires(pre.spec_signals()[slot])
    &&& post.spec_signals() == pre.spec_signals().update(slot, spec_consume(pre.spec_signals()[slot]))
    &&& post.spec_mode() == pre.spec_mode()
    &&& post.spec_mappings() == pre.spec_mappings()
    &&& post.spec_sps() == pre.spec_sps()
    &&& post.spec_cursor() == pre.spec_cursor()
}

impl InputSystem {
    pub closed spec fn spec_mode(&self) -> Mode {
        self.mode
    }

    pub closed spec fn spec_signals(&self) -> Seq<Signal> {
        self.signals_km@
    }

    pub closed spec fn spec_cursor(&self) -> [u32; 2] {
        self.signals_mouse_cursor
    }

    pub closed spec fn spec_sps(&self) -> CPS {
        self.sps
    }

    pub closed spec fn spec_mappings(&self) -> Storage<Mapping> {
        self.mappings
    }

    /// The input system invariant: one signal per slot, and the mapping
    /// storage is well formed.
    pub open spec fn wf(&self) -> bool {
        &&& self.spec_signals().len() == MAX_SIGNAL_SLOTS_KM
        &&& self.spec_mappings().wf()
    }

    /// A fresh input system in normal mode: every signal inactive, and the
    /// two built-in mappings registered.
    pub fn new() -> (input: InputSystem)
        ensures
            input.wf(),
            input.spec_mode() is Normal,
            forall|i: int|
                0 <= i < MAX_SIGNAL_SLOTS_KM ==> input.spec_signals()[i] == Signal::Inactive,
            input.spec_mappings()@.len() == 2,
            input.spec_mappings()@[0].spec_name() == "(GUI) Submit"@,
            input.spec_mappings()@[0].spec_default() == MethodKM::Enter,
            input.spec_mappings()@[0].spec_custom() is None,
            input.spec_mappings()@[1].spec_name() == "(GUI) Cancel Typing"@,
            input.spec_mappings()@[1].spec_default() == MethodKM::ESC,
            input.spec_mappings()@[1].spec_custom() is None,
            input.spec_sps().spec_counts() == 0,
            input.spec_cursor() == [0u32, 0u32],
    {
        let mut mappings: Storage<Mapping> = Storage::new();
        let _submit = mappings.add(Mapping::new("(GUI) Submit", MethodKM::Enter));
        let _typing_cancel = mappings.add(Mapping::new("(GUI) Cancel Typing", MethodKM::ESC));
        let mut signals_km: Vec<Signal> = Vec::new();
        let mut i: usize = 0;
        while i < MAX_SIGNAL_SLOTS_KM
            invariant
                i <= MAX_SIGNAL_SLOTS_KM,
                signals_km@.len() == i,
                forall|j: int| 0 <= j < i ==> signals_km@[j] == Signal::Inactive,
            decreases MAX_SIGNAL_SLOTS_KM - i,
        {
            signals_km.push(Signal::Inactive);
            i = i + 1;
        }
        InputSystem {
            mode: Mode::Normal,
            signals_km,
            signals_mouse_cursor: [0, 0],
            sps: CPS::new("Input Signals Per Second"),
            mappings,
        }
    }

    /// Switches the interpretation mode.
    pub fn mode(&mut self, mode: Mode)
        ensures
            final(self).spec_mode() == mode,
            final(self).spec_signals() == old(self).spec_signals(),
            final(self).spec_mappings() == old(self).spec_mappings(),
            final(self).spec_sps() == old(self).spec_sps(),
            final(self).spec_cursor() == old(self).spec_cursor(),
    {
        self.mode = mode;
    }

    /// Registers a mapping and hands back its handle.
    pub fn add_mapping(&mut self, mapping: Mapping) -> (handle: Handle<Mapping>)
        requires
            old(self).wf(),
        ensures
            final(self).wf(),
            crate::add_post(old(self).spec_mappings(), mapping, final(self).spec_mappings(), handle),
            final(self).spec_mode() == old(self).spec_mode(),
            final(self).spec_signals() == old(self).spec_signals(),
            final(self).spec_sps() == old(self).spec_sps(),
            final(self).spec_cursor() == old(self).spec_cursor(),
    {
        self.mappings.add(mapping)
    }

    fn check_once_signal(signal: &mut Signal) -> (fired: bool)
        ensures
            fired == spec_fires(*old(signal)),
            *final(signal) == spec_consume(*old(signal)),
    {
        match *signal {
            Signal::Inactive => false,
            Signal::Active(checked_once) => {
                match checked_once {
                    CheckedOnce(false) => {
                        *signal = Signal::Active(CheckedOnce(true));
                        true
                    },
                    CheckedOnce(true) => false,
                }
            },
        }
    }

    /// Consumes the mapping's signal: answers whether it fired since it was
    /// last consumed, whatever the mode.
    pub fn check_once(&mut self, mapping: &Handle<Mapping>) -> (fired: bool)
        requires
            old(self).wf(),
            mapping@ < old(self).spec_mappings()@.len(),
        ensures
            final(self).wf(),
            checked_once_post(*old(self), *final(self), mapping@, fired),
    {
        let mapping_data = self.mappings.read(mapping);
        let slot = match mapping_data.custom_method() {
            Some(custom) => custom.slot(),
            None => mapping_data.default_method().slot(),
        };
        let fired = Self::check_once_signal(&mut self.signals_km[slot]);
        proof {
            assert(self.spec_signals() =~= old(self).spec_signals().update(
                slot as int,
                spec_consume(old(self).spec_signals()[slot as int]),
            ));
        }
        fired
    }

    /// Consumes the mapping's signal in normal mode; in any other mode the
    /// answer is no and nothing changes.
    pub fn check(&mut self, mapping: &Handle<Mapping>) -> (fired: bool)
        requires
            old(self).wf(),
            mapping@ < old(self).spec_mappings()@.len(),
        ensures
            final(self).wf(),
            old(self).spec_mode() is Normal ==> checked_once_post(
                *old(self),
                *final(self),
                mapping@,
                fired,
            ),
            !(old(self).spec_mode() is Normal) ==> !fired && *final(self) == *old(self),
    {
        match self.mode {
            Mode::Normal => self.check_once(mapping),
            _ => false,
        }
    }

    /// Consumes the mapping's signal in hotkey mode; in any other mode the
    /// answer is no and nothing changes.
    pub fn check_hotkey(&mut self, mapping: &Handle<Mapping>) -> (fired: bool)
        requires
            old(self).wf(),
            mapping@ < old(self).spec_mappings()@.len(),
        ensures
            final(self).wf(),
            old(self).spec_mode() is HotKey ==> checked_once_post(
                *old(self),
                *final(self),
                mapping@,
                fired,
            ),
            !(old(self).spec_mode() is HotKey) ==> !fired && *final(self) == *old(self),
    {
        match self.mode {
            Mode::HotKey => self.check_once(mapping),
            _ => false,
        }
    }

    /// The last cursor position the platform layer registered: the raw
    /// lanes of the window-centered coordinates.
    pub fn check_cursor_position(&self) -> (position: [u32; 2])
        ensures
            position == self.spec_cursor(),
    {
        self.signals_mouse_cursor
    }

    /// Registers a key or button transition on a signal slot and counts it.
    pub fn register_signal_km(&mut self, slot: usize, state: KeyState)
        requires
            old(self).wf(),
            slot < MAX_SIGNAL_SLOTS_KM,
        ensures
            final(self).wf(),
            final(self).spec_signals() == old(self).spec_signals().update(
                slot as int,
                if state is Pressed {
                    spec_pressed_transition(old(self).spec_signals()[slot as int])
                } else {
                    Signal::Inactive
                },
            ),
            counted_post(old(self).spec_sps(), final(self).spec_sps()),
            final(self).spec_mode() == old(self).spec_mode(),
            final(self).spec_mappings() == old(self).spec_mappings(),
            final(self).spec_cursor() == old(self).spec_cursor(),
    {
        self.sps.count(false);
        match state {
            KeyState::Pressed => {
                match self.signals_km[slot] {
                    Signal::Inactive => {
                        self.signals_km[slot] = Signal::Active(CheckedOnce(false));
                    },
                    Signal::Active(checked_once) => {
                        self.signals_km[slot] = Signal::Active(CheckedOnce(checked_once.0));
                    },
                }
            },
            KeyState::Released => {
                self.signals_km[slot] = Signal::Inactive;
            },
        }
    }

    /// Registers the cursor position — the raw lanes of the
    /// window-centered coordinates — and counts the signal.
    pub fn register_signal_mouse_cursor(&mut self, position: [u32; 2])
        requires
            old(self).wf(),
        ensures
            final(self).wf(),
            final(self).spec_cursor() == position,
            counted_post(old(self).spec_sps(), final(self).spec_sps()),
            final(self).spec_mode() == old(self).spec_mode(),
            final(self).spec_signals() == old(self).spec_signals(),
            final(self).spec_mappings() == old(self).spec_mappings(),
    {
        self.sps.count(false);
        self.signals_mouse_cursor = position;
    }

    /// In typing mode, walks every signal slot in order and consumes it:
    /// letters, digits and space append their character to `typing`,
    /// backspace removes the last one, and the slots reserved for widget
    /// control are left alone. In any other mode nothing changes.
    #[verifier::rlimit(40)]
    pub fn check_typing(&mut self, typing: &mut String)
        requires
            old(self).wf(),
        ensures
            final(self).wf(),
            final(self).spec_mode() == old(self).spec_mode(),
            final(self).spec_mappings() == old(self).spec_mappings(),
            final(self).spec_sps() == old(self).spec_sps(),
            final(self).spec_cursor() == old(self).spec_cursor(),
            old(self).spec_mode() is TypingNLS ==> {
                &&& final(typing)@ == spec_typed_string(
                    old(typing)@,
                    old(self).spec_signals(),
                    MAX_SIGNAL_SLOTS_KM as int,
                )
                &&& final(self).spec_signals() == spec_typed_signals(
                    old(self).spec_signals(),
                    MAX_SIGNAL_SLOTS_KM as int,
                )
            },
            !(old(self).spec_mode() is TypingNLS) ==> final(typing)@ == old(typing)@
                && final(self).spec_signals() == old(self).spec_signals(),
    {
        match self.mode {
            Mode::TypingNLS => {
                let ghost signals0 = self.spec_signals();
                let ghost typing0 = typing@;
                let mut slot: usize = 0;
                while slot < MAX_SIGNAL_SLOTS_KM
                    invariant
                        slot <= MAX_SIGNAL_SLOTS_KM,
                        self.wf(),
                        self.spec_mode() == old(self).spec_mode(),
                        self.spec_mode() is TypingNLS,
                        self.spec_mappings() == old(self).spec_mappings(),
                        self.spec_sps() == old(self).spec_sps(),
                        self.spec_cursor() == old(self).spec_cursor(),
                        signals0 == old(self).spec_signals(),
                        signals0.len() == MAX_SIGNAL_SLOTS_KM,
                        typing0 == old(typing)@,
                        typing@ == spec_typed_string(typing0, signals0, slot as int),
                        self.spec_signals() == spec_typed_signals(signals0, slot as int),
                    decreases MAX_SIGNAL_SLOTS_KM - slot,
                {
                    proof {
                        lemma_typed_signals_frame(signals0, slot as int);
                    }
                    let ghost prev = typing@;
                    if slot == MethodKM::F1.slot() || slot == MethodKM::F2.slot() || slot
                        == MethodKM::Enter.slot() || slot == MethodKM::TAB.slot() {
                        // reserved for the widgets around the console
                    } else {
                        let fired = Self::check_once_signal(&mut self.signals_km[slot]);
                        proof {
                            assert(self.spec_signals() =~= spec_typed_signals(
                                signals0,
                                slot + 1,
                            ));
                        }
                        if fired {
                            if slot == MethodKM::Backspace.slot() {
                                let length = typing.as_str().unicode_len();
                                if length > 0 {
                                    let shorter = typing.as_str().substring_char(
                                        0,
                                        length - 1,
                                    ).to_owned();
                                    *typing = shorter;
                                    proof {
                                        assert(typing@ =~= prev.drop_last());
                                    }
                                }
                            } else if slot == MethodKM::Space.slot() {
                                typing.append(" ");
                            } else if slot == MethodKM::Key0.slot() {
                                typing.append("0");
                            } else if slot == MethodKM::Key1.slot() {
                                typing.append("1");
                            } else if slot == MethodKM::Key2.slot() {
                                typing.append("2");
                            } else if slot == MethodKM::Key3.slot() {
                                typing.append("3");
                            } else if slot == MethodKM::Key4.slot() {
                                typing.append("4");
                            } else if slot == MethodKM::Key5.slot() {
                                typing.append("5");
                            } else if slot == MethodKM::Key6.slot() {
                                typing.append("6");
                            } else if slot == MethodKM::Key7.slot() {
                                typing.append("7");
                            } else if slot == MethodKM::Key8.slot() {
                                typing.append("8");
                            } else if slot == MethodKM::Key9.slot() {
                                typing.append("9");
                            } else if slot == MethodKM::A.slot() {
                                typing.append("a");
                            } else if slot == MethodKM::B.slot() {
                                typing.append("b");
                            } else if slot == MethodKM::C.slot() {
                                typing.append("c");
                            } else if slot == MethodKM::D.slot() {
                                typing.append("d");
                            } else if slot == MethodKM::E.slot() {
                                typing.append("e");
                            } else if slot == MethodKM::F.slot() {
                                typing.append("f");
                            } else if slot == MethodKM::G.slot() {
                                typing.append("g");
                            } else if slot == MethodKM::H.slot() {
                                typing.append("h");
                            } else if slot == MethodKM::I.slot() {
                                typing.append("i");
                            } else if slot == MethodKM::J.slot() {
                                typing.append("j");
                            } else if slot == MethodKM::K.slot() {
                                typing.append("k");
                            } else if slot == MethodKM::L.slot() {
                                typing.append("l");
                            } else if slot == MethodKM::N.slot() {
                                typing.append("n");
                            } else if slot == MethodKM::M.slot() {
                                typing.append("m");
                            } else if slot == MethodKM::O.slot() {
                                typing.append("o");
                            } else if slot == MethodKM::P.slot() {
                                typing.append("p");
                            } else if slot == MethodKM::Q.slot() {
                                typing.append("q");
                            } else if slot == MethodKM::R.slot() {
                                typing.append("r");
                            } else if slot == MethodKM::S.slot() {
                                typing.append("s");
                            } else if slot == MethodKM::T.slot() {
                                typing.append("t");
                            } else if slot == MethodKM::U.slot() {
                                typing.append("u");
                            } else if slot == MethodKM::V.slot() {
                                typing.append("v");
                            } else if slot == MethodKM::W.slot() {
                                typing.append("w");
                            } else if slot == MethodKM::X.slot() {
                                typing.append("x");
                            } else if slot == MethodKM::Y.slot() {
                                typing.append("y");
                            } else if slot == MethodKM::Z.slot() {
                                typing.append("z");
                            }
                        }
                    }
                    slot = slot + 1;
                }
                proof {
                    assert(typing@ == spec_typed_string(
                        typing0,
                        signals0,
                        MAX_SIGNAL_SLOTS_KM as int,
                    ));
                }
            },
            _ => {},
        }
    }

    /// Resets every mapping to its default method.
    pub fn default_mappings(&mut self)
        requires
            old(self).wf(),
        ensures
            final(self).wf(),
            final(self).spec_mappings()@.len() == old(self).spec_mappings()@.len(),
            forall|i: int|
                0 <= i < old(self).spec_mappings()@.len() ==> {
                    &&& (#[trigger] final(self).spec_mappings()@[i]).spec_name() == old(
                        self,
                    ).spec_mappings()@[i].spec_name()
                    &&& final(self).spec_mappings()@[i].spec_default() == old(
                        self,
                    ).spec_mappings()@[i].spec_default()
                    &&& final(self).spec_mappings()@[i].spec_custom() is None
                },
            final(self).spec_mappings().usage() == old(self).spec_mappings().usage(),
            final(self).spec_mode() == old(self).spec_mode(),
            final(self).spec_signals() == old(self).spec_signals(),
            final(self).spec_sps() == old(self).spec_sps(),
            final(self).spec_cursor() == old(self).spec_cursor(),
    {
        let total = self.mappings.len();
        let mut i: usize = 0;
        while i < total
            invariant
                self.wf(),
                total == self.spec_mappings()@.len(),
                total == old(self).spec_mappings()@.len(),
                i <= total,
                self.spec_mode() == old(self).spec_mode(),
                self.spec_signals() == old(self).spec_signals(),
                self.spec_sps() == old(self).spec_sps(),
                self.spec_cursor() == old(self).spec_cursor(),
                self.spec_mappings().usage() == old(self).spec_mappings().usage(),
                forall|j: int|
                    i <= j < total ==> #[trigger] self.spec_mappings()@[j] == old(
                        self,
                    ).spec_mappings()@[j],
                forall|j: int|
                    0 <= j < i ==> {
                        &&& (#[trigger] self.spec_mappings()@[j]).spec_name() == old(
                            self,
                        ).spec_mappings()@[j].spec_name()
                        &&& self.spec_mappings()@[j].spec_default() == old(
                            self,
                        ).spec_mappings()@[j].spec_default()
                        &&& self.spec_mappings()@[j].spec_custom() is None
                    },
            decreases total - i,
        {
            let replacement = {
                let source = self.mappings.read_at(i);
                Mapping::new(source.label(), source.default_method())
            };
            self.mappings.write_at(i, replacement);
            i = i + 1;
        }
    }
}

/// Slots whose keys the typing mode reserves for control: they are left
/// unconsumed for the widget logic around the console.
pub open spec fn spec_typing_skips(slot: int) -> bool {
    ||| slot == MethodKM::F1.spec_slot()
    ||| slot == MethodKM::F2.spec_slot()
    ||| slot == MethodKM::Enter.spec_slot()
    ||| slot == MethodKM::TAB.spec_slot()
}

/// The text a fired slot appends in typing mode, where it appends one.
pub open spec fn spec_char_for_slot(slot: int) -> Option<Seq<char>> {
    if slot == MethodKM::Space.spec_slot() {
        Some(" "@)
    } else if slot == MethodKM::Key0.spec_slot() {
        Some("0"@)
    } else if slot == MethodKM::Key1.spec_slot() {
        Some("1"@)
    } else if slot == MethodKM::Key2.spec_slot() {
        Some("2"@)
    } else if slot == MethodKM::Key3.spec_slot() {
        Some("3"@)
    } else if slot == MethodKM::Key4.spec_slot() {
        Some("4"@)
    } else if slot == MethodKM::Key5.spec_slot() {
        Some("5"@)
    } else if slot == MethodKM::Key6.spec_slot() {
        Some("6"@)
    } else if slot == MethodKM::Key7.spec_slot() {
        Some("7"@)
    } else if slot == MethodKM::Key8.spec_slot() {
        Some("8"@)
    } else if slot == MethodKM::Key9.spec_slot() {
        Some("9"@)
    } else if slot == MethodKM::A.spec_slot() {
        Some("a"@)
    } else if slot == MethodKM::B.spec_slot() {
        Some("b"@)
    } else if slot == MethodKM::C.spec_slot() {
        Some("c"@)
    } else if slot == MethodKM::D.spec_slot() {
        Some("d"@)
    } else if slot == MethodKM::E.spec_slot() {
        Some("e"@)
    } else if slot == MethodKM::F.spec_slot() {
        Some("f"@)
    } else if slot == MethodKM::G.spec_slot() {
        Some("g"@)
    } else if slot == MethodKM::H.spec_slot() {
        Some("h"@)
    } else if slot == MethodKM::I.spec_slot() {
        Some("i"@)
    } else if slot == MethodKM::J.spec_slot() {
        Some("j"@)
    } else if slot == MethodKM::K.spec_slot() {
        Some("k"@)
    } else if slot == MethodKM::L.spec_slot() {
        Some("l"@)
    } else if slot == MethodKM::N.spec_slot() {
        Some("n"@)
    } else if slot == MethodKM::M.spec_slot() {
        Some("m"@)
    } else if slot == MethodKM::O.spec_slot() {
        Some("o"@)
    } else if slot == MethodKM::P.spec_slot() {
        Some("p"@)
    } else if slot == MethodKM::Q.spec_slot() {
        Some("q"@)
    } else if slot == MethodKM::R.spec_slot() {
        Some("r"@)
    } else if slot == MethodKM::S.spec_slot() {
        Some("s"@)
    } else if slot == MethodKM::T.spec_slot() {
        Some("t"@)
    } else if slot == MethodKM::U.spec_slot() {
        Some("u"@)
    } else if slot == MethodKM::V.spec_slot() {
        Some("v"@)
    } else if slot == MethodKM::W.spec_slot() {
        Some("w"@)
    } else if slot == MethodKM::X.spec_slot() {
        Some("x"@)
    } else if slot == MethodKM::Y.spec_slot() {
        Some("y"@)
    } else if slot == MethodKM::Z.spec_slot() {
        Some("z"@)
    } else {
        None
    }
}

/// The typed text after the typing pass visited the first `n` slots in
/// order: every fired, unreserved slot appends its text — backspace
/// removes the last character instead.
pub open spec fn spec_typed_string(typing: Seq<char>, signals: Seq<Signal>, n: int) -> Seq<char>
    decreases n,
{
    if n <= 0 {
        typing
    } else {
        let prev = spec_typed_string(typing, signals, n - 1);
        let slot = n - 1;
        if spec_typing_skips(slot) || !spec_fires(signals[slot]) {
            prev
        } else if slot == MethodKM::Backspace.spec_slot() {
            if prev.len() > 0 {
                prev.drop_last()
            } else {
                prev
            }
        } else {
            match spec_char_for_slot(slot) {
                Some(text) => prev + text,
                None => prev,
            }
        }
    }
}

proof fn lemma_typed_signals_frame(signals: Seq<Signal>, n: int)
    requires
        0 <= n <= signals.len(),
    ensures
        spec_typed_signals(signals, n).len() == signals.len(),
        forall|j: int| n <= j < signals.len() ==> spec_typed_signals(signals, n)[j] == signals[j],
    decreases n,
{
    if n > 0 {
        lemma_typed_signals_frame(signals, n - 1);
    }
}

/// The signals after the typing pass visited the first `n` slots in
/// order: every unreserved slot is consumed.
pub open spec fn spec_typed_signals(signals: Seq<Signal>, n: int) -> Seq<Signal>
    decreases n,
{
    if n <= 0 {
        signals
    } else {
        let prev = spec_typed_signals(signals, n - 1);
        let slot = n - 1;
        if spec_typing_skips(slot) {
            prev
        } else {
            prev.update(slot, spec_consume(signals[slot]))
        }
    }
}

} // verus!
