use vstd::prelude::*;
use crate::button::{
    button_bit_held, next_button_state, update_button, GameButton, GameButtonState, BUTTON_COUNT,
};

verus! {

/// Number of controller slots: the keyboard, then the gamepads.
pub const CONTROLLER_COUNT: usize = 4;

/// Slot of the controller that the keyboard emulates.
pub const KEYBOARD_SLOT: usize = 0;

/// Bits of a gamepad's polled button mask.
pub const GAMEPAD_DPAD_UP: u16 = 0x0001;
pub const GAMEPAD_DPAD_DOWN: u16 = 0x0002;
pub const GAMEPAD_DPAD_LEFT: u16 = 0x0004;
pub const GAMEPAD_DPAD_RIGHT: u16 = 0x0008;
pub const GAMEPAD_START: u16 = 0x0010;
pub const GAMEPAD_BACK: u16 = 0x0020;
pub const GAMEPAD_LEFT_SHOULDER: u16 = 0x0100;
pub const GAMEPAD_RIGHT_SHOULDER: u16 = 0x0200;
pub const GAMEPAD_A: u16 = 0x1000;
pub const GAMEPAD_B: u16 = 0x2000;
pub const GAMEPAD_X: u16 = 0x4000;
pub const GAMEPAD_Y: u16 = 0x8000;

/// Virtual key codes that the keyboard controller maps.
pub const KEY_W: u16 = 0x57;
pub const KEY_S: u16 = 0x53;
pub const KEY_A: u16 = 0x41;
pub const KEY_D: u16 = 0x44;
pub const KEY_Q: u16 = 0x51;
pub const KEY_E: u16 = 0x45;
pub const KEY_UP: u16 = 0x26;
pub const KEY_DOWN: u16 = 0x28;
pub const KEY_LEFT: u16 = 0x25;
pub const KEY_RIGHT: u16 = 0x27;
pub const KEY_ESCAPE: u16 = 0x1B;
pub const KEY_SPACE: u16 = 0x20;
pub const KEY_F4: u16 = 0x73;

/// Bits of a key message's flag word.
pub const KEY_MESSAGE_IS_ALT: i64 = 0x2000_0000;
pub const KEY_MESSAGE_WAS_DOWN: i64 = 0x4000_0000;
pub const KEY_MESSAGE_IS_UP: i64 = 0x8000_0000;

/// One controller's digital state for one tick. Its stick readings are
/// analog values kept by the platform layer beside it.
#[derive(Clone, Copy, Debug)]
pub struct GameControllerInput {
    pub is_connected: bool,
    pub is_analog: bool,
    pub buttons: [GameButtonState; BUTTON_COUNT],
}

pub struct ControllerView {
    pub is_connected: bool,
    pub is_analog: bool,
    pub buttons: Seq<GameButtonState>,
}

impl View for GameControllerInput {
    type V = ControllerView;

    open spec fn view(&self) -> ControllerView {
        ControllerView { is_connected: self.is_connected, is_analog: self.is_analog, buttons: self.buttons@ }
    }
}

impl GameControllerInput {
    /// A disconnected controller with every button released.
    pub fn new() -> (r: GameControllerInput)
        ensures
            !r@.is_connected,
            !r@.is_analog,
            r@.buttons =~= Seq::new(BUTTON_COUNT as nat, |b: int| crate::button::released()),
    {
        let s = GameButtonState { half_transition_count: 0, ended_down: false };
        GameControllerInput { is_connected: false, is_analog: false, buttons: [s, s, s, s, s, s, s, s, s, s, s, s] }
    }

    pub fn button(&self, button: GameButton) -> (r: &GameButtonState)
        ensures
            *r == self@.buttons[button.spec_index()],
    {
        &self.buttons[button.index()]
    }

    pub fn button_mut(&mut self, button: GameButton) -> (r: &mut GameButtonState)
        ensures
            *r == old(self)@.buttons[button.spec_index()],
            final(self)@ == (ControllerView {
                buttons: old(self)@.buttons.update(button.spec_index(), *final(r)),
                ..old(self)@
            }),
    {
        &mut self.buttons[button.index()]
    }
}

/// The input of every controller slot for one tick.
#[derive(Clone, Copy, Debug)]
pub struct GameInput {
    pub controllers: [GameControllerInput; CONTROLLER_COUNT],
}

impl View for GameInput {
    type V = Seq<ControllerView>;

    open spec fn view(&self) -> Seq<ControllerView> {
        self.controllers@.map_values(|c: GameControllerInput| c@)
    }
}

impl GameInput {
    pub fn new() -> (r: GameInput)
        ensures
            r@.len() == CONTROLLER_COUNT,
            forall|c: int| 0 <= c < CONTROLLER_COUNT ==> {
                &&& !(#[trigger] r@[c]).is_connected
                &&& !r@[c].is_analog
                &&& r@[c].buttons == Seq::new(BUTTON_COUNT as nat, |b: int| crate::button::released())
            },
    {
        let c = GameControllerInput::new();
        GameInput { controllers: [c, c, c, c] }
    }
}

/// The controller as the next tick starts it: connection and analog flags
/// reset, every button still held as it was at the end of `prev`, and no
/// transition counted yet.
pub open spec fn seeded_controller(prev: ControllerView, connected: bool) -> ControllerView {
    ControllerView {
        is_connected: connected,
        is_analog: false,
        buttons: Seq::new(
            BUTTON_COUNT as nat,
            |b: int| GameButtonState { half_transition_count: 0, ended_down: prev.buttons[b].ended_down },
        ),
    }
}

pub struct InputBuffersView {
    pub current: Seq<ControllerView>,
    pub previous: Seq<ControllerView>,
}

/// What `begin_tick` makes of the two snapshots.
pub open spec fn begin_tick_view(v: InputBuffersView) -> InputBuffersView {
    InputBuffersView {
        current: Seq::new(
            CONTROLLER_COUNT as nat,
            |c: int| seeded_controller(v.previous[c], c == KEYBOARD_SLOT),
        ),
        previous: v.previous,
    }
}

/// What `commit_tick` makes of the two snapshots.
pub open spec fn commit_tick_view(v: InputBuffersView) -> InputBuffersView {
    InputBuffersView { current: v.previous, previous: v.current }
}

/// Two input snapshots: the one the running tick fills ("current"), and the
/// one the tick before committed ("previous"). Committing a tick swaps their
/// roles without copying either.
pub struct InputDoubleBuffer {
    first: GameInput,
    second: GameInput,
    current_is_first: bool,
}

impl View for InputDoubleBuffer {
    type V = InputBuffersView;

    closed spec fn view(&self) -> InputBuffersView {
        if self.current_is_first {
            InputBuffersView { current: self.first@, previous: self.second@ }
        } else {
            InputBuffersView { current: self.second@, previous: self.first@ }
        }
    }
}

fn seed_controller(prev: &GameControllerInput, connected: bool) -> (r: GameControllerInput)
    ensures
        r@ == seeded_controller(prev@, connected),
{
    let mut r = *prev;
    r.is_connected = connected;
    r.is_analog = false;
    let mut b: usize = 0;
    while b < BUTTON_COUNT
        invariant
            0 <= b <= BUTTON_COUNT,
            r.is_connected == connected,
            !r.is_analog,
            forall|i: int| 0 <= i < b ==> r.buttons@[i] == (GameButtonState {
                half_transition_count: 0,
                ended_down: prev.buttons@[i].ended_down,
            }),
            forall|i: int| b <= i < BUTTON_COUNT ==> r.buttons@[i] == prev.buttons@[i],
        decreases BUTTON_COUNT - b,
    {
        let mut s = r.buttons[b];
        s.half_transition_count = 0;
        r.buttons[b] = s;
        b += 1;
    }
    assert(r@.buttons =~= seeded_controller(prev@, connected).buttons);
    r
}

impl InputDoubleBuffer {
    /// Both snapshots disconnected, every button released.
    pub fn new() -> (r: InputDoubleBuffer)
        ensures
            r@.current.len() == CONTROLLER_COUNT,
            r@.previous == r@.current,
            forall|c: int| 0 <= c < CONTROLLER_COUNT ==> {
                &&& !(#[trigger] r@.current[c]).is_connected
                &&& !r@.current[c].is_analog
                &&& r@.current[c].buttons == Seq::new(BUTTON_COUNT as nat, |b: int| crate::button::released())
            },
    {
        let a = GameInput::new();
        InputDoubleBuffer { first: a, second: a, current_is_first: true }
    }

    /// The snapshot the running tick fills.
    pub fn current(&self) -> (r: &GameInput)
        ensures
            r@ == self@.current,
    {
        if self.current_is_first {
            &self.first
        } else {
            &self.second
        }
    }

    /// The snapshot the tick before committed.
    pub fn previous(&self) -> (r: &GameInput)
        ensures
            r@ == self@.previous,
    {
        if self.current_is_first {
            &self.second
        } else {
            &self.first
        }
    }

    fn set_current(&mut self, input: GameInput)
        ensures
            final(self)@ == (InputBuffersView { current: input@, ..old(self)@ }),
    {
        if self.current_is_first {
            self.first = input;
        } else {
            self.second = input;
        }
    }

    /// Starts a tick: the current snapshot is rebuilt from the previous one,
    /// every button keeping the held flag it ended the last tick with and a
    /// zero transition count; the keyboard slot counts as connected, the
    /// gamepad slots as disconnected until polled.
    pub fn begin_tick(&mut self)
        ensures
            final(self)@ == begin_tick_view(old(self)@),
    {
        let prev: GameInput = *self.previous();
        let mut next = prev;
        let mut c: usize = 0;
        while c < CONTROLLER_COUNT
            invariant
                0 <= c <= CONTROLLER_COUNT,
                prev@ == old(self)@.previous,
                forall|i: int| 0 <= i < c ==> next.controllers@[i]@ == seeded_controller(
                    prev.controllers@[i]@,
                    i == KEYBOARD_SLOT,
                ),
            decreases CONTROLLER_COUNT - c,
        {
            let seeded = seed_controller(&prev.controllers[c], c == KEYBOARD_SLOT);
            next.controllers[c] = seeded;
            c += 1;
        }
        assert(next@ =~= begin_tick_view(old(self)@).current);
        self.set_current(next);
    }

    /// Ends a tick: the snapshot just filled becomes the previous one.
    pub fn commit_tick(&mut self)
        ensures
            final(self)@ == commit_tick_view(old(self)@),
    {
        self.current_is_first = !self.current_is_first;
    }
}


/// Which controller button a virtual key drives, if any.
pub open spec fn keyboard_button(virtual_key: u16) -> Option<GameButton> {
    if virtual_key == KEY_W {
        Some(GameButton::MoveUp)
    } else if virtual_key == KEY_S {
        Some(GameButton::MoveDown)
    } else if virtual_key == KEY_A {
        Some(GameButton::MoveLeft)
    } else if virtual_key == KEY_D {
        Some(GameButton::MoveRight)
    } else if virtual_key == KEY_Q {
        Some(GameButton::LeftShoulder)
    } else if virtual_key == KEY_E {
        Some(GameButton::RightShoulder)
    } else if virtual_key == KEY_UP {
        Some(GameButton::ActionUp)
    } else if virtual_key == KEY_DOWN {
        Some(GameButton::ActionDown)
    } else if virtual_key == KEY_LEFT {
        Some(GameButton::ActionLeft)
    } else if virtual_key == KEY_RIGHT {
        Some(GameButton::ActionRight)
    } else if virtual_key == KEY_ESCAPE {
        Some(GameButton::Start)
    } else if virtual_key == KEY_SPACE {
        Some(GameButton::Back)
    } else {
        None
    }
}

pub fn keyboard_button_for(virtual_key: u16) -> (r: Option<GameButton>)
    ensures
        r == keyboard_button(virtual_key),
{
    if virtual_key == KEY_W {
        Some(GameButton::MoveUp)
    } else if virtual_key == KEY_S {
        Some(GameButton::MoveDown)
    } else if virtual_key == KEY_A {
        Some(GameButton::MoveLeft)
    } else if virtual_key == KEY_D {
        Some(GameButton::MoveRight)
    } else if virtual_key == KEY_Q {
        Some(GameButton::LeftShoulder)
    } else if virtual_key == KEY_E {
        Some(GameButton::RightShoulder)
    } else if virtual_key == KEY_UP {
        Some(GameButton::ActionUp)
    } else if virtual_key == KEY_DOWN {
        Some(GameButton::ActionDown)
    } else if virtual_key == KEY_LEFT {
        Some(GameButton::ActionLeft)
    } else if virtual_key == KEY_RIGHT {
        Some(GameButton::ActionRight)
    } else if virtual_key == KEY_ESCAPE {
        Some(GameButton::Start)
    } else if virtual_key == KEY_SPACE {
        Some(GameButton::Back)
    } else {
        None
    }
}

/// The three flags of a key message that the input layer reads.
#[derive(Clone, Copy, Debug, PartialEq, Eq, Structural)]
pub struct KeyMessage {
    pub was_down: bool,
    pub is_down: bool,
    pub is_alt_down: bool,
}

pub open spec fn key_message_of(flags: i64) -> KeyMessage {
    KeyMessage {
        was_down: flags & KEY_MESSAGE_WAS_DOWN != 0,
        is_down: flags & KEY_MESSAGE_IS_UP == 0,
        is_alt_down: flags & KEY_MESSAGE_IS_ALT != 0,
    }
}

/// Reads the previous-state, transition-state and context (alt) bits of a
/// key message's flag word.
pub fn decode_key_message(flags: i64) -> (r: KeyMessage)
    ensures
        r == key_message_of(flags),
{
    KeyMessage {
        was_down: flags & KEY_MESSAGE_WAS_DOWN != 0,
        is_down: flags & KEY_MESSAGE_IS_UP == 0,
        is_alt_down: flags & KEY_MESSAGE_IS_ALT != 0,
    }
}

/// The controllers after one sample of button `b` of slot `slot`.
pub open spec fn with_button_sample(
    v: Seq<ControllerView>,
    slot: int,
    b: int,
    is_held_now: bool,
) -> Seq<ControllerView> {
    v.update(
        slot,
        ControllerView {
            buttons: v[slot].buttons.update(b, next_button_state(v[slot].buttons[b], is_held_now)),
            ..v[slot]
        },
    )
}

/// What one polled gamepad reports for a tick: its button mask, whether its
/// stick left the dead zone, and the four directions that the stick reads as
/// held (compared against a threshold by the platform layer).
#[derive(Clone, Copy, Debug, PartialEq, Eq, Structural)]
pub struct GamepadSample {
    pub buttons: u16,
    pub stick_moved: bool,
    pub stick_up: bool,
    pub stick_down: bool,
    pub stick_left: bool,
    pub stick_right: bool,
}

/// Whether a gamepad sample holds the button in slot `b`.
pub open spec fn gamepad_button_held(sample: GamepadSample, b: int) -> bool {
    if b == GameButton::MoveUp.spec_index() {
        sample.stick_up
    } else if b == GameButton::MoveDown.spec_index() {
        sample.stick_down
    } else if b == GameButton::MoveLeft.spec_index() {
        sample.stick_left
    } else if b == GameButton::MoveRight.spec_index() {
        sample.stick_right
    } else if b == GameButton::ActionUp.spec_index() {
        sample.buttons & GAMEPAD_Y == GAMEPAD_Y
    } else if b == GameButton::ActionDown.spec_index() {
        sample.buttons & GAMEPAD_A == GAMEPAD_A
    } else if b == GameButton::ActionLeft.spec_index() {
        sample.buttons & GAMEPAD_X == GAMEPAD_X
    } else if b == GameButton::ActionRight.spec_index() {
        sample.buttons & GAMEPAD_B == GAMEPAD_B
    } else if b == GameButton::LeftShoulder.spec_index() {
        sample.buttons & GAMEPAD_LEFT_SHOULDER == GAMEPAD_LEFT_SHOULDER
    } else if b == GameButton::RightShoulder.spec_index() {
        sample.buttons & GAMEPAD_RIGHT_SHOULDER == GAMEPAD_RIGHT_SHOULDER
    } else if b == GameButton::Start.spec_index() {
        sample.buttons & GAMEPAD_START == GAMEPAD_START
    } else {
        sample.buttons & GAMEPAD_BACK == GAMEPAD_BACK
    }
}

fn gamepad_held_at(sample: &GamepadSample, b: usize) -> (r: bool)
    requires
        b < BUTTON_COUNT,
    ensures
        r == gamepad_button_held(*sample, b as int),
{
    if b == 0 {
        sample.stick_up
    } else if b == 1 {
        sample.stick_down
    } else if b == 2 {
        sample.stick_left
    } else if b == 3 {
        sample.stick_right
    } else if b == 4 {
        button_bit_held(sample.buttons, GAMEPAD_Y)
    } else if b == 5 {
        button_bit_held(sample.buttons, GAMEPAD_A)
    } else if b == 6 {
        button_bit_held(sample.buttons, GAMEPAD_X)
    } else if b == 7 {
        button_bit_held(sample.buttons, GAMEPAD_B)
    } else if b == 8 {
        button_bit_held(sample.buttons, GAMEPAD_LEFT_SHOULDER)
    } else if b == 9 {
        button_bit_held(sample.buttons, GAMEPAD_RIGHT_SHOULDER)
    } else if b == 10 {
        button_bit_held(sample.buttons, GAMEPAD_START)
    } else {
        button_bit_held(sample.buttons, GAMEPAD_BACK)
    }
}

/// A gamepad that reported `sample` this tick: connected, analog when the
/// stick moved and no direction pad bit is set, and every button fed its
/// sampled held flag.
pub open spec fn polled_controller(c: ControllerView, sample: GamepadSample) -> ControllerView {
    ControllerView {
        is_connected: true,
        is_analog: sample.stick_moved && sample.buttons & (GAMEPAD_DPAD_UP | GAMEPAD_DPAD_DOWN
            | GAMEPAD_DPAD_LEFT | GAMEPAD_DPAD_RIGHT) == 0,
        buttons: Seq::new(
            BUTTON_COUNT as nat,
            |b: int| next_button_state(c.buttons[b], gamepad_button_held(sample, b)),
        ),
    }
}

impl InputDoubleBuffer {
    /// Applies one key message to the keyboard slot of the current snapshot.
    /// Only a message whose key changed state counts; a mapped key then
    /// feeds its button. Returns whether the message asks to quit (alt+F4).
    pub fn process_key_message(&mut self, virtual_key: u16, flags: i64) -> (quit: bool)
        ensures
            ({
                let m = key_message_of(flags);
                &&& quit == (m.was_down != m.is_down && virtual_key == KEY_F4 && m.is_alt_down)
                &&& final(self)@.previous == old(self)@.previous
                &&& final(self)@.current == if m.was_down != m.is_down && keyboard_button(virtual_key) is Some {
                    with_button_sample(
                        old(self)@.current,
                        KEYBOARD_SLOT as int,
                        keyboard_button(virtual_key).unwrap().spec_index(),
                        m.is_down,
                    )
                } else {
                    old(self)@.current
                }
            }),
    {
        let m = decode_key_message(flags);
        if m.was_down == m.is_down {
            return false;
        }
        match keyboard_button_for(virtual_key) {
            Some(button) => {
                let mut input: GameInput = *self.current();
                let mut keyboard = input.controllers[KEYBOARD_SLOT];
                update_button(keyboard.button_mut(button), m.is_down);
                input.controllers[KEYBOARD_SLOT] = keyboard;
                assert(input@ =~= with_button_sample(
                    old(self)@.current,
                    KEYBOARD_SLOT as int,
                    button.spec_index(),
                    m.is_down,
                ));
                self.set_current(input);
                false
            },
            None => virtual_key == KEY_F4 && m.is_alt_down,
        }
    }

    /// Applies what gamepad slot `slot` reported this tick to the current
    /// snapshot.
    pub fn poll_gamepad(&mut self, slot: usize, sample: GamepadSample)
        requires
            KEYBOARD_SLOT < slot < CONTROLLER_COUNT,
        ensures
            final(self)@ == (InputBuffersView {
                current: old(self)@.current.update(
                    slot as int,
                    polled_controller(old(self)@.current[slot as int], sample),
                ),
                ..old(self)@
            }),
    {
        let mut input: GameInput = *self.current();
        let before = input.controllers[slot];
        let mut pad = before;
        pad.is_connected = true;
        pad.is_analog = sample.stick_moved && sample.buttons & (GAMEPAD_DPAD_UP | GAMEPAD_DPAD_DOWN
            | GAMEPAD_DPAD_LEFT | GAMEPAD_DPAD_RIGHT) == 0;
        let mut b: usize = 0;
        while b < BUTTON_COUNT
            invariant
                0 <= b <= BUTTON_COUNT,
                pad.is_connected,
                pad.is_analog == polled_controller(before@, sample).is_analog,
                forall|i: int| 0 <= i < b ==> pad.buttons@[i] == next_button_state(
                    before.buttons@[i],
                    gamepad_button_held(sample, i),
                ),
                forall|i: int| b <= i < BUTTON_COUNT ==> pad.buttons@[i] == before.buttons@[i],
            decreases BUTTON_COUNT - b,
        {
            let held = gamepad_held_at(&sample, b);
            let mut s = pad.buttons[b];
            update_button(&mut s, held);
            pad.buttons[b] = s;
            b += 1;
        }
        assert(pad@.buttons =~= polled_controller(before@, sample).buttons);
        input.controllers[slot] = pad;
        assert(input@ =~= old(self)@.current.update(slot as int, polled_controller(before@, sample)));
        self.set_current(input);
    }
}

/// The snapshots after `n` ticks in which nothing was polled.
pub open spec fn idle_ticks(v: InputBuffersView, n: nat) -> InputBuffersView
    decreases n,
{
    if n == 0 {
        v
    } else {
        commit_tick_view(begin_tick_view(idle_ticks(v, (n - 1) as nat)))
    }
}

/// A button that the last committed tick left held stays held, with no
/// transition counted, at the start of every later tick until a sample says
/// otherwise, however many ticks pass without one.
pub proof fn lemma_held_button_carries_forward(v: InputBuffersView, n: nat, c: int, b: int)
    requires
        0 <= c < CONTROLLER_COUNT,
        0 <= b < BUTTON_COUNT,
        v.previous.len() == CONTROLLER_COUNT,
        forall|i: int| 0 <= i < CONTROLLER_COUNT ==> (#[trigger] v.previous[i]).buttons.len() == BUTTON_COUNT,
    ensures
        begin_tick_view(idle_ticks(v, n)).current[c].buttons[b] == (GameButtonState {
            half_transition_count: 0,
            ended_down: v.previous[c].buttons[b].ended_down,
        }),
        idle_ticks(v, n).previous.len() == CONTROLLER_COUNT,
        forall|i: int| 0 <= i < CONTROLLER_COUNT ==> (#[trigger] idle_ticks(v, n).previous[i]).buttons.len() == BUTTON_COUNT,
        idle_ticks(v, n).previous[c].buttons[b].ended_down == v.previous[c].buttons[b].ended_down,
    decreases n,
{
    if n > 0 {
        lemma_held_button_carries_forward(v, (n - 1) as nat, c, b);
        let w = idle_ticks(v, (n - 1) as nat);
        assert forall|i: int| 0 <= i < CONTROLLER_COUNT implies (#[trigger] idle_ticks(v, n).previous[i]).buttons.len() == BUTTON_COUNT by {
            assert(idle_ticks(v, n).previous[i] == seeded_controller(w.previous[i], i == KEYBOARD_SLOT));
        }
    }
}

} // verus!
