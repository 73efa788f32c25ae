use vstd::prelude::*;

verus! {

/// Number of buttons that every controller carries.
pub const BUTTON_COUNT: usize = 12;

/// The buttons of a controller, each with one slot in its button array.
#[derive(Clone, Copy, Debug, PartialEq, Eq, Structural)]
pub enum GameButton {
    MoveUp,
    MoveDown,
    MoveLeft,
    MoveRight,
    ActionUp,
    ActionDown,
    ActionLeft,
    ActionRight,
    LeftShoulder,
    RightShoulder,
    Start,
    Back,
}

impl GameButton {
    /// Slot of this button in a controller's button array.
    pub open spec fn spec_index(self) -> int {
        match self {
            GameButton::MoveUp => 0,
            GameButton::MoveDown => 1,
            GameButton::MoveLeft => 2,
            GameButton::MoveRight => 3,
            GameButton::ActionUp => 4,
            GameButton::ActionDown => 5,
            GameButton::ActionLeft => 6,
            GameButton::ActionRight => 7,
            GameButton::LeftShoulder => 8,
            GameButton::RightShoulder => 9,
            GameButton::Start => 10,
            GameButton::Back => 11,
        }
    }

    pub fn index(self) -> (r: usize)
        ensures
            r == self.spec_index(),
            r < BUTTON_COUNT,
    {
        match self {
            GameButton::MoveUp => 0,
            GameButton::MoveDown => 1,
            GameButton::MoveLeft => 2,
            GameButton::MoveRight => 3,
            GameButton::ActionUp => 4,
            GameButton::ActionDown => 5,
            GameButton::ActionLeft => 6,
            GameButton::ActionRight => 7,
            GameButton::LeftShoulder => 8,
            GameButton::RightShoulder => 9,
            GameButton::Start => 10,
            GameButton::Back => 11,
        }
    }
}

/// Edge-counted state of one button: whether it is held at the end of the
/// tick, and how many times it changed since the count was last cleared.
#[derive(Clone, Copy, Debug, PartialEq, Eq, Structural)]
pub struct GameButtonState {
    pub half_transition_count: u32,
    pub ended_down: bool,
}

impl Default for GameButtonState {
    fn default() -> (r: GameButtonState)
        ensures
            r == released(),
    {
        GameButtonState { half_transition_count: 0, ended_down: false }
    }
}

/// A released button with no recorded transition.
pub open spec fn released() -> GameButtonState {
    GameButtonState { half_transition_count: 0, ended_down: false }
}

/// The state after one sample: the held flag follows the sample, and the
/// count goes up by one (modulo 2^32) exactly when the flag flips.
pub open spec fn next_button_state(s: GameButtonState, is_held_now: bool) -> GameButtonState {
    GameButtonState {
        half_transition_count: if is_held_now != s.ended_down {
            ((s.half_transition_count + 1) % 0x1_0000_0000) as u32
        } else {
            s.half_transition_count
        },
        ended_down: is_held_now,
    }
}

/// The state after feeding `polls` to `s`, first sample first.
pub open spec fn state_after_polls(s: GameButtonState, polls: Seq<bool>) -> GameButtonState
    decreases polls.len(),
{
    if polls.len() == 0 {
        s
    } else {
        state_after_polls(next_button_state(s, polls[0]), polls.drop_first())
    }
}

/// Number of positions where a sample differs from the one before it, the
/// value before the first sample being `prev`.
pub open spec fn transitions(prev: bool, polls: Seq<bool>) -> nat
    decreases polls.len(),
{
    if polls.len() == 0 {
        0
    } else {
        (if polls[0] != prev { 1nat } else { 0nat }) + transitions(polls[0], polls.drop_first())
    }
}

/// Feeds one sample of "is this control held now" to a button.
pub fn update_button(state: &mut GameButtonState, is_held_now: bool)
    ensures
        *final(state) == next_button_state(*old(state), is_held_now),
{
    if state.ended_down != is_held_now {
        state.half_transition_count = state.half_transition_count.wrapping_add(1);
    }
    state.ended_down = is_held_now;
}

/// Whether the bit (or all bits) of `button_bit` are set in a polled button mask.
pub fn button_bit_held(button_bits: u16, button_bit: u16) -> (r: bool)
    ensures
        r == (button_bits & button_bit == button_bit),
{
    button_bits & button_bit == button_bit
}

proof fn lemma_transitions_bounded(prev: bool, polls: Seq<bool>)
    ensures
        transitions(prev, polls) <= polls.len(),
    decreases polls.len(),
{
    if polls.len() > 0 {
        lemma_transitions_bounded(polls[0], polls.drop_first());
    }
}

proof fn lemma_count_adds_transitions(s: GameButtonState, polls: Seq<bool>)
    requires
        s.half_transition_count + polls.len() <= u32::MAX,
    ensures
        state_after_polls(s, polls).half_transition_count == s.half_transition_count
            + transitions(s.ended_down, polls),
        polls.len() > 0 ==> state_after_polls(s, polls).ended_down == polls.last(),
        polls.len() == 0 ==> state_after_polls(s, polls) == s,
    decreases polls.len(),
{
    if polls.len() > 0 {
        let n = next_button_state(s, polls[0]);
        lemma_count_adds_transitions(n, polls.drop_first());
        if polls.len() > 1 {
            assert(polls.drop_first().last() == polls.last());
        }
    }
}

/// Starting from a released button, the transition count after any run of
/// polled samples equals the number of positions where a sample differs from
/// the one before it (the value before the first sample being `false`), and
/// the button ends held exactly when the last sample was held.
pub proof fn lemma_transition_count_matches_polls(polls: Seq<bool>)
    requires
        polls.len() <= u32::MAX,
    ensures
        state_after_polls(released(), polls).half_transition_count == transitions(false, polls),
        polls.len() > 0 ==> state_after_polls(released(), polls).ended_down == polls.last(),
        transitions(false, polls) <= polls.len(),
{
    lemma_count_adds_transitions(released(), polls);
    lemma_transitions_bounded(false, polls);
}

} // verus!
