use vstd::prelude::*;

verus! {

/// The frame budget, kept as a rate: a frame lasts `1 / game_update_hz`
/// seconds, and the monotonic clock advances `ticks_per_second` per second.
/// Elapsed times are clock deltas, so budget comparisons are exact.
#[derive(Clone, Copy, Debug, PartialEq, Eq, Structural)]
pub struct FrameTiming {
    pub ticks_per_second: u64,
    pub game_update_hz: u32,
}

/// What the frame loop does next while it waits for the frame budget to run out.
#[derive(Clone, Copy, Debug, PartialEq, Eq, Structural)]
pub enum PaceAction {
    /// The work of the frame alone overran the budget: report it, do not wait.
    MissedFrame,
    /// Sleep this many milliseconds, then measure again.
    Sleep { milliseconds: u32 },
    /// Too little time is left to trust a sleep: measure again at once.
    Spin,
    /// The budget has run out: the frame is over.
    Done,
}

impl FrameTiming {
    pub open spec fn wf(&self) -> bool {
        self.ticks_per_second > 0 && self.game_update_hz > 0
    }

    /// Whether `elapsed_ticks` of the clock fall short of one frame
    /// (elapsed / ticks_per_second < 1 / game_update_hz).
    pub open spec fn below_target(&self, elapsed_ticks: u64) -> bool {
        elapsed_ticks * self.game_update_hz < self.ticks_per_second
    }

    /// Whether more than one millisecond of the frame is left
    /// ((1 / hz - elapsed / tps) * 1000 > 1).
    pub open spec fn more_than_a_millisecond_left(&self, elapsed_ticks: u64) -> bool {
        (self.ticks_per_second - elapsed_ticks * self.game_update_hz) * 1000 > self.game_update_hz
            * self.ticks_per_second
    }

    /// Whole milliseconds of the frame that are left.
    pub open spec fn milliseconds_left(&self, elapsed_ticks: u64) -> int {
        ((self.ticks_per_second - elapsed_ticks * self.game_update_hz) * 1000) / (self.game_update_hz
            * self.ticks_per_second) as int
    }

    /// The game updates at half the monitor's refresh rate. A refresh rate
    /// under 2 Hz or a clock that does not advance is refused.
    pub fn new(monitor_refresh_hz: i32, ticks_per_second: i64) -> (r: Option<FrameTiming>)
        ensures
            r is Some <==> (monitor_refresh_hz >= 2 && ticks_per_second > 0),
            r matches Some(t) ==> t.wf() && t.game_update_hz == monitor_refresh_hz / 2
                && t.ticks_per_second == ticks_per_second,
    {
        if monitor_refresh_hz < 2 || ticks_per_second <= 0 {
            None
        } else {
            Some(
                FrameTiming {
                    ticks_per_second: ticks_per_second as u64,
                    game_update_hz: (monitor_refresh_hz as u32) / 2,
                },
            )
        }
    }

    /// Whether the frame loop has to wait longer: the time measured since the
    /// tick started is still short of the frame budget.
    pub fn should_continue_waiting(&self, elapsed_ticks: u64) -> (r: bool)
        ensures
            r == self.below_target(elapsed_ticks),
    {
        assert(elapsed_ticks * self.game_update_hz <= u64::MAX * u32::MAX) by (nonlinear_arith)
            requires
                elapsed_ticks <= u64::MAX,
                self.game_update_hz <= u32::MAX,
        ;
        (elapsed_ticks as u128) * (self.game_update_hz as u128) < self.ticks_per_second as u128
    }

    /// The next step of the wait at the end of a tick. `first_check` is set
    /// for the measurement taken right after the tick's work; a budget already
    /// spent then is a missed frame. While time is left, the loop sleeps when
    /// sleeping is granular and more than a millisecond remains, and spins
    /// otherwise.
    pub fn next_pace_action(&self, elapsed_ticks: u64, first_check: bool, sleep_is_granular: bool) -> (r:
        PaceAction)
        requires
            self.wf(),
        ensures
            !self.below_target(elapsed_ticks) ==> r == if first_check {
                PaceAction::MissedFrame
            } else {
                PaceAction::Done
            },
            self.below_target(elapsed_ticks) && sleep_is_granular && self.more_than_a_millisecond_left(
                elapsed_ticks,
            ) ==> r == (PaceAction::Sleep {
                milliseconds: self.milliseconds_left(elapsed_ticks) as u32,
            }),
            self.below_target(elapsed_ticks) && !(sleep_is_granular && self.more_than_a_millisecond_left(
                elapsed_ticks,
            )) ==> r == PaceAction::Spin,
            r matches PaceAction::Sleep { milliseconds } ==> 1 <= milliseconds <= 1000,
    {
        if !self.should_continue_waiting(elapsed_ticks) {
            return if first_check {
                PaceAction::MissedFrame
            } else {
                PaceAction::Done
            };
        }
        let tps = self.ticks_per_second as u128;
        let hz = self.game_update_hz as u128;
        let used = (elapsed_ticks as u128) * hz;
        let left = tps - used;
        assert(1 <= hz * tps <= u32::MAX * u64::MAX) by (nonlinear_arith)
            requires
                1 <= hz <= u32::MAX,
                1 <= tps <= u64::MAX,
        ;
        let frame = hz * tps;
        if sleep_is_granular && left * 1000 > frame {
            let ms = (left * 1000) / frame;
            proof {
                assert(ms >= 1) by {
                    vstd::arithmetic::div_mod::lemma_div_is_ordered(frame as int, left * 1000, frame as int);
                    vstd::arithmetic::div_mod::lemma_div_by_self(frame as int);
                }
                assert(left * 1000 <= tps * 1000);
                assert(tps * 1000 <= frame * 1000) by (nonlinear_arith)
                    requires
                        frame == hz * tps,
                        hz >= 1,
                ;
                vstd::arithmetic::div_mod::lemma_div_is_ordered(left * 1000, frame * 1000, frame as int);
                vstd::arithmetic::div_mod::lemma_div_multiples_vanish(1000, frame as int);
                vstd::arithmetic::mul::lemma_mul_is_commutative(1000, frame as int);
            }
            PaceAction::Sleep { milliseconds: ms as u32 }
        } else {
            PaceAction::Spin
        }
    }
}

} // verus!
