use vstd::prelude::*;
use crate::audio::{
    lock_offset_of, target_cursor_of, plan_write_spec, regions_after_write, write_samples, frames_in,
    AudioRingGeometry, SoundOutput, WriteRegionPlan,
};
use crate::game::{
    gradient_pixel, pixel_index, updated_game_state, game_update_and_render, GameMemory, GameOffscreenBuffer, GameSoundOutputBuffer, StickTuning,
    START_TONE_HZ,
};
use crate::input::{begin_tick_view, commit_tick_view, InputDoubleBuffer};
use crate::pacer::FrameTiming;

verus! {

/// Where the frame loop is in its life.
#[derive(Clone, Copy, Debug, PartialEq, Eq, Structural)]
pub enum FramePhase {
    Idle,
    Running,
    Stopping,
    Stopped,
}

/// What moves the frame loop from one phase to the next.
#[derive(Clone, Copy, Debug, PartialEq, Eq, Structural)]
pub enum FrameEvent {
    /// The caller starts the loop.
    Start,
    /// A quit signal arrived (the window closed, alt+F4).
    Quit,
    /// The tick in flight finished, its audio write included.
    TickFinished,
}

/// The phase after `event`: an idle loop starts running; a quit signal
/// stops a running loop once the tick in flight has finished; any other
/// event leaves the phase as it is.
pub open spec fn next_phase_spec(phase: FramePhase, event: FrameEvent) -> FramePhase {
    match (phase, event) {
        (FramePhase::Idle, FrameEvent::Start) => FramePhase::Running,
        (FramePhase::Running, FrameEvent::Quit) => FramePhase::Stopping,
        (FramePhase::Stopping, FrameEvent::TickFinished) => FramePhase::Stopped,
        _ => phase,
    }
}

pub fn next_phase(phase: FramePhase, event: FrameEvent) -> (r: FramePhase)
    ensures
        r == next_phase_spec(phase, event),
{
    match (phase, event) {
        (FramePhase::Idle, FrameEvent::Start) => FramePhase::Running,
        (FramePhase::Running, FrameEvent::Quit) => FramePhase::Stopping,
        (FramePhase::Stopping, FrameEvent::TickFinished) => FramePhase::Stopped,
        _ => phase,
    }
}

/// Whether this tick writes to the audio device, and what.
#[derive(Clone, Copy, Debug, PartialEq, Eq, Structural)]
pub enum AudioStep {
    /// No device call this tick: the play cursor could not be read, or the
    /// plan has nothing to write.
    Skip,
    /// Lock and fill this range of the ring.
    Write(WriteRegionPlan),
}

/// The audio decision of a tick from the play cursor query's outcome.
pub open spec fn audio_step_spec(sound: SoundOutput, play_cursor_bytes: Option<u32>) -> AudioStep {
    match play_cursor_bytes {
        None => AudioStep::Skip,
        Some(cursor) => {
            let plan = plan_write_spec(sound.geometry, sound.sync_state, cursor, sound.latency_sample_count);
            if plan.lock_length == 0 {
                AudioStep::Skip
            } else {
                AudioStep::Write(plan)
            }
        },
    }
}

/// Startup settings of the frame loop.
#[derive(Clone, Copy, Debug, PartialEq, Eq, Structural)]
pub struct FrameConfig {
    pub monitor_refresh_hz: i32,
    pub ticks_per_second: i64,
    pub samples_per_second: u32,
    pub width: i32,
    pub height: i32,
    pub permanent_storage_size: usize,
    pub transient_storage_size: usize,
}

/// Whether a configuration can run: a refresh rate of at least 2 Hz, a
/// clock that advances, and an audio rate that gives a non-empty ring of at
/// most `u32::MAX` bytes.
pub open spec fn config_accepted(config: FrameConfig) -> bool {
    &&& config.monitor_refresh_hz >= 2
    &&& config.ticks_per_second > 0
    &&& 0 < config.samples_per_second <= u32::MAX / 4
}

/// All the state of the frame loop, owned in one place and handed by
/// reference to each step of a tick.
pub struct FrameOrchestrator {
    pub phase: FramePhase,
    pub input: InputDoubleBuffer,
    pub sound: SoundOutput,
    pub timing: FrameTiming,
    pub memory: GameMemory,
    pub backbuffer: GameOffscreenBuffer,
}

impl FrameOrchestrator {
    pub open spec fn wf(&self) -> bool {
        &&& self.sound.geometry.wf()
        &&& self.timing.wf()
        &&& self.backbuffer.wf()
    }

    /// An idle loop for `config`, or `None` where the configuration cannot
    /// run.
    pub fn new(config: FrameConfig) -> (r: Option<FrameOrchestrator>)
        requires
            config.width >= 0,
            config.height >= 0,
            4 * config.width <= i32::MAX,
            4 * config.width * config.height <= i32::MAX,
        ensures
            r is Some <==> config_accepted(config),
            r matches Some(o) ==> {
                &&& o.wf()
                &&& o.phase == FramePhase::Idle
                &&& o.sound.sync_state.running_sample_index == 0
                &&& o.sound.geometry.samples_per_second == config.samples_per_second
                &&& o.timing.ticks_per_second == config.ticks_per_second
                &&& o.timing.game_update_hz == config.monitor_refresh_hz / 2
                &&& o.backbuffer.width == config.width
                &&& o.backbuffer.height == config.height
                &&& !o.memory.is_initialized
            },
    {
        let timing = match FrameTiming::new(config.monitor_refresh_hz, config.ticks_per_second) {
            Some(t) => t,
            None => return None,
        };
        let sound = match SoundOutput::new(config.samples_per_second) {
            Some(s) => s,
            None => return None,
        };
        Some(
            FrameOrchestrator {
                phase: FramePhase::Idle,
                input: InputDoubleBuffer::new(),
                sound,
                timing,
                memory: GameMemory::new(config.permanent_storage_size, config.transient_storage_size),
                backbuffer: GameOffscreenBuffer::new(config.width, config.height),
            },
        )
    }

    /// Feeds an event to the phase machine.
    pub fn handle_event(&mut self, event: FrameEvent)
        ensures
            final(self).phase == next_phase_spec(old(self).phase, event),
            final(self).input@ == old(self).input@,
            final(self).sound == old(self).sound,
            final(self).timing == old(self).timing,
    {
        self.phase = next_phase(self.phase, event);
    }

    /// Whether the loop runs another tick.
    pub fn is_running(&self) -> (r: bool)
        ensures
            r == (self.phase == FramePhase::Running),
    {
        self.phase == FramePhase::Running
    }

    /// Starts a tick: seeds the current input snapshot from the previous one.
    pub fn begin_tick(&mut self)
        ensures
            final(self).input@ == begin_tick_view(old(self).input@),
            final(self).phase == old(self).phase,
            final(self).sound == old(self).sound,
            final(self).timing == old(self).timing,
    {
        self.input.begin_tick();
    }

    /// Decides this tick's audio write from the play cursor query, which
    /// the device may have failed (`None`).
    pub fn audio_step(&self, play_cursor_bytes: Option<u32>) -> (r: AudioStep)
        requires
            self.wf(),
        ensures
            r == audio_step_spec(self.sound, play_cursor_bytes),
    {
        match play_cursor_bytes {
            None => AudioStep::Skip,
            Some(cursor) => {
                let plan = self.sound.plan(cursor);
                if plan.lock_length == 0 {
                    AudioStep::Skip
                } else {
                    AudioStep::Write(plan)
                }
            },
        }
    }

    /// The sample buffer the game fills this tick: sized for the planned
    /// write, empty when the tick writes nothing.
    pub fn sound_buffer_for(&self, step: AudioStep) -> (r: GameSoundOutputBuffer)
        requires
            self.wf(),
        ensures
            r.samples_per_second == self.sound.geometry.samples_per_second,
            r.samples@.len() == r.sample_count * self.sound.geometry.values_per_frame(),
            step matches AudioStep::Write(plan) ==> r.sample_count == plan.lock_length
                / self.sound.geometry.bytes_per_sample,
            step is Skip ==> r.sample_count == 0,
    {
        let empty = WriteRegionPlan { lock_offset: 0, lock_length: 0 };
        match step {
            AudioStep::Write(plan) => GameSoundOutputBuffer::for_plan(&self.sound.geometry, &plan),
            AudioStep::Skip => GameSoundOutputBuffer::for_plan(&self.sound.geometry, &empty),
        }
    }

    /// Runs the game on the current input snapshot and draws its frame.
    pub fn update_and_render(&mut self, stick: StickTuning)
        requires
            old(self).wf(),
            stick.tone_step <= u32::MAX - START_TONE_HZ,
        ensures
            final(self).wf(),
            final(self).memory.is_initialized,
            final(self).memory.game_state == updated_game_state(
                old(self).memory.game_state,
                old(self).memory.is_initialized,
                old(self).input@.current[0],
                stick,
            ),
            final(self).backbuffer.width == old(self).backbuffer.width,
            final(self).backbuffer.height == old(self).backbuffer.height,
            forall|x: int, y: int|
                0 <= x < old(self).backbuffer.width && 0 <= y < old(self).backbuffer.height
                    ==> final(self).backbuffer.memory@[#[trigger] pixel_index(x, y, old(self).backbuffer.width as int)]
                    == gradient_pixel(
                    x,
                    y,
                    final(self).memory.game_state.blue_offset,
                    final(self).memory.game_state.green_offset,
                ),
            final(self).input@ == old(self).input@,
            final(self).phase == old(self).phase,
            final(self).sound == old(self).sound,
            final(self).timing == old(self).timing,
    {
        game_update_and_render(&mut self.memory, self.input.current(), stick, &mut self.backbuffer);
    }

    /// Commits the locked regions of this tick's write (see `write_samples`).
    pub fn commit_audio(&mut self, region1: &mut [i16], region2: &mut [i16], source: &[i16]) -> (frames: u32)
        requires
            old(self).wf(),
            old(region1)@.len() + old(region2)@.len() <= u32::MAX,
            (frames_in(old(region1)@.len() as int, old(self).sound.geometry.values_per_frame())
                + frames_in(old(region2)@.len() as int, old(self).sound.geometry.values_per_frame()))
                * old(self).sound.geometry.values_per_frame() <= source@.len(),
        ensures
            final(self).wf(),
            final(self).sound.sync_state.running_sample_index == (
            old(self).sound.sync_state.running_sample_index + frames) % 0x1_0000_0000,
            final(self).sound.geometry == old(self).sound.geometry,
            final(self).sound.latency_sample_count == old(self).sound.latency_sample_count,
            frames == frames_in(old(region1)@.len() as int, old(self).sound.geometry.values_per_frame())
                + frames_in(old(region2)@.len() as int, old(self).sound.geometry.values_per_frame()),
            (final(region1)@, final(region2)@) == regions_after_write(
                old(region1)@,
                old(region2)@,
                source@,
                old(self).sound.geometry.values_per_frame(),
            ),
            final(self).input@ == old(self).input@,
            final(self).phase == old(self).phase,
            final(self).timing == old(self).timing,
    {
        let geometry: AudioRingGeometry = self.sound.geometry;
        write_samples(&mut self.sound.sync_state, &geometry, region1, region2, source)
    }

    /// Ends a tick: the input snapshot just filled becomes the previous one,
    /// and a stopping loop stops.
    pub fn finish_tick(&mut self)
        ensures
            final(self).input@ == commit_tick_view(old(self).input@),
            final(self).phase == next_phase_spec(old(self).phase, FrameEvent::TickFinished),
            final(self).sound == old(self).sound,
            final(self).timing == old(self).timing,
    {
        self.input.commit_tick();
        self.phase = next_phase(self.phase, FrameEvent::TickFinished);
    }
}

/// When the play cursor plus the target latency lands exactly where the
/// last write ended, the plan is empty and the tick makes no device write.
pub proof fn lemma_caught_up_skips_write(sound: SoundOutput, play_cursor_bytes: u32)
    requires
        sound.geometry.wf(),
        lock_offset_of(sound.geometry, sound.sync_state.running_sample_index) == target_cursor_of(
            sound.geometry,
            play_cursor_bytes,
            sound.latency_sample_count,
        ),
    ensures
        plan_write_spec(sound.geometry, sound.sync_state, play_cursor_bytes, sound.latency_sample_count).lock_length == 0,
        audio_step_spec(sound, Some(play_cursor_bytes)) == AudioStep::Skip,
{
}

} // verus!
