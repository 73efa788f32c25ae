use vstd::prelude::*;
use vstd::wrapping::i32_specs;
use crate::audio::{AudioRingGeometry, WriteRegionPlan};
use crate::button::GameButton;
use crate::input::{ControllerView, GameInput};

verus! {

/// Bytes of one pixel of the offscreen buffer (blue, green, red, padding).
pub const BYTES_PER_PIXEL: i32 = 4;

/// The pixel buffer the game draws into: `width * height` pixels, row by
/// row, each row `pitch` bytes long.
pub struct GameOffscreenBuffer {
    pub memory: Vec<i32>,
    pub width: i32,
    pub height: i32,
    pub pitch: isize,
}

/// The sample buffer the game fills for one tick: `sample_count` frames of
/// interleaved 16-bit values.
pub struct GameSoundOutputBuffer {
    pub samples_per_second: u32,
    pub sample_count: u32,
    pub samples: Vec<i16>,
}

/// What the game keeps from one tick to the next.
#[derive(Clone, Copy, Debug, PartialEq, Eq, Structural)]
pub struct GameState {
    pub tone_hz: u32,
    pub blue_offset: i32,
    pub green_offset: i32,
}

/// The game's memory: the sizes of its storage blocks and the state kept in
/// the permanent one.
#[derive(Clone, Copy, Debug)]
pub struct GameMemory {
    pub is_initialized: bool,
    pub permanent_storage_size: usize,
    pub transient_storage_size: usize,
    pub game_state: GameState,
}

/// Stick readings of the first controller, already scaled to the steps the
/// game applies: a shift of the blue gradient and a raise of the tone.
#[derive(Clone, Copy, Debug, PartialEq, Eq, Structural)]
pub struct StickTuning {
    pub blue_step: i32,
    pub tone_step: u32,
}

/// Position of pixel (x, y) in a buffer of rows `width` pixels long.
pub open spec fn pixel_index(x: int, y: int, width: int) -> int {
    y * width + x
}

/// Colour of pixel (x, y) of the gradient: green from the row, blue from the
/// column, each shifted by its offset with 32-bit wrap-around.
pub open spec fn gradient_pixel(x: int, y: int, blue_offset: i32, green_offset: i32) -> i32 {
    (i32_specs::wrapping_add(y as i32, green_offset) << 8i32) | i32_specs::wrapping_add(x as i32, blue_offset)
}

impl GameOffscreenBuffer {
    pub open spec fn wf(&self) -> bool {
        &&& self.width >= 0
        &&& self.height >= 0
        &&& self.pitch == self.width * BYTES_PER_PIXEL
        &&& self.memory@.len() == self.width * self.height
    }

    /// A cleared buffer of the given size, rows packed without padding.
    pub fn new(width: i32, height: i32) -> (r: GameOffscreenBuffer)
        requires
            width >= 0,
            height >= 0,
            BYTES_PER_PIXEL * width <= i32::MAX,
            BYTES_PER_PIXEL * width * height <= i32::MAX,
        ensures
            r.wf(),
            r.width == width,
            r.height == height,
            forall|i: int| 0 <= i < r.memory@.len() ==> r.memory@[i] == 0,
    {
        assert(0 <= width * height <= BYTES_PER_PIXEL * width * height) by (nonlinear_arith)
            requires
                width >= 0,
                height >= 0,
        ;
        let memory = vec![0i32; (width * height) as usize];
        GameOffscreenBuffer { memory, width, height, pitch: (width * BYTES_PER_PIXEL) as isize }
    }

    /// Fills the buffer with a gradient shifted by the two offsets.
    pub fn render_weird_gradient(&mut self, blue_offset: i32, green_offset: i32)
        requires
            old(self).wf(),
        ensures
            final(self).wf(),
            final(self).width == old(self).width,
            final(self).height == old(self).height,
            forall|x: int, y: int|
                0 <= x < old(self).width && 0 <= y < old(self).height ==> final(self).memory@[#[trigger] pixel_index(x, y, old(self).width as int)] == gradient_pixel(x, y, blue_offset, green_offset),
    {
        let width = self.width;
        let height = self.height;
        let mut y: i32 = 0;
        while y < height
            invariant
                0 <= y <= height,
                width == self.width,
                height == self.height,
                self.wf(),
                forall|px: int, py: int|
                    0 <= px < width && 0 <= py < y ==> self.memory@[#[trigger] pixel_index(px, py, width as int)]
                        == gradient_pixel(px, py, blue_offset, green_offset),
            decreases height - y,
        {
            let green = y.wrapping_add(green_offset);
            let mut x: i32 = 0;
            while x < width
                invariant
                    0 <= x <= width,
                    0 <= y < height,
                    width == self.width,
                    height == self.height,
                    self.wf(),
                    green == i32_specs::wrapping_add(y, green_offset),
                    forall|px: int, py: int|
                        0 <= px < width && 0 <= py < y ==> self.memory@[#[trigger] pixel_index(px, py, width as int)]
                            == gradient_pixel(px, py, blue_offset, green_offset),
                    forall|px: int|
                        0 <= px < x ==> self.memory@[#[trigger] pixel_index(px, y as int, width as int)] == gradient_pixel(
                            px,
                            y as int,
                            blue_offset,
                            green_offset,
                        ),
                decreases width - x,
            {
                let blue = x.wrapping_add(blue_offset);
                proof {
                    assert(0 <= y * width + x < width * height) by (nonlinear_arith)
                        requires
                            0 <= x < width,
                            0 <= y < height,
                    ;
                    assert(0 <= y * width <= y * width + x) by (nonlinear_arith)
                        requires
                            0 <= x < width,
                            0 <= y < height,
                    ;
                }
                let pixel_count = self.memory.len();
                assert((y as usize) * (width as usize) == y * width);
                let index = (y as usize) * (width as usize) + (x as usize);
                assert(index as int == pixel_index(x as int, y as int, width as int) && index < pixel_count);
                let ghost before = self.memory@;
                self.memory.set(index, (green << 8i32) | blue);
                proof {
                    assert forall|px: int, py: int| 0 <= px < width && 0 <= py < y implies self.memory@[
                        #[trigger] pixel_index(px, py, width as int)] == gradient_pixel(
                        px,
                        py,
                        blue_offset,
                        green_offset,
                    ) by {
                        assert(0 <= py * width + px < y * width) by (nonlinear_arith)
                            requires
                                0 <= px < width,
                                0 <= py < y,
                        ;
                        assert(before[pixel_index(px, py, width as int)] == gradient_pixel(
                            px,
                            py,
                            blue_offset,
                            green_offset,
                        ));
                    }
                }
                x += 1;
            }
            y += 1;
        }
    }
}

/// Frames that a plan of `lock_length` bytes asks the game for.
pub open spec fn planned_frames(geometry: AudioRingGeometry, plan: WriteRegionPlan) -> int {
    (plan.lock_length / geometry.bytes_per_sample) as int
}

impl GameSoundOutputBuffer {
    /// A silent buffer sized for the frames that `plan` will write.
    pub fn for_plan(geometry: &AudioRingGeometry, plan: &WriteRegionPlan) -> (r: GameSoundOutputBuffer)
        requires
            geometry.wf(),
        ensures
            r.samples_per_second == geometry.samples_per_second,
            r.sample_count == planned_frames(*geometry, *plan),
            r.samples@.len() == r.sample_count * geometry.values_per_frame(),
            forall|i: int| 0 <= i < r.samples@.len() ==> r.samples@[i] == 0,
    {
        let sample_count = plan.lock_length / geometry.bytes_per_sample;
        let values_per_frame = geometry.bytes_per_sample / 2;
        assert(sample_count * values_per_frame <= plan.lock_length) by (nonlinear_arith)
            requires
                sample_count == plan.lock_length / geometry.bytes_per_sample,
                values_per_frame == geometry.bytes_per_sample / 2,
                geometry.bytes_per_sample > 0,
        ;
        let samples = vec![0i16; (sample_count * values_per_frame) as usize];
        GameSoundOutputBuffer { samples_per_second: geometry.samples_per_second, sample_count, samples }
    }
}

/// Tone the game starts with.
pub const START_TONE_HZ: u32 = 256;

/// The game state after one tick: the first tick sets the starting tone; an
/// analog first controller shifts the blue gradient and sets the tone; a held
/// action-down button moves the green gradient one step.
pub open spec fn updated_game_state(
    s: GameState,
    is_initialized: bool,
    first: ControllerView,
    stick: StickTuning,
) -> GameState {
    let s0 = if is_initialized { s } else { GameState { tone_hz: START_TONE_HZ, ..s } };
    let s1 = if first.is_analog {
        GameState {
            blue_offset: i32_specs::wrapping_add(s0.blue_offset, stick.blue_step),
            tone_hz: (START_TONE_HZ + stick.tone_step) as u32,
            ..s0
        }
    } else {
        s0
    };
    if first.buttons[GameButton::ActionDown.spec_index()].ended_down {
        GameState { green_offset: i32_specs::wrapping_add(s1.green_offset, 1), ..s1 }
    } else {
        s1
    }
}

impl GameMemory {
    /// Memory whose state is all zero and not yet initialised by the game.
    pub fn new(permanent_storage_size: usize, transient_storage_size: usize) -> (r: GameMemory)
        ensures
            !r.is_initialized,
            r.permanent_storage_size == permanent_storage_size,
            r.transient_storage_size == transient_storage_size,
            r.game_state == (GameState { tone_hz: 0, blue_offset: 0, green_offset: 0 }),
    {
        GameMemory {
            is_initialized: false,
            permanent_storage_size,
            transient_storage_size,
            game_state: GameState { tone_hz: 0, blue_offset: 0, green_offset: 0 },
        }
    }
}

/// Runs one tick of the game: updates its state from the first controller
/// and draws the gradient the state describes.
pub fn game_update_and_render(
    memory: &mut GameMemory,
    input: &GameInput,
    stick: StickTuning,
    buffer: &mut GameOffscreenBuffer,
)
    requires
        old(buffer).wf(),
        stick.tone_step <= u32::MAX - START_TONE_HZ,
    ensures
        final(memory).is_initialized,
        final(memory).permanent_storage_size == old(memory).permanent_storage_size,
        final(memory).transient_storage_size == old(memory).transient_storage_size,
        final(memory).game_state == updated_game_state(
            old(memory).game_state,
            old(memory).is_initialized,
            input@[0],
            stick,
        ),
        final(buffer).wf(),
        final(buffer).width == old(buffer).width,
        final(buffer).height == old(buffer).height,
        forall|x: int, y: int|
            0 <= x < old(buffer).width && 0 <= y < old(buffer).height ==> final(buffer).memory@[#[trigger] pixel_index(x, y, old(buffer).width as int)] == gradient_pixel(
                x,
                y,
                final(memory).game_state.blue_offset,
                final(memory).game_state.green_offset,
            ),
{
    if !memory.is_initialized {
        memory.game_state.tone_hz = START_TONE_HZ;
        memory.is_initialized = true;
    }
    let first = &input.controllers[0];
    if first.is_analog {
        memory.game_state.blue_offset = memory.game_state.blue_offset.wrapping_add(stick.blue_step);
        memory.game_state.tone_hz = START_TONE_HZ + stick.tone_step;
    }
    if first.button(GameButton::ActionDown).ended_down {
        memory.game_state.green_offset = memory.game_state.green_offset.wrapping_add(1);
    }
    buffer.render_weird_gradient(memory.game_state.blue_offset, memory.game_state.green_offset);
}

} // verus!
