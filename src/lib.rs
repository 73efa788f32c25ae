//! Real-time core of a frame loop: edge-counted input in two alternating
//! snapshots, frame pacing against a monotonic clock, and the write planner
//! for a hardware audio ring whose play cursor advances on its own.

pub mod audio;
pub mod button;
pub mod debug_file;
pub mod game;
pub mod input;
pub mod orchestrator;
pub mod pacer;
mod units;

pub use audio::{plan_write, write_samples, AudioRingGeometry, AudioSyncState, SoundOutput, WriteRegionPlan};
pub use button::{update_button, GameButton, GameButtonState};
pub use debug_file::DebugPlatformReadFileResult;
pub use game::{
    game_update_and_render, GameMemory, GameOffscreenBuffer, GameSoundOutputBuffer, GameState,
};
pub use input::{GameControllerInput, GameInput, InputDoubleBuffer};
pub use orchestrator::FrameOrchestrator;
pub use pacer::FrameTiming;
pub use units::{gigabytes_to_bytes, megabytes_to_bytes, safe_truncate_i64_to_u32, terabytes_to_bytes};
