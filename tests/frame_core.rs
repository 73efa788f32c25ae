use hm::audio::{clear_region, AudioRingGeometry, AudioSyncState, SoundOutput, WriteRegion, WriteRegionPlan};
use hm::button::{button_bit_held, update_button, GameButton, GameButtonState};
use hm::debug_file::DebugPlatformReadFileResult;
use hm::game::{game_update_and_render, GameMemory, GameOffscreenBuffer, GameSoundOutputBuffer, StickTuning};
use hm::input::{
    decode_key_message, keyboard_button_for, GamepadSample, InputDoubleBuffer, KEY_F4, KEY_MESSAGE_IS_ALT,
    KEY_MESSAGE_IS_UP, KEY_MESSAGE_WAS_DOWN, KEY_S, KEY_W, GAMEPAD_A, GAMEPAD_DPAD_UP,
};
use hm::orchestrator::{next_phase, AudioStep, FrameConfig, FrameEvent, FrameOrchestrator, FramePhase};
use hm::pacer::{FrameTiming, PaceAction};
use hm::{gigabytes_to_bytes, megabytes_to_bytes, plan_write, safe_truncate_i64_to_u32, terabytes_to_bytes, write_samples};

fn geometry(bytes_per_sample: u32, total_bytes: u32) -> AudioRingGeometry {
    AudioRingGeometry::new(48000, bytes_per_sample, total_bytes).unwrap()
}

fn released() -> GameButtonState {
    GameButtonState { half_transition_count: 0, ended_down: false }
}

const KEY_DOWN_FLAGS: i64 = 0;
const KEY_UP_FLAGS: i64 = KEY_MESSAGE_WAS_DOWN | KEY_MESSAGE_IS_UP;

#[test]
fn transition_count_matches_polled_changes() {
    let polls = [true, true, false, true, false, false, false, true];
    let mut state = GameButtonState::default();
    let mut prev = false;
    let mut expected = 0u32;
    for held in polls {
        if held != prev {
            expected += 1;
        }
        prev = held;
        update_button(&mut state, held);
    }
    assert_eq!(expected, 5);
    assert_eq!(state.half_transition_count, 5);
    assert!(state.ended_down);
}

#[test]
fn update_is_idempotent_for_unchanged_sample() {
    let mut state = released();
    update_button(&mut state, false);
    assert_eq!(state, released());
    update_button(&mut state, true);
    update_button(&mut state, true);
    assert_eq!(state, GameButtonState { half_transition_count: 1, ended_down: true });
}

#[test]
fn transition_count_wraps_at_u32_max() {
    let mut state = GameButtonState { half_transition_count: u32::MAX, ended_down: false };
    update_button(&mut state, true);
    assert_eq!(state.half_transition_count, 0);
}

#[test]
fn button_bits_need_every_bit() {
    assert!(button_bit_held(0x1003, 0x1000));
    assert!(!button_bit_held(0x0003, 0x1000));
    assert!(!button_bit_held(0x0001, 0x0005));
}

#[test]
fn held_key_survives_ticks_without_reports() {
    for k in 1..6 {
        let mut input = InputDoubleBuffer::new();
        for tick in 0..k {
            input.begin_tick();
            if tick == 0 {
                assert!(!input.process_key_message(KEY_W, KEY_DOWN_FLAGS));
            }
            assert!(input.current().controllers[0].button(GameButton::MoveUp).ended_down);
            input.commit_tick();
        }
        for _ in 0..10 {
            input.begin_tick();
            let up = *input.current().controllers[0].button(GameButton::MoveUp);
            assert_eq!(up, GameButtonState { half_transition_count: 0, ended_down: true });
            input.commit_tick();
        }
        input.begin_tick();
        input.process_key_message(KEY_W, KEY_UP_FLAGS);
        let up = *input.current().controllers[0].button(GameButton::MoveUp);
        assert_eq!(up, GameButtonState { half_transition_count: 1, ended_down: false });
    }
}

#[test]
fn first_tick_reports_no_transition() {
    let mut input = InputDoubleBuffer::new();
    input.begin_tick();
    for c in 0..4 {
        let controller = &input.current().controllers[c];
        assert_eq!(controller.is_connected, c == 0);
        assert!(!controller.is_analog);
        for b in controller.buttons.iter() {
            assert_eq!(*b, released());
        }
    }
}

#[test]
fn begin_tick_clears_counts_and_keeps_previous() {
    let mut input = InputDoubleBuffer::new();
    input.begin_tick();
    input.process_key_message(KEY_S, KEY_DOWN_FLAGS);
    input.commit_tick();
    let prev = input.previous().controllers[0].button(GameButton::MoveDown).half_transition_count;
    assert_eq!(prev, 1);
    input.begin_tick();
    let cur = *input.current().controllers[0].button(GameButton::MoveDown);
    assert_eq!(cur, GameButtonState { half_transition_count: 0, ended_down: true });
    assert_eq!(input.previous().controllers[0].button(GameButton::MoveDown).half_transition_count, 1);
}

#[test]
fn key_message_flags_decode() {
    let m = decode_key_message(KEY_UP_FLAGS | KEY_MESSAGE_IS_ALT);
    assert!(m.was_down && !m.is_down && m.is_alt_down);
    let m = decode_key_message(0);
    assert!(!m.was_down && m.is_down && !m.is_alt_down);
}

#[test]
fn repeated_key_down_is_ignored() {
    let mut input = InputDoubleBuffer::new();
    input.begin_tick();
    input.process_key_message(KEY_W, KEY_DOWN_FLAGS);
    input.process_key_message(KEY_W, KEY_MESSAGE_WAS_DOWN);
    let up = *input.current().controllers[0].button(GameButton::MoveUp);
    assert_eq!(up, GameButtonState { half_transition_count: 1, ended_down: true });
}

#[test]
fn alt_f4_quits_and_plain_f4_does_not() {
    let mut input = InputDoubleBuffer::new();
    input.begin_tick();
    assert!(input.process_key_message(KEY_F4, KEY_MESSAGE_IS_ALT));
    assert!(!input.process_key_message(KEY_F4, 0));
    assert!(!input.process_key_message(KEY_W, KEY_MESSAGE_IS_ALT));
}

#[test]
fn unmapped_key_changes_nothing() {
    assert_eq!(keyboard_button_for(0x5A), None);
    assert_eq!(keyboard_button_for(KEY_W), Some(GameButton::MoveUp));
    let mut input = InputDoubleBuffer::new();
    input.begin_tick();
    assert!(!input.process_key_message(0x5A, KEY_DOWN_FLAGS));
    for b in input.current().controllers[0].buttons.iter() {
        assert_eq!(*b, released());
    }
}

#[test]
fn gamepad_poll_sets_buttons_and_flags() {
    let mut input = InputDoubleBuffer::new();
    input.begin_tick();
    let sample = GamepadSample {
        buttons: GAMEPAD_A,
        stick_moved: true,
        stick_up: false,
        stick_down: false,
        stick_left: true,
        stick_right: false,
    };
    input.poll_gamepad(1, sample);
    let pad = input.current().controllers[1];
    assert!(pad.is_connected);
    assert!(pad.is_analog);
    assert_eq!(*pad.button(GameButton::ActionDown), GameButtonState { half_transition_count: 1, ended_down: true });
    assert_eq!(*pad.button(GameButton::MoveLeft), GameButtonState { half_transition_count: 1, ended_down: true });
    assert_eq!(*pad.button(GameButton::ActionUp), released());
    input.commit_tick();
    input.begin_tick();
    let held = GamepadSample { buttons: GAMEPAD_A | GAMEPAD_DPAD_UP, ..sample };
    input.poll_gamepad(1, held);
    let pad = input.current().controllers[1];
    assert!(!pad.is_analog);
    assert_eq!(*pad.button(GameButton::ActionDown), GameButtonState { half_transition_count: 0, ended_down: true });
    assert!(!input.current().controllers[2].is_connected);
}

#[test]
fn plan_write_wraps_round_the_ring() {
    let g = geometry(4, 1000);
    let sync = AudioSyncState { running_sample_index: 225 };
    let plan = plan_write(&g, &sync, 100, 0);
    assert_eq!(plan, WriteRegionPlan { lock_offset: 900, lock_length: 200 });
}

#[test]
fn plan_write_without_wrap() {
    let g = geometry(4, 1000);
    let sync = AudioSyncState { running_sample_index: 25 };
    let plan = plan_write(&g, &sync, 300, 50);
    assert_eq!(plan, WriteRegionPlan { lock_offset: 100, lock_length: 400 });
}

#[test]
fn plan_write_caught_up_is_empty_and_skipped() {
    let g = geometry(4, 1000);
    let sync = AudioSyncState { running_sample_index: 50 };
    let plan = plan_write(&g, &sync, 100, 25);
    assert_eq!(plan, WriteRegionPlan { lock_offset: 200, lock_length: 0 });
    let mut o = orchestrator(48000);
    o.sound.geometry = g;
    o.sound.sync_state = sync;
    o.sound.latency_sample_count = 25;
    assert_eq!(o.audio_step(Some(100)), AudioStep::Skip);
    assert_eq!(o.sound_buffer_for(AudioStep::Skip).sample_count, 0);
}

#[test]
fn first_tick_plans_the_whole_latency() {
    let g = geometry(4, 48000 * 4);
    assert_eq!(g.total_bytes, 192000);
    let sync = AudioSyncState { running_sample_index: 0 };
    let plan = plan_write(&g, &sync, 0, 800);
    assert_eq!(plan, WriteRegionPlan { lock_offset: 0, lock_length: 3200 });
}

#[test]
fn plan_write_uses_exact_products() {
    let g = geometry(4, 1000);
    let sync = AudioSyncState { running_sample_index: u32::MAX };
    let plan = plan_write(&g, &sync, u32::MAX, u32::MAX);
    let offset = (u32::MAX as u64 * 4 % 1000) as u32;
    let target = ((u32::MAX as u64 + u32::MAX as u64 * 4) % 1000) as u32;
    assert_eq!(plan.lock_offset, offset);
    let length = if offset > target { 1000 - offset + target } else { target - offset };
    assert_eq!(plan.lock_length, length);
}

#[test]
fn regions_split_only_when_wrapping() {
    let g = geometry(4, 1000);
    let plan = WriteRegionPlan { lock_offset: 900, lock_length: 200 };
    assert_eq!(
        plan.regions(&g),
        (WriteRegion { offset: 900, length: 100 }, Some(WriteRegion { offset: 0, length: 100 }))
    );
    let plan = WriteRegionPlan { lock_offset: 900, lock_length: 100 };
    assert_eq!(plan.regions(&g), (WriteRegion { offset: 900, length: 100 }, None));
    let plan = WriteRegionPlan { lock_offset: 100, lock_length: 400 };
    assert_eq!(plan.regions(&g), (WriteRegion { offset: 100, length: 400 }, None));
}

#[test]
fn write_round_trips_across_the_wrap() {
    let g = geometry(4, 1000);
    let source: Vec<i16> = (1..=100).collect();
    let mut region1 = vec![-1i16; 50];
    let mut region2 = vec![-1i16; 50];
    let mut sync = AudioSyncState { running_sample_index: 225 };
    let frames = write_samples(&mut sync, &g, &mut region1, &mut region2, &source);
    assert_eq!(frames, 50);
    assert_eq!(sync.running_sample_index, 275);
    let mut read_back = region1.clone();
    read_back.extend_from_slice(&region2);
    assert_eq!(read_back, source);
}

#[test]
fn write_copies_only_whole_frames() {
    let g = geometry(4, 1000);
    let source: Vec<i16> = (1..=10).collect();
    let mut region1 = vec![0i16; 5];
    let mut region2 = vec![0i16; 3];
    let mut sync = AudioSyncState { running_sample_index: 7 };
    let frames = write_samples(&mut sync, &g, &mut region1, &mut region2, &source);
    assert_eq!(frames, 3);
    assert_eq!(region1, vec![1, 2, 3, 4, 0]);
    assert_eq!(region2, vec![5, 6, 0]);
    assert_eq!(sync.running_sample_index, 10);
}

#[test]
fn running_index_wraps_on_write() {
    let g = geometry(4, 1000);
    let source = vec![7i16; 8];
    let mut region1 = vec![0i16; 8];
    let mut region2: Vec<i16> = Vec::new();
    let mut sync = AudioSyncState { running_sample_index: u32::MAX - 1 };
    let frames = write_samples(&mut sync, &g, &mut region1, &mut region2, &source);
    assert_eq!(frames, 4);
    assert_eq!(sync.running_sample_index, 2);
}

#[test]
fn clear_region_zeroes_every_byte() {
    let mut bytes = vec![9u8; 17];
    clear_region(&mut bytes);
    assert_eq!(bytes, vec![0u8; 17]);
}

#[test]
fn geometry_rejects_bad_shapes() {
    assert!(AudioRingGeometry::new(48000, 0, 1000).is_none());
    assert!(AudioRingGeometry::new(48000, 3, 1000).is_none());
    assert!(AudioRingGeometry::new(48000, 4, 0).is_none());
    assert!(AudioRingGeometry::new(48000, 4, 1000).is_some());
}

#[test]
fn sound_output_for_48khz() {
    let s = SoundOutput::new(48000).unwrap();
    assert_eq!(s.geometry, AudioRingGeometry { samples_per_second: 48000, bytes_per_sample: 4, total_bytes: 192000 });
    assert_eq!(s.sync_state.running_sample_index, 0);
    assert_eq!(s.latency_sample_count, 3200);
    assert_eq!(s.plan(0), WriteRegionPlan { lock_offset: 0, lock_length: 12800 });
    assert!(SoundOutput::new(0).is_none());
    assert!(SoundOutput::new(u32::MAX / 4 + 1).is_none());
    assert!(SoundOutput::new(u32::MAX / 4).is_some());
}

#[test]
fn sound_buffer_sized_for_plan() {
    let g = geometry(4, 1000);
    let b = GameSoundOutputBuffer::for_plan(&g, &WriteRegionPlan { lock_offset: 0, lock_length: 202 });
    assert_eq!(b.sample_count, 50);
    assert_eq!(b.samples.len(), 100);
    assert_eq!(b.samples_per_second, 48000);
}

#[test]
fn pacer_reports_missed_frame_when_budget_spent() {
    let t = FrameTiming::new(60, 10_000_000).unwrap();
    assert_eq!(t.game_update_hz, 30);
    assert!(!t.should_continue_waiting(333_334));
    assert!(!t.should_continue_waiting(400_000));
    assert!(t.should_continue_waiting(333_333));
    assert_eq!(t.next_pace_action(400_000, true, true), PaceAction::MissedFrame);
    assert_eq!(t.next_pace_action(400_000, false, true), PaceAction::Done);
}

#[test]
fn pacer_sleeps_then_spins() {
    let t = FrameTiming::new(60, 10_000_000).unwrap();
    assert_eq!(t.next_pace_action(0, true, true), PaceAction::Sleep { milliseconds: 33 });
    assert_eq!(t.next_pace_action(300_000, false, true), PaceAction::Sleep { milliseconds: 3 });
    assert_eq!(t.next_pace_action(325_000, false, true), PaceAction::Spin);
    assert_eq!(t.next_pace_action(0, true, false), PaceAction::Spin);
}

#[test]
fn pacer_rejects_bad_config() {
    assert!(FrameTiming::new(1, 10_000_000).is_none());
    assert!(FrameTiming::new(0, 10_000_000).is_none());
    assert!(FrameTiming::new(-60, 10_000_000).is_none());
    assert!(FrameTiming::new(60, 0).is_none());
}

#[test]
fn gradient_pixels() {
    let mut b = GameOffscreenBuffer::new(3, 2);
    assert_eq!(b.pitch, 12);
    b.render_weird_gradient(0, 0);
    assert_eq!(b.memory, vec![0, 1, 2, 256, 257, 258]);
    b.render_weird_gradient(i32::MAX, 1);
    assert_eq!(b.memory[0], (1 << 8) | i32::MAX);
    assert_eq!(b.memory[1], (1 << 8) | i32::MIN);
}

#[test]
fn game_update_starts_tone_and_moves_green() {
    let mut memory = GameMemory::new(megabytes_to_bytes(64), gigabytes_to_bytes(4));
    let mut input = InputDoubleBuffer::new();
    input.begin_tick();
    input.process_key_message(hm::input::KEY_DOWN, KEY_DOWN_FLAGS);
    let mut buffer = GameOffscreenBuffer::new(2, 2);
    let stick = StickTuning { blue_step: 4, tone_step: 128 };
    game_update_and_render(&mut memory, input.current(), stick, &mut buffer);
    assert!(memory.is_initialized);
    assert_eq!(memory.game_state.tone_hz, 256);
    assert_eq!(memory.game_state.green_offset, 1);
    assert_eq!(memory.game_state.blue_offset, 0);
    assert_eq!(buffer.memory, vec![256, 257, 512, 513]);
}

#[test]
fn game_update_analog_tuning() {
    let mut memory = GameMemory::new(1, 1);
    let mut input = InputDoubleBuffer::new();
    input.begin_tick();
    input.poll_gamepad(1, GamepadSample { buttons: 0, stick_moved: true, stick_up: false, stick_down: false, stick_left: false, stick_right: false });
    let mut inp = *input.current();
    inp.controllers[0] = inp.controllers[1];
    let mut buffer = GameOffscreenBuffer::new(1, 1);
    game_update_and_render(&mut memory, &inp, StickTuning { blue_step: -4, tone_step: 64 }, &mut buffer);
    assert_eq!(memory.game_state.tone_hz, 320);
    assert_eq!(memory.game_state.blue_offset, -4);
    assert_eq!(memory.game_state.green_offset, 0);
    assert_eq!(buffer.memory, vec![-4]);
}

#[test]
fn unit_conversions() {
    assert_eq!(megabytes_to_bytes(64), 67_108_864);
    assert_eq!(gigabytes_to_bytes(4), 4_294_967_296);
    assert_eq!(terabytes_to_bytes(2), 2_199_023_255_552);
    assert_eq!(safe_truncate_i64_to_u32(123_456), 123_456);
}

#[test]
fn read_result_needs_whole_file() {
    let r = DebugPlatformReadFileResult::from_read(3, vec![1, 2, 3]).unwrap();
    assert_eq!(r.size, 3);
    assert_eq!(r.memory, vec![1, 2, 3]);
    assert!(DebugPlatformReadFileResult::from_read(4, vec![1, 2, 3]).is_none());
    assert_eq!(DebugPlatformReadFileResult::from_read(0, Vec::new()).unwrap().size, 0);
}

fn orchestrator(samples_per_second: u32) -> FrameOrchestrator {
    FrameOrchestrator::new(FrameConfig {
        monitor_refresh_hz: 60,
        ticks_per_second: 10_000_000,
        samples_per_second,
        width: 4,
        height: 2,
        permanent_storage_size: 64,
        transient_storage_size: 64,
    })
    .unwrap()
}

#[test]
fn phases_follow_start_quit_and_tick_end() {
    assert_eq!(next_phase(FramePhase::Idle, FrameEvent::Start), FramePhase::Running);
    assert_eq!(next_phase(FramePhase::Idle, FrameEvent::Quit), FramePhase::Idle);
    assert_eq!(next_phase(FramePhase::Running, FrameEvent::TickFinished), FramePhase::Running);
    assert_eq!(next_phase(FramePhase::Running, FrameEvent::Quit), FramePhase::Stopping);
    assert_eq!(next_phase(FramePhase::Stopping, FrameEvent::Quit), FramePhase::Stopping);
    assert_eq!(next_phase(FramePhase::Stopping, FrameEvent::TickFinished), FramePhase::Stopped);
    assert_eq!(next_phase(FramePhase::Stopped, FrameEvent::Start), FramePhase::Stopped);
}

#[test]
fn orchestrator_runs_a_tick() {
    let mut o = orchestrator(48000);
    assert_eq!(o.phase, FramePhase::Idle);
    o.handle_event(FrameEvent::Start);
    assert!(o.is_running());
    o.begin_tick();
    assert_eq!(o.audio_step(None), AudioStep::Skip);
    let step = o.audio_step(Some(0));
    assert_eq!(step, AudioStep::Write(WriteRegionPlan { lock_offset: 0, lock_length: 12800 }));
    let sound = o.sound_buffer_for(step);
    assert_eq!(sound.sample_count, 3200);
    o.update_and_render(StickTuning { blue_step: 0, tone_step: 0 });
    let mut region1 = vec![0i16; 6400];
    let mut region2: Vec<i16> = Vec::new();
    assert_eq!(o.commit_audio(&mut region1, &mut region2, &sound.samples), 3200);
    assert_eq!(o.sound.sync_state.running_sample_index, 3200);
    o.handle_event(FrameEvent::Quit);
    assert_eq!(o.phase, FramePhase::Stopping);
    o.finish_tick();
    assert_eq!(o.phase, FramePhase::Stopped);
}

#[test]
fn orchestrator_rejects_bad_config() {
    let base = FrameConfig {
        monitor_refresh_hz: 60,
        ticks_per_second: 10_000_000,
        samples_per_second: 48000,
        width: 4,
        height: 2,
        permanent_storage_size: 64,
        transient_storage_size: 64,
    };
    assert!(FrameOrchestrator::new(base).is_some());
    assert!(FrameOrchestrator::new(FrameConfig { monitor_refresh_hz: 0, ..base }).is_none());
    assert!(FrameOrchestrator::new(FrameConfig { ticks_per_second: 0, ..base }).is_none());
    assert!(FrameOrchestrator::new(FrameConfig { samples_per_second: 0, ..base }).is_none());
}
