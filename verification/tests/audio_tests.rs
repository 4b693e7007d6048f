use miditui::audio::engine::{
    configure_track, elapsed_ticks, instrument_names, ticks_to_micros, FrameCursor, PlaybackState,
    PresetInfo, SynthCommand, Transport, BUFFER_SIZE,
};
use miditui::audio::export::{
    chunk_frames, events_due, render_events, setup_commands, tick_at_sample, total_samples,
    RenderEvent,
};
use miditui::audio::sequencer::dispatch;
use miditui::midi::{IdAllocator, Project, Track};

#[test]
fn elapsed_ticks_floor() {
    assert_eq!(elapsed_ticks(0, 120), 0);
    assert_eq!(elapsed_ticks(499_999, 120), 479);
    assert_eq!(elapsed_ticks(500_000, 120), 480);
    assert_eq!(elapsed_ticks(1_000_000, 120), 960);
    assert_eq!(elapsed_ticks(1_000_000, 60), 480);
    assert_eq!(elapsed_ticks(1_000_000, 0), 0);
    assert_eq!(elapsed_ticks(u64::MAX, u32::MAX), u32::MAX);
}

#[test]
fn transport_states() {
    let mut t = Transport::new();
    assert_eq!(t.playback_state(), PlaybackState::Stopped);
    assert!(!t.is_playing());
    t.set_playing(true);
    assert_eq!(t.playback_state(), PlaybackState::Playing);
    t.set_position_ticks(77);
    t.set_playing(false);
    assert_eq!(t.playback_state(), PlaybackState::Paused);
    assert_eq!(t.position_ticks(), 77);
    t.set_tempo(90);
    assert_eq!(t.stop(), SynthCommand::AllNotesOff { immediate: true });
    assert_eq!(t.playback_state(), PlaybackState::Stopped);
    assert_eq!(t.position_ticks(), 0);
    assert_eq!(t.tempo(), 90);
}

#[test]
fn track_setup_is_program_volume_pan() {
    let mut ids = IdAllocator::new();
    let mut track = Track::new(&mut ids, "T", 4);
    track.program = 9;
    track.volume = 8;
    track.pan = 7;
    assert_eq!(
        configure_track(&track),
        vec![
            SynthCommand::SetProgram { channel: 4, program: 9 },
            SynthCommand::SetVolume { channel: 4, volume: 8 },
            SynthCommand::SetPan { channel: 4, pan: 7 },
        ]
    );
}

#[test]
fn instrument_names_fall_back_to_the_number() {
    let presets = vec![
        PresetInfo { bank: 0, patch: 0, name: "Grand".to_string() },
        PresetInfo { bank: 1, patch: 1, name: "Other bank".to_string() },
        PresetInfo { bank: 0, patch: 127, name: "Gun".to_string() },
        PresetInfo { bank: 0, patch: 128, name: "Beyond".to_string() },
        PresetInfo { bank: 0, patch: 0, name: "Grand 2".to_string() },
        PresetInfo { bank: 0, patch: -1, name: "Below".to_string() },
    ];
    let names = instrument_names(&presets);
    assert_eq!(names.len(), 128);
    assert_eq!(names[0], "Grand 2");
    assert_eq!(names[1], "Program 1");
    assert_eq!(names[100], "Program 100");
    assert_eq!(names[127], "Gun");
}

#[test]
fn frame_cursor_hands_out_left_then_right() {
    let mut cursor = FrameCursor::new();
    assert!(cursor.needs_refill());
    cursor.refilled();
    let mut slots = Vec::new();
    while !cursor.needs_refill() {
        let slot = cursor.advance();
        slots.push((slot.frame, slot.left));
    }
    assert_eq!(slots.len(), 2 * BUFFER_SIZE);
    assert_eq!(&slots[..4], &[(0, true), (0, false), (1, true), (1, false)]);
    assert_eq!(slots[2 * BUFFER_SIZE - 1], (BUFFER_SIZE - 1, false));
}

fn two_track_project() -> Project {
    let mut ids = IdAllocator::new();
    let mut project = Project::new("P");
    let a = project.create_track(&mut ids, "A");
    let b = project.create_track(&mut ids, "B");
    let t = project.get_track_mut(a).unwrap();
    t.create_note(&mut ids, 60, 100, 0, 480);
    t.create_note(&mut ids, 62, 90, 480, 480);
    let t = project.get_track_mut(b).unwrap();
    t.create_note(&mut ids, 40, 80, 0, 960);
    project
}

#[test]
fn dispatch_sends_what_lies_in_the_window() {
    let project = two_track_project();
    let (commands, active) = dispatch(&project, None, 0);
    assert_eq!(
        commands,
        vec![
            SynthCommand::NoteOn { channel: 0, pitch: 60, velocity: 100 },
            SynthCommand::NoteOn { channel: 1, pitch: 40, velocity: 80 },
        ]
    );
    assert_eq!(active.len(), 2);
    let (commands, active) = dispatch(&project, Some(0), 479);
    assert!(commands.is_empty());
    assert!(active.contains(&0) && active.contains(&1));
    let (commands, _) = dispatch(&project, Some(479), 480);
    assert_eq!(
        commands,
        vec![
            SynthCommand::NoteOff { channel: 0, pitch: 60 },
            SynthCommand::NoteOn { channel: 0, pitch: 62, velocity: 90 },
        ]
    );
    let (commands, active) = dispatch(&project, Some(480), 5000);
    assert_eq!(
        commands,
        vec![
            SynthCommand::NoteOff { channel: 0, pitch: 62 },
            SynthCommand::NoteOff { channel: 1, pitch: 40 },
        ]
    );
    assert!(active.is_empty());
    let (commands, _) = dispatch(&project, Some(5000), 5000);
    assert!(commands.is_empty());
}

#[test]
fn dispatch_honours_mute_and_solo() {
    let mut project = two_track_project();
    project.track_at_mut(0).unwrap().muted = true;
    let (commands, active) = dispatch(&project, None, 0);
    assert_eq!(commands, vec![SynthCommand::NoteOn { channel: 1, pitch: 40, velocity: 80 }]);
    assert!(!active.contains(&0) && active.contains(&1));
    project.track_at_mut(0).unwrap().solo = true;
    let (commands, active) = dispatch(&project, None, 0);
    assert!(commands.is_empty());
    assert!(active.is_empty());
}

#[test]
fn every_note_gets_one_on_and_one_off_over_a_run() {
    let project = two_track_project();
    let mut last = None;
    let mut ons = 0;
    let mut offs = 0;
    let mut tick = 0u32;
    let mut step = 1u32;
    while tick < 1200 {
        let (commands, _) = dispatch(&project, last, tick);
        for c in commands {
            match c {
                SynthCommand::NoteOn { pitch: 62, .. } => ons += 1,
                SynthCommand::NoteOff { pitch: 62, .. } => offs += 1,
                _ => {}
            }
        }
        last = Some(tick);
        step = step * 2 % 37 + 1;
        tick += step;
    }
    assert_eq!((ons, offs), (1, 1));
}

#[test]
fn render_events_put_note_offs_first() {
    let project = two_track_project();
    let events = render_events(&project);
    let on = |tick, channel, pitch, velocity| RenderEvent { tick, is_note_on: true, channel, pitch, velocity };
    let off = |tick, channel, pitch| RenderEvent { tick, is_note_on: false, channel, pitch, velocity: 0 };
    assert_eq!(
        events,
        vec![
            on(0, 0, 60, 100),
            on(0, 1, 40, 80),
            off(480, 0, 60),
            on(480, 0, 62, 90),
            off(960, 0, 62),
            off(960, 1, 40),
        ]
    );
    assert_eq!(events_due(&events, 0, 0), 2);
    assert_eq!(events_due(&events, 2, 479), 2);
    assert_eq!(events_due(&events, 2, 480), 4);
    assert_eq!(events_due(&events, 4, u32::MAX), 6);
    assert_eq!(events_due(&events, 6, u32::MAX), 6);
}

#[test]
fn render_leaves_out_what_is_not_played() {
    let mut project = two_track_project();
    project.track_at_mut(1).unwrap().solo = true;
    let events = render_events(&project);
    assert_eq!(events.len(), 2);
    assert!(events.iter().all(|e| e.channel == 1));
    assert_eq!(
        setup_commands(&project),
        vec![
            SynthCommand::SetProgram { channel: 1, program: 0 },
            SynthCommand::SetVolume { channel: 1, volume: 100 },
            SynthCommand::SetPan { channel: 1, pan: 64 },
        ]
    );
    project.track_at_mut(1).unwrap().muted = true;
    assert!(render_events(&project).is_empty());
    assert!(setup_commands(&project).is_empty());
}

#[test]
fn samples_and_ticks_of_a_render() {
    // 960 ticks at 120 beats a minute are one second.
    assert_eq!(total_samples(960, 120, 44100), 44100 + 2 * 44100);
    assert_eq!(total_samples(0, 120, 44100), 88200);
    assert_eq!(total_samples(1, 120, 44100), 88200 + 45);
    assert_eq!(tick_at_sample(0, 120, 44100), 0);
    assert_eq!(tick_at_sample(44100, 120, 44100), 960);
    assert_eq!(tick_at_sample(4096, 120, 44100), 89);
    assert_eq!(tick_at_sample(u64::MAX, 300, 1), u32::MAX);
    assert_eq!(chunk_frames(0, 10_000), 4096);
    assert_eq!(chunk_frames(8192, 10_000), 1808);
    assert_eq!(chunk_frames(10_000, 10_000), 0);
    assert_eq!(chunk_frames(10_001, 10_000), 0);
}

#[test]
fn the_time_at_which_a_tick_is_reached() {
    assert_eq!(ticks_to_micros(0, 120), 0);
    assert_eq!(ticks_to_micros(480, 120), 500_000);
    assert_eq!(ticks_to_micros(960, 120), 1_000_000);
    assert_eq!(ticks_to_micros(480, 60), 1_000_000);
    assert_eq!(ticks_to_micros(1, 300), 417);
    assert_eq!(ticks_to_micros(u32::MAX, 1), u32::MAX as u64 * 125_000);
    for tempo in [1u32, 20, 97, 120, 299, 300, 125_000] {
        for ticks in [0u32, 1, 2, 479, 480, 481, 100_000, u32::MAX] {
            let micros = ticks_to_micros(ticks, tempo);
            assert_eq!(elapsed_ticks(micros, tempo), ticks);
            if micros > 0 {
                assert!(elapsed_ticks(micros - 1, tempo) < ticks);
            }
        }
    }
    let mut ids = IdAllocator::new();
    let mut project = Project::with_default_track(&mut ids, "p");
    assert_eq!(project.duration_micros(), 0);
    project.track_at_mut(0).unwrap().create_note(&mut ids, 60, 100, 480, 480);
    assert_eq!(project.duration_micros(), 1_000_000);
    project.tempo = 90;
    assert_eq!(project.duration_micros(), 1_333_334);
}

#[test]
fn commands_as_midi_messages() {
    let message = |command: SynthCommand| {
        command.midi_message().map(|m| (m.channel, m.status, m.data1, m.data2))
    };
    assert_eq!(
        message(SynthCommand::NoteOn { channel: 3, pitch: 60, velocity: 100 }),
        Some((3, 0x90, 60, 100))
    );
    assert_eq!(message(SynthCommand::NoteOff { channel: 3, pitch: 60 }), Some((3, 0x80, 60, 0)));
    assert_eq!(message(SynthCommand::SetProgram { channel: 9, program: 12 }), Some((9, 0xC0, 12, 0)));
    assert_eq!(message(SynthCommand::SetVolume { channel: 0, volume: 101 }), Some((0, 0xB0, 7, 101)));
    assert_eq!(message(SynthCommand::SetPan { channel: 15, pan: 64 }), Some((15, 0xB0, 10, 64)));
    assert_eq!(message(SynthCommand::AllNotesOff { immediate: true }), None);
    assert_eq!(message(SynthCommand::AllNotesOff { immediate: false }), None);
}

#[test]
fn a_render_sends_every_event_before_it_ends() {
    for tempo in [20u32, 97, 120, 300] {
        let mut ids = IdAllocator::new();
        let mut project = Project::with_default_track(&mut ids, "p");
        project.tempo = tempo;
        let track = project.track_at_mut(0).unwrap();
        track.create_note(&mut ids, 60, 100, 0, 480);
        track.create_note(&mut ids, 64, 100, 480, 3);
        track.create_note(&mut ids, 67, 100, 9_000, 1_000);
        let events = render_events(&project);
        assert_eq!(events.len(), 6);
        let total = total_samples(project.duration_ticks(), tempo, 44_100);
        let mut done = 0u64;
        let mut next = 0usize;
        let mut last_tick = 0u32;
        while done < total {
            let tick = tick_at_sample(done, tempo, 44_100);
            assert!(tick >= last_tick);
            last_tick = tick;
            let end = events_due(&events, next, tick);
            assert!(end >= next);
            assert!(events[next..end].iter().all(|e| e.tick <= tick));
            assert!(events[end..].first().map_or(true, |e| e.tick > tick));
            next = end;
            let frames = chunk_frames(done, total);
            assert!(frames > 0);
            done += frames as u64;
        }
        assert_eq!(done, total);
        assert_eq!(next, events.len());
    }
}
