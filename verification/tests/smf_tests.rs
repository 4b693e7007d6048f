use miditui::midi::midi_export::{
    build_track_data, export_to_midi, write_event, write_track_chunk, MidiEvent, MidiExportError,
    TimedEvent,
};
use miditui::midi::midi_import::{import_from_midi, project_from_smf, MidiImportError};
use miditui::midi::smf::{parse_smf, SmfEvent, SmfFile, SmfFormat, SmfMessage, SmfTiming};
use miditui::midi::{IdAllocator, Project, Track};

fn chunk(tag: &[u8; 4], data: &[u8]) -> Vec<u8> {
    let mut out = tag.to_vec();
    out.extend_from_slice(&(data.len() as u32).to_be_bytes());
    out.extend_from_slice(data);
    out
}

fn smf(format: u16, division: u16, tracks: &[Vec<u8>]) -> Vec<u8> {
    let mut header = Vec::new();
    header.extend_from_slice(&format.to_be_bytes());
    header.extend_from_slice(&(tracks.len() as u16).to_be_bytes());
    header.extend_from_slice(&division.to_be_bytes());
    let mut out = chunk(b"MThd", &header);
    for track in tracks {
        out.extend_from_slice(&chunk(b"MTrk", track));
    }
    out
}

fn notes_of(track: &Track) -> Vec<(u8, u8, u32, u32)> {
    track
        .notes()
        .iter()
        .map(|n| (n.pitch, n.velocity, n.start_tick, n.duration_ticks))
        .collect()
}

#[test]
fn minimal_round_trip() {
    let mut ids = IdAllocator::new();
    let mut project = Project::new("Test");
    let id = project.create_track(&mut ids, "Piano");
    let track = project.get_track_mut(id).unwrap();
    track.create_note(&mut ids, 60, 100, 0, 480);
    track.create_note(&mut ids, 64, 100, 480, 480);
    track.create_note(&mut ids, 67, 100, 960, 480);

    let bytes = export_to_midi(&project).unwrap();
    let mut fresh = IdAllocator::new();
    let loaded = import_from_midi(&bytes, "Loaded", &mut fresh).unwrap();

    assert_eq!(loaded.name, "Loaded");
    assert_eq!(loaded.tempo, 120);
    assert_eq!(loaded.time_sig_numerator, 4);
    assert_eq!(loaded.time_sig_denominator, 4);
    assert_eq!(loaded.track_count(), 1);
    let track = loaded.track_at(0).unwrap();
    assert_eq!(track.name, "Piano");
    assert_eq!((track.channel, track.program, track.volume, track.pan), (0, 0, 100, 64));
    assert_eq!(
        notes_of(track),
        vec![(60, 100, 0, 480), (64, 100, 480, 480), (67, 100, 960, 480)]
    );
    assert_eq!(fresh.next_track, 2);
    assert_eq!(fresh.next_note, 4);
}

#[test]
fn round_trip_of_mixer_tempo_and_signature() {
    let mut ids = IdAllocator::new();
    let mut project = Project::new("Song");
    project.tempo = 97;
    project.time_sig_numerator = 7;
    project.time_sig_denominator = 8;
    for (i, name) in ["Bass", "Lead \u{266b}", "Pad"].iter().enumerate() {
        let id = project.create_track(&mut ids, name);
        let track = project.get_track_mut(id).unwrap();
        track.program = 30 + i as u8;
        track.volume = 90 + i as u8;
        track.pan = 10 * i as u8;
        track.muted = i == 1;
        for k in 0..5u32 {
            track.create_note(&mut ids, 40 + (i as u8) * 12 + k as u8, 70 + k as u8, k * 300, 200 + k);
        }
    }
    let bytes = project.export_to_midi().unwrap();
    let loaded = import_from_midi(&bytes, "Song", &mut IdAllocator::new()).unwrap();
    assert_eq!(loaded.tempo, 97);
    assert_eq!((loaded.time_sig_numerator, loaded.time_sig_denominator), (7, 8));
    assert_eq!(loaded.track_count(), 3);
    for i in 0..3 {
        let a = project.track_at(i).unwrap();
        let b = loaded.track_at(i).unwrap();
        assert_eq!(a.name, b.name);
        assert_eq!((a.channel, a.program, a.volume, a.pan), (b.channel, b.program, b.volume, b.pan));
        assert_eq!(notes_of(a), notes_of(b));
        assert!(!b.muted && !b.solo);
    }
}

#[test]
fn export_of_an_empty_project_byte_for_byte() {
    let mut project = Project::new("T");
    project.tempo = 120;
    let bytes = export_to_midi(&project).unwrap();
    let expected: Vec<u8> = vec![
        0x4D, 0x54, 0x68, 0x64, 0, 0, 0, 6, 0, 1, 0, 1, 0x01, 0xE0, // header
        0x4D, 0x54, 0x72, 0x6B, 0, 0, 0, 24, // tempo track
        0x00, 0xFF, 0x03, 0x01, 0x54, // name "T"
        0x00, 0xFF, 0x58, 0x04, 0x04, 0x02, 24, 8, // 4/4
        0x00, 0xFF, 0x51, 0x03, 0x07, 0xA1, 0x20, // 500000 microseconds
        0x00, 0xFF, 0x2F, 0x00, // end
    ];
    assert_eq!(bytes, expected);
}

#[test]
fn export_orders_events_of_one_tick_by_priority() {
    let mut ids = IdAllocator::new();
    let mut project = Project::new("");
    let id = project.create_track(&mut ids, "A");
    let track = project.get_track_mut(id).unwrap();
    track.channel = 3;
    track.program = 5;
    track.volume = 6;
    track.pan = 7;
    track.create_note(&mut ids, 60, 100, 0, 480);
    track.create_note(&mut ids, 62, 90, 480, 480);
    let bytes = export_to_midi(&project).unwrap();
    // Behind the header (14) and the tempo track (8 + 24) comes the music track.
    let music = &bytes[14 + 8 + 24..];
    let expected: Vec<u8> = vec![
        0x4D, 0x54, 0x72, 0x6B, 0, 0, 0, 38, //
        0x00, 0xFF, 0x03, 0x01, 0x41, // name "A"
        0x00, 0xC3, 5, // program
        0x00, 0xB3, 7, 6, // volume
        0x00, 0xB3, 10, 7, // pan
        0x00, 0x93, 60, 100, // first note on
        0x83, 0x60, 0x93, 62, 90, // second note on at 480, before the note-off of that tick
        0x00, 0x83, 60, 0, // first note off
        0x83, 0x60, 0x83, 62, 0, // second note off at 960
        0x00, 0xFF, 0x2F, 0x00, // end
    ];
    assert_eq!(music, &expected[..]);
}

#[test]
fn export_refuses_a_tempo_of_zero() {
    let mut project = Project::new("T");
    project.tempo = 0;
    assert_eq!(export_to_midi(&project), Err(MidiExportError::ZeroTempo));
    assert_eq!(project.export_to_midi(), Err(MidiExportError::ZeroTempo));
}

#[test]
fn track_of_an_empty_track_ends_at_tick_one() {
    let mut ids = IdAllocator::new();
    let mut project = Project::new("");
    project.create_track(&mut ids, "");
    let bytes = export_to_midi(&project).unwrap();
    let tail = &bytes[bytes.len() - 4..];
    assert_eq!(tail, &[0x01, 0xFF, 0x2F, 0x00]);
}

#[test]
fn events_and_chunks_are_written_as_bytes() {
    let mut buffer = vec![9];
    write_event(&MidiEvent::NoteOn { channel: 17, pitch: 60, velocity: 1 }, &mut buffer);
    write_event(&MidiEvent::NoteOff { channel: 2, pitch: 61, velocity: 0 }, &mut buffer);
    write_event(&MidiEvent::SetTempo { microseconds_per_beat: 0x0102_0304 }, &mut buffer);
    write_event(&MidiEvent::TimeSignature { numerator: 6, denominator_power: 3 }, &mut buffer);
    write_event(&MidiEvent::TrackName { name: "é".to_string() }, &mut buffer);
    write_event(&MidiEvent::EndOfTrack, &mut buffer);
    assert_eq!(
        buffer,
        vec![
            9, 0x91, 60, 1, 0x82, 61, 0, 0xFF, 0x51, 3, 2, 3, 4, 0xFF, 0x58, 4, 6, 3, 24, 8, 0xFF,
            3, 2, 0xC3, 0xA9, 0xFF, 0x2F, 0
        ]
    );
    let events = vec![
        TimedEvent::new(200, MidiEvent::EndOfTrack, 255),
        TimedEvent::new(100, MidiEvent::NoteOff { channel: 0, pitch: 1, velocity: 0 }, 11),
        TimedEvent::new(100, MidiEvent::NoteOn { channel: 0, pitch: 2, velocity: 3 }, 10),
        TimedEvent::new(0, MidiEvent::ProgramChange { channel: 0, program: 4 }, 1),
    ];
    let data = build_track_data(&events);
    assert_eq!(
        data,
        vec![0, 0xC0, 4, 100, 0x90, 2, 3, 0, 0x80, 1, 0, 100, 0xFF, 0x2F, 0]
    );
    let mut out = Vec::new();
    assert_eq!(write_track_chunk(&mut out, &data), Ok(()));
    assert_eq!(&out[..8], &[0x4D, 0x54, 0x72, 0x6B, 0, 0, 0, 15]);
    assert_eq!(&out[8..], &data[..]);
}

#[test]
fn import_of_format_zero_with_two_channels() {
    let track: Vec<u8> = vec![
        0x00, 0xFF, 0x03, 0x04, b'B', b'a', b'n', b'd', // name
        0x00, 0xFF, 0x51, 0x03, 0x09, 0x27, 0xC0, // 600000 microseconds: 100 bpm
        0x00, 0xFF, 0x58, 0x04, 3, 3, 24, 8, // 3/8
        0x00, 0xC5, 40, // channel 5 program 40
        0x00, 0x91, 60, 90, // channel 1 note on
        0x00, 0xB5, 7, 80, // channel 5 volume
        0x00, 0xB5, 10, 20, // channel 5 pan
        0x00, 0xB5, 1, 99, // modulation: passed over
        0x60, 0x95, 72, 50, // 96 later: channel 5 note on
        0x60, 0x81, 60, 0, // 96 later: channel 1 note off
        0x00, 0x95, 72, 0, // channel 5 note on with velocity 0
        0x00, 0xE1, 0, 64, // pitch bend: passed over
        0x00, 0xFF, 0x2F, 0x00,
    ];
    let bytes = smf(0, 96, &[track]);
    let mut ids = IdAllocator::starting_at(10, 20);
    let project = import_from_midi(&bytes, "Zero", &mut ids).unwrap();
    assert_eq!(project.tempo, 100);
    assert_eq!((project.time_sig_numerator, project.time_sig_denominator), (3, 8));
    assert_eq!(project.track_count(), 2);
    let one = project.track_at(0).unwrap();
    let five = project.track_at(1).unwrap();
    assert_eq!((one.channel, one.program, one.volume, one.pan), (1, 0, 100, 64));
    assert_eq!((five.channel, five.program, five.volume, five.pan), (5, 40, 80, 20));
    assert_eq!(one.name, "Band");
    assert_eq!(five.name, "Band");
    assert_eq!(notes_of(one), vec![(60, 90, 0, 960)]);
    assert_eq!(notes_of(five), vec![(72, 50, 480, 480)]);
    // Channel 5 was seen first and got the first track identifier.
    assert_eq!(five.id.as_u64(), 20);
    assert_eq!(one.id.as_u64(), 21);
    assert_eq!(one.notes()[0].id.as_u64(), 10);
    assert_eq!(five.notes()[0].id.as_u64(), 11);
    assert_eq!((ids.next_note, ids.next_track), (12, 22));
}

#[test]
fn import_closes_what_is_left_open_with_one_beat() {
    let track: Vec<u8> = vec![
        0x00, 0x90, 60, 100, //
        0x0A, 0x90, 62, 101, //
        0x0A, 0x90, 60, 102, // takes the place of the first
        0x00, 0xFF, 0x2F, 0x00,
    ];
    let bytes = smf(1, 480, &[vec![0x00, 0xFF, 0x2F, 0x00], track]);
    let project = import_from_midi(&bytes, "Open", &mut IdAllocator::new()).unwrap();
    assert_eq!(project.track_count(), 1);
    let t = project.track_at(0).unwrap();
    assert_eq!(t.name, "Track 2");
    assert_eq!(notes_of(t), vec![(62, 101, 10, 480), (60, 102, 20, 480)]);
    assert_eq!(project.tempo, 120);
}

#[test]
fn import_gives_a_note_at_least_one_tick() {
    let track: Vec<u8> = vec![0x00, 0x90, 60, 100, 0x00, 0x80, 60, 0, 0x00, 0xFF, 0x2F, 0x00];
    let bytes = smf(0, 480, &[track]);
    let project = import_from_midi(&bytes, "x", &mut IdAllocator::new()).unwrap();
    assert_eq!(notes_of(project.track_at(0).unwrap()), vec![(60, 100, 0, 1)]);
}

#[test]
fn import_of_a_tempo_track_with_and_without_notes() {
    let meta_only: Vec<u8> = vec![0x00, 0xC0, 5, 0x00, 0xFF, 0x2F, 0x00];
    let bytes = smf(1, 480, &[meta_only.clone()]);
    let project = import_from_midi(&bytes, "x", &mut IdAllocator::new()).unwrap();
    // The tempo track gave nothing, so the project got its one empty track.
    assert_eq!(project.track_count(), 1);
    assert_eq!(project.track_at(0).unwrap().name, "Track 1");
    assert_eq!(project.track_at(0).unwrap().program, 0);

    let with_note: Vec<u8> = vec![
        0x00, 0xC0, 5, 0x00, 0x91, 60, 100, 0x10, 0x81, 60, 0, 0x00, 0xFF, 0x2F, 0x00,
    ];
    let bytes = smf(1, 480, &[with_note.clone()]);
    let project = import_from_midi(&bytes, "x", &mut IdAllocator::new()).unwrap();
    assert_eq!(project.track_count(), 2);
    assert_eq!(project.track_at(0).unwrap().program, 5);
    assert_eq!(notes_of(project.track_at(1).unwrap()), vec![(60, 100, 0, 16)]);

    // In format 0 the same events always give their track.
    let bytes = smf(0, 480, &[meta_only]);
    let project = import_from_midi(&bytes, "x", &mut IdAllocator::new()).unwrap();
    assert_eq!(project.track_count(), 1);
    assert_eq!(project.track_at(0).unwrap().program, 5);
}

#[test]
fn import_passes_over_a_name_that_is_no_utf8() {
    let track: Vec<u8> = vec![
        0x00, 0xFF, 0x03, 0x02, 0xFF, 0xFE, 0x00, 0x90, 60, 1, 0x00, 0xFF, 0x2F, 0x00,
    ];
    let bytes = smf(0, 480, &[track]);
    let project = import_from_midi(&bytes, "x", &mut IdAllocator::new()).unwrap();
    assert_eq!(project.track_at(0).unwrap().name, "Track 1");
}

#[test]
fn import_rejects_what_it_does_not_read() {
    let end = vec![0x00, 0xFF, 0x2F, 0x00];
    let mut ids = IdAllocator::new();
    match import_from_midi(&smf(2, 480, &[end.clone()]), "x", &mut ids) {
        Err(MidiImportError::UnsupportedFormat(text)) => {
            assert_eq!(text, "Format 2 (sequential) MIDI files not supported")
        }
        other => panic!("{:?}", other),
    }
    match import_from_midi(&smf(1, 0xE728, &[end.clone()]), "x", &mut ids) {
        Err(MidiImportError::UnsupportedFormat(text)) => {
            assert_eq!(text, "SMPTE timecode timing not supported")
        }
        other => panic!("{:?}", other),
    }
    match import_from_midi(&smf(1, 0, &[end]), "x", &mut ids) {
        Err(MidiImportError::ParseError(_)) => {}
        other => panic!("{:?}", other),
    }
    match import_from_midi(b"not a midi file", "x", &mut ids) {
        Err(MidiImportError::ParseError(text)) => assert!(!text.is_empty()),
        other => panic!("{:?}", other),
    }
    assert_eq!((ids.next_note, ids.next_track), (1, 1));
}

#[test]
fn parse_reads_header_and_events() {
    let track: Vec<u8> = vec![
        0x81, 0x00, 0x92, 64, 10, // delta 128
        0x05, 64, 0, // running status
        0x00, 0xA2, 64, 5, // aftertouch
        0x00, 0xFF, 0x01, 0x01, b'x', // text
        0x00, 0xF0, 0x01, 0xF7, // sysex
        0x00, 0xFF, 0x2F, 0x00,
    ];
    let file = parse_smf(&smf(1, 96, &[track])).unwrap();
    assert_eq!(file.format, SmfFormat::Parallel);
    assert_eq!(file.timing, SmfTiming::Metrical(96));
    assert_eq!(file.tracks.len(), 1);
    let events = &file.tracks[0];
    assert_eq!(events.len(), 6);
    assert_eq!(events[0].delta, 128);
    assert!(matches!(events[0].message, SmfMessage::NoteOn { channel: 2, key: 64, velocity: 10 }));
    assert_eq!(events[1].delta, 5);
    assert!(matches!(events[1].message, SmfMessage::NoteOn { channel: 2, key: 64, velocity: 0 }));
    assert!(matches!(events[2].message, SmfMessage::OtherChannel { channel: 2 }));
    assert!(matches!(events[3].message, SmfMessage::Other));
    assert!(matches!(events[4].message, SmfMessage::Other));
    assert!(matches!(events[5].message, SmfMessage::Other));
    let timecode = parse_smf(&smf(0, 0xE728, &[vec![0x00, 0xFF, 0x2F, 0x00]])).unwrap();
    assert_eq!(timecode.timing, SmfTiming::Timecode);
    assert_eq!(timecode.format, SmfFormat::SingleTrack);
    assert!(parse_smf(&[]).is_err());
}

#[test]
fn project_from_events_scales_and_ignores_odd_signatures() {
    let file = SmfFile {
        format: SmfFormat::SingleTrack,
        timing: SmfTiming::Metrical(240),
        tracks: vec![vec![
            SmfEvent {
                delta: 0,
                message: SmfMessage::TimeSignature { numerator: 5, denominator_power: 9 },
            },
            SmfEvent { delta: 0, message: SmfMessage::Tempo { micros_per_beat: 0 } },
            SmfEvent { delta: 120, message: SmfMessage::NoteOn { channel: 200, key: 200, velocity: 200 } },
            SmfEvent { delta: 60, message: SmfMessage::NoteOff { channel: 200, key: 200 } },
            SmfEvent { delta: 0, message: SmfMessage::TrackName { name: b"late".to_vec() } },
        ]],
    };
    let project = project_from_smf(&file, "x", &mut IdAllocator::new()).unwrap();
    assert_eq!(project.tempo, 120);
    assert_eq!((project.time_sig_numerator, project.time_sig_denominator), (4, 4));
    let t = project.track_at(0).unwrap();
    assert_eq!(t.channel, 200);
    assert_eq!(t.name, "Track 1");
    assert_eq!(notes_of(t), vec![(127, 127, 240, 120)]);
}

#[test]
fn chords_round_trip() {
    let mut ids = IdAllocator::new();
    let mut project = Project::new("Chords");
    let id = project.create_track(&mut ids, "Keys");
    let track = project.get_track_mut(id).unwrap();
    for start in [0u32, 480, 960] {
        for pitch in [60u8, 64, 67] {
            track.create_note(&mut ids, pitch, 90, start, 240);
        }
    }
    let bytes = export_to_midi(&project).unwrap();
    let loaded = import_from_midi(&bytes, "Chords", &mut IdAllocator::new()).unwrap();
    assert_eq!(notes_of(loaded.track_at(0).unwrap()), notes_of(project.track_at(0).unwrap()));
}

#[test]
fn a_note_that_touches_the_next_of_its_pitch_does_not_come_back() {
    let mut ids = IdAllocator::new();
    let mut project = Project::new("Touch");
    let id = project.create_track(&mut ids, "T");
    let track = project.get_track_mut(id).unwrap();
    track.create_note(&mut ids, 60, 90, 0, 480);
    track.create_note(&mut ids, 60, 90, 480, 480);
    let bytes = export_to_midi(&project).unwrap();
    let loaded = import_from_midi(&bytes, "Touch", &mut IdAllocator::new()).unwrap();
    // At tick 480 the second note-on stands before the first note-off.
    assert_eq!(notes_of(loaded.track_at(0).unwrap()), vec![(60, 90, 480, 1)]);
}

#[test]
fn imported_notes_are_in_order_of_start() {
    let track: Vec<u8> = vec![
        0x00, 0x90, 60, 100, //
        0x0A, 0x90, 64, 100, //
        0x0A, 0x80, 64, 0, // the later note ends first
        0x0A, 0x80, 60, 0, //
        0x00, 0xFF, 0x2F, 0x00,
    ];
    let bytes = smf(0, 480, &[track]);
    let project = import_from_midi(&bytes, "Order", &mut IdAllocator::new()).unwrap();
    let t = project.track_at(0).unwrap();
    assert!(t.notes().windows(2).all(|w| w[0].start_tick <= w[1].start_tick));
    assert_eq!(notes_of(t), vec![(60, 100, 0, 30), (64, 100, 10, 10)]);
}
