use midi_toolbox::display::{Colors, Display};
use midi_toolbox::midi::{DecodeError, MidiMessage};

#[test]
fn channel_voice_lines() {
    let mut d = Display::new(Colors::plain(), false);
    assert_eq!(
        d.show_event(100, 0, MidiMessage::NoteOn { channel: 0, key: 64, velocity: 127 }),
        Some("100 Port 0 Ch 1 NoteOn key=64 velocity=127".to_string())
    );
    assert_eq!(
        d.show_event(7, 3, MidiMessage::NoteOff { channel: 15, key: 1, velocity: 0 }),
        Some("7 Port 3 Ch 16 NoteOff key=1 velocity=0".to_string())
    );
    assert_eq!(
        d.show_event(7, 3, MidiMessage::KeyAT { channel: 2, key: 5, pressure: 6 }),
        Some("7 Port 3 Ch 3 Aftertouch key=5 pressure=6".to_string())
    );
    assert_eq!(
        d.show_event(7, 3, MidiMessage::ControlChg { channel: 2, controller: 7, value: 99 }),
        Some("7 Port 3 Ch 3 ControlChg controller=7 value=99".to_string())
    );
    assert_eq!(
        d.show_event(7, 3, MidiMessage::ProgramChg { channel: 2, program: 12 }),
        Some("7 Port 3 Ch 3 ProgramChg program=12".to_string())
    );
    assert_eq!(
        d.show_event(7, 3, MidiMessage::ChannelAT { channel: 2, pressure: 44 }),
        Some("7 Port 3 Ch 3 ChannelAftertouch pressure=44".to_string())
    );
    assert_eq!(
        d.show_event(7, 3, MidiMessage::Pitchbend { channel: 2, pitch: -8192 }),
        Some("7 Port 3 Ch 3 Pitchbend pitch=-8192".to_string())
    );
}

#[test]
fn colored_line() {
    let mut d = Display::new(Colors::terminal(), false);
    assert_eq!(
        d.show_event(100, 0, MidiMessage::NoteOn { channel: 0, key: 64, velocity: 127 }),
        Some("100 Port 0 Ch 1 \x1b[32mNoteOn \x1b[34mkey=64 velocity=127\x1b[30m".to_string())
    );
}

#[test]
fn system_lines_need_show_time() {
    let mut quiet = Display::new(Colors::plain(), false);
    let mut timed = Display::new(Colors::plain(), true);
    let cases = [
        (MidiMessage::Start, "5 Port 1 Start"),
        (MidiMessage::Continue, "5 Port 1 Continue"),
        (MidiMessage::Stop, "5 Port 1 Stop"),
        (MidiMessage::ActiveSensing, "5 Port 1 ActiveSensing"),
        (MidiMessage::Reset, "5 Port 1 Reset"),
        (MidiMessage::SongPos { position: 300 }, "5 Port 1 SongPosition position=300"),
    ];
    for (m, line) in cases {
        assert_eq!(quiet.show_event(5, 1, m), None);
        assert_eq!(timed.show_event(5, 1, m), Some(line.to_string()));
    }
}

#[test]
fn timing_clock_gives_only_tempo_lines() {
    let mut d = Display::new(Colors::terminal(), true);
    let mut t: u64 = 1_000;
    for _ in 0..48 {
        assert_eq!(d.show_message(t, 0, &[0xF8]), Ok(None));
        t += 20833;
    }
    assert_eq!(d.show_message(t, 0, &[0xF8]), Ok(Some(format!("{} BPM 120", t))));
    t += 20833;
    assert_eq!(d.show_message(t, 0, &[0xF8]), Ok(None));
}

#[test]
fn tempo_with_tenths() {
    let mut d = Display::new(Colors::plain(), true);
    let mut t: u64 = 1_000;
    // 2_500_000 / 20747 = 120.499 BPM.
    let mut last = None;
    for _ in 0..49 {
        last = d.show_event(t, 0, MidiMessage::TimingClock);
        t += 20747;
    }
    assert_eq!(last, Some(format!("{} BPM 120.5", t - 20747)));
}

#[test]
fn timing_clock_without_show_time_is_ignored() {
    let mut d = Display::new(Colors::plain(), false);
    let mut t: u64 = 1_000;
    for _ in 0..100 {
        assert_eq!(d.show_event(t, 0, MidiMessage::TimingClock), None);
        t += 20833;
    }
}

#[test]
fn show_message_decodes() {
    let mut d = Display::new(Colors::plain(), false);
    assert_eq!(
        d.show_message(1, 2, &[0x91, 0x40, 0x7F]),
        Ok(Some("1 Port 2 Ch 2 NoteOn key=64 velocity=127".to_string()))
    );
    assert_eq!(d.show_message(1, 2, &[0xF4]), Err(DecodeError::UnknownStatus { status: 0xF4 }));
}
