use midi_toolbox::display::Colors;
use midi_toolbox::midi::{DecodeError, MidiMessage};
use midi_toolbox::route::{
    default_filters, log_line, passes, remap, Config, ForwardFilter, Route, RouteOutput,
};

fn route(in_channel: u8, out_port: Option<usize>, out_channel: u8) -> Route {
    let config = Config { in_port: 0, in_channel, out_port, out_channel };
    Route::new(config, true, true, Colors::plain(), false, default_filters())
}

fn outputs(r: Result<RouteOutput, DecodeError>) -> (Option<Vec<u8>>, Option<String>, Option<String>) {
    let o = r.expect("message decodes");
    (o.forward, o.display, o.log)
}

#[test]
fn forward_with_new_channel() {
    let mut r = route(0, Some(1), 2);
    let (fwd, shown, log) = outputs(r.process(10, &[0x90, 0x40, 0x7F]));
    assert_eq!(fwd, Some(vec![0x91, 0x40, 0x7F]));
    assert_eq!(shown, Some("10 Port 0 Ch 1 NoteOn key=64 velocity=127".to_string()));
    assert_eq!(log, Some("90 40 7f".to_string()));
}

#[test]
fn omni_accepts_every_channel() {
    let mut r = route(0, Some(1), 0);
    for ch in 0u8..16 {
        let (fwd, shown, _) = outputs(r.process(1, &[0xB0 | ch, 7, 100]));
        assert_eq!(fwd, Some(vec![0xB0 | ch, 7, 100]));
        assert!(shown.is_some());
    }
}

#[test]
fn exact_filter_accepts_one_channel() {
    for k in 1u8..=16 {
        let mut r = route(k, Some(1), 0);
        for ch in 0u8..16 {
            let (fwd, shown, log) = outputs(r.process(1, &[0x90 | ch, 60, 1]));
            if ch == k - 1 {
                assert_eq!(fwd, Some(vec![0x90 | ch, 60, 1]));
                assert!(shown.is_some());
                assert!(log.is_some());
            } else {
                assert_eq!(fwd, None);
                assert_eq!(shown, None);
                assert_eq!(log, None);
            }
        }
    }
}

#[test]
fn remap_keeps_data_bytes() {
    assert_eq!(remap(&[0x93, 1, 2], 0, 16), vec![0x9F, 1, 2]);
    assert_eq!(remap(&[0x93, 1, 2], 0, 0), vec![0x93, 1, 2]);
    // Same input and output channel: left as it is.
    assert_eq!(remap(&[0x93, 1, 2], 4, 4), vec![0x93, 1, 2]);
    assert_eq!(remap(&[0xC3, 9], 4, 1), vec![0xC0, 9]);
    assert_eq!(remap(&[0xF8], 0, 5), vec![0xF4]);
}

#[test]
fn low_notes_are_not_forwarded_but_shown_and_logged() {
    for in_channel in [0u8, 1] {
        let mut r = route(in_channel, Some(1), 3);
        for key in 0u8..=10 {
            let (fwd, shown, log) = outputs(r.process(1, &[0x90, key, 100]));
            assert_eq!(fwd, None);
            assert!(shown.is_some());
            assert!(log.is_some());
        }
        let (fwd, _, _) = outputs(r.process(1, &[0x90, 11, 100]));
        assert_eq!(fwd, Some(vec![0x92, 11, 100]));
        // Note-off on a low key is not filtered.
        let (fwd, _, _) = outputs(r.process(1, &[0x80, 5, 0]));
        assert_eq!(fwd, Some(vec![0x82, 5, 0]));
    }
}

#[test]
fn filters_are_checked_in_turn() {
    let on = MidiMessage::NoteOn { channel: 0, key: 20, velocity: 1 };
    let filters = vec![
        ForwardFilter::NoteOnKeyAtMost { key: 10 },
        ForwardFilter::NoteOnKeyAtMost { key: 30 },
    ];
    assert!(!passes(&filters, &on));
    assert!(passes(&default_filters(), &on));
    assert!(passes(&Vec::new(), &MidiMessage::NoteOn { channel: 0, key: 0, velocity: 1 }));
}

#[test]
fn no_forwarding_without_output() {
    let mut r = route(0, None, 2);
    let (fwd, shown, log) = outputs(r.process(1, &[0x90, 64, 1]));
    assert_eq!(fwd, None);
    assert!(shown.is_some());
    assert!(log.is_some());
}

#[test]
fn log_lines() {
    assert_eq!(log_line(&[0x90, 0x40, 0x7F]), "90 40 7f");
    assert_eq!(log_line(&[0xC1, 0x0A]), "c1 0a");
    assert_eq!(log_line(&[0xF8]), "");
}

#[test]
fn undecodable_message_is_skipped() {
    let mut r = route(0, Some(1), 0);
    assert!(matches!(
        r.process(1, &[0xF1, 1]),
        Err(DecodeError::UnknownStatus { status: 0xF1 })
    ));
    assert!(matches!(r.process(1, &[]), Err(DecodeError::InvalidLength { len: 0 })));
    // The route goes on afterwards.
    let (fwd, _, _) = outputs(r.process(2, &[0x90, 64, 1]));
    assert_eq!(fwd, Some(vec![0x90, 64, 1]));
}

#[test]
fn timing_clock_alone_shows_nothing() {
    let config = Config { in_port: 2, in_channel: 0, out_port: Some(0), out_channel: 0 };
    let mut r = Route::new(config, true, true, Colors::plain(), true, default_filters());
    let mut t: u64 = 1_000;
    for _ in 0..48 {
        let (fwd, shown, log) = outputs(r.process(t, &[0xF8]));
        assert_eq!(fwd, Some(vec![0xF8]));
        assert_eq!(shown, None);
        assert_eq!(log, Some(String::new()));
        t += 20833;
    }
    let (_, shown, _) = outputs(r.process(t, &[0xF8]));
    assert_eq!(shown, Some(format!("{} BPM 120", t)));
}
