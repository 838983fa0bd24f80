use voicelight::action::LedAction;
use voicelight::clock::TimeWindow;
use voicelight::dispatch::KeywordEntry;
use voicelight::dispatch::KeywordTable;
use voicelight::session::GateStep;
use voicelight::session::Session;

fn entry(phrase: &str, action: LedAction) -> KeywordEntry {
    KeywordEntry { phrase: phrase.as_bytes().to_vec(), action }
}

/// The keyword table of the reference deployment, in its declared order.
fn full_table() -> KeywordTable {
    KeywordTable::new(vec![
        entry("свет", LedAction::Power(true)),
        entry("тьма", LedAction::Power(false)),
        entry("белый", LedAction::Color { red: 0, green: 0, blue: 0 }),
        entry("фиолетовый", LedAction::Color { red: 255, green: 0, blue: 255 }),
        entry("пурпурный", LedAction::Color { red: 128, green: 0, blue: 128 }),
        entry("красный", LedAction::Color { red: 255, green: 0, blue: 0 }),
        entry("зелёный", LedAction::Color { red: 0, green: 255, blue: 0 }),
        entry("голубой", LedAction::Color { red: 205, green: 92, blue: 92 }),
        entry("синий", LedAction::Color { red: 0, green: 0, blue: 255 }),
    ])
}

fn text(s: &str) -> Vec<u8> {
    s.as_bytes().to_vec()
}

#[test]
fn idle_inside_window() {
    let w = TimeWindow::new(1, 18);
    for h in 1..18 {
        assert!(w.is_idle(h));
        assert!(!w.is_active(h));
    }
}

#[test]
fn active_outside_window() {
    let w = TimeWindow::new(1, 18);
    assert!(w.is_active(0));
    for h in 18..24 {
        assert!(w.is_active(h));
        assert!(!w.is_idle(h));
    }
}

#[test]
fn window_boundaries() {
    let w = TimeWindow::new(1, 18);
    assert!(w.is_idle(1));
    assert!(w.is_active(18));
}

#[test]
fn no_phrase_no_dispatch() {
    let table = full_table();
    assert_eq!(table.dispatch(&text("ничего интересного")), None);
    assert_eq!(table.dispatch(&text("hello world")), None);
}

#[test]
fn empty_transcript_no_dispatch() {
    let table = full_table();
    assert_eq!(table.dispatch(&text("")), None);
}

#[test]
fn single_phrase_dispatched() {
    let table = full_table();
    assert_eq!(
        table.dispatch(&text("включи красный пожалуйста")),
        Some(LedAction::Color { red: 255, green: 0, blue: 0 })
    );
    assert_eq!(table.dispatch(&text("тьма")), Some(LedAction::Power(false)));
}

#[test]
fn declaration_order_breaks_ties() {
    let table = KeywordTable::new(vec![
        entry("свет", LedAction::Power(true)),
        entry("белый", LedAction::Color { red: 0, green: 0, blue: 0 }),
    ]);
    // "белый" occurs earlier in the text, but "свет" is declared first.
    assert_eq!(table.dispatch(&text("включи белый свет")), Some(LedAction::Power(true)));
}

#[test]
fn phrase_as_substring_of_word() {
    let table = full_table();
    // "свет" is declared before "белый" and occurs inside "рассвет".
    assert_eq!(table.dispatch(&text("белый рассвет")), Some(LedAction::Power(true)));
}

#[test]
fn color_path_round_trip() {
    let a = LedAction::Color { red: 255, green: 0, blue: 255 };
    assert_eq!(a.actuator_path(), b"color/255/0/255".to_vec());
}

#[test]
fn power_path_round_trip() {
    assert_eq!(LedAction::Power(false).actuator_path(), b"power/false".to_vec());
    assert_eq!(LedAction::Power(true).actuator_path(), b"power/true".to_vec());
}

#[test]
fn path_digit_widths() {
    assert_eq!(
        LedAction::Color { red: 0, green: 92, blue: 205 }.actuator_path(),
        b"color/0/92/205".to_vec()
    );
    assert_eq!(
        LedAction::Color { red: 128, green: 0, blue: 128 }.actuator_path(),
        b"color/128/0/128".to_vec()
    );
}

#[test]
fn repeated_dispatch_same_path() {
    let a = LedAction::Color { red: 205, green: 92, blue: 92 };
    let first = a.actuator_path();
    let second = a.actuator_path();
    assert_eq!(first, second);
}

#[test]
fn target_prepends_base() {
    let base = b"http://localhost:70/".to_vec();
    assert_eq!(
        LedAction::Power(true).actuator_target(&base),
        b"http://localhost:70/power/true".to_vec()
    );
}

#[test]
fn gate_releases_both_handles_when_idle() {
    let w = TimeWindow::new(1, 18);
    let mut s = Session::new();
    assert_eq!(s.gate_step(&w, 20), GateStep::Listen { create_recognizer: true, create_audio: true });
    assert!(s.has_recognizer && s.has_audio);
    assert_eq!(s.gate_step(&w, 2), GateStep::Idle);
    assert!(!s.has_recognizer && !s.has_audio);
}

#[test]
fn gate_now_respects_the_window() {
    // A window spanning every hour of the day is idle whatever the wall
    // clock says; an empty window is active whatever it says.
    let all_day = TimeWindow::new(0, 24);
    let mut s = Session::new();
    assert_eq!(s.gate_step_now(&all_day), GateStep::Idle);
    assert!(!s.has_recognizer && !s.has_audio);

    let never = TimeWindow::new(0, 0);
    let mut t = Session::new();
    assert_eq!(
        t.gate_step_now(&never),
        GateStep::Listen { create_recognizer: true, create_audio: true }
    );
    assert!(t.has_recognizer && t.has_audio);
}

#[test]
fn silence_never_dispatches() {
    // System active; every chunk yields an empty partial transcript: no
    // dispatch ever occurs and the handles survive untouched.
    let w = TimeWindow::new(1, 18);
    let table = full_table();
    let mut s = Session::new();
    for _ in 0..50 {
        let step = s.gate_step(&w, 23);
        assert!(matches!(step, GateStep::Listen { .. }));
        assert_eq!(s.consume_transcript(&table, &text("")), None);
        assert!(s.has_recognizer && s.has_audio);
    }
}

#[test]
fn utterance_match_recreates_recognizer() {
    // A final transcript matches a keyword: its action comes back, the
    // recognizer alone is dropped, and the next iteration recreates it.
    let w = TimeWindow::new(1, 18);
    let table = full_table();
    let mut s = Session::new();
    s.gate_step(&w, 22);
    assert_eq!(s.consume_transcript(&table, &text("пустой шум")), None);
    let action = s.consume_transcript(&table, &text("включи голубой"));
    assert_eq!(action, Some(LedAction::Color { red: 205, green: 92, blue: 92 }));
    assert!(!s.has_recognizer);
    assert!(s.has_audio);
    assert_eq!(
        s.gate_step(&w, 22),
        GateStep::Listen { create_recognizer: true, create_audio: false }
    );
}
