use ad4m_launcher::readiness::{classify, classify_event, OutputEvent, Signal, READY_SENTINEL};

#[test]
fn sentinel_is_ready() {
    assert_eq!(classify("\u{1b}[32m AD4M init complete \u{1b}[0m"), Signal::Ready);
    assert_eq!(classify(READY_SENTINEL), Signal::Ready);
}

#[test]
fn every_single_char_change_is_noise() {
    let chars: Vec<char> = READY_SENTINEL.chars().collect();
    for i in 0..chars.len() {
        let mut changed = chars.clone();
        changed[i] = if chars[i] == 'x' { 'y' } else { 'x' };
        let line: String = changed.into_iter().collect();
        assert_eq!(classify(&line), Signal::Noise, "index {}", i);
    }
}

#[test]
fn escape_variants_are_noise() {
    assert_eq!(classify(" AD4M init complete "), Signal::Noise);
    assert_eq!(classify("AD4M init complete"), Signal::Noise);
    assert_eq!(classify("\u{1b}[31m AD4M init complete \u{1b}[0m"), Signal::Noise);
    assert_eq!(classify("\u{1b}[32m AD4M init complete "), Signal::Noise);
}

#[test]
fn sentinel_inside_longer_line_is_noise() {
    let mut line = String::from("log: ");
    line.push_str(READY_SENTINEL);
    assert_eq!(classify(&line), Signal::Noise);
    let mut line2 = String::from(READY_SENTINEL);
    line2.push('\n');
    assert_eq!(classify(&line2), Signal::Noise);
}

#[test]
fn empty_line_is_noise() {
    assert_eq!(classify(""), Signal::Noise);
}

#[test]
fn only_stdout_can_signal_ready() {
    let s = String::from(READY_SENTINEL);
    assert_eq!(classify_event(&OutputEvent::Stdout(s.clone())), Signal::Ready);
    assert_eq!(classify_event(&OutputEvent::Stderr(s.clone())), Signal::Noise);
    assert_eq!(classify_event(&OutputEvent::Error(s)), Signal::Noise);
    assert_eq!(classify_event(&OutputEvent::Terminated(Some(1))), Signal::Noise);
}
