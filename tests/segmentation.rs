use casl::preprocessor::Preprocessor;
use casl::speech::{carryover, is_blank_str, needs_refresh, next_window_start, process_metadata, MetadataResult, Token};

fn tok(text: &str, timestep: u32) -> Token {
    Token { text: text.to_string(), timestep }
}

fn meta(safe: bool, gap_end_ms: u32) -> MetadataResult {
    MetadataResult {
        safe_to_refresh: safe,
        phrase_raw: String::new(),
        phrase: String::new(),
        last_gap_start_ms: 0,
        last_gap_end_ms: gap_end_ms,
    }
}

#[test]
fn gap_resets_accumulated_text() {
    let tokens = vec![tok("h", 0), tok("i", 1), tok(" ", 2), tok("t", 40), tok("o", 41)];
    let pres: Vec<Preprocessor> = Vec::new();
    let r = process_metadata(&tokens, 1000, 500, &pres);
    assert_eq!(r.phrase_raw, "to");
    assert_eq!(r.phrase, "to");
    assert_eq!(r.last_gap_end_ms, 39 * 20);
    assert_eq!(r.last_gap_start_ms, 42 * 20);
    assert!(!r.safe_to_refresh);
}

#[test]
fn short_pauses_keep_text() {
    let tokens = vec![tok("h", 0), tok("i", 1), tok(" ", 2), tok("y", 20), tok("o", 21)];
    let pres: Vec<Preprocessor> = Vec::new();
    let r = process_metadata(&tokens, 1000, 500, &pres);
    assert_eq!(r.phrase_raw, "hi yo");
    assert_eq!(r.last_gap_end_ms, 0);
}

#[test]
fn safe_refresh_after_long_tail_silence() {
    let tokens = vec![tok("a", 100)];
    let pres: Vec<Preprocessor> = Vec::new();
    let r = process_metadata(&tokens, 3000, 500, &pres);
    assert!(r.safe_to_refresh);
    assert_eq!(r.phrase_raw, "a");
    assert_eq!(r.last_gap_end_ms, 99 * 20);
    assert_eq!(r.last_gap_start_ms, 101 * 20);
}

#[test]
fn not_safe_when_tail_silence_is_short() {
    let tokens = vec![tok("a", 100)];
    let pres: Vec<Preprocessor> = Vec::new();
    let r = process_metadata(&tokens, 2400, 500, &pres);
    assert!(!r.safe_to_refresh);
}

#[test]
fn empty_transcript() {
    let tokens: Vec<Token> = Vec::new();
    let pres: Vec<Preprocessor> = Vec::new();
    let r = process_metadata(&tokens, 600, 500, &pres);
    assert_eq!(r.phrase_raw, "");
    assert!(r.safe_to_refresh);
    assert_eq!(r.last_gap_end_ms, 0);
    let r = process_metadata(&tokens, 400, 500, &pres);
    assert!(!r.safe_to_refresh);
}

#[test]
fn blank_tokens_are_not_sound() {
    let tokens = vec![tok("a", 10), tok(" ", 90)];
    let pres: Vec<Preprocessor> = Vec::new();
    let r = process_metadata(&tokens, 2000, 500, &pres);
    // the blank token after the gap still starts a new phrase
    assert_eq!(r.phrase_raw, " ");
    assert_eq!(r.last_gap_start_ms, 11 * 20);
    assert!(r.safe_to_refresh);
    assert!(is_blank_str(" \t\u{3000}"));
    assert!(!is_blank_str(" x "));
    assert!(is_blank_str(""));
}

#[test]
fn carryover_after_safe_refresh_is_fixed_size() {
    let buffer: Vec<i16> = (0..100).collect();
    let c = carryover(&buffer, &meta(true, 2), 10);
    assert_eq!(c, (90..100).collect::<Vec<i16>>());
    assert_eq!(next_window_start(100, &meta(true, 2), 10), 90);
    let c = carryover(&buffer, &meta(true, 2), 150);
    assert_eq!(c, buffer);
}

#[test]
fn carryover_without_safe_refresh_starts_at_gap() {
    let buffer: Vec<i16> = (0..100).collect();
    // 2 ms at 16 kHz is sample 32
    let c = carryover(&buffer, &meta(false, 2), 10);
    assert_eq!(c, (32..100).collect::<Vec<i16>>());
    assert_eq!(next_window_start(100, &meta(false, 2), 10), 32);
    let c = carryover(&buffer, &meta(false, 0), 10);
    assert_eq!(c, buffer);
    let c = carryover(&buffer, &meta(false, 20), 10);
    assert!(c.is_empty());
}

#[test]
fn refresh_threshold() {
    assert!(needs_refresh(150, 50, 100));
    assert!(!needs_refresh(149, 50, 100));
    assert!(!needs_refresh(10, 50, 0));
    assert!(needs_refresh(50, 50, 0));
}
