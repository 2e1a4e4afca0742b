//! The segmentation engine: from the tokens of one decode cycle to a phrase,
//! the safe-refresh decision and the samples carried over to the next window.
use vstd::prelude::*;
use crate::preprocessor::{chain, preprocess, Preprocessor};
use crate::TARGET_SAMPLE_RATE;

verus! {

/// Duration of one decoder timestep, in milliseconds.
pub const TIMESTEP_TO_MS: u32 = 20;

/// The largest timestep whose following timestep still fits a `u32` count of
/// milliseconds.
pub const MAX_TIMESTEP: u32 = 214_748_363;

/// One decoded token: its text and the timestep at which it starts.
pub struct Token {
    pub text: String,
    pub timestep: u32,
}

/// The outcome of one decode cycle.
pub struct MetadataResult {
    pub safe_to_refresh: bool,
    pub phrase_raw: String,
    pub phrase: String,
    pub last_gap_start_ms: u32,
    pub last_gap_end_ms: u32,
}

/// Whether `c` has the Unicode `White_Space` property, as `char::is_whitespace`
/// decides it.
pub open spec fn is_space(c: char) -> bool {
    let n = c as u32;
    (0x9 <= n <= 0xd) || n == 0x20 || n == 0x85 || n == 0xa0 || n == 0x1680 || (0x2000 <= n
        <= 0x200a) || n == 0x2028 || n == 0x2029 || n == 0x202f || n == 0x205f || n == 0x3000
}

/// Whether all characters of `s` are whitespace (true of the empty text).
pub open spec fn is_blank(s: Seq<char>) -> bool {
    forall|i: int| 0 <= i < s.len() ==> is_space(#[trigger] s[i])
}

/// What the scan of the tokens knows after each token.
pub struct ScanState {
    /// Text accumulated since the last gap.
    pub text: Seq<char>,
    /// Timestep of the latest token that was not blank.
    pub last_sound: int,
    /// Timestep at which the latest gap ended.
    pub last_gap: int,
}

/// The state before any token.
pub open spec fn scan_init() -> ScanState {
    ScanState { text: Seq::empty(), last_sound: 0, last_gap: 0 }
}

/// Whether a token at timestep `t` comes after a gap longer than `gap_ms`.
pub open spec fn is_gap(s: ScanState, t: int, gap_ms: int) -> bool {
    (t - s.last_sound) * TIMESTEP_TO_MS > gap_ms
}

/// One token of the scan: a gap drops the text so far; a token that is not
/// blank and comes later than the last sound becomes the last sound.
pub open spec fn scan_step(s: ScanState, tok: Token, gap_ms: int) -> ScanState {
    let t = tok.timestep as int;
    let gap = is_gap(s, t, gap_ms);
    ScanState {
        text: if gap { tok.text@ } else { s.text + tok.text@ },
        last_sound: if t > s.last_sound && !is_blank(tok.text@) { t } else { s.last_sound },
        last_gap: if gap { t } else { s.last_gap },
    }
}

/// The scan of all of `toks`, in order.
pub open spec fn scan(toks: Seq<Token>, gap_ms: int) -> ScanState
    decreases toks.len(),
{
    if toks.len() == 0 {
        scan_init()
    } else {
        scan_step(scan(toks.drop_last(), gap_ms), toks.last(), gap_ms)
    }
}

/// Whether a buffer of `length_ms` ends in silence longer than `gap_ms`.
pub open spec fn ends_in_silence(s: ScanState, length_ms: int, gap_ms: int) -> bool {
    length_ms - s.last_sound * TIMESTEP_TO_MS > gap_ms
}

/// The gap boundary backed off by one timestep, in milliseconds.
pub open spec fn gap_end_ms(s: ScanState) -> int {
    (if s.last_gap != 0 { s.last_gap - 1 } else { 0 }) * TIMESTEP_TO_MS
}

/// The scan never puts the last sound before timestep 0.
pub proof fn lemma_scan_last_sound_nonneg(toks: Seq<Token>, gap_ms: int)
    ensures
        scan(toks, gap_ms).last_sound >= 0,
    decreases toks.len(),
{
    if toks.len() > 0 {
        lemma_scan_last_sound_nonneg(toks.drop_last(), gap_ms);
    }
}

/// A gap discards what came before it: when the token that starts `post`
/// comes more than `gap_ms` after the last sound of `pre` and is not blank,
/// scanning `pre` then `post` ends exactly as scanning `post` alone, so the
/// phrase holds nothing of `pre`.
pub proof fn lemma_gap_discards_prefix(pre: Seq<Token>, post: Seq<Token>, gap_ms: int)
    requires
        gap_ms >= 0,
        post.len() > 0,
        !is_blank(post[0].text@),
        is_gap(scan(pre, gap_ms), post[0].timestep as int, gap_ms),
    ensures
        scan(pre + post, gap_ms) == scan(post, gap_ms),
    decreases post.len(),
{
    if post.len() == 1 {
        lemma_scan_last_sound_nonneg(pre, gap_ms);
        assert((pre + post).drop_last() =~= pre);
        assert(post.drop_last() =~= Seq::<Token>::empty());
        assert((pre + post).last() == post[0]);
        let t = post[0].timestep as int;
        let ls = scan(pre, gap_ms).last_sound;
        assert(t * 20 >= (t - ls) * 20);
        assert(is_gap(scan_init(), t, gap_ms));
        assert(scan(post.drop_last(), gap_ms) == scan_init());
        let a = scan(pre + post, gap_ms);
        let b = scan(post, gap_ms);
        assert(a == scan_step(scan(pre, gap_ms), post[0], gap_ms));
        assert(b == scan_step(scan_init(), post[0], gap_ms));
        assert(a.text == b.text);
        assert(a.last_sound == b.last_sound);
        assert(a.last_gap == b.last_gap);
    } else {
        lemma_gap_discards_prefix(pre, post.drop_last(), gap_ms);
        assert((pre + post).drop_last() =~= pre + post.drop_last());
        assert((pre + post).last() == post.last());
        assert(post.drop_last()[0] == post[0]);
    }
}

/// Whether every token's timestep is at most [`MAX_TIMESTEP`].
pub open spec fn timesteps_fit(toks: Seq<Token>) -> bool {
    forall|i: int| 0 <= i < toks.len() ==> (#[trigger] toks[i]).timestep <= MAX_TIMESTEP
}

/// Whether `r` is the outcome of segmenting `toks` over a buffer of
/// `length_ms`: the phrase after the latest gap, raw and preprocessed, whether
/// the buffer ends in silence, and the gap boundaries.
pub open spec fn segmented(
    r: MetadataResult,
    toks: Seq<Token>,
    length_ms: int,
    gap_ms: int,
    pres: Seq<Preprocessor>,
) -> bool {
    let s = scan(toks, gap_ms);
    &&& r.phrase_raw@ == s.text
    &&& r.phrase@ == chain(pres, s.text)
    &&& r.safe_to_refresh == ends_in_silence(s, length_ms, gap_ms)
    &&& r.last_gap_start_ms == (s.last_sound + 1) * TIMESTEP_TO_MS
    &&& r.last_gap_end_ms == gap_end_ms(s)
}

/// Whether `c` is whitespace.
pub fn is_space_char(c: char) -> (r: bool)
    ensures
        r == is_space(c),
{
    let n = c as u32;
    (0x9 <= n && n <= 0xd) || n == 0x20 || n == 0x85 || n == 0xa0 || n == 0x1680 || (0x2000 <= n
        && n <= 0x200a) || n == 0x2028 || n == 0x2029 || n == 0x202f || n == 0x205f || n == 0x3000
}

/// Whether all characters of `s` are whitespace.
pub fn is_blank_str(s: &str) -> (r: bool)
    ensures
        r == is_blank(s@),
{
    let n = s.unicode_len();
    let mut i: usize = 0;
    while i < n
        invariant
            n == s@.len(),
            i <= n,
            forall|j: int| 0 <= j < i ==> is_space(#[trigger] s@[j]),
        decreases n - i,
    {
        if !is_space_char(s.get_char(i)) {
            return false;
        }
        i = i + 1;
    }
    true
}

/// Segments the tokens of one decode cycle over a buffer of `length_ms`: the
/// phrase after the latest gap, raw and preprocessed, whether the buffer ends
/// in silence, and the gap boundaries.
pub fn process_metadata(
    tokens: &Vec<Token>,
    length_ms: u32,
    gap_detection_ms: usize,
    preprocessors: &Vec<Preprocessor>,
) -> (r: MetadataResult)
    requires
        timesteps_fit(tokens@),
    ensures
        segmented(r, tokens@, length_ms as int, gap_detection_ms as int, preprocessors@),
{
    let ghost gap_ms = gap_detection_ms as int;
    let gap = gap_detection_ms as u64;
    let mut text = String::new();
    let mut last_sound: u32 = 0;
    let mut last_gap: u32 = 0;
    let mut i: usize = 0;
    while i < tokens.len()
        invariant
            i <= tokens.len(),
            timesteps_fit(tokens@),
            gap == gap_ms,
            ({
                let s = scan(tokens@.subrange(0, i as int), gap_ms);
                &&& text@ == s.text
                &&& last_sound == s.last_sound
                &&& last_gap == s.last_gap
            }),
            last_sound <= MAX_TIMESTEP,
            last_gap <= MAX_TIMESTEP,
        decreases tokens.len() - i,
    {
        let ghost before = scan(tokens@.subrange(0, i as int), gap_ms);
        assert(tokens@.subrange(0, i + 1).drop_last() =~= tokens@.subrange(0, i as int));
        let tok = &tokens[i];
        assert(tok.timestep <= MAX_TIMESTEP);
        if tok.timestep > last_sound && ((tok.timestep - last_sound) as u64) * 20 > gap {
            text = String::new();
            last_gap = tok.timestep;
        }
        assert(is_gap(before, tok.timestep as int, gap_ms) == (tok.timestep > last_sound && ((
        tok.timestep - last_sound) as int) * 20 > gap_ms));
        text.append(tok.text.as_str());
        if tok.timestep > last_sound && !is_blank_str(tok.text.as_str()) {
            last_sound = tok.timestep;
        }
        i = i + 1;
    }
    assert(tokens@.subrange(0, tokens.len() as int) =~= tokens@);
    let sound_ms: u64 = last_sound as u64 * 20;
    let ends_with_gap = (length_ms as u64) > sound_ms && (length_ms as u64) - sound_ms > gap;
    let processed = preprocess(preprocessors, text.as_str());
    if last_gap != 0 {
        last_gap = last_gap - 1;
    }
    MetadataResult {
        safe_to_refresh: ends_with_gap,
        phrase_raw: text,
        phrase: processed,
        last_gap_start_ms: (last_sound + 1) * TIMESTEP_TO_MS,
        last_gap_end_ms: last_gap * TIMESTEP_TO_MS,
    }
}

/// Whether enough new samples arrived since the last refresh to decode.
pub fn needs_refresh(buffer_len: usize, last_carryover: usize, threshold: usize) -> (r: bool)
    ensures
        r == (buffer_len - last_carryover >= threshold),
{
    buffer_len >= last_carryover && buffer_len - last_carryover >= threshold
}

/// The index of the sample at `ms` milliseconds into the buffer.
pub open spec fn sample_at_ms(ms: int) -> int {
    ms * TARGET_SAMPLE_RATE / 1000
}

/// Where the next window starts in a buffer of `len` samples: the last
/// `carryover_size` samples after a safe refresh, else the latest gap onward.
pub open spec fn window_start(len: int, safe: bool, gap_ms: int, carryover_size: int) -> int {
    if safe {
        if carryover_size <= len {
            len - carryover_size
        } else {
            0
        }
    } else if sample_at_ms(gap_ms) <= len {
        sample_at_ms(gap_ms)
    } else {
        len
    }
}

/// The index in the buffer where the carryover for the next window starts.
pub fn next_window_start(buffer_len: usize, meta: &MetadataResult, carryover_size: usize) -> (r:
    usize)
    ensures
        r == window_start(
            buffer_len as int,
            meta.safe_to_refresh,
            meta.last_gap_end_ms as int,
            carryover_size as int,
        ),
{
    if meta.safe_to_refresh {
        if carryover_size <= buffer_len {
            buffer_len - carryover_size
        } else {
            0
        }
    } else {
        let ms = meta.last_gap_end_ms as u64;
        assert(ms * 16000 <= 0xffff_ffffu64 * 16000) by (nonlinear_arith)
            requires
                ms <= 0xffff_ffffu64,
        ;
        let start = ms * (TARGET_SAMPLE_RATE as u64) / 1000;
        if start <= buffer_len as u64 {
            start as usize
        } else {
            buffer_len
        }
    }
}

/// The samples that the next window starts with.
pub fn carryover(buffer: &Vec<i16>, meta: &MetadataResult, carryover_size: usize) -> (r: Vec<i16>)
    ensures
        r@ == buffer@.subrange(
            window_start(
                buffer.len() as int,
                meta.safe_to_refresh,
                meta.last_gap_end_ms as int,
                carryover_size as int,
            ),
            buffer.len() as int,
        ),
        meta.safe_to_refresh && carryover_size <= buffer.len() ==> r.len() == carryover_size,
{
    let start = next_window_start(buffer.len(), meta, carryover_size);
    let mut out: Vec<i16> = Vec::new();
    let mut i: usize = start;
    while i < buffer.len()
        invariant
            start <= i <= buffer.len(),
            out@ == buffer@.subrange(start as int, i as int),
        decreases buffer.len() - i,
    {
        out.push(buffer[i]);
        assert(out@ =~= buffer@.subrange(start as int, i + 1));
        i = i + 1;
    }
    out
}

} // verus!
