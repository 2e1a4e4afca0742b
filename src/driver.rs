//! The decisions of the pipeline driver at the end of each recognition window.
use vstd::prelude::*;
use crate::command::{preconditions_compile, process_commands, routed_view, routes, Routed};
use crate::config::{Config, ConfigError};
use crate::preprocessor::Preprocessor;
use crate::speech::{
    carryover, process_metadata, segmented, timesteps_fit, window_start, MetadataResult, Token,
};
use crate::TARGET_SAMPLE_RATE;

verus! {

/// Samples per millisecond.
pub const SAMPLES_PER_MS: usize = 16;

/// The duration of `len` samples, in whole milliseconds.
pub open spec fn buffer_ms(len: int) -> int {
    len * 1000 / (TARGET_SAMPLE_RATE as int)
}

/// What one decode cycle decided.
pub struct Cycle {
    /// The segmentation of the window.
    pub meta: MetadataResult,
    /// The commands to dispatch: none unless the window was safe to end.
    pub routed: Vec<Routed>,
    /// The samples that the next window starts with.
    pub next_buffer: Vec<i16>,
}

/// Ends a recognition window: segments the decoder's tokens over the buffer,
/// routes the phrase when the buffer ends in silence, and keeps the samples
/// for the next window. The error names the first precondition that does not
/// compile, where routing was due.
pub fn decode_cycle(
    buffer: &Vec<i16>,
    tokens: &Vec<Token>,
    casl_config: &Config,
    preprocessors: &Vec<Preprocessor>,
) -> (r: Result<Cycle, ConfigError>)
    requires
        timesteps_fit(tokens@),
        buffer_ms(buffer.len() as int) <= u32::MAX,
    ensures
        ({
            let len = buffer.len() as int;
            let gap = casl_config.gap_detection_ms as int;
            match r {
                Ok(c) => {
                    &&& segmented(c.meta, tokens@, buffer_ms(len), gap, preprocessors@)
                    &&& c.meta.safe_to_refresh ==> routed_view(c.routed@) == routes(
                        casl_config.commands@,
                        c.meta.phrase_raw@,
                        c.meta.phrase@,
                    )
                    &&& !c.meta.safe_to_refresh ==> c.routed@.len() == 0
                    &&& c.next_buffer@ == buffer@.subrange(
                        window_start(
                            len,
                            c.meta.safe_to_refresh,
                            c.meta.last_gap_end_ms as int,
                            casl_config.carryover_buffer_size as int,
                        ),
                        len,
                    )
                },
                Err(e) => {
                    &&& e is InvalidPattern
                    &&& !preconditions_compile(casl_config.commands@)
                },
            }
        }),
        r is Err ==> !preconditions_compile(casl_config.commands@),
        preconditions_compile(casl_config.commands@) ==> r is Ok,
{
    let ghost len = buffer.len() as int;
    assert(len * 1000 / 16000 == len / 16) by (nonlinear_arith)
        requires
            len >= 0,
    ;
    let length_ms = (buffer.len() / SAMPLES_PER_MS) as u32;
    let meta = process_metadata(tokens, length_ms, casl_config.gap_detection_ms, preprocessors);
    let routed = if meta.safe_to_refresh {
        match process_commands(&meta, casl_config) {
            Ok(v) => v,
            Err(e) => {
                return Err(e);
            },
        }
    } else {
        Vec::new()
    };
    let next_buffer = carryover(buffer, &meta, casl_config.carryover_buffer_size);
    Ok(Cycle { meta, routed, next_buffer })
}

} // verus!
